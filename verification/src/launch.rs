//! Launching a game, step by step: download and install what a magnet link
//! points to, then run the game under Wine with the guest helper and count
//! its play time. Each step takes what the outside world reported and says
//! what to do next; the caller carries out the work.

use vstd::prelude::*;
use crate::installer::{
    candidates_view, is_main_exe_at, pick_main_executable, wine_path, ExeCandidate,
    ProcessCommand, ProcessCommandView,
};
use crate::orchestrator::{GameConfig, GameConfigView, Orchestrator, drive_c_of, prefix_dir_of};
use crate::text::{
    concat, contains, extension_of, file_extension, join_path, lowercase_view, owned, path_join,
    starts_with, str_contains, str_starts_with, to_lowercase,
};

verus! {

broadcast use vstd::string::group_string_axioms;

/// Where a launch stands: which report it waits for next.
#[derive(PartialEq, Eq, Structural, Clone, Copy)]
pub enum LaunchStage {
    Start,
    AwaitDownload,
    AwaitInspect,
    AwaitExtract,
    AwaitInstaller,
    AwaitScan,
    AwaitPrepare,
    AwaitSpawn,
    Monitoring,
    AwaitFinalReport,
    Finished,
}

/// One entry of a downloaded directory.
pub struct DirEntryInfo {
    pub path: String,
    pub name: String,
    pub is_file: bool,
}

/// What a download produced.
pub enum DownloadedItem {
    /// A single file, with its file name.
    File { name: String },
    /// A directory, with its entries in listing order.
    Directory { entries: Vec<DirEntryInfo> },
    /// Neither a file nor a directory.
    Other,
}

/// The guest helper's status report.
pub struct StatusReport {
    pub status: String,
    pub active_processes: u32,
    pub elapsed_seconds: u64,
}

/// What one look at the running game found.
pub enum PollOutcome {
    /// The Wine process has exited.
    Exited,
    /// It still runs; the status report, when one could be read.
    Running(Option<StatusReport>),
}

/// What the outside world reports back to the launch.
pub enum LaunchEvent {
    /// The launch begins.
    Begin,
    /// The download finished: the downloaded path, or the failure text.
    Downloaded(Result<String, String>),
    /// What the downloaded path turned out to be.
    Inspected(DownloadedItem),
    /// The archive extraction or the silent installer finished.
    Unpacked(Result<(), String>),
    /// The executables found under `drive_c`; None when `drive_c` is missing.
    Scanned(Option<Vec<ExeCandidate>>),
    /// The prefix preparation finished.
    Prepared(Result<(), String>),
    /// The Wine process was started, or could not be.
    Spawned(Result<(), String>),
    /// A look at the running game.
    Polled(PollOutcome),
    /// The elapsed seconds of the last status report, when there was one.
    FinalReport(Option<u64>),
}

/// What the caller is to do next.
pub enum LaunchAction {
    /// Download a magnet link into a directory.
    Download { magnet: String, dest_dir: String },
    /// Find out what the downloaded path is.
    Inspect { path: String },
    /// Unpack an archive into a directory.
    Extract { archive: String, dest_dir: String },
    /// Run a Windows installer silently in the prefix with the runner.
    RunInstaller { installer: String, prefix_dir: String, runner: String },
    /// Copy the download into the game directory when `copy_from` is given
    /// (emptying the game directory first), remove the download directory,
    /// then list the executables under the prefix's `drive_c`.
    CleanupAndScan { copy_from: Option<String>, game_dir: String, download_dir: String, prefix_dir: String },
    /// Prepare the prefix of the game (helper copied, old status removed).
    Prepare { game_id: String },
    /// Start this command.
    Spawn(ProcessCommand),
    /// Look at the running game, after a pause when `sleep_first`.
    Poll { status_file: String, sleep_first: bool },
    /// Read the last status report (then remove the status file).
    ReadFinalReport { status_file: String },
    /// The launch is over with this result.
    Finish(Result<(), String>),
}

/// One step's outcome: whether to store the game's configuration in the
/// library first, and what to do.
pub struct LaunchStep {
    pub save_config: bool,
    pub action: LaunchAction,
}

/// An action as values.
pub enum LaunchActionView {
    Download { magnet: Seq<char>, dest_dir: Seq<char> },
    Inspect { path: Seq<char> },
    Extract { archive: Seq<char>, dest_dir: Seq<char> },
    RunInstaller { installer: Seq<char>, prefix_dir: Seq<char>, runner: Seq<char> },
    CleanupAndScan {
        copy_from: Option<Seq<char>>,
        game_dir: Seq<char>,
        download_dir: Seq<char>,
        prefix_dir: Seq<char>,
    },
    Prepare { game_id: Seq<char> },
    Spawn(ProcessCommandView),
    Poll { status_file: Seq<char>, sleep_first: bool },
    ReadFinalReport { status_file: Seq<char> },
    Finish(Result<(), Seq<char>>),
}

impl View for LaunchAction {
    type V = LaunchActionView;

    open spec fn view(&self) -> LaunchActionView {
        match self {
            LaunchAction::Download { magnet, dest_dir } => LaunchActionView::Download {
                magnet: magnet@,
                dest_dir: dest_dir@,
            },
            LaunchAction::Inspect { path } => LaunchActionView::Inspect { path: path@ },
            LaunchAction::Extract { archive, dest_dir } => LaunchActionView::Extract {
                archive: archive@,
                dest_dir: dest_dir@,
            },
            LaunchAction::RunInstaller { installer, prefix_dir, runner } =>
                LaunchActionView::RunInstaller {
                installer: installer@,
                prefix_dir: prefix_dir@,
                runner: runner@,
            },
            LaunchAction::CleanupAndScan { copy_from, game_dir, download_dir, prefix_dir } =>
                LaunchActionView::CleanupAndScan {
                copy_from: copy_from.deep_view(),
                game_dir: game_dir@,
                download_dir: download_dir@,
                prefix_dir: prefix_dir@,
            },
            LaunchAction::Prepare { game_id } => LaunchActionView::Prepare { game_id: game_id@ },
            LaunchAction::Spawn(c) => LaunchActionView::Spawn(c@),
            LaunchAction::Poll { status_file, sleep_first } => LaunchActionView::Poll {
                status_file: status_file@,
                sleep_first: *sleep_first,
            },
            LaunchAction::ReadFinalReport { status_file } => LaunchActionView::ReadFinalReport {
                status_file: status_file@,
            },
            LaunchAction::Finish(r) => LaunchActionView::Finish(
                match r {
                    Ok(()) => Ok(()),
                    Err(e) => Err(e@),
                },
            ),
        }
    }
}

/// A step as values.
pub struct LaunchStepView {
    pub save_config: bool,
    pub action: LaunchActionView,
}

impl View for LaunchStep {
    type V = LaunchStepView;

    open spec fn view(&self) -> LaunchStepView {
        LaunchStepView { save_config: self.save_config, action: self.action@ }
    }
}

/// The launch of one game.
pub struct LaunchSession {
    /// The game's configuration as the launch changes it.
    pub config: GameConfig,
    stage: LaunchStage,
    prefix_dir: String,
    download_dir: String,
    game_dir: String,
    status_file: String,
    first_runner: Option<String>,
    downloaded: String,
    last_elapsed: u64,
    failure: Option<String>,
}

/// A launch as values.
pub struct LaunchView {
    pub config: GameConfigView,
    pub stage: LaunchStage,
    pub prefix_dir: Seq<char>,
    pub download_dir: Seq<char>,
    pub game_dir: Seq<char>,
    pub status_file: Seq<char>,
    pub first_runner: Option<Seq<char>>,
    pub downloaded: Seq<char>,
    pub last_elapsed: u64,
    pub failure: Option<Seq<char>>,
}

impl View for LaunchSession {
    type V = LaunchView;

    closed spec fn view(&self) -> LaunchView {
        LaunchView {
            config: self.config@,
            stage: self.stage,
            prefix_dir: self.prefix_dir@,
            download_dir: self.download_dir@,
            game_dir: self.game_dir@,
            status_file: self.status_file@,
            first_runner: self.first_runner.deep_view(),
            downloaded: self.downloaded@,
            last_elapsed: self.last_elapsed,
            failure: self.failure.deep_view(),
        }
    }
}

// ---------------------------------------------------------------------------
// The transition relation.

/// `a - b`, or 0 when `b` is larger (`u64::saturating_sub`).
pub open spec fn sat_sub(a: u64, b: u64) -> u64 {
    if a >= b {
        (a - b) as u64
    } else {
        0
    }
}

/// An extension of an archive that can be unpacked.
pub open spec fn is_archive_ext(x: Option<Seq<char>>) -> bool {
    x == Some("zip"@) || x == Some("gz"@) || x == Some("tgz"@) || x == Some("xz"@)
}

/// A file name that, lower-cased, mentions `setup` or `install`: a
/// Windows installer.
pub open spec fn is_setup_name(name: Seq<char>) -> bool {
    contains(lowercase_view(name), "setup"@) || contains(lowercase_view(name), "install"@)
}

/// A file whose name is that of an installer.
pub open spec fn is_setup_entry(e: DirEntryInfo) -> bool {
    e.is_file && is_setup_name(e.name@)
}

/// A file whose extension is that of an archive.
pub open spec fn is_archive_entry(e: DirEntryInfo) -> bool {
    e.is_file && is_archive_ext(extension_of(e.name@))
}

/// The first setup entry at or after `i`.
pub open spec fn first_setup_from(es: Seq<DirEntryInfo>, i: int) -> Option<int>
    decreases es.len() - i,
{
    if i < 0 || i >= es.len() {
        None
    } else if is_setup_entry(es[i]) {
        Some(i)
    } else {
        first_setup_from(es, i + 1)
    }
}

/// The last archive entry.
pub open spec fn last_archive(es: Seq<DirEntryInfo>) -> Option<int>
    decreases es.len(),
{
    if es.len() == 0 {
        None
    } else if is_archive_entry(es.last()) {
        Some(es.len() - 1)
    } else {
        last_archive(es.drop_last())
    }
}

/// The Wine path of the main executable among scanned candidates.
pub open spec fn main_exe_of(cs: Seq<ExeCandidate>) -> Option<Seq<char>> {
    if exists|i: int| is_main_exe_at(candidates_view(cs), i) {
        Some(wine_path(cs[choose|i: int| is_main_exe_at(candidates_view(cs), i)].relative_path@))
    } else {
        None
    }
}

/// A game path that is still to be downloaded: a magnet link or a direct
/// HTTP(S) download link.
pub open spec fn is_download_link(p: Seq<char>) -> bool {
    starts_with(p, "magnet:"@) || starts_with(p, "http://"@) || starts_with(p, "https://"@)
}

/// Whether a game path is still to be downloaded (a magnet link or a
/// direct HTTP(S) download link).
pub fn download_link(p: &str) -> (b: bool)
    ensures
        b == is_download_link(p@),
{
    str_starts_with(p, "magnet:") || str_starts_with(p, "http://") || str_starts_with(p, "https://")
}

/// The configuration with another status.
pub open spec fn with_status(c: GameConfigView, status: Seq<char>) -> GameConfigView {
    GameConfigView { status, ..c }
}

/// The configuration as a download starts.
pub open spec fn downloading(c: GameConfigView) -> GameConfigView {
    GameConfigView {
        status: "downloading"@,
        download_progress_bits: 0,
        download_speed: "0.0 B/s"@,
        download_eta: "Unknown"@,
        ..c
    }
}

/// The environment that Wine is started with: the prefix and the sync
/// switches, then the game's own variables, then the DXVK override when
/// DXVK is on.
pub open spec fn launch_env(c: GameConfigView, prefix: Seq<char>) -> Seq<(Seq<char>, Seq<char>)> {
    seq![("WINEPREFIX"@, prefix), ("WINEESYNC"@, "1"@), ("WINEFSYNC"@, "1"@)] + c.env_vars + if c.dxvk_enabled {
        seq![("WINEDLLOVERRIDES"@, "d3d11,dxgi=n,b"@)]
    } else {
        Seq::empty()
    }
}

/// The command that starts the game: the runner runs the guest helper,
/// which runs the game's executable with its arguments.
pub open spec fn launch_command(c: GameConfigView, prefix: Seq<char>, runner: Seq<char>) -> ProcessCommandView {
    ProcessCommandView {
        program: runner,
        env: launch_env(c, prefix),
        args: seq!["C:\\grapevine-helper.exe"@, c.exe_path] + c.launch_args,
    }
}

/// The step result from its parts.
pub open spec fn out(s: LaunchView, save: bool, a: LaunchActionView) -> (LaunchView, LaunchStepView) {
    (s, LaunchStepView { save_config: save, action: a })
}

/// The launch ends with a failure.
pub open spec fn fail(s: LaunchView, save: bool, msg: Seq<char>) -> (LaunchView, LaunchStepView) {
    out(
        LaunchView { stage: LaunchStage::Finished, failure: Some(msg), ..s },
        save,
        LaunchActionView::Finish(Err(msg)),
    )
}

/// The launch ends with a failure after marking the game installed again.
pub open spec fn fail_installed(s: LaunchView, msg: Seq<char>) -> (LaunchView, LaunchStepView) {
    fail(LaunchView { config: with_status(s.config, "installed"@), ..s }, true, msg)
}

/// Copy what was downloaded as the game, then scan.
pub open spec fn fallback_copy(s: LaunchView) -> (LaunchView, LaunchStepView) {
    out(
        LaunchView { stage: LaunchStage::AwaitScan, ..s },
        false,
        LaunchActionView::CleanupAndScan {
            copy_from: Some(s.downloaded),
            game_dir: s.game_dir,
            download_dir: s.download_dir,
            prefix_dir: s.prefix_dir,
        },
    )
}

/// Unpack an archive into the game directory.
pub open spec fn extract(s: LaunchView, archive: Seq<char>) -> (LaunchView, LaunchStepView) {
    out(
        LaunchView { stage: LaunchStage::AwaitExtract, ..s },
        false,
        LaunchActionView::Extract { archive, dest_dir: s.game_dir },
    )
}

/// Run an installer silently in the prefix with the first runner found;
/// without a runner the launch fails.
pub open spec fn run_installer(s: LaunchView, installer: Seq<char>) -> (LaunchView, LaunchStepView) {
    match s.first_runner {
        None => fail(s, false, "No Wine runner available for installation"@),
        Some(r) => out(
            LaunchView { stage: LaunchStage::AwaitInstaller, ..s },
            false,
            LaunchActionView::RunInstaller { installer, prefix_dir: s.prefix_dir, runner: r },
        ),
    }
}

/// Next step after the downloaded directory was listed.
pub open spec fn after_listing(s: LaunchView, es: Seq<DirEntryInfo>) -> (LaunchView, LaunchStepView) {
    match first_setup_from(es, 0) {
        Some(i) => run_installer(s, es[i].path@),
        None => match last_archive(es) {
            Some(j) => extract(s, es[j].path@),
            None => fallback_copy(s),
        },
    }
}

/// Next step once the prefix is prepared: start the game with the chosen
/// runner (the game's own, else the first one found).
pub open spec fn after_prepare(s: LaunchView) -> (LaunchView, LaunchStepView) {
    let runner = match s.config.runner_path {
        Some(r) => Some(r),
        None => s.first_runner,
    };
    match runner {
        None => fail(s, false, "No Wine/Proton runner selected or available on system"@),
        Some(r) => out(
            LaunchView { stage: LaunchStage::AwaitSpawn, ..s },
            false,
            LaunchActionView::Spawn(launch_command(s.config, s.prefix_dir, r)),
        ),
    }
}

/// The launch with a status report's elapsed time counted as play time.
pub open spec fn count_play(s: LaunchView, elapsed: u64) -> LaunchView {
    LaunchView {
        config: GameConfigView {
            play_time_seconds: (s.config.play_time_seconds + sat_sub(elapsed, s.last_elapsed)) as u64,
            ..s.config
        },
        last_elapsed: elapsed,
        ..s
    }
}

/// The event is the one the launch waits for.
pub open spec fn expects(stage: LaunchStage, e: LaunchEvent) -> bool {
    match e {
        LaunchEvent::Begin => stage == LaunchStage::Start,
        LaunchEvent::Downloaded(_) => stage == LaunchStage::AwaitDownload,
        LaunchEvent::Inspected(_) => stage == LaunchStage::AwaitInspect,
        LaunchEvent::Unpacked(_) => stage == LaunchStage::AwaitExtract || stage
            == LaunchStage::AwaitInstaller,
        LaunchEvent::Scanned(_) => stage == LaunchStage::AwaitScan,
        LaunchEvent::Prepared(_) => stage == LaunchStage::AwaitPrepare,
        LaunchEvent::Spawned(_) => stage == LaunchStage::AwaitSpawn,
        LaunchEvent::Polled(_) => stage == LaunchStage::Monitoring,
        LaunchEvent::FinalReport(_) => stage == LaunchStage::AwaitFinalReport,
    }
}

/// Counting the event's play time stays within `u64`.
pub open spec fn play_time_fits(s: LaunchView, e: LaunchEvent) -> bool {
    match e {
        LaunchEvent::Polled(PollOutcome::Running(Some(r))) => s.config.play_time_seconds + sat_sub(
            r.elapsed_seconds,
            s.last_elapsed,
        ) <= u64::MAX,
        LaunchEvent::FinalReport(Some(el)) => s.config.play_time_seconds + sat_sub(
            el,
            s.last_elapsed,
        ) <= u64::MAX,
        _ => true,
    }
}

/// What a launch does on an event it waits for; `now` is the local time
/// recorded as the game's last play when the launch completes.
pub open spec fn launch_next(s: LaunchView, e: LaunchEvent, now: Seq<char>) -> (LaunchView, LaunchStepView) {
    match e {
        LaunchEvent::Begin => if is_download_link(s.config.exe_path) {
            out(
                LaunchView {
                    config: downloading(s.config),
                    stage: LaunchStage::AwaitDownload,
                    ..s
                },
                true,
                LaunchActionView::Download { magnet: s.config.exe_path, dest_dir: s.download_dir },
            )
        } else {
            out(
                LaunchView { stage: LaunchStage::AwaitPrepare, ..s },
                false,
                LaunchActionView::Prepare { game_id: s.config.id },
            )
        },
        LaunchEvent::Downloaded(Err(msg)) => fail_installed(s, "Download failed: "@ + msg@),
        LaunchEvent::Downloaded(Ok(path)) => out(
            LaunchView {
                config: with_status(s.config, "installing"@),
                stage: LaunchStage::AwaitInspect,
                downloaded: path@,
                ..s
            },
            true,
            LaunchActionView::Inspect { path: path@ },
        ),
        LaunchEvent::Inspected(DownloadedItem::File { name }) => if is_archive_ext(
            extension_of(name@),
        ) {
            extract(s, s.downloaded)
        } else if is_setup_name(name@) {
            run_installer(s, s.downloaded)
        } else {
            fallback_copy(s)
        },
        LaunchEvent::Inspected(DownloadedItem::Directory { entries }) => after_listing(s, entries@),
        LaunchEvent::Inspected(DownloadedItem::Other) => fallback_copy(s),
        LaunchEvent::Unpacked(Err(msg)) => if s.stage == LaunchStage::AwaitExtract {
            fail_installed(s, "Archive extraction failed: "@ + msg@)
        } else {
            fail_installed(s, "Silent setup installer failed: "@ + msg@)
        },
        LaunchEvent::Unpacked(Ok(())) => out(
            LaunchView { stage: LaunchStage::AwaitScan, ..s },
            false,
            LaunchActionView::CleanupAndScan {
                copy_from: None,
                game_dir: s.game_dir,
                download_dir: s.download_dir,
                prefix_dir: s.prefix_dir,
            },
        ),
        LaunchEvent::Scanned(found) => {
            let exe = match found {
                None => None,
                Some(cs) => main_exe_of(cs@),
            };
            match exe {
                None => fail_installed(s, "Failed to detect executable inside Wine prefix"@),
                Some(p) => out(
                    LaunchView {
                        config: GameConfigView { exe_path: p, status: "installed"@, ..s.config },
                        stage: LaunchStage::AwaitPrepare,
                        ..s
                    },
                    true,
                    LaunchActionView::Prepare { game_id: s.config.id },
                ),
            }
        },
        LaunchEvent::Prepared(Err(msg)) => fail(s, false, msg@),
        LaunchEvent::Prepared(Ok(())) => after_prepare(s),
        LaunchEvent::Spawned(Err(msg)) => fail(s, false, "Failed to spawn Wine process: "@ + msg@),
        LaunchEvent::Spawned(Ok(())) => out(
            LaunchView { stage: LaunchStage::Monitoring, ..s },
            false,
            LaunchActionView::Poll { status_file: s.status_file, sleep_first: false },
        ),
        LaunchEvent::Polled(PollOutcome::Exited) => out(
            LaunchView { stage: LaunchStage::AwaitFinalReport, ..s },
            false,
            LaunchActionView::ReadFinalReport { status_file: s.status_file },
        ),
        LaunchEvent::Polled(PollOutcome::Running(None)) => out(
            s,
            false,
            LaunchActionView::Poll { status_file: s.status_file, sleep_first: true },
        ),
        LaunchEvent::Polled(PollOutcome::Running(Some(r))) => {
            let t = count_play(s, r.elapsed_seconds);
            if r.status@ == "finished"@ {
                out(
                    LaunchView { stage: LaunchStage::AwaitFinalReport, ..t },
                    false,
                    LaunchActionView::ReadFinalReport { status_file: s.status_file },
                )
            } else {
                out(t, false, LaunchActionView::Poll { status_file: s.status_file, sleep_first: true })
            }
        },
        LaunchEvent::FinalReport(report) => {
            let t = match report {
                Some(el) => count_play(s, el),
                None => s,
            };
            out(
                LaunchView {
                    config: GameConfigView { last_played: Some(now), ..t.config },
                    stage: LaunchStage::Finished,
                    failure: None,
                    ..t
                },
                false,
                LaunchActionView::Finish(Ok(())),
            )
        },
    }
}

// ---------------------------------------------------------------------------
// Carrying out the steps.

/// A launch as it begins, for a game of an orchestrator.
pub open spec fn launch_start(base: Seq<char>, first_runner: Option<Seq<char>>, c: GameConfigView) -> LaunchView {
    LaunchView {
        config: c,
        stage: LaunchStage::Start,
        prefix_dir: prefix_dir_of(base, c.id),
        download_dir: path_join(drive_c_of(base, c.id), "download"@),
        game_dir: path_join(drive_c_of(base, c.id), "game"@),
        status_file: path_join(drive_c_of(base, c.id), "grapevine-status.json"@),
        first_runner,
        downloaded: Seq::empty(),
        last_elapsed: 0,
        failure: None,
    }
}

/// The first runner of a list, as a path.
pub open spec fn first_runner_of(o: Orchestrator) -> Option<Seq<char>> {
    if o.runners@.len() > 0 {
        Some(o.runners@[0].path@)
    } else {
        None
    }
}

fn main_exe_exec(cs: &Vec<ExeCandidate>) -> (r: Option<String>)
    ensures
        match r {
            Some(p) => main_exe_of(cs@) == Some(p@),
            None => main_exe_of(cs@) is None,
        },
{
    let r = pick_main_executable(cs);
    proof {
        let v = candidates_view(cs@);
        match &r {
            Some(p) => {
                let i = choose|i: int| is_main_exe_at(v, i) && p@ == wine_path(cs@[i].relative_path@);
                let k = choose|k: int| is_main_exe_at(v, k);
                crate::installer::law_main_exe_unique(v, i, k);
            },
            None => {
                assert forall|i: int| !is_main_exe_at(v, i) by {
                    if is_main_exe_at(v, i) {
                        assert(crate::installer::may_be_game(cs@[i]@));
                    }
                }
            },
        }
    }
    r
}

fn clone_pair(p: &(String, String)) -> (r: (String, String))
    ensures
        r.deep_view() == p.deep_view(),
{
    (p.0.clone(), p.1.clone())
}

fn build_launch_command(c: &GameConfig, prefix: &str, runner: String) -> (cmd: ProcessCommand)
    ensures
        cmd@ == launch_command(c@, prefix@, runner@),
{
    let mut env: Vec<(String, String)> = Vec::new();
    env.push((owned("WINEPREFIX"), owned(prefix)));
    env.push((owned("WINEESYNC"), owned("1")));
    env.push((owned("WINEFSYNC"), owned("1")));
    let ghost head = env.deep_view();
    assert(head =~= seq![("WINEPREFIX"@, prefix@), ("WINEESYNC"@, "1"@), ("WINEFSYNC"@, "1"@)]);
    let mut i: usize = 0;
    while i < c.env_vars.len()
        invariant
            i <= c.env_vars@.len(),
            env.deep_view() == head + c.env_vars.deep_view().take(i as int),
        decreases c.env_vars.len() - i,
    {
        let ghost before = env@;
        let ghost bdv = env.deep_view();
        let pair = clone_pair(&c.env_vars[i]);
        env.push(pair);
        assert(env@ == before.push(pair));
        assert(env.deep_view() =~= bdv.push(pair.deep_view())) by {
            assert forall|j: int| 0 <= j < env.deep_view().len() implies env.deep_view()[j]
                == bdv.push(pair.deep_view())[j] by {
                if j < before.len() {
                    assert(env@[j] == before[j]);
                }
            }
        }
        assert(c.env_vars.deep_view()[i as int] == pair.deep_view());
        i = i + 1;
        assert(env.deep_view() =~= head + c.env_vars.deep_view().take(i as int));
    }
    assert(c.env_vars.deep_view().take(c.env_vars@.len() as int) =~= c.env_vars.deep_view());
    let ghost mid = env.deep_view();
    if c.dxvk_enabled {
        env.push((owned("WINEDLLOVERRIDES"), owned("d3d11,dxgi=n,b")));
        assert(env.deep_view() =~= mid + seq![("WINEDLLOVERRIDES"@, "d3d11,dxgi=n,b"@)]);
    } else {
        assert(env.deep_view() =~= mid + Seq::<(Seq<char>, Seq<char>)>::empty());
    }
    let mut args: Vec<String> = Vec::new();
    args.push(owned("C:\\grapevine-helper.exe"));
    args.push(c.exe_path.clone());
    let ghost ahead = args.deep_view();
    assert(ahead =~= seq!["C:\\grapevine-helper.exe"@, c.exe_path@]);
    let mut k: usize = 0;
    while k < c.launch_args.len()
        invariant
            k <= c.launch_args@.len(),
            args.deep_view() == ahead + c.launch_args.deep_view().take(k as int),
        decreases c.launch_args.len() - k,
    {
        let ghost before = args@;
        let ghost bdv = args.deep_view();
        let a = c.launch_args[k].clone();
        args.push(a);
        assert(args@ == before.push(a));
        assert(args.deep_view() =~= bdv.push(a@)) by {
            assert forall|j: int| 0 <= j < args.deep_view().len() implies args.deep_view()[j]
                == bdv.push(a@)[j] by {
                if j < before.len() {
                    assert(args@[j] == before[j]);
                }
            }
        }
        assert(c.launch_args.deep_view()[k as int] == a@);
        k = k + 1;
        assert(args.deep_view() =~= ahead + c.launch_args.deep_view().take(k as int));
    }
    assert(c.launch_args.deep_view().take(c.launch_args@.len() as int) =~= c.launch_args.deep_view());
    ProcessCommand { program: runner, env, args }
}

/// Whether an extension is that of an archive that can be unpacked.
pub fn is_archive_extension(ext: &Option<String>) -> (b: bool)
    ensures
        b == is_archive_ext(ext.deep_view()),
{
    match ext {
        None => false,
        Some(e) => *e == owned("zip") || *e == owned("gz") || *e == owned("tgz") || *e == owned("xz"),
    }
}

/// Whether a file name is that of a Windows installer (it mentions `setup`
/// or `install`, in any case).
pub fn is_setup_file_name(name: &str) -> (b: bool)
    ensures
        b == is_setup_name(name@),
{
    let lower = to_lowercase(name);
    str_contains(lower.as_str(), "setup") || str_contains(lower.as_str(), "install")
}

fn is_setup_exec(e: &DirEntryInfo) -> (b: bool)
    ensures
        b == is_setup_entry(*e),
{
    if !e.is_file {
        return false;
    }
    is_setup_file_name(e.name.as_str())
}

fn is_archive_entry_exec(e: &DirEntryInfo) -> (b: bool)
    ensures
        b == is_archive_entry(*e),
{
    if !e.is_file {
        return false;
    }
    let ext = file_extension(e.name.as_str());
    is_archive_extension(&ext)
}

/// The setup program and the archive of a downloaded directory, as the
/// launch chooses them.
fn scan_listing(es: &Vec<DirEntryInfo>) -> (r: (Option<usize>, Option<usize>))
    ensures
        match r.0 {
            Some(i) => first_setup_from(es@, 0) == Some(i as int) && i < es@.len(),
            None => first_setup_from(es@, 0) is None && match r.1 {
                Some(j) => last_archive(es@) == Some(j as int) && j < es@.len(),
                None => last_archive(es@) is None,
            },
        },
{
    let mut archive: Option<usize> = None;
    let mut i: usize = 0;
    while i < es.len()
        invariant
            i <= es@.len(),
            first_setup_from(es@, 0) == first_setup_from(es@, i as int),
            match archive {
                Some(j) => last_archive(es@.take(i as int)) == Some(j as int) && j < i,
                None => last_archive(es@.take(i as int)) is None,
            },
        decreases es.len() - i,
    {
        assert(es@.take(i + 1).drop_last() =~= es@.take(i as int));
        assert(es@.take(i + 1).last() == es@[i as int]);
        if is_setup_exec(&es[i]) {
            return (Some(i), archive);
        }
        if is_archive_entry_exec(&es[i]) {
            archive = Some(i);
        }
        i = i + 1;
    }
    assert(es@.take(es@.len() as int) =~= es@);
    (None, archive)
}

impl LaunchSession {
    /// The launch of a game by an orchestrator: its prefix, download and
    /// game directories and status file, and the first runner found.
    pub fn new(orchestrator: &Orchestrator, config: GameConfig) -> (s: LaunchSession)
        ensures
            s@ == launch_start(orchestrator.base_dir@, first_runner_of(*orchestrator), config@),
    {
        let prefix_dir = orchestrator.get_prefix_dir(config.id.as_str());
        let drive_c = join_path(prefix_dir.as_str(), "drive_c");
        let download_dir = join_path(drive_c.as_str(), "download");
        let game_dir = join_path(drive_c.as_str(), "game");
        let status_file = orchestrator.get_status_file_path(config.id.as_str());
        let first_runner = orchestrator.first_runner_path();
        LaunchSession {
            config,
            stage: LaunchStage::Start,
            prefix_dir,
            download_dir,
            game_dir,
            status_file,
            first_runner,
            downloaded: String::new(),
            last_elapsed: 0,
            failure: None,
        }
    }

    /// Where the launch stands.
    pub fn stage(&self) -> (st: LaunchStage)
        ensures
            st == self@.stage,
    {
        self.stage
    }

    /// The game's configuration as the launch has changed it so far.
    pub fn config(&self) -> (c: &GameConfig)
        ensures
            c@ == self@.config,
    {
        &self.config
    }

    /// Why the launch failed, once it has.
    pub fn failure(&self) -> (r: Option<String>)
        ensures
            r.deep_view() == self@.failure,
    {
        crate::orchestrator::clone_opt_string(&self.failure)
    }

    /// Whether the launch waits for this event, and counting the event's
    /// play time stays within `u64`.
    pub fn accepts(&self, e: &LaunchEvent) -> (b: bool)
        ensures
            b == (expects(self@.stage, *e) && play_time_fits(self@, *e)),
    {
        let st = self.stage;
        let expected = match e {
            LaunchEvent::Begin => st == LaunchStage::Start,
            LaunchEvent::Downloaded(_) => st == LaunchStage::AwaitDownload,
            LaunchEvent::Inspected(_) => st == LaunchStage::AwaitInspect,
            LaunchEvent::Unpacked(_) => st == LaunchStage::AwaitExtract || st == LaunchStage::AwaitInstaller,
            LaunchEvent::Scanned(_) => st == LaunchStage::AwaitScan,
            LaunchEvent::Prepared(_) => st == LaunchStage::AwaitPrepare,
            LaunchEvent::Spawned(_) => st == LaunchStage::AwaitSpawn,
            LaunchEvent::Polled(_) => st == LaunchStage::Monitoring,
            LaunchEvent::FinalReport(_) => st == LaunchStage::AwaitFinalReport,
        };
        let fits = match e {
            LaunchEvent::Polled(PollOutcome::Running(Some(r))) => self.play_fits(r.elapsed_seconds),
            LaunchEvent::FinalReport(Some(el)) => self.play_fits(*el),
            _ => true,
        };
        expected && fits
    }

    fn play_fits(&self, elapsed: u64) -> (b: bool)
        ensures
            b == (self@.config.play_time_seconds + sat_sub(elapsed, self@.last_elapsed) <= u64::MAX),
    {
        let d: u64 = if elapsed >= self.last_elapsed { elapsed - self.last_elapsed } else { 0 };
        d <= u64::MAX - self.config.play_time_seconds
    }

    fn count_play_exec(&mut self, elapsed: u64)
        requires
            old(self)@.config.play_time_seconds + sat_sub(elapsed, old(self)@.last_elapsed) <= u64::MAX,
        ensures
            final(self)@ == count_play(old(self)@, elapsed),
    {
        let d: u64 = if elapsed >= self.last_elapsed { elapsed - self.last_elapsed } else { 0 };
        self.config.play_time_seconds = self.config.play_time_seconds + d;
        self.last_elapsed = elapsed;
    }

    fn fail_exec(&mut self, save: bool, msg: String) -> (step: LaunchStep)
        ensures
            (final(self)@, step@) == fail(old(self)@, save, msg@),
    {
        self.stage = LaunchStage::Finished;
        self.failure = Some(msg.clone());
        LaunchStep { save_config: save, action: LaunchAction::Finish(Err(msg)) }
    }

    fn fail_installed_exec(&mut self, msg: String) -> (step: LaunchStep)
        ensures
            (final(self)@, step@) == fail_installed(old(self)@, msg@),
    {
        self.config.status = owned("installed");
        self.fail_exec(true, msg)
    }

    fn fallback_exec(&mut self) -> (step: LaunchStep)
        ensures
            (final(self)@, step@) == fallback_copy(old(self)@),
    {
        self.stage = LaunchStage::AwaitScan;
        LaunchStep {
            save_config: false,
            action: LaunchAction::CleanupAndScan {
                copy_from: Some(self.downloaded.clone()),
                game_dir: self.game_dir.clone(),
                download_dir: self.download_dir.clone(),
                prefix_dir: self.prefix_dir.clone(),
            },
        }
    }

    fn extract_exec(&mut self, archive: String) -> (step: LaunchStep)
        ensures
            (final(self)@, step@) == extract(old(self)@, archive@),
    {
        self.stage = LaunchStage::AwaitExtract;
        LaunchStep {
            save_config: false,
            action: LaunchAction::Extract { archive, dest_dir: self.game_dir.clone() },
        }
    }

    fn installer_exec(&mut self, installer: String) -> (step: LaunchStep)
        ensures
            (final(self)@, step@) == run_installer(old(self)@, installer@),
    {
        match &self.first_runner {
            None => self.fail_exec(false, owned("No Wine runner available for installation")),
            Some(r) => {
                let runner = r.clone();
                self.stage = LaunchStage::AwaitInstaller;
                LaunchStep {
                    save_config: false,
                    action: LaunchAction::RunInstaller {
                        installer,
                        prefix_dir: self.prefix_dir.clone(),
                        runner,
                    },
                }
            },
        }
    }

    fn after_listing_exec(&mut self, entries: Vec<DirEntryInfo>) -> (step: LaunchStep)
        ensures
            (final(self)@, step@) == after_listing(old(self)@, entries@),
    {
        let (setup, archive) = scan_listing(&entries);
        match setup {
            Some(i) => self.installer_exec(entries[i].path.clone()),
            None => match archive {
                Some(j) => self.extract_exec(entries[j].path.clone()),
                None => self.fallback_exec(),
            },
        }
    }

    fn after_prepare_exec(&mut self) -> (step: LaunchStep)
        ensures
            (final(self)@, step@) == after_prepare(old(self)@),
    {
        let runner = match &self.config.runner_path {
            Some(r) => Some(r.clone()),
            None => match &self.first_runner {
                Some(r) => Some(r.clone()),
                None => None,
            },
        };
        match runner {
            None => self.fail_exec(false, owned("No Wine/Proton runner selected or available on system")),
            Some(r) => {
                let cmd = build_launch_command(&self.config, self.prefix_dir.as_str(), r);
                self.stage = LaunchStage::AwaitSpawn;
                LaunchStep { save_config: false, action: LaunchAction::Spawn(cmd) }
            },
        }
    }

    /// Takes the event the launch waits for, with `now` the local time to
    /// record as the last play should the launch complete, and says what to
    /// do next.
    pub fn advance(&mut self, event: LaunchEvent, now: String) -> (step: LaunchStep)
        requires
            expects(old(self)@.stage, event),
            play_time_fits(old(self)@, event),
        ensures
            (final(self)@, step@) == launch_next(old(self)@, event, now@),
    {
        match event {
            LaunchEvent::Begin => {
                if download_link(self.config.exe_path.as_str()) {
                    self.config.status = owned("downloading");
                    self.config.download_progress_bits = 0;
                    self.config.download_speed = owned("0.0 B/s");
                    self.config.download_eta = owned("Unknown");
                    self.stage = LaunchStage::AwaitDownload;
                    LaunchStep {
                        save_config: true,
                        action: LaunchAction::Download {
                            magnet: self.config.exe_path.clone(),
                            dest_dir: self.download_dir.clone(),
                        },
                    }
                } else {
                    self.stage = LaunchStage::AwaitPrepare;
                    LaunchStep {
                        save_config: false,
                        action: LaunchAction::Prepare { game_id: self.config.id.clone() },
                    }
                }
            },
            LaunchEvent::Downloaded(Err(msg)) => {
                self.fail_installed_exec(concat("Download failed: ", msg.as_str()))
            },
            LaunchEvent::Downloaded(Ok(path)) => {
                self.config.status = owned("installing");
                self.stage = LaunchStage::AwaitInspect;
                self.downloaded = path.clone();
                LaunchStep { save_config: true, action: LaunchAction::Inspect { path } }
            },
            LaunchEvent::Inspected(DownloadedItem::File { name }) => {
                let ext = file_extension(name.as_str());
                if is_archive_extension(&ext) {
                    let archive = self.downloaded.clone();
                    self.extract_exec(archive)
                } else if is_setup_file_name(name.as_str()) {
                    let installer = self.downloaded.clone();
                    self.installer_exec(installer)
                } else {
                    self.fallback_exec()
                }
            },
            LaunchEvent::Inspected(DownloadedItem::Directory { entries }) => {
                self.after_listing_exec(entries)
            },
            LaunchEvent::Inspected(DownloadedItem::Other) => self.fallback_exec(),
            LaunchEvent::Unpacked(Err(msg)) => {
                if self.stage == LaunchStage::AwaitExtract {
                    self.fail_installed_exec(concat("Archive extraction failed: ", msg.as_str()))
                } else {
                    self.fail_installed_exec(concat("Silent setup installer failed: ", msg.as_str()))
                }
            },
            LaunchEvent::Unpacked(Ok(())) => {
                self.stage = LaunchStage::AwaitScan;
                LaunchStep {
                    save_config: false,
                    action: LaunchAction::CleanupAndScan {
                        copy_from: None,
                        game_dir: self.game_dir.clone(),
                        download_dir: self.download_dir.clone(),
                        prefix_dir: self.prefix_dir.clone(),
                    },
                }
            },
            LaunchEvent::Scanned(found) => {
                let exe = match &found {
                    None => None,
                    Some(cs) => main_exe_exec(cs),
                };
                match exe {
                    None => self.fail_installed_exec(
                        owned("Failed to detect executable inside Wine prefix"),
                    ),
                    Some(p) => {
                        self.config.exe_path = p;
                        self.config.status = owned("installed");
                        self.stage = LaunchStage::AwaitPrepare;
                        LaunchStep {
                            save_config: true,
                            action: LaunchAction::Prepare { game_id: self.config.id.clone() },
                        }
                    },
                }
            },
            LaunchEvent::Prepared(Err(msg)) => self.fail_exec(false, msg),
            LaunchEvent::Prepared(Ok(())) => self.after_prepare_exec(),
            LaunchEvent::Spawned(Err(msg)) => {
                self.fail_exec(false, concat("Failed to spawn Wine process: ", msg.as_str()))
            },
            LaunchEvent::Spawned(Ok(())) => {
                self.stage = LaunchStage::Monitoring;
                LaunchStep {
                    save_config: false,
                    action: LaunchAction::Poll {
                        status_file: self.status_file.clone(),
                        sleep_first: false,
                    },
                }
            },
            LaunchEvent::Polled(PollOutcome::Exited) => {
                self.stage = LaunchStage::AwaitFinalReport;
                LaunchStep {
                    save_config: false,
                    action: LaunchAction::ReadFinalReport { status_file: self.status_file.clone() },
                }
            },
            LaunchEvent::Polled(PollOutcome::Running(None)) => {
                LaunchStep {
                    save_config: false,
                    action: LaunchAction::Poll {
                        status_file: self.status_file.clone(),
                        sleep_first: true,
                    },
                }
            },
            LaunchEvent::Polled(PollOutcome::Running(Some(r))) => {
                self.count_play_exec(r.elapsed_seconds);
                if r.status == owned("finished") {
                    self.stage = LaunchStage::AwaitFinalReport;
                    LaunchStep {
                        save_config: false,
                        action: LaunchAction::ReadFinalReport {
                            status_file: self.status_file.clone(),
                        },
                    }
                } else {
                    LaunchStep {
                        save_config: false,
                        action: LaunchAction::Poll {
                            status_file: self.status_file.clone(),
                            sleep_first: true,
                        },
                    }
                }
            },
            LaunchEvent::FinalReport(report) => {
                match report {
                    Some(el) => self.count_play_exec(el),
                    None => {},
                }
                self.config.last_played = Some(now);
                self.stage = LaunchStage::Finished;
                self.failure = None;
                LaunchStep { save_config: false, action: LaunchAction::Finish(Ok(())) }
            },
        }
    }
}

// ---------------------------------------------------------------------------
// Laws of a launch.

/// Play time only grows: no step of a launch takes any away.
pub proof fn law_play_time_never_decreases(s: LaunchView, e: LaunchEvent, now: Seq<char>)
    requires
        expects(s.stage, e),
        play_time_fits(s, e),
    ensures
        launch_next(s, e, now).0.config.play_time_seconds >= s.config.play_time_seconds,
{
}

/// A launch is always about the same game: no step changes its id.
pub proof fn law_game_id_kept(s: LaunchView, e: LaunchEvent, now: Seq<char>)
    requires
        expects(s.stage, e),
    ensures
        launch_next(s, e, now).0.config.id == s.config.id,
{
}

/// A launch says it is over exactly when it reaches its end, and the
/// failure it records is the one it reports.
pub proof fn law_finish_reported_at_end(s: LaunchView, e: LaunchEvent, now: Seq<char>)
    requires
        expects(s.stage, e),
    ensures
        ({
            let (t, st) = launch_next(s, e, now);
            &&& (t.stage == LaunchStage::Finished <==> st.action is Finish)
            &&& st.action matches LaunchActionView::Finish(r) ==> match r {
                Ok(()) => t.failure is None,
                Err(msg) => t.failure == Some(msg),
            }
        }),
{
}

/// Nothing more happens to a finished launch: it waits for no event.
pub proof fn law_finished_is_final(e: LaunchEvent)
    ensures
        !expects(LaunchStage::Finished, e),
{
}

/// A launch that completes records `now` as the game's last play; one that
/// fails leaves the last play as it was.
pub proof fn law_last_played(s: LaunchView, e: LaunchEvent, now: Seq<char>)
    requires
        expects(s.stage, e),
    ensures
        ({
            let (t, st) = launch_next(s, e, now);
            &&& st.action == LaunchActionView::Finish(Ok(())) ==> t.config.last_played == Some(now)
            &&& (st.action is Finish && st.action->Finish_0 is Err) ==> t.config.last_played
                == s.config.last_played
        }),
{
}

/// Once a download has begun, a failure in downloading, unpacking,
/// installing or finding the executable marks the game installed again and
/// has it stored.
pub proof fn law_failed_install_restores_status(s: LaunchView, e: LaunchEvent, now: Seq<char>)
    requires
        expects(s.stage, e),
        s.stage == LaunchStage::AwaitDownload || s.stage == LaunchStage::AwaitExtract || s.stage
            == LaunchStage::AwaitInstaller || s.stage == LaunchStage::AwaitScan,
        launch_next(s, e, now).1.action is Finish,
    ensures
        launch_next(s, e, now).0.config.status == "installed"@,
        launch_next(s, e, now).1.save_config,
{
}

/// The game always runs under the guest helper in its own prefix: the
/// command's first argument is the helper, the second the game's
/// executable, then the game's arguments; the prefix is the first variable
/// set.
pub proof fn law_spawn_runs_helper(s: LaunchView, e: LaunchEvent, now: Seq<char>)
    requires
        expects(s.stage, e),
        launch_next(s, e, now).1.action is Spawn,
    ensures
        ({
            let (t, st) = launch_next(s, e, now);
            let cmd = st.action->Spawn_0;
            &&& cmd.args.len() == 2 + t.config.launch_args.len()
            &&& cmd.args[0] == "C:\\grapevine-helper.exe"@
            &&& cmd.args[1] == t.config.exe_path
            &&& cmd.args.subrange(2, cmd.args.len() as int) == t.config.launch_args
            &&& cmd.env[0] == ("WINEPREFIX"@, s.prefix_dir)
        }),
{
    let (t, st) = launch_next(s, e, now);
    let cmd = st.action->Spawn_0;
    assert(cmd.args.subrange(2, cmd.args.len() as int) =~= t.config.launch_args);
}

/// Only links still to download are downloaded: a launch starts a download
/// exactly when the game's path is a magnet or HTTP(S) link.
pub proof fn law_download_only_links(s: LaunchView, now: Seq<char>)
    requires
        s.stage == LaunchStage::Start,
    ensures
        launch_next(s, LaunchEvent::Begin, now).1.action is Download <==> is_download_link(
            s.config.exe_path,
        ),
{
}

/// A single downloaded installer is run silently in the prefix with the
/// first runner found (or the launch fails for want of one), unless its name
/// is that of an archive, which is unpacked instead.
pub proof fn law_downloaded_installer_runs(s: LaunchView, name: String, now: Seq<char>)
    requires
        s.stage == LaunchStage::AwaitInspect,
        !is_archive_ext(extension_of(name@)),
        is_setup_name(name@),
    ensures
        launch_next(s, LaunchEvent::Inspected(DownloadedItem::File { name }), now).1.action == match s.first_runner {
            Some(r) => LaunchActionView::RunInstaller {
                installer: s.downloaded,
                prefix_dir: s.prefix_dir,
                runner: r,
            },
            None => LaunchActionView::Finish(Err("No Wine runner available for installation"@)),
        },
{
}

// ---------------------------------------------------------------------------
// Laws of a whole launch.

/// The launch after a sequence of events, each taken in turn.
pub open spec fn launch_run(s: LaunchView, es: Seq<LaunchEvent>, now: Seq<char>) -> LaunchView
    decreases es.len(),
{
    if es.len() == 0 {
        s
    } else {
        launch_run(launch_next(s, es[0], now).0, es.drop_first(), now)
    }
}

/// Each event of the sequence is the one the launch waits for at its turn,
/// and its play time fits.
pub open spec fn run_accepted(s: LaunchView, es: Seq<LaunchEvent>, now: Seq<char>) -> bool
    decreases es.len(),
{
    es.len() == 0 || (expects(s.stage, es[0]) && play_time_fits(s, es[0]) && run_accepted(
        launch_next(s, es[0], now).0,
        es.drop_first(),
        now,
    ))
}

/// The elapsed seconds an event reports, if any.
pub open spec fn reported_elapsed(e: LaunchEvent) -> Option<u64> {
    match e {
        LaunchEvent::Polled(PollOutcome::Running(Some(r))) => Some(r.elapsed_seconds),
        LaunchEvent::FinalReport(Some(el)) => Some(el),
        _ => None,
    }
}

/// The play time that a sequence of events credits, starting from the last
/// elapsed value `last`: each reported value adds how far it is past the
/// one before it (nothing when it is not).
pub open spec fn credited(last: u64, es: Seq<LaunchEvent>) -> int
    decreases es.len(),
{
    if es.len() == 0 {
        0
    } else {
        match reported_elapsed(es[0]) {
            Some(el) => sat_sub(el, last) + credited(el, es.drop_first()),
            None => credited(last, es.drop_first()),
        }
    }
}

proof fn lemma_step_play(s: LaunchView, e: LaunchEvent, now: Seq<char>)
    requires
        expects(s.stage, e),
        play_time_fits(s, e),
    ensures
        ({
            let t = launch_next(s, e, now).0;
            match reported_elapsed(e) {
                Some(el) => t.config.play_time_seconds == s.config.play_time_seconds + sat_sub(
                    el,
                    s.last_elapsed,
                ) && t.last_elapsed == el,
                None => t.config.play_time_seconds == s.config.play_time_seconds && t.last_elapsed
                    == s.last_elapsed,
            }
        }),
{
}

/// Over a whole launch, play time grows by exactly what the status reports
/// credit: the sum of how far each reported elapsed time is past the one
/// before it (a fresh launch starts from 0).
pub proof fn law_run_play_time(s: LaunchView, es: Seq<LaunchEvent>, now: Seq<char>)
    requires
        run_accepted(s, es, now),
    ensures
        launch_run(s, es, now).config.play_time_seconds == s.config.play_time_seconds + credited(
            s.last_elapsed,
            es,
        ),
    decreases es.len(),
{
    if es.len() > 0 {
        lemma_step_play(s, es[0], now);
        law_run_play_time(launch_next(s, es[0], now).0, es.drop_first(), now);
    }
}

/// `b` has the settings of `a`: everything but the play time and the last
/// play is the same.
pub open spec fn same_settings(a: GameConfigView, b: GameConfigView) -> bool {
    b == GameConfigView { play_time_seconds: b.play_time_seconds, last_played: b.last_played, ..a }
}

/// A stage that a launch of an installed game passes through.
pub open spec fn direct_stage(st: LaunchStage) -> bool {
    st == LaunchStage::Start || st == LaunchStage::AwaitPrepare || st == LaunchStage::AwaitSpawn || st
        == LaunchStage::Monitoring || st == LaunchStage::AwaitFinalReport || st == LaunchStage::Finished
}

/// What holds throughout the launch of an installed game that began as `s0`.
pub open spec fn direct_launch_inv(s0: LaunchView, s: LaunchView, now: Seq<char>) -> bool {
    &&& same_settings(s0.config, s.config)
    &&& direct_stage(s.stage)
    &&& (s.stage == LaunchStage::Start || s.stage == LaunchStage::AwaitPrepare || s.stage
        == LaunchStage::AwaitSpawn) ==> s.config.play_time_seconds == s0.config.play_time_seconds
    &&& s.stage != LaunchStage::Finished ==> s.config.last_played == s0.config.last_played
    &&& (s.stage == LaunchStage::Finished && s.failure is Some) ==> (s.config.play_time_seconds
        == s0.config.play_time_seconds && s.config.last_played == s0.config.last_played)
    &&& (s.stage == LaunchStage::Finished && s.failure is None) ==> s.config.last_played == Some(now)
}

proof fn lemma_direct_step(s0: LaunchView, s: LaunchView, e: LaunchEvent, now: Seq<char>)
    requires
        !is_download_link(s0.config.exe_path),
        direct_launch_inv(s0, s, now),
        expects(s.stage, e),
    ensures
        direct_launch_inv(s0, launch_next(s, e, now).0, now),
{
}

proof fn lemma_direct_run(s0: LaunchView, s: LaunchView, es: Seq<LaunchEvent>, now: Seq<char>)
    requires
        !is_download_link(s0.config.exe_path),
        direct_launch_inv(s0, s, now),
        run_accepted(s, es, now),
    ensures
        direct_launch_inv(s0, launch_run(s, es, now), now),
    decreases es.len(),
{
    if es.len() > 0 {
        lemma_direct_step(s0, s, es[0], now);
        lemma_direct_run(s0, launch_next(s, es[0], now).0, es.drop_first(), now);
    }
}

/// Launching a game that is not a link keeps all its settings (id, title,
/// paths, arguments, runner, variables, switches, status, download fields);
/// a launch that completes records `now` as its last play, and one that
/// fails leaves both its play time and its last play as they were.
pub proof fn law_direct_launch_keeps_settings(s0: LaunchView, es: Seq<LaunchEvent>, now: Seq<char>)
    requires
        s0.stage == LaunchStage::Start,
        !is_download_link(s0.config.exe_path),
        run_accepted(s0, es, now),
    ensures
        direct_launch_inv(s0, launch_run(s0, es, now), now),
{
    lemma_direct_run(s0, s0, es, now);
}

/// Once the prefix is prepared, the game is started with the runner its
/// configuration names; only when it names none is the first detected
/// runner used, and with neither the launch fails.
pub proof fn law_spawn_uses_selected_runner(s: LaunchView, now: Seq<char>)
    requires
        s.stage == LaunchStage::AwaitPrepare,
    ensures
        ({
            let st = launch_next(s, LaunchEvent::Prepared(Ok(())), now).1;
            match s.config.runner_path {
                Some(r) => st.action is Spawn && st.action->Spawn_0.program == r,
                None => match s.first_runner {
                    Some(r) => st.action is Spawn && st.action->Spawn_0.program == r,
                    None => st.action == LaunchActionView::Finish(
                        Err("No Wine/Proton runner selected or available on system"@),
                    ),
                },
            }
        }),
{
}

proof fn lemma_no_setup(es: Seq<DirEntryInfo>, i: int)
    requires
        0 <= i,
        forall|j: int| 0 <= j < es.len() ==> !is_setup_entry(#[trigger] es[j]),
    ensures
        first_setup_from(es, i) is None,
    decreases es.len() - i,
{
    if i < es.len() {
        lemma_no_setup(es, i + 1);
    }
}

proof fn lemma_no_archive(es: Seq<DirEntryInfo>)
    requires
        forall|j: int| 0 <= j < es.len() ==> !is_archive_entry(#[trigger] es[j]),
    ensures
        last_archive(es) is None,
    decreases es.len(),
{
    if es.len() > 0 {
        assert(!is_archive_entry(es[es.len() - 1]));
        assert forall|j: int| 0 <= j < es.drop_last().len() implies !is_archive_entry(
            #[trigger] es.drop_last()[j],
        ) by {
            assert(es.drop_last()[j] == es[j]);
        }
        lemma_no_archive(es.drop_last());
    }
}

/// A downloaded directory holding no installer and no archive is copied,
/// whole, into the game directory before the download is cleaned up and
/// the prefix scanned.
pub proof fn law_plain_download_is_copied(s: LaunchView, entries: Vec<DirEntryInfo>, now: Seq<char>)
    requires
        s.stage == LaunchStage::AwaitInspect,
        forall|j: int| 0 <= j < entries@.len() ==> {
            &&& !(#[trigger] entries@[j]).is_file || !(contains(lowercase_view(entries@[j].name@), "setup"@)
                || contains(lowercase_view(entries@[j].name@), "install"@))
            &&& !entries@[j].is_file || !(extension_of(entries@[j].name@) == Some("zip"@) || extension_of(
                entries@[j].name@,
            ) == Some("gz"@) || extension_of(entries@[j].name@) == Some("tgz"@) || extension_of(
                entries@[j].name@,
            ) == Some("xz"@))
        },
    ensures
        launch_next(s, LaunchEvent::Inspected(DownloadedItem::Directory { entries }), now).1.action
            == (LaunchActionView::CleanupAndScan {
            copy_from: Some(s.downloaded),
            game_dir: s.game_dir,
            download_dir: s.download_dir,
            prefix_dir: s.prefix_dir,
        }),
{
    let es = entries@;
    assert forall|j: int| 0 <= j < es.len() implies !is_setup_entry(#[trigger] es[j]) by {
        assert(entries@[j] == es[j]);
    }
    assert forall|j: int| 0 <= j < es.len() implies !is_archive_entry(#[trigger] es[j]) by {
        assert(entries@[j] == es[j]);
    }
    lemma_no_setup(es, 0);
    lemma_no_archive(es);
}

} // verus!

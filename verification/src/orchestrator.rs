//! Game configurations, Wine runners, and the launcher's directory layout.

use vstd::prelude::*;
use crate::installer::{ProcessCommand, ProcessCommandView};
use crate::text::{concat, join_path, owned, path_join, starts_with, trim_str, trimmed};

verus! {

broadcast use vstd::string::group_string_axioms;

/// A copy of a list of strings.
pub fn clone_strings(v: &Vec<String>) -> (r: Vec<String>)
    ensures
        r@ == v@,
        r.deep_view() == v.deep_view(),
{
    let r = v.clone();
    assert(r@ =~= v@);
    r
}

/// A copy of an optional string.
pub fn clone_opt_string(v: &Option<String>) -> (r: Option<String>)
    ensures
        r == *v,
{
    match v {
        Some(s) => Some(s.clone()),
        None => None,
    }
}

/// A copy of a list of key/value string pairs.
pub fn clone_pairs(v: &Vec<(String, String)>) -> (r: Vec<(String, String)>)
    ensures
        r@ == v@,
        r.deep_view() == v.deep_view(),
{
    let mut r: Vec<(String, String)> = Vec::new();
    let mut i: usize = 0;
    while i < v.len()
        invariant
            i <= v.len(),
            r@ == v@.take(i as int),
        decreases v.len() - i,
    {
        let (k, x) = &v[i];
        r.push((k.clone(), x.clone()));
        i = i + 1;
        assert(r@ =~= v@.take(i as int));
    }
    assert(v@.take(v.len() as int) =~= v@);
    assert(r.deep_view() =~= v.deep_view());
    r
}

/// A Wine or Proton build that can run games.
pub struct Runner {
    pub name: String,
    /// Path of the `wine` or `proton` executable.
    pub path: String,
    pub is_proton: bool,
}

/// A runner as values: its name, its executable's path, and its kind.
pub struct RunnerView {
    pub name: Seq<char>,
    pub path: Seq<char>,
    pub is_proton: bool,
}

impl View for Runner {
    type V = RunnerView;

    open spec fn view(&self) -> RunnerView {
        RunnerView { name: self.name@, path: self.path@, is_proton: self.is_proton }
    }
}

/// The views of a list of runners.
pub open spec fn runners_view(v: Seq<Runner>) -> Seq<RunnerView> {
    v.map_values(|r: Runner| r@)
}

impl Clone for Runner {
    fn clone(&self) -> (r: Self)
        ensures
            r == *self,
    {
        Runner { name: self.name.clone(), path: self.path.clone(), is_proton: self.is_proton }
    }
}

/// The settings and state of one game in the library.
pub struct GameConfig {
    pub id: String,
    pub title: String,
    pub source: String,
    /// Windows path of the executable, or a `magnet:` link still to download.
    pub exe_path: String,
    pub launch_args: Vec<String>,
    pub runner_path: Option<String>,
    /// Extra environment variables, in the order they are applied.
    pub env_vars: Vec<(String, String)>,
    pub dxvk_enabled: bool,
    pub mangohud_enabled: bool,
    pub gamemode_enabled: bool,
    pub play_time_seconds: u64,
    pub last_played: Option<String>,
    /// Bit pattern of the `f32` download percentage.
    pub download_progress_bits: u32,
    pub download_speed: String,
    pub download_eta: String,
    /// `installed`, `downloading` or `installing`.
    pub status: String,
}

/// A game configuration as values.
pub struct GameConfigView {
    pub id: Seq<char>,
    pub title: Seq<char>,
    pub source: Seq<char>,
    pub exe_path: Seq<char>,
    pub launch_args: Seq<Seq<char>>,
    pub runner_path: Option<Seq<char>>,
    pub env_vars: Seq<(Seq<char>, Seq<char>)>,
    pub dxvk_enabled: bool,
    pub mangohud_enabled: bool,
    pub gamemode_enabled: bool,
    pub play_time_seconds: u64,
    pub last_played: Option<Seq<char>>,
    pub download_progress_bits: u32,
    pub download_speed: Seq<char>,
    pub download_eta: Seq<char>,
    pub status: Seq<char>,
}

impl View for GameConfig {
    type V = GameConfigView;

    open spec fn view(&self) -> GameConfigView {
        GameConfigView {
            id: self.id@,
            title: self.title@,
            source: self.source@,
            exe_path: self.exe_path@,
            launch_args: self.launch_args.deep_view(),
            runner_path: self.runner_path.deep_view(),
            env_vars: self.env_vars.deep_view(),
            dxvk_enabled: self.dxvk_enabled,
            mangohud_enabled: self.mangohud_enabled,
            gamemode_enabled: self.gamemode_enabled,
            play_time_seconds: self.play_time_seconds,
            last_played: self.last_played.deep_view(),
            download_progress_bits: self.download_progress_bits,
            download_speed: self.download_speed@,
            download_eta: self.download_eta@,
            status: self.status@,
        }
    }
}

/// The views of a list of game configurations.
pub open spec fn games_view(v: Seq<GameConfig>) -> Seq<GameConfigView> {
    v.map_values(|g: GameConfig| g@)
}

impl Clone for GameConfig {
    fn clone(&self) -> (r: Self)
        ensures
            r@ == self@,
    {
        GameConfig {
            id: self.id.clone(),
            title: self.title.clone(),
            source: self.source.clone(),
            exe_path: self.exe_path.clone(),
            launch_args: clone_strings(&self.launch_args),
            runner_path: clone_opt_string(&self.runner_path),
            env_vars: clone_pairs(&self.env_vars),
            dxvk_enabled: self.dxvk_enabled,
            mangohud_enabled: self.mangohud_enabled,
            gamemode_enabled: self.gamemode_enabled,
            play_time_seconds: self.play_time_seconds,
            last_played: clone_opt_string(&self.last_played),
            download_progress_bits: self.download_progress_bits,
            download_speed: self.download_speed.clone(),
            download_eta: self.download_eta.clone(),
            status: self.status.clone(),
        }
    }
}

/// The status a game has when its configuration does not name one.
pub fn default_status() -> (s: String)
    ensures
        s@ == "installed"@,
{
    owned("installed")
}

/// Launcher state: where its files live and which runners it found.
pub struct Orchestrator {
    pub base_dir: String,
    pub runners: Vec<Runner>,
}

/// The home directory, or `.` when it is unknown.
pub open spec fn home_or_dot(home: Option<Seq<char>>) -> Seq<char> {
    match home {
        Some(h) => h,
        None => "."@,
    }
}

/// The launcher's data directory under a home directory: `~/.local/share/grapevine`.
pub open spec fn base_dir_for(home: Option<Seq<char>>) -> Seq<char> {
    path_join(path_join(path_join(home_or_dot(home), ".local"@), "share"@), "grapevine"@)
}

/// The prefix of a game: `<base>/prefixes/<id>`.
pub open spec fn prefix_dir_of(base: Seq<char>, game_id: Seq<char>) -> Seq<char> {
    path_join(path_join(base, "prefixes"@), game_id)
}

/// The `drive_c` directory of a game's prefix.
pub open spec fn drive_c_of(base: Seq<char>, game_id: Seq<char>) -> Seq<char> {
    path_join(prefix_dir_of(base, game_id), "drive_c"@)
}

/// `dirs::home_dir`, the path given as text (non-UTF-8 bytes replaced).
/// It reads the environment; nothing is claimed of what it returns.
#[verifier::external_body]
pub(crate) fn home_dir() -> Option<String> {
    match dirs::home_dir() {
        Some(p) => Some(p.to_string_lossy().into_owned()),
        None => None,
    }
}

/// The view of an optional string.
pub open spec fn opt_str(o: Option<String>) -> Option<Seq<char>> {
    match o {
        Some(s) => Some(s@),
        None => None,
    }
}

pub(crate) fn home_text(home: &Option<String>) -> (r: String)
    ensures
        r@ == home_or_dot(opt_str(*home)),
{
    match home {
        Some(h) => h.clone(),
        None => owned("."),
    }
}

impl Orchestrator {
    /// An orchestrator rooted at the data directory of the given home
    /// directory, with no runners detected yet.
    pub fn with_home(home: Option<String>) -> (o: Orchestrator)
        ensures
            o.base_dir@ == base_dir_for(opt_str(home)),
            o.runners@ == Seq::<Runner>::empty(),
    {
        let h = home_text(&home);
        let a = join_path(h.as_str(), ".local");
        let b = join_path(a.as_str(), "share");
        let base_dir = join_path(b.as_str(), "grapevine");
        Orchestrator { base_dir, runners: Vec::new() }
    }

    /// An orchestrator rooted at `~/.local/share/grapevine` of the current
    /// user, with no runners detected yet.
    pub fn new() -> (o: Orchestrator)
        ensures
            exists|home: Option<Seq<char>>| o.base_dir@ == base_dir_for(home),
            o.runners@ == Seq::<Runner>::empty(),
    {
        let home = home_dir();
        Self::with_home(home)
    }

    /// The Wine prefix directory of a game.
    pub fn get_prefix_dir(&self, game_id: &str) -> (p: String)
        ensures
            p@ == prefix_dir_of(self.base_dir@, game_id@),
    {
        let a = join_path(self.base_dir.as_str(), "prefixes");
        join_path(a.as_str(), game_id)
    }

    /// Where the guest helper executable goes inside a game's prefix.
    pub fn get_helper_dest_path(&self, game_id: &str) -> (p: String)
        ensures
            p@ == path_join(drive_c_of(self.base_dir@, game_id@), "grapevine-helper.exe"@),
    {
        let prefix = self.get_prefix_dir(game_id);
        let drive_c = join_path(prefix.as_str(), "drive_c");
        join_path(drive_c.as_str(), "grapevine-helper.exe")
    }

    /// Where the guest helper writes its status report inside a game's prefix.
    pub fn get_status_file_path(&self, game_id: &str) -> (p: String)
        ensures
            p@ == path_join(drive_c_of(self.base_dir@, game_id@), "grapevine-status.json"@),
    {
        let prefix = self.get_prefix_dir(game_id);
        let drive_c = join_path(prefix.as_str(), "drive_c");
        join_path(drive_c.as_str(), "grapevine-status.json")
    }

    /// The commands that install the DXVK library overrides into a game's
    /// prefix: for `d3d11` and then `dxgi`, the first runner adds a
    /// `native,builtin` override to the prefix's registry. Without a runner
    /// there is nothing to run them with.
    pub fn setup_dxvk(&self, game_id: &str) -> (r: Result<Vec<ProcessCommand>, String>)
        ensures
            match r {
                Ok(cs) => self.runners@.len() > 0 && commands_view(cs@) == dxvk_setup_commands(
                    self.runners@[0].path@,
                    prefix_dir_of(self.base_dir@, game_id@),
                ),
                Err(e) => self.runners@.len() == 0 && e@ == "No Wine runner available for DXVK setup"@,
            },
    {
        let runner = match self.first_runner_path() {
            Some(r) => r,
            None => return Err(owned("No Wine runner available for DXVK setup")),
        };
        let prefix = self.get_prefix_dir(game_id);
        let first = dll_override_exec(runner.as_str(), prefix.as_str(), "d3d11");
        let second = dll_override_exec(runner.as_str(), prefix.as_str(), "dxgi");
        let cs = vec![first, second];
        assert(commands_view(cs@) =~= dxvk_setup_commands(runner@, prefix@));
        Ok(cs)
    }

    /// The DXVK overrides for a game are installed only through its own
    /// prefix, with the first runner.
    pub proof fn law_dxvk_targets_prefix(o: Orchestrator, game_id: Seq<char>)
        requires
            o.runners@.len() > 0,
        ensures
            forall|i: int| 0 <= i < 2 ==> {
                let c = #[trigger] dxvk_setup_commands(o.runners@[0].path@, prefix_dir_of(o.base_dir@, game_id))[i];
                &&& c.program == o.runners@[0].path@
                &&& c.env == seq![("WINEPREFIX"@, prefix_dir_of(o.base_dir@, game_id))]
                &&& c.args[4] == dxvk_dlls()[i]
            },
    {
    }
}

/// The DLLs that DXVK replaces.
pub open spec fn dxvk_dlls() -> Seq<Seq<char>> {
    seq!["d3d11"@, "dxgi"@]
}

/// The registry key under which Wine reads DLL overrides.
pub open spec fn dll_overrides_key() -> Seq<char> {
    "HKEY_CURRENT_USER\\Software\\Wine\\DllOverrides"@
}

/// The command that makes Wine load a DLL's native version first, then
/// its built-in one, in a prefix.
pub open spec fn dll_override_command(runner: Seq<char>, prefix: Seq<char>, dll: Seq<char>) -> ProcessCommandView {
    ProcessCommandView {
        program: runner,
        env: seq![("WINEPREFIX"@, prefix)],
        args: seq!["reg"@, "add"@, dll_overrides_key(), "/v"@, dll, "/d"@, "native,builtin"@, "/f"@],
    }
}

/// The commands that install the DXVK overrides, one per DLL, in order.
pub open spec fn dxvk_setup_commands(runner: Seq<char>, prefix: Seq<char>) -> Seq<ProcessCommandView> {
    seq![
        dll_override_command(runner, prefix, dxvk_dlls()[0]),
        dll_override_command(runner, prefix, dxvk_dlls()[1]),
    ]
}

/// The views of a list of commands.
pub open spec fn commands_view(v: Seq<ProcessCommand>) -> Seq<ProcessCommandView> {
    v.map_values(|c: ProcessCommand| c@)
}

fn dll_override_exec(runner: &str, prefix: &str, dll: &str) -> (c: ProcessCommand)
    ensures
        c@ == dll_override_command(runner@, prefix@, dll@),
{
    let env = vec![(owned("WINEPREFIX"), owned(prefix))];
    let args = vec![
        owned("reg"),
        owned("add"),
        owned("HKEY_CURRENT_USER\\Software\\Wine\\DllOverrides"),
        owned("/v"),
        owned(dll),
        owned("/d"),
        owned("native,builtin"),
        owned("/f"),
    ];
    assert(env.deep_view() =~= seq![("WINEPREFIX"@, prefix@)]);
    assert(args.deep_view() =~= seq![
        "reg"@,
        "add"@,
        dll_overrides_key(),
        "/v"@,
        dll@,
        "/d"@,
        "native,builtin"@,
        "/f"@,
    ]);
    ProcessCommand { program: owned(runner), env, args }
}


/// One entry found in a directory where runners are installed.
pub struct RunnerDirEntry {
    /// The entry's path.
    pub path: String,
    /// The entry's file name.
    pub name: String,
    pub is_dir: bool,
    /// `files/bin/wine` exists under the entry.
    pub has_wine: bool,
    /// `files/bin/proton` exists under the entry.
    pub has_proton: bool,
}

/// A runner directory entry as values.
pub struct RunnerDirEntryView {
    pub path: Seq<char>,
    pub name: Seq<char>,
    pub is_dir: bool,
    pub has_wine: bool,
    pub has_proton: bool,
}

impl View for RunnerDirEntry {
    type V = RunnerDirEntryView;

    open spec fn view(&self) -> RunnerDirEntryView {
        RunnerDirEntryView {
            path: self.path@,
            name: self.name@,
            is_dir: self.is_dir,
            has_wine: self.has_wine,
            has_proton: self.has_proton,
        }
    }
}

/// `<dir>/files/bin/<exe>`.
pub open spec fn runner_bin(dir: Seq<char>, exe: Seq<char>) -> Seq<char> {
    path_join(path_join(path_join(dir, "files"@), "bin"@), exe)
}

/// The runner that a directory entry provides: a Wine build when it has
/// `files/bin/wine`, otherwise a Proton build when it has `files/bin/proton`.
pub open spec fn runner_from_entry(e: RunnerDirEntryView) -> Option<RunnerView> {
    if !e.is_dir {
        None
    } else if e.has_wine {
        Some(
            RunnerView {
                name: "GE-Proton/Wine-GE ("@ + e.name + ")"@,
                path: runner_bin(e.path, "wine"@),
                is_proton: false,
            },
        )
    } else if e.has_proton {
        Some(
            RunnerView {
                name: "Steam Proton ("@ + e.name + ")"@,
                path: runner_bin(e.path, "proton"@),
                is_proton: true,
            },
        )
    } else {
        None
    }
}

/// The runners that a list of directory entries provides, in order.
pub open spec fn runners_from_entries(es: Seq<RunnerDirEntryView>) -> Seq<RunnerView>
    decreases es.len(),
{
    if es.len() == 0 {
        Seq::empty()
    } else {
        let rest = runners_from_entries(es.drop_last());
        match runner_from_entry(es.last()) {
            Some(r) => rest.push(r),
            None => rest,
        }
    }
}

/// The system Wine runner found by `which wine`, given what it printed.
pub open spec fn system_wine(which_output: Option<Seq<char>>) -> Seq<RunnerView> {
    match which_output {
        Some(out) => seq![RunnerView { name: "System Wine"@, path: trimmed(out), is_proton: false }],
        None => Seq::empty(),
    }
}

/// The views of a list of directory entries.
pub open spec fn entries_view(v: Seq<RunnerDirEntry>) -> Seq<RunnerDirEntryView> {
    v.map_values(|e: RunnerDirEntry| e@)
}

/// The directories searched for runners under a home directory.
pub open spec fn runner_dirs_for(home: Seq<char>) -> Seq<Seq<char>> {
    seq![
        path_join(path_join(path_join(path_join(home, ".local"@), "share"@), "Steam"@), "compatibilitytools.d"@),
        path_join(path_join(path_join(home, ".steam"@), "root"@), "compatibilitytools.d"@),
        path_join(path_join(path_join(path_join(home, ".local"@), "share"@), "bottles"@), "runners"@),
        "/usr/share/steam/compatibilitytools.d"@,
    ]
}

fn bin_path(dir: &str, exe: &str) -> (p: String)
    ensures
        p@ == runner_bin(dir@, exe@),
{
    let a = join_path(dir, "files");
    let b = join_path(a.as_str(), "bin");
    join_path(b.as_str(), exe)
}

/// The runner that one directory entry provides, if any.
pub fn runner_for_entry(e: &RunnerDirEntry) -> (r: Option<Runner>)
    ensures
        match r {
            Some(x) => runner_from_entry(e@) == Some(x@),
            None => runner_from_entry(e@) is None,
        },
{
    if !e.is_dir {
        None
    } else if e.has_wine {
        let a = concat("GE-Proton/Wine-GE (", e.name.as_str());
        let name = concat(a.as_str(), ")");
        Some(Runner { name, path: bin_path(e.path.as_str(), "wine"), is_proton: false })
    } else if e.has_proton {
        let a = concat("Steam Proton (", e.name.as_str());
        let name = concat(a.as_str(), ")");
        Some(Runner { name, path: bin_path(e.path.as_str(), "proton"), is_proton: true })
    } else {
        None
    }
}

/// The directories searched for runners, under a given home directory.
pub fn runner_dirs_in(home: &str) -> (v: Vec<String>)
    ensures
        v.deep_view() == runner_dirs_for(home@),
{
    let l = join_path(home, ".local");
    let ls = join_path(l.as_str(), "share");
    let st = join_path(ls.as_str(), "Steam");
    let d0 = join_path(st.as_str(), "compatibilitytools.d");
    let s = join_path(home, ".steam");
    let sr = join_path(s.as_str(), "root");
    let d1 = join_path(sr.as_str(), "compatibilitytools.d");
    let b = join_path(ls.as_str(), "bottles");
    let d2 = join_path(b.as_str(), "runners");
    let d3 = owned("/usr/share/steam/compatibilitytools.d");
    let v = vec![d0, d1, d2, d3];
    assert(v.deep_view() =~= runner_dirs_for(home@));
    v
}

/// The directories searched for runners, under the current user's home
/// directory (or `.` when it is unknown).
pub fn runner_dirs() -> (v: Vec<String>)
    ensures
        exists|home: Option<Seq<char>>| v.deep_view() == runner_dirs_for(home_or_dot(home)),
{
    let home = home_dir();
    let h = home_text(&home);
    runner_dirs_in(h.as_str())
}

impl Orchestrator {
    /// Replaces the runner list with what detection found: the system Wine
    /// (when `which wine` succeeded and printed `which_output`), then the
    /// runners provided by the entries of the runner directories, in order.
    pub fn detect_runners(&mut self, which_output: Option<String>, entries: &Vec<RunnerDirEntry>)
        ensures
            final(self).base_dir == old(self).base_dir,
            runners_view(final(self).runners@) == system_wine(opt_str(which_output))
                + runners_from_entries(entries_view(entries@)),
    {
        self.runners.clear();
        match which_output {
            Some(out) => {
                let path = trim_str(out.as_str());
                self.runners.push(Runner { name: owned("System Wine"), path, is_proton: false });
            },
            None => {},
        }
        let ghost sys = system_wine(opt_str(which_output));
        assert(runners_view(self.runners@) =~= sys);
        let mut i: usize = 0;
        while i < entries.len()
            invariant
                i <= entries.len(),
                self.base_dir == old(self).base_dir,
                sys == system_wine(opt_str(which_output)),
                runners_view(self.runners@) == sys + runners_from_entries(
                    entries_view(entries@.take(i as int)),
                ),
            decreases entries.len() - i,
        {
            let ghost before = self.runners@;
            assert(entries_view(entries@.take(i + 1)).drop_last() =~= entries_view(
                entries@.take(i as int),
            ));
            match runner_for_entry(&entries[i]) {
                Some(r) => {
                    self.runners.push(r);
                    assert(runners_view(self.runners@) =~= runners_view(before).push(r@));
                },
                None => {},
            }
            i = i + 1;
        }
        assert(entries@.take(entries.len() as int) =~= entries@);
    }

    /// The path of the first detected runner, if any.
    pub fn first_runner_path(&self) -> (p: Option<String>)
        ensures
            match p {
                Some(x) => self.runners@.len() > 0 && x@ == self.runners@[0].path@,
                None => self.runners@.len() == 0,
            },
    {
        if self.runners.len() > 0 {
            Some(self.runners[0].path.clone())
        } else {
            None
        }
    }
}

/// A library in which every game with the id of `config` is replaced by it.
pub open spec fn replaced_by_id(games: Seq<GameConfigView>, config: GameConfigView) -> Seq<GameConfigView> {
    games.map_values(|g: GameConfigView| if g.id == config.id { config } else { g })
}

/// Stores `config` in place of every game with the same id; the other games,
/// and the order, stay as they were.
pub fn replace_game_config(games: &mut Vec<GameConfig>, config: &GameConfig)
    ensures
        games_view(final(games)@) == replaced_by_id(games_view(old(games)@), config@),
{
    let ghost orig = games_view(games@);
    let mut i: usize = 0;
    while i < games.len()
        invariant
            i <= games.len(),
            games@.len() == orig.len(),
            orig == games_view(old(games)@),
            forall|j: int| 0 <= j < i ==> games@[j]@ == (if orig[j].id == config@.id { config@ } else { orig[j] }),
            forall|j: int| i <= j < games@.len() ==> games@[j]@ == orig[j],
        decreases games.len() - i,
    {
        if games[i].id == config.id {
            games.set(i, config.clone());
        }
        i = i + 1;
    }
    assert(games_view(games@) =~= replaced_by_id(orig, config@));
}

/// A game with the download progress that aria2 reported.
pub open spec fn with_progress(g: GameConfigView, bits: u32, speed: Seq<char>, eta: Seq<char>) -> GameConfigView {
    GameConfigView {
        status: "downloading"@,
        download_progress_bits: bits,
        download_speed: speed,
        download_eta: eta,
        ..g
    }
}

/// Records download progress on every game with the given id: it is marked
/// downloading, with the percentage (as `f32` bits), speed and ETA; the
/// other games stay as they were.
pub fn apply_download_progress(games: &mut Vec<GameConfig>, id: &str, percentage_bits: u32, speed: &str, eta: &str)
    ensures
        games_view(final(games)@) == games_view(old(games)@).map_values(
            |g: GameConfigView| if g.id == id@ { with_progress(g, percentage_bits, speed@, eta@) } else { g },
        ),
{
    let ghost orig = games_view(games@);
    let key = owned(id);
    let mut i: usize = 0;
    while i < games.len()
        invariant
            i <= games.len(),
            games@.len() == orig.len(),
            key@ == id@,
            orig == games_view(old(games)@),
            forall|j: int| 0 <= j < i ==> games@[j]@ == (if orig[j].id == id@ { with_progress(orig[j], percentage_bits, speed@, eta@) } else { orig[j] }),
            forall|j: int| i <= j < games@.len() ==> games@[j]@ == orig[j],
        decreases games.len() - i,
    {
        if games[i].id == key {
            let mut g = games[i].clone();
            g.status = owned("downloading");
            g.download_progress_bits = percentage_bits;
            g.download_speed = owned(speed);
            g.download_eta = owned(eta);
            games.set(i, g);
        }
        i = i + 1;
    }
    assert(games_view(games@) =~= orig.map_values(
        |g: GameConfigView| if g.id == id@ { with_progress(g, percentage_bits, speed@, eta@) } else { g },
    ));
}

/// A stored game with what a launch changed: play time, last play,
/// executable path and status.
pub open spec fn with_launch_result(g: GameConfigView, c: GameConfigView) -> GameConfigView {
    GameConfigView {
        play_time_seconds: c.play_time_seconds,
        last_played: c.last_played,
        exe_path: c.exe_path,
        status: c.status,
        ..g
    }
}

/// Takes over what a launch changed into every stored game with the same
/// id; everything else stays as stored.
pub fn merge_launch_result(games: &mut Vec<GameConfig>, config: &GameConfig)
    ensures
        games_view(final(games)@) == games_view(old(games)@).map_values(
            |g: GameConfigView| if g.id == config@.id { with_launch_result(g, config@) } else { g },
        ),
{
    let ghost orig = games_view(games@);
    let mut i: usize = 0;
    while i < games.len()
        invariant
            i <= games.len(),
            games@.len() == orig.len(),
            orig == games_view(old(games)@),
            forall|j: int| 0 <= j < i ==> games@[j]@ == (if orig[j].id == config@.id { with_launch_result(orig[j], config@) } else { orig[j] }),
            forall|j: int| i <= j < games@.len() ==> games@[j]@ == orig[j],
        decreases games.len() - i,
    {
        if games[i].id == config.id {
            let mut g = games[i].clone();
            g.play_time_seconds = config.play_time_seconds;
            g.last_played = clone_opt_string(&config.last_played);
            g.exe_path = config.exe_path.clone();
            g.status = config.status.clone();
            games.set(i, g);
        }
        i = i + 1;
    }
    assert(games_view(games@) =~= orig.map_values(
        |g: GameConfigView| if g.id == config@.id { with_launch_result(g, config@) } else { g },
    ));
}

/// The seconds of play as whole hours and the minutes past them.
pub fn play_time_summary(seconds: u64) -> (r: (u64, u64))
    ensures
        r.0 == seconds / 3600,
        r.1 == (seconds % 3600) / 60,
        r.0 * 3600 + r.1 * 60 <= seconds < r.0 * 3600 + r.1 * 60 + 60,
{
    let h = seconds / 3600;
    let m = (seconds % 3600) / 60;
    assert(h * 3600 + (seconds % 3600) == seconds) by (nonlinear_arith)
        requires
            h == seconds / 3600,
    ;
    assert(m * 60 <= seconds % 3600 < m * 60 + 60) by (nonlinear_arith)
        requires
            m == (seconds % 3600) / 60,
    ;
    (h, m)
}

/// Storing a game's configuration is idempotent, keeps the library's size
/// and order of ids, and afterwards every game with that id reads back as
/// the stored configuration while the others are untouched.
pub proof fn law_store_reads_back(games: Seq<GameConfigView>, config: GameConfigView)
    ensures
        replaced_by_id(replaced_by_id(games, config), config) == replaced_by_id(games, config),
        replaced_by_id(games, config).len() == games.len(),
        forall|i: int| 0 <= i < games.len() ==> #[trigger] replaced_by_id(games, config)[i].id == games[i].id,
        forall|i: int| 0 <= i < games.len() && games[i].id == config.id ==> #[trigger] replaced_by_id(games, config)[i]
            == config,
        forall|i: int| 0 <= i < games.len() && games[i].id != config.id ==> #[trigger] replaced_by_id(games, config)[i]
            == games[i],
{
    assert(replaced_by_id(replaced_by_id(games, config), config) =~= replaced_by_id(games, config));
}

/// Games whose ids differ, and are not absolute paths, get different
/// prefixes.
pub proof fn law_prefixes_distinct(base: Seq<char>, a: Seq<char>, b: Seq<char>)
    requires
        a != b,
        !(a.len() > 0 && a[0] == '/'),
        !(b.len() > 0 && b[0] == '/'),
    ensures
        prefix_dir_of(base, a) != prefix_dir_of(base, b),
{
    let p = path_join(base, "prefixes"@);
    reveal_strlit("prefixes");
    assert("prefixes"@.len() == 8);
    assert(p.len() > 0 && p.last() != '/') by {
        if base.len() > 0 && base.last() != '/' {
            assert(p == base + seq!['/'] + "prefixes"@);
            assert(p.last() == "prefixes"@.last());
        } else {
            assert(p == base + "prefixes"@);
            assert(p.last() == "prefixes"@.last());
        }
    }
    let pa = p + seq!['/'] + a;
    let pb = p + seq!['/'] + b;
    assert(prefix_dir_of(base, a) == pa);
    assert(prefix_dir_of(base, b) == pb);
    if pa == pb {
        assert(a =~= pa.subrange(p.len() + 1int, pa.len() as int));
        assert(b =~= pb.subrange(p.len() + 1int, pb.len() as int));
    }
}

/// A runner has one of the three forms detection makes: the system Wine; a
/// Wine build `GE-Proton/Wine-GE (<name>)` at `<dir>/files/bin/wine`; or a
/// Proton build `Steam Proton (<name>)` at `<dir>/files/bin/proton`, for a
/// directory entry among `es`.
pub open spec fn has_runner_form(r: RunnerView, es: Seq<RunnerDirEntryView>) -> bool {
    ||| (r.name == "System Wine"@ && !r.is_proton)
    ||| exists|j: int| #![trigger es[j]]
        0 <= j < es.len() && es[j].is_dir && r == RunnerView {
            name: "GE-Proton/Wine-GE ("@ + es[j].name + ")"@,
            path: runner_bin(es[j].path, "wine"@),
            is_proton: false,
        }
    ||| exists|j: int| #![trigger es[j]]
        0 <= j < es.len() && es[j].is_dir && r == RunnerView {
            name: "Steam Proton ("@ + es[j].name + ")"@,
            path: runner_bin(es[j].path, "proton"@),
            is_proton: true,
        }
}

proof fn lemma_entries_forms(es: Seq<RunnerDirEntryView>)
    ensures
        forall|i: int| 0 <= i < runners_from_entries(es).len() ==> has_runner_form(
            #[trigger] runners_from_entries(es)[i],
            es,
        ),
    decreases es.len(),
{
    if es.len() > 0 {
        let rest = es.drop_last();
        lemma_entries_forms(rest);
        let rs = runners_from_entries(rest);
        assert forall|i: int| 0 <= i < runners_from_entries(es).len() implies has_runner_form(
            #[trigger] runners_from_entries(es)[i],
            es,
        ) by {
            let r = runners_from_entries(es)[i];
            if i < rs.len() {
                assert(r == rs[i]);
                assert(has_runner_form(r, rest));
                if r.name == "System Wine"@ && !r.is_proton {
                } else if exists|j: int| #![trigger rest[j]]
                    0 <= j < rest.len() && rest[j].is_dir && r == (RunnerView {
                        name: "GE-Proton/Wine-GE ("@ + rest[j].name + ")"@,
                        path: runner_bin(rest[j].path, "wine"@),
                        is_proton: false,
                    }) {
                    let j = choose|j: int| #![trigger rest[j]]
                        0 <= j < rest.len() && rest[j].is_dir && r == (RunnerView {
                            name: "GE-Proton/Wine-GE ("@ + rest[j].name + ")"@,
                            path: runner_bin(rest[j].path, "wine"@),
                            is_proton: false,
                        });
                    assert(es[j] == rest[j]);
                } else {
                    let j = choose|j: int| #![trigger rest[j]]
                        0 <= j < rest.len() && rest[j].is_dir && r == (RunnerView {
                            name: "Steam Proton ("@ + rest[j].name + ")"@,
                            path: runner_bin(rest[j].path, "proton"@),
                            is_proton: true,
                        });
                    assert(es[j] == rest[j]);
                }
            } else {
                let n = es.len() - 1;
                assert(es[n] == es.last());
            }
        }
    }
}

/// Every detected runner has one of the three forms, and it is a Proton
/// build exactly when its name begins with `Steam Proton (`.
pub proof fn law_detected_runner_forms(which_output: Option<Seq<char>>, es: Seq<RunnerDirEntryView>)
    ensures
        forall|i: int| 0 <= i < (system_wine(which_output) + runners_from_entries(es)).len() ==> {
            let r = #[trigger] (system_wine(which_output) + runners_from_entries(es))[i];
            &&& has_runner_form(r, es)
            &&& r.is_proton <==> starts_with(r.name, "Steam Proton ("@)
        },
{
    lemma_entries_forms(es);
    reveal_strlit("System Wine");
    reveal_strlit("Steam Proton (");
    reveal_strlit("GE-Proton/Wine-GE (");
    let sys = system_wine(which_output);
    let all = sys + runners_from_entries(es);
    assert forall|i: int| 0 <= i < all.len() implies {
        let r = #[trigger] all[i];
        &&& has_runner_form(r, es)
        &&& r.is_proton <==> starts_with(r.name, "Steam Proton ("@)
    } by {
        let r = all[i];
        let p = "Steam Proton ("@;
        if i < sys.len() {
            assert(r == sys[i]);
            assert(r.name == "System Wine"@);
            assert(r.name.len() < p.len());
        } else {
            assert(r == runners_from_entries(es)[i - sys.len()]);
            if r.is_proton {
                let j = choose|j: int| #![trigger es[j]]
                    0 <= j < es.len() && es[j].is_dir && r == (RunnerView {
                        name: "Steam Proton ("@ + es[j].name + ")"@,
                        path: runner_bin(es[j].path, "proton"@),
                        is_proton: true,
                    });
                assert(r.name.subrange(0, p.len() as int) =~= p);
            } else if r.name == "System Wine"@ {
                assert(r.name.len() < p.len());
            } else {
                let j = choose|j: int| #![trigger es[j]]
                    0 <= j < es.len() && es[j].is_dir && r == (RunnerView {
                        name: "GE-Proton/Wine-GE ("@ + es[j].name + ")"@,
                        path: runner_bin(es[j].path, "wine"@),
                        is_proton: false,
                    });
                assert(r.name.subrange(0, p.len() as int)[0] != p[0]);
            }
        }
    }
}

/// Whole minutes of play, as the library list shows them.
pub fn play_time_minutes(seconds: u64) -> (m: u64)
    ensures
        m == seconds / 60,
        m * 60 <= seconds < m * 60 + 60,
{
    let m = seconds / 60;
    assert(m * 60 <= seconds < m * 60 + 60) by (nonlinear_arith)
        requires
            m == seconds / 60,
    ;
    m
}

} // verus!

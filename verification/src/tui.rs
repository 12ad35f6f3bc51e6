//! The launcher screen's state and what each key press does to it. Drawing
//! and the terminal are the caller's; this is the part that decides.

use vstd::prelude::*;
use crate::launch::is_download_link;
use crate::orchestrator::{GameConfig, GameConfigView, games_view};
use crate::plugins::{GameInfo, GameInfoView, infos_view};
use crate::text::{contains, lowercase_view, owned, pop_char, push_char, str_contains, to_lowercase};

verus! {

broadcast use vstd::string::group_string_axioms;

/// The four views of the launcher.
#[derive(PartialEq, Eq, Structural, Clone, Copy)]
pub enum ActiveTab {
    Home,
    Search,
    Runners,
    Plugins,
}

/// A key press, as far as the launcher tells keys apart.
#[derive(PartialEq, Eq, Structural, Clone, Copy)]
pub enum Key {
    /// A character, and whether Control was held.
    Char { c: char, ctrl: bool },
    Esc,
    Backspace,
    Up,
    Down,
    Enter,
    Tab,
    Other,
}

/// What the caller is to do after a key press.
pub enum TuiAction {
    Nothing,
    /// Leave the launcher.
    Quit,
    /// The search text changed: ask every plugin and hand the results back.
    Search,
    /// Launch (or download and install) this game.
    Launch(GameConfig),
    /// A game was added: store the library.
    SaveLibrary,
}

/// An action as values.
pub enum TuiActionView {
    Nothing,
    Quit,
    Search,
    Launch(GameConfigView),
    SaveLibrary,
}

impl View for TuiAction {
    type V = TuiActionView;

    open spec fn view(&self) -> TuiActionView {
        match self {
            TuiAction::Nothing => TuiActionView::Nothing,
            TuiAction::Quit => TuiActionView::Quit,
            TuiAction::Search => TuiActionView::Search,
            TuiAction::Launch(g) => TuiActionView::Launch(g@),
            TuiAction::SaveLibrary => TuiActionView::SaveLibrary,
        }
    }
}

/// The launcher's state.
pub struct TuiState {
    pub tab: ActiveTab,
    /// The library.
    pub games: Vec<GameConfig>,
    pub game_selected: Option<usize>,
    pub search_query: String,
    pub search_results: Vec<GameInfo>,
    pub search_selected: Option<usize>,
    /// Whether the command palette is open.
    pub palette_active: bool,
    pub palette_query: String,
    pub palette_results: Vec<GameConfig>,
    pub palette_selected: Option<usize>,
}

/// The launcher's state as values.
pub struct TuiView {
    pub tab: ActiveTab,
    pub games: Seq<GameConfigView>,
    pub game_selected: Option<usize>,
    pub search_query: Seq<char>,
    pub search_results: Seq<GameInfoView>,
    pub search_selected: Option<usize>,
    pub palette_active: bool,
    pub palette_query: Seq<char>,
    pub palette_results: Seq<GameConfigView>,
    pub palette_selected: Option<usize>,
}

impl View for TuiState {
    type V = TuiView;

    open spec fn view(&self) -> TuiView {
        TuiView {
            tab: self.tab,
            games: games_view(self.games@),
            game_selected: self.game_selected,
            search_query: self.search_query@,
            search_results: infos_view(self.search_results@),
            search_selected: self.search_selected,
            palette_active: self.palette_active,
            palette_query: self.palette_query@,
            palette_results: games_view(self.palette_results@),
            palette_selected: self.palette_selected,
        }
    }
}

// ---------------------------------------------------------------------------
// The rules.

/// The games whose titles, lower-cased, contain the lower-cased query.
pub open spec fn title_matches(games: Seq<GameConfigView>, q: Seq<char>) -> Seq<GameConfigView>
    decreases games.len(),
{
    if games.len() == 0 {
        Seq::empty()
    } else {
        let rest = title_matches(games.drop_last(), q);
        if contains(lowercase_view(games.last().title), lowercase_view(q)) {
            rest.push(games.last())
        } else {
            rest
        }
    }
}

/// The palette's results: every game for an empty query, else the games
/// whose titles match it.
pub open spec fn palette_filter(games: Seq<GameConfigView>, q: Seq<char>) -> Seq<GameConfigView> {
    if q.len() == 0 {
        games
    } else {
        title_matches(games, q)
    }
}

/// The first entry of a list, when it has one.
pub open spec fn first_of(len: nat) -> Option<usize> {
    if len == 0 {
        None
    } else {
        Some(0)
    }
}

/// The state with the palette's results recomputed and the first selected.
pub open spec fn refresh_palette(s: TuiView) -> TuiView {
    let r = palette_filter(s.games, s.palette_query);
    TuiView { palette_results: r, palette_selected: first_of(r.len()), ..s }
}

/// The selection one up, unless at the top or absent.
pub open spec fn move_up(sel: Option<usize>) -> Option<usize> {
    match sel {
        Some(i) => if i > 0 {
            Some((i - 1) as usize)
        } else {
            sel
        },
        None => None,
    }
}

/// The selection one down, unless at the bottom or absent.
pub open spec fn move_down(sel: Option<usize>, len: nat) -> Option<usize> {
    match sel {
        Some(i) => if i + 1 < len {
            Some((i + 1) as usize)
        } else {
            sel
        },
        None => None,
    }
}

/// The tab a digit key switches to.
pub open spec fn digit_tab(c: char) -> Option<ActiveTab> {
    if c == '1' {
        Some(ActiveTab::Home)
    } else if c == '2' {
        Some(ActiveTab::Search)
    } else if c == '3' {
        Some(ActiveTab::Runners)
    } else if c == '4' {
        Some(ActiveTab::Plugins)
    } else {
        None
    }
}

/// The tab that the Tab key moves to.
pub open spec fn following_tab(t: ActiveTab) -> ActiveTab {
    match t {
        ActiveTab::Home => ActiveTab::Search,
        ActiveTab::Search => ActiveTab::Runners,
        ActiveTab::Runners => ActiveTab::Plugins,
        ActiveTab::Plugins => ActiveTab::Home,
    }
}

/// The library entry made for a plugin's game: DXVK on, MangoHud and
/// GameMode off, no runner chosen, never played, installed.
pub open spec fn game_from_info(i: GameInfoView) -> GameConfigView {
    GameConfigView {
        id: i.id,
        title: i.title,
        source: i.source,
        exe_path: i.exec_path,
        launch_args: i.launch_args,
        runner_path: None,
        env_vars: Seq::empty(),
        dxvk_enabled: true,
        mangohud_enabled: false,
        gamemode_enabled: false,
        play_time_seconds: 0,
        last_played: None,
        download_progress_bits: 0,
        download_speed: Seq::empty(),
        download_eta: Seq::empty(),
        status: "installed"@,
    }
}

/// Some game of the library has this id.
pub open spec fn has_id(games: Seq<GameConfigView>, id: Seq<char>) -> bool {
    exists|j: int| 0 <= j < games.len() && games[j].id == id
}

/// The state after importing the selected search result, and whether a
/// game was added: nothing happens without a selection, or when the library
/// has a game with the same id.
pub open spec fn import_selected(s: TuiView) -> (TuiView, bool) {
    match s.search_selected {
        Some(i) => if i < s.search_results.len() {
            let info = s.search_results[i as int];
            if has_id(s.games, info.id) {
                (s, false)
            } else {
                (TuiView { games: s.games.push(game_from_info(info)), ..s }, true)
            }
        } else {
            (s, false)
        },
        None => (s, false),
    }
}

/// The outcome from its parts.
pub open spec fn then(s: TuiView, a: TuiActionView) -> (TuiView, TuiActionView) {
    (s, a)
}

/// A key while the command palette is open.
pub open spec fn palette_key(s: TuiView, k: Key) -> (TuiView, TuiActionView) {
    match k {
        Key::Esc => then(TuiView { palette_active: false, ..s }, TuiActionView::Nothing),
        Key::Char { c, ctrl: _ } => then(
            refresh_palette(TuiView { palette_query: s.palette_query.push(c), ..s }),
            TuiActionView::Nothing,
        ),
        Key::Backspace => then(
            refresh_palette(
                TuiView {
                    palette_query: if s.palette_query.len() > 0 {
                        s.palette_query.drop_last()
                    } else {
                        s.palette_query
                    },
                    ..s
                },
            ),
            TuiActionView::Nothing,
        ),
        Key::Up => then(TuiView { palette_selected: move_up(s.palette_selected), ..s }, TuiActionView::Nothing),
        Key::Down => then(
            TuiView { palette_selected: move_down(s.palette_selected, s.palette_results.len()), ..s },
            TuiActionView::Nothing,
        ),
        Key::Enter => match s.palette_selected {
            Some(i) => if i < s.palette_results.len() {
                then(
                    TuiView { palette_active: false, ..s },
                    TuiActionView::Launch(s.palette_results[i as int]),
                )
            } else {
                then(s, TuiActionView::Nothing)
            },
            None => then(s, TuiActionView::Nothing),
        },
        _ => then(s, TuiActionView::Nothing),
    }
}

/// What a key press does; Control+P toggles the palette from anywhere.
pub open spec fn tui_next(s: TuiView, k: Key) -> (TuiView, TuiActionView) {
    if k == (Key::Char { c: 'p', ctrl: true }) {
        if s.palette_active {
            then(TuiView { palette_active: false, ..s }, TuiActionView::Nothing)
        } else {
            then(
                refresh_palette(TuiView { palette_active: true, palette_query: Seq::empty(), ..s }),
                TuiActionView::Nothing,
            )
        }
    } else if s.palette_active {
        palette_key(s, k)
    } else {
        match k {
            Key::Char { c, ctrl: _ } => if c == 'q' {
                then(s, TuiActionView::Quit)
            } else if digit_tab(c) is Some {
                then(TuiView { tab: digit_tab(c)->0, ..s }, TuiActionView::Nothing)
            } else if s.tab == ActiveTab::Search {
                then(TuiView { search_query: s.search_query.push(c), ..s }, TuiActionView::Search)
            } else {
                then(s, TuiActionView::Nothing)
            },
            Key::Tab => then(TuiView { tab: following_tab(s.tab), ..s }, TuiActionView::Nothing),
            Key::Backspace => if s.tab == ActiveTab::Search {
                then(
                    TuiView {
                        search_query: if s.search_query.len() > 0 {
                            s.search_query.drop_last()
                        } else {
                            s.search_query
                        },
                        ..s
                    },
                    TuiActionView::Search,
                )
            } else {
                then(s, TuiActionView::Nothing)
            },
            Key::Up => if s.tab == ActiveTab::Home {
                then(TuiView { game_selected: move_up(s.game_selected), ..s }, TuiActionView::Nothing)
            } else if s.tab == ActiveTab::Search {
                then(TuiView { search_selected: move_up(s.search_selected), ..s }, TuiActionView::Nothing)
            } else {
                then(s, TuiActionView::Nothing)
            },
            Key::Down => if s.tab == ActiveTab::Home {
                then(
                    TuiView { game_selected: move_down(s.game_selected, s.games.len()), ..s },
                    TuiActionView::Nothing,
                )
            } else if s.tab == ActiveTab::Search {
                then(
                    TuiView {
                        search_selected: move_down(s.search_selected, s.search_results.len()),
                        ..s
                    },
                    TuiActionView::Nothing,
                )
            } else {
                then(s, TuiActionView::Nothing)
            },
            Key::Enter => if s.tab == ActiveTab::Home {
                match s.game_selected {
                    Some(i) => if i < s.games.len() {
                        then(s, TuiActionView::Launch(s.games[i as int]))
                    } else {
                        then(s, TuiActionView::Nothing)
                    },
                    None => then(s, TuiActionView::Nothing),
                }
            } else if s.tab == ActiveTab::Search {
                let (t, added) = import_selected(s);
                then(
                    TuiView { tab: ActiveTab::Home, ..t },
                    if added {
                        TuiActionView::SaveLibrary
                    } else {
                        TuiActionView::Nothing
                    },
                )
            } else {
                then(s, TuiActionView::Nothing)
            },
            _ => then(s, TuiActionView::Nothing),
        }
    }
}

/// The search results gathered from every plugin that answered, in order,
/// skipping the ones that failed.
pub open spec fn gathered(answers: Seq<Result<Vec<GameInfo>, String>>) -> Seq<GameInfoView>
    decreases answers.len(),
{
    if answers.len() == 0 {
        Seq::empty()
    } else {
        gathered(answers.drop_last()) + match answers.last() {
            Ok(v) => infos_view(v@),
            Err(_) => Seq::empty(),
        }
    }
}

// ---------------------------------------------------------------------------
// Carrying out the rules.

/// The palette's results for a query over the library.
pub fn palette_results_for(games: &Vec<GameConfig>, query: &String) -> (r: Vec<GameConfig>)
    ensures
        games_view(r@) == palette_filter(games_view(games@), query@),
{
    let mut r: Vec<GameConfig> = Vec::new();
    if query.as_str().is_empty() {
        let mut i: usize = 0;
        while i < games.len()
            invariant
                i <= games@.len(),
                games_view(r@) == games_view(games@).take(i as int),
            decreases games.len() - i,
        {
            let ghost before = r@;
            let g = games[i].clone();
            r.push(g);
            assert(r@ == before.push(g));
            assert(games_view(r@) =~= games_view(before).push(g@));
            i = i + 1;
            assert(games_view(r@) =~= games_view(games@).take(i as int));
        }
        assert(games_view(games@).take(games@.len() as int) =~= games_view(games@));
        proof {
            assert(query@.len() == 0);
        }
        return r;
    }
    let q = to_lowercase(query.as_str());
    let mut i: usize = 0;
    assert(games_view(r@) =~= title_matches(games_view(games@).take(0), query@));
    while i < games.len()
        invariant
            i <= games@.len(),
            q@ == lowercase_view(query@),
            games_view(r@) == title_matches(games_view(games@).take(i as int), query@),
        decreases games.len() - i,
    {
        let ghost gv = games_view(games@);
        assert(gv.take(i + 1).drop_last() =~= gv.take(i as int));
        assert(gv.take(i + 1).last() == games@[i as int]@);
        let title = to_lowercase(games[i].title.as_str());
        if str_contains(title.as_str(), q.as_str()) {
            let ghost before = r@;
            let g = games[i].clone();
            r.push(g);
            assert(r@ == before.push(g));
            assert(games_view(r@) =~= games_view(before).push(games@[i as int]@));
        }
        i = i + 1;
    }
    assert(games_view(games@).take(games@.len() as int) =~= games_view(games@));
    proof {
        assert(query@.len() != 0);
    }
    r
}

fn first_index(len: usize) -> (r: Option<usize>)
    ensures
        r == first_of(len as nat),
{
    if len == 0 {
        None
    } else {
        Some(0)
    }
}

fn up(sel: Option<usize>) -> (r: Option<usize>)
    ensures
        r == move_up(sel),
{
    match sel {
        Some(i) => if i > 0 {
            Some(i - 1)
        } else {
            sel
        },
        None => None,
    }
}

fn down(sel: Option<usize>, len: usize) -> (r: Option<usize>)
    ensures
        r == move_down(sel, len as nat),
{
    match sel {
        Some(i) => if len > 0 && i < len - 1 {
            Some(i + 1)
        } else {
            sel
        },
        None => None,
    }
}

/// Makes the library entry for a plugin's game.
pub fn game_config_from_info(info: &GameInfo) -> (g: GameConfig)
    ensures
        g@ == game_from_info(info@),
{
    let env: Vec<(String, String)> = Vec::new();
    assert(env.deep_view() =~= Seq::<(Seq<char>, Seq<char>)>::empty());
    GameConfig {
        id: info.id.clone(),
        title: info.title.clone(),
        source: info.source.clone(),
        exe_path: info.exec_path.clone(),
        launch_args: crate::orchestrator::clone_strings(&info.launch_args),
        runner_path: None,
        env_vars: env,
        dxvk_enabled: true,
        mangohud_enabled: false,
        gamemode_enabled: false,
        play_time_seconds: 0,
        last_played: None,
        download_progress_bits: 0,
        download_speed: String::new(),
        download_eta: String::new(),
        status: owned("installed"),
    }
}

/// Whether to read the library back from storage: when the two-second
/// interval has passed and no game is running.
pub fn reload_due(interval_passed: bool, game_running: bool) -> (b: bool)
    ensures
        b == (interval_passed && !game_running),
{
    interval_passed && !game_running
}

/// Whether a game should show the now-playing screen when started: only
/// when it is not still to be downloaded.
pub fn shows_now_playing(exe_path: &str) -> (b: bool)
    ensures
        b == !is_download_link(exe_path@),
{
    !crate::launch::download_link(exe_path)
}

impl TuiState {
    /// The launcher on its library view, the first game selected, and the
    /// palette closed showing every game.
    pub fn new(initial_games: Vec<GameConfig>) -> (s: TuiState)
        ensures
            s@ == refresh_palette(
                TuiView {
                    tab: ActiveTab::Home,
                    games: games_view(initial_games@),
                    game_selected: first_of(initial_games@.len()),
                    search_query: Seq::empty(),
                    search_results: Seq::empty(),
                    search_selected: None,
                    palette_active: false,
                    palette_query: Seq::empty(),
                    palette_results: Seq::empty(),
                    palette_selected: None,
                },
            ),
    {
        let n = initial_games.len();
        let mut s = TuiState {
            tab: ActiveTab::Home,
            games: initial_games,
            game_selected: first_index(n),
            search_query: String::new(),
            search_results: Vec::new(),
            search_selected: None,
            palette_active: false,
            palette_query: String::new(),
            palette_results: Vec::new(),
            palette_selected: None,
        };
        assert(infos_view(s.search_results@) =~= Seq::<GameInfoView>::empty());
        s.update_palette_results();
        s
    }

    /// Recomputes the palette's results and selects the first.
    pub fn update_palette_results(&mut self)
        ensures
            final(self)@ == refresh_palette(old(self)@),
    {
        let r = palette_results_for(&self.games, &self.palette_query);
        self.palette_selected = first_index(r.len());
        self.palette_results = r;
    }

    /// Takes the answers of the plugins to a search, in order: the games of
    /// those that answered become the results, the first selected.
    pub fn set_search_results(&mut self, answers: Vec<Result<Vec<GameInfo>, String>>)
        ensures
            final(self)@ == (TuiView {
                search_results: gathered(answers@),
                search_selected: first_of(gathered(answers@).len()),
                ..old(self)@
            }),
    {
        let mut results: Vec<GameInfo> = Vec::new();
        let mut i: usize = 0;
        assert(infos_view(results@) =~= gathered(answers@.take(0)));
        while i < answers.len()
            invariant
                i <= answers@.len(),
                infos_view(results@) == gathered(answers@.take(i as int)),
            decreases answers.len() - i,
        {
            assert(answers@.take(i + 1).drop_last() =~= answers@.take(i as int));
            assert(answers@.take(i + 1).last() == answers@[i as int]);
            match &answers[i] {
                Ok(v) => {
                    let ghost start = infos_view(results@);
                    let mut k: usize = 0;
                    while k < v.len()
                        invariant
                            k <= v@.len(),
                            infos_view(results@) == start + infos_view(v@).take(k as int),
                        decreases v.len() - k,
                    {
                        let ghost before = results@;
                        let g = v[k].clone();
                        results.push(g);
                        assert(results@ == before.push(g));
                        assert(infos_view(results@) =~= infos_view(before).push(g@));
                        k = k + 1;
                        assert(infos_view(results@) =~= start + infos_view(v@).take(k as int));
                    }
                    assert(infos_view(v@).take(v@.len() as int) =~= infos_view(v@));
                },
                Err(_) => {
                    assert(infos_view(results@) =~= gathered(answers@.take(i as int)) + Seq::<
                        GameInfoView,
                    >::empty());
                },
            }
            i = i + 1;
        }
        assert(answers@.take(answers@.len() as int) =~= answers@);
        self.search_selected = first_index(results.len());
        self.search_results = results;
    }

    /// Replaces the library with what was read back from storage; the
    /// selections stay.
    pub fn reload_games(&mut self, games: Vec<GameConfig>)
        ensures
            final(self)@ == (TuiView { games: games_view(games@), ..old(self)@ }),
    {
        self.games = games;
    }

    fn import_selected_exec(&mut self) -> (added: bool)
        ensures
            (final(self)@, added) == import_selected(old(self)@),
    {
        match self.search_selected {
            Some(i) => {
                if i < self.search_results.len() {
                    let info = self.search_results[i].clone();
                    let mut j: usize = 0;
                    while j < self.games.len()
                        invariant
                            j <= self.games@.len(),
                            self@ == old(self)@,
                            self.search_selected == Some(i),
                            i < self.search_results@.len(),
                            info@ == infos_view(self.search_results@)[i as int],
                            forall|t: int| 0 <= t < j ==> games_view(self.games@)[t].id != info@.id,
                        decreases self.games.len() - j,
                    {
                        if self.games[j].id == info.id {
                            assert(games_view(self.games@)[j as int].id == info@.id);
                            return false;
                        }
                        j = j + 1;
                    }
                    let g = game_config_from_info(&info);
                    let ghost before = self.games@;
                    self.games.push(g);
                    assert(games_view(self.games@) =~= games_view(before).push(g@));
                    true
                } else {
                    false
                }
            },
            None => false,
        }
    }

    fn palette_key_exec(&mut self, k: Key) -> (a: TuiAction)
        requires
            old(self).palette_active,
        ensures
            (final(self)@, a@) == palette_key(old(self)@, k),
    {
        match k {
            Key::Esc => {
                self.palette_active = false;
                TuiAction::Nothing
            },
            Key::Char { c, ctrl: _ } => {
                self.palette_query = push_char(&self.palette_query, c);
                self.update_palette_results();
                TuiAction::Nothing
            },
            Key::Backspace => {
                self.palette_query = pop_char(&self.palette_query);
                self.update_palette_results();
                TuiAction::Nothing
            },
            Key::Up => {
                self.palette_selected = up(self.palette_selected);
                TuiAction::Nothing
            },
            Key::Down => {
                self.palette_selected = down(self.palette_selected, self.palette_results.len());
                TuiAction::Nothing
            },
            Key::Enter => match self.palette_selected {
                Some(i) => if i < self.palette_results.len() {
                    let g = self.palette_results[i].clone();
                    self.palette_active = false;
                    TuiAction::Launch(g)
                } else {
                    TuiAction::Nothing
                },
                None => TuiAction::Nothing,
            },
            _ => TuiAction::Nothing,
        }
    }

    /// What a key press does to the launcher, and what the caller is to do.
    pub fn handle_key(&mut self, k: Key) -> (a: TuiAction)
        ensures
            (final(self)@, a@) == tui_next(old(self)@, k),
    {
        if k == (Key::Char { c: 'p', ctrl: true }) {
            if self.palette_active {
                self.palette_active = false;
            } else {
                self.palette_active = true;
                self.palette_query = String::new();
                self.update_palette_results();
            }
            return TuiAction::Nothing;
        }
        if self.palette_active {
            return self.palette_key_exec(k);
        }
        match k {
            Key::Char { c, ctrl: _ } => {
                if c == 'q' {
                    TuiAction::Quit
                } else if c == '1' {
                    self.tab = ActiveTab::Home;
                    TuiAction::Nothing
                } else if c == '2' {
                    self.tab = ActiveTab::Search;
                    TuiAction::Nothing
                } else if c == '3' {
                    self.tab = ActiveTab::Runners;
                    TuiAction::Nothing
                } else if c == '4' {
                    self.tab = ActiveTab::Plugins;
                    TuiAction::Nothing
                } else if self.tab == ActiveTab::Search {
                    self.search_query = push_char(&self.search_query, c);
                    TuiAction::Search
                } else {
                    TuiAction::Nothing
                }
            },
            Key::Tab => {
                self.tab = match self.tab {
                    ActiveTab::Home => ActiveTab::Search,
                    ActiveTab::Search => ActiveTab::Runners,
                    ActiveTab::Runners => ActiveTab::Plugins,
                    ActiveTab::Plugins => ActiveTab::Home,
                };
                TuiAction::Nothing
            },
            Key::Backspace => {
                if self.tab == ActiveTab::Search {
                    self.search_query = pop_char(&self.search_query);
                    TuiAction::Search
                } else {
                    TuiAction::Nothing
                }
            },
            Key::Up => {
                if self.tab == ActiveTab::Home {
                    self.game_selected = up(self.game_selected);
                } else if self.tab == ActiveTab::Search {
                    self.search_selected = up(self.search_selected);
                }
                TuiAction::Nothing
            },
            Key::Down => {
                if self.tab == ActiveTab::Home {
                    self.game_selected = down(self.game_selected, self.games.len());
                } else if self.tab == ActiveTab::Search {
                    self.search_selected = down(self.search_selected, self.search_results.len());
                }
                TuiAction::Nothing
            },
            Key::Enter => {
                if self.tab == ActiveTab::Home {
                    match self.game_selected {
                        Some(i) => if i < self.games.len() {
                            TuiAction::Launch(self.games[i].clone())
                        } else {
                            TuiAction::Nothing
                        },
                        None => TuiAction::Nothing,
                    }
                } else if self.tab == ActiveTab::Search {
                    let added = self.import_selected_exec();
                    self.tab = ActiveTab::Home;
                    if added {
                        TuiAction::SaveLibrary
                    } else {
                        TuiAction::Nothing
                    }
                } else {
                    TuiAction::Nothing
                }
            },
            _ => TuiAction::Nothing,
        }
    }
}

// ---------------------------------------------------------------------------
// Laws of the launcher screen.

/// Every selection points into its list, or is absent.
pub open spec fn selections_in_bounds(s: TuiView) -> bool {
    &&& s.game_selected matches Some(i) ==> i < s.games.len()
    &&& s.search_selected matches Some(i) ==> i < s.search_results.len()
    &&& s.palette_selected matches Some(i) ==> i < s.palette_results.len()
}

/// No two games of the library share an id.
pub open spec fn ids_unique(games: Seq<GameConfigView>) -> bool {
    forall|i: int, j: int| 0 <= i < j < games.len() ==> games[i].id != games[j].id
}

/// No key press moves a selection off its list.
pub proof fn law_selections_stay_in_bounds(s: TuiView, k: Key)
    requires
        selections_in_bounds(s),
    ensures
        selections_in_bounds(tui_next(s, k).0),
{
}

/// Importing a search result never gives two games the same id.
pub proof fn law_import_keeps_ids_unique(s: TuiView, k: Key)
    requires
        ids_unique(s.games),
    ensures
        ids_unique(tui_next(s, k).0.games),
{
    let t = tui_next(s, k).0;
    if t.games.len() > s.games.len() {
        let info = s.search_results[s.search_selected->0 as int];
        assert(!has_id(s.games, info.id));
        assert forall|i: int, j: int| 0 <= i < j < t.games.len() implies t.games[i].id != t.games[j].id by {
            if j == s.games.len() {
                assert(t.games[j].id == info.id);
                assert(t.games[i] == s.games[i]);
            } else {
                assert(t.games[i] == s.games[i]);
                assert(t.games[j] == s.games[j]);
            }
        }
    }
}

/// Control+P opens the command palette when it is closed and closes it
/// when it is open, from any view.
pub proof fn law_ctrl_p_toggles_palette(s: TuiView)
    ensures
        tui_next(s, Key::Char { c: 'p', ctrl: true }).0.palette_active == !s.palette_active,
        tui_next(s, Key::Char { c: 'p', ctrl: true }).0.tab == s.tab,
{
}

/// The launcher quits exactly on `q` while the palette is closed.
pub proof fn law_quit_only_on_q(s: TuiView, k: Key)
    ensures
        tui_next(s, k).1 is Quit <==> (!s.palette_active && k is Char && k->c == 'q'),
{
}

/// A launch is always of a game in the library or among the palette's
/// results.
pub proof fn law_launch_from_library(s: TuiView, k: Key)
    ensures
        tui_next(s, k).1 matches TuiActionView::Launch(g) ==> s.games.contains(g)
            || s.palette_results.contains(g),
{
    if let TuiActionView::Launch(g) = tui_next(s, k).1 {
        if s.palette_active {
            let i = s.palette_selected->0 as int;
            assert(s.palette_results[i] == g);
        } else {
            let i = s.game_selected->0 as int;
            assert(s.games[i] == g);
        }
    }
}

/// The palette shows exactly the games whose lower-cased titles contain the
/// lower-cased query, in library order.
pub proof fn law_palette_shows_matching_games(games: Seq<GameConfigView>, q: Seq<char>)
    ensures
        forall|x: GameConfigView| title_matches(games, q).contains(x) <==> (games.contains(x)
            && contains(lowercase_view(x.title), lowercase_view(q))),
    decreases games.len(),
{
    if games.len() > 0 {
        law_palette_shows_matching_games(games.drop_last(), q);
        let rest = title_matches(games.drop_last(), q);
        assert forall|x: GameConfigView| title_matches(games, q).contains(x) <==> (games.contains(x)
            && contains(lowercase_view(x.title), lowercase_view(q))) by {
            if games.contains(x) {
                let i = choose|i: int| 0 <= i < games.len() && games[i] == x;
                if i < games.len() - 1 {
                    assert(games.drop_last()[i] == x);
                }
            }
            if games.drop_last().contains(x) {
                let i = choose|i: int| 0 <= i < games.drop_last().len() && games.drop_last()[i] == x;
                assert(games[i] == x);
            }
            if contains(lowercase_view(games.last().title), lowercase_view(q)) {
                assert(rest.push(games.last())[rest.len() as int] == games.last());
                if rest.contains(x) {
                    let i = choose|i: int| 0 <= i < rest.len() && rest[i] == x;
                    assert(rest.push(games.last())[i] == x);
                }
                if rest.push(games.last()).contains(x) {
                    let i = choose|i: int| 0 <= i < rest.len() + 1 && rest.push(games.last())[i] == x;
                    if i < rest.len() {
                        assert(rest[i] == x);
                    }
                }
            }
            assert(games[games.len() - 1] == games.last());
        }
    }
}

/// Enter on the search view, with the palette closed, adds the selected
/// plugin game to the library exactly when a result is selected and no game
/// of the library has its id; the new game comes last, keeps the plugin's
/// id, title, source, path and launch arguments, and every earlier game
/// stays as it was.
pub proof fn law_import_copies_plugin_game(s: TuiView)
    requires
        !s.palette_active,
        s.tab == ActiveTab::Search,
    ensures
        tui_next(s, Key::Enter).1 is SaveLibrary <==> (s.search_selected is Some
            && s.search_selected->0 < s.search_results.len() && forall|j: int|
            0 <= j < s.games.len() ==> s.games[j].id != s.search_results[s.search_selected->0 as int].id),
        tui_next(s, Key::Enter).1 is SaveLibrary ==> {
            let t = tui_next(s, Key::Enter).0;
            let info = s.search_results[s.search_selected->0 as int];
            let g = t.games[s.games.len() as int];
            &&& t.games.len() == s.games.len() + 1
            &&& forall|j: int| 0 <= j < s.games.len() ==> t.games[j] == s.games[j]
            &&& g.id == info.id
            &&& g.title == info.title
            &&& g.source == info.source
            &&& g.exe_path == info.exec_path
            &&& g.launch_args == info.launch_args
        },
{
    if let Some(i) = s.search_selected {
        if i < s.search_results.len() {
            let info = s.search_results[i as int];
            if has_id(s.games, info.id) {
                let j = choose|j: int| 0 <= j < s.games.len() && s.games[j].id == info.id;
                assert(s.games[j].id == info.id);
            }
        }
    }
}

/// Up, with a selection below the top of its list, selects the entry just
/// above it: in the library and the search results while the palette is
/// closed, and in the palette's results while it is open.
pub proof fn law_up_selects_previous_entry(s: TuiView, i: usize)
    requires
        i > 0,
    ensures
        !s.palette_active && s.tab == ActiveTab::Home && s.game_selected == Some(i)
            ==> tui_next(s, Key::Up).0.game_selected == Some((i - 1) as usize),
        !s.palette_active && s.tab == ActiveTab::Search && s.search_selected == Some(i)
            ==> tui_next(s, Key::Up).0.search_selected == Some((i - 1) as usize),
        s.palette_active && s.palette_selected == Some(i)
            ==> tui_next(s, Key::Up).0.palette_selected == Some((i - 1) as usize),
{
}

/// Down, with an entry below the selection, selects that entry: in the
/// library and the search results while the palette is closed, and in the
/// palette's results while it is open.
pub proof fn law_down_selects_next_entry(s: TuiView, i: usize)
    requires
        s.games.len() <= usize::MAX,
        s.search_results.len() <= usize::MAX,
        s.palette_results.len() <= usize::MAX,
    ensures
        !s.palette_active && s.tab == ActiveTab::Home && s.game_selected == Some(i) && i + 1
            < s.games.len() ==> tui_next(s, Key::Down).0.game_selected == Some((i + 1) as usize),
        !s.palette_active && s.tab == ActiveTab::Search && s.search_selected == Some(i) && i + 1
            < s.search_results.len() ==> tui_next(s, Key::Down).0.search_selected == Some(
            (i + 1) as usize,
        ),
        s.palette_active && s.palette_selected == Some(i) && i + 1 < s.palette_results.len()
            ==> tui_next(s, Key::Down).0.palette_selected == Some((i + 1) as usize),
{
}

/// Down and then Up come back to the entry they started from, whenever
/// there is an entry below it.
pub proof fn law_down_then_up_returns(s: TuiView, i: usize)
    requires
        s.games.len() <= usize::MAX,
        s.search_results.len() <= usize::MAX,
        s.palette_results.len() <= usize::MAX,
    ensures
        !s.palette_active && s.tab == ActiveTab::Home && s.game_selected == Some(i) && i + 1
            < s.games.len() ==> tui_next(tui_next(s, Key::Down).0, Key::Up).0.game_selected == Some(i),
        !s.palette_active && s.tab == ActiveTab::Search && s.search_selected == Some(i) && i + 1
            < s.search_results.len() ==> tui_next(tui_next(s, Key::Down).0, Key::Up).0.search_selected
            == Some(i),
        s.palette_active && s.palette_selected == Some(i) && i + 1 < s.palette_results.len()
            ==> tui_next(tui_next(s, Key::Down).0, Key::Up).0.palette_selected == Some(i),
{
}

} // verus!

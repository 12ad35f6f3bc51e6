//! The plugin host's own rules: what plugins report as games, what each
//! plugin is allowed to do, and the string cache plugins share.

use vstd::prelude::*;
use crate::orchestrator::{clone_opt_string, clone_strings};
use crate::text::{concat, owned};

verus! {

broadcast use vstd::string::group_string_axioms;

/// A game as a plugin describes it.
pub struct GameInfo {
    pub id: String,
    pub title: String,
    pub source: String,
    /// Magnet link, download link or executable path.
    pub exec_path: String,
    pub launch_args: Vec<String>,
    pub cover_art: Option<String>,
}

/// A plugin's game as values.
pub struct GameInfoView {
    pub id: Seq<char>,
    pub title: Seq<char>,
    pub source: Seq<char>,
    pub exec_path: Seq<char>,
    pub launch_args: Seq<Seq<char>>,
    pub cover_art: Option<Seq<char>>,
}

impl View for GameInfo {
    type V = GameInfoView;

    open spec fn view(&self) -> GameInfoView {
        GameInfoView {
            id: self.id@,
            title: self.title@,
            source: self.source@,
            exec_path: self.exec_path@,
            launch_args: self.launch_args.deep_view(),
            cover_art: self.cover_art.deep_view(),
        }
    }
}

impl Clone for GameInfo {
    fn clone(&self) -> (r: Self)
        ensures
            r@ == self@,
    {
        GameInfo {
            id: self.id.clone(),
            title: self.title.clone(),
            source: self.source.clone(),
            exec_path: self.exec_path.clone(),
            launch_args: clone_strings(&self.launch_args),
            cover_art: clone_opt_string(&self.cover_art),
        }
    }
}

/// The views of a list of games.
pub open spec fn infos_view(v: Seq<GameInfo>) -> Seq<GameInfoView> {
    v.map_values(|g: GameInfo| g@)
}

// ---------------------------------------------------------------------------
// Games reported by a plugin.

/// One entry of the list a plugin returned, read field by field: each of the
/// four text fields, or the error reading it gave; the arguments when they
/// could be read as a list of strings; the cover art when it could be read
/// as a string.
pub struct RawGameEntry {
    pub id: Result<String, String>,
    pub title: Result<String, String>,
    pub source: Result<String, String>,
    pub exec_path: Result<String, String>,
    pub launch_args: Option<Vec<String>>,
    pub cover_art: Option<String>,
}

/// The error of the first unreadable text field of an entry, in the order
/// id, title, source, path.
pub open spec fn entry_error(e: RawGameEntry) -> Option<Seq<char>> {
    match e.id {
        Err(m) => Some(m@),
        Ok(_) => match e.title {
            Err(m) => Some(m@),
            Ok(_) => match e.source {
                Err(m) => Some(m@),
                Ok(_) => match e.exec_path {
                    Err(m) => Some(m@),
                    Ok(_) => None,
                },
            },
        },
    }
}

/// The game an entry describes, when its text fields could be read:
/// missing arguments become none, and the cover art is kept when present.
pub open spec fn entry_game(e: RawGameEntry) -> GameInfoView {
    GameInfoView {
        id: e.id->Ok_0@,
        title: e.title->Ok_0@,
        source: e.source->Ok_0@,
        exec_path: e.exec_path->Ok_0@,
        launch_args: match e.launch_args {
            Some(a) => a.deep_view(),
            None => Seq::empty(),
        },
        cover_art: e.cover_art.deep_view(),
    }
}

/// The error of an entry of the list: the entry itself was unreadable, or
/// one of its text fields was.
pub open spec fn item_error(item: Result<RawGameEntry, String>) -> Option<Seq<char>> {
    match item {
        Err(m) => Some(m@),
        Ok(e) => entry_error(e),
    }
}

/// The games a list of entries describes, or the error of its first bad
/// entry.
pub open spec fn collected(items: Seq<Result<RawGameEntry, String>>) -> Result<Seq<GameInfoView>, Seq<char>>
    decreases items.len(),
{
    if items.len() == 0 {
        Ok(Seq::empty())
    } else {
        match collected(items.drop_last()) {
            Err(m) => Err(m),
            Ok(games) => match item_error(items.last()) {
                Some(m) => Err(m),
                None => Ok(games.push(entry_game(items.last()->Ok_0))),
            },
        }
    }
}

/// What a plugin's `search` or `list_installed` returned, as games: a
/// value that is not a list gives no games.
pub open spec fn games_reported(result: Option<Vec<Result<RawGameEntry, String>>>) -> Result<Seq<GameInfoView>, Seq<char>> {
    match result {
        None => Ok(Seq::empty()),
        Some(items) => collected(items@),
    }
}

fn text_field(f: &Result<String, String>) -> (r: Result<String, String>)
    ensures
        match (r, *f) {
            (Ok(a), Ok(b)) => a@ == b@,
            (Err(a), Err(b)) => a@ == b@,
            _ => false,
        },
{
    match f {
        Ok(s) => Ok(s.clone()),
        Err(m) => Err(m.clone()),
    }
}

/// The games a plugin reported, in order, or the error of the first entry
/// that could not be read. `result` is None when the plugin returned
/// something other than a list.
pub fn collect_game_infos(result: Option<Vec<Result<RawGameEntry, String>>>) -> (r: Result<Vec<GameInfo>, String>)
    ensures
        match r {
            Ok(games) => games_reported(result)
                == Ok::<Seq<GameInfoView>, Seq<char>>(infos_view(games@)),
            Err(m) => games_reported(result)
                == Err::<Seq<GameInfoView>, Seq<char>>(m@),
        },
{
    let items = match result {
        None => {
            let empty: Vec<GameInfo> = Vec::new();
            assert(infos_view(empty@) =~= Seq::<GameInfoView>::empty());
            return Ok(empty);
        },
        Some(items) => items,
    };
    let mut games: Vec<GameInfo> = Vec::new();
    let mut i: usize = 0;
    assert(items@.take(0) =~= Seq::<Result<RawGameEntry, String>>::empty());
    assert(infos_view(games@) =~= Seq::<GameInfoView>::empty());
    while i < items.len()
        invariant
            i <= items@.len(),
            games_reported(result) == collected(items@),
            collected(items@.take(i as int)) == Ok::<Seq<GameInfoView>, Seq<char>>(infos_view(games@)),
        decreases items.len() - i,
    {
        assert(items@.take(i + 1).drop_last() =~= items@.take(i as int));
        assert(items@.take(i + 1).last() == items@[i as int]);
        match &items[i] {
            Err(m) => {
                let msg = m.clone();
                proof {
                    lemma_collected_err_sticks(items@, i + 1, msg@);
                    assert(items@.take(items@.len() as int) =~= items@);
                }
                return Err(msg);
            },
            Ok(e) => {
                let id = match text_field(&e.id) {
                    Ok(s) => s,
                    Err(m) => {
                        proof {
                            lemma_collected_err_sticks(items@, i + 1, m@);
                            assert(items@.take(items@.len() as int) =~= items@);
                        }
                        return Err(m);
                    },
                };
                let title = match text_field(&e.title) {
                    Ok(s) => s,
                    Err(m) => {
                        proof {
                            lemma_collected_err_sticks(items@, i + 1, m@);
                            assert(items@.take(items@.len() as int) =~= items@);
                        }
                        return Err(m);
                    },
                };
                let source = match text_field(&e.source) {
                    Ok(s) => s,
                    Err(m) => {
                        proof {
                            lemma_collected_err_sticks(items@, i + 1, m@);
                            assert(items@.take(items@.len() as int) =~= items@);
                        }
                        return Err(m);
                    },
                };
                let exec_path = match text_field(&e.exec_path) {
                    Ok(s) => s,
                    Err(m) => {
                        proof {
                            lemma_collected_err_sticks(items@, i + 1, m@);
                            assert(items@.take(items@.len() as int) =~= items@);
                        }
                        return Err(m);
                    },
                };
                let launch_args = match &e.launch_args {
                    Some(a) => clone_strings(a),
                    None => Vec::new(),
                };
                proof {
                    assert(launch_args.deep_view() =~= match e.launch_args {
                        Some(a) => a.deep_view(),
                        None => Seq::empty(),
                    });
                }
                let info = GameInfo {
                    id,
                    title,
                    source,
                    exec_path,
                    launch_args,
                    cover_art: clone_opt_string(&e.cover_art),
                };
                let ghost before = games@;
                games.push(info);
                assert(infos_view(games@) =~= infos_view(before).push(info@));
            },
        }
        i = i + 1;
    }
    assert(items@.take(items@.len() as int) =~= items@);
    Ok(games)
}

/// Once a prefix of the entries gives an error, the whole list gives it.
proof fn lemma_collected_err_sticks(items: Seq<Result<RawGameEntry, String>>, n: int, m: Seq<char>)
    requires
        0 <= n <= items.len(),
        collected(items.take(n)) == Err::<Seq<GameInfoView>, Seq<char>>(m),
    ensures
        collected(items.take(items.len() as int)) == Err::<Seq<GameInfoView>, Seq<char>>(m),
    decreases items.len() - n,
{
    if n < items.len() {
        assert(items.take(n + 1).drop_last() =~= items.take(n));
        lemma_collected_err_sticks(items, n + 1, m);
    }
}

/// When a plugin's list is read without error, there is one game per entry,
/// in order, and each game has exactly the id, title, source and path the
/// plugin wrote in its entry, its arguments (none when it gave none) and its
/// cover art.
pub proof fn law_collected_games_keep_entry_fields(
    items: Seq<Result<RawGameEntry, String>>,
    games: Seq<GameInfoView>,
)
    requires
        collected(items) == Ok::<Seq<GameInfoView>, Seq<char>>(games),
    ensures
        games.len() == items.len(),
        forall|i: int|
            #![trigger items[i]]
            0 <= i < items.len() ==> {
                &&& items[i] matches Ok(e)
                &&& e.id matches Ok(id) && games[i].id == id@
                &&& e.title matches Ok(title) && games[i].title == title@
                &&& e.source matches Ok(source) && games[i].source == source@
                &&& e.exec_path matches Ok(path) && games[i].exec_path == path@
                &&& games[i].launch_args == match e.launch_args {
                    Some(a) => a.deep_view(),
                    None => Seq::<Seq<char>>::empty(),
                }
                &&& games[i].cover_art == e.cover_art.deep_view()
            },
    decreases items.len(),
{
    if items.len() > 0 {
        let front = items.drop_last();
        let earlier = collected(front)->Ok_0;
        law_collected_games_keep_entry_fields(front, earlier);
        assert(games == earlier.push(entry_game(items.last()->Ok_0)));
        assert forall|i: int| #![trigger items[i]] 0 <= i < items.len() implies {
            &&& items[i] matches Ok(e)
            &&& e.id matches Ok(id) && games[i].id == id@
            &&& e.title matches Ok(title) && games[i].title == title@
            &&& e.source matches Ok(source) && games[i].source == source@
            &&& e.exec_path matches Ok(path) && games[i].exec_path == path@
            &&& games[i].launch_args == match e.launch_args {
                Some(a) => a.deep_view(),
                None => Seq::<Seq<char>>::empty(),
            }
            &&& games[i].cover_art == e.cover_art.deep_view()
        } by {
            if i < items.len() - 1 {
                assert(items[i] == front[i]);
                assert(games[i] == earlier[i]);
            } else {
                assert(items[i] == items.last());
            }
        }
    }
}

// ---------------------------------------------------------------------------
// What a plugin may do.

/// The host functions a plugin can call through the `grapevine` table.
#[derive(PartialEq, Eq, Structural, Clone, Copy)]
pub enum HostFunction {
    HttpGet,
    HttpDownload,
    ReadFile,
    WriteFile,
    ReadCache,
    WriteCache,
    Execute,
}

/// The permission a host function needs, if any: `read_fs` to read files,
/// `write_fs` to write them, `execute` to run commands.
pub open spec fn permission_needed(f: HostFunction) -> Option<Seq<char>> {
    match f {
        HostFunction::ReadFile => Some("read_fs"@),
        HostFunction::WriteFile => Some("write_fs"@),
        HostFunction::Execute => Some("execute"@),
        _ => None,
    }
}

/// The guarded abilities of a plugin, from the permissions it was granted.
#[derive(Clone, Copy)]
pub struct Capabilities {
    pub read_fs: bool,
    pub write_fs: bool,
    pub execute: bool,
}

/// The abilities that a list of granted permissions gives.
pub open spec fn capabilities_spec(granted: Seq<Seq<char>>) -> Capabilities {
    Capabilities {
        read_fs: granted.contains("read_fs"@),
        write_fs: granted.contains("write_fs"@),
        execute: granted.contains("execute"@),
    }
}

/// Whether the abilities allow a host function.
pub open spec fn allows(c: Capabilities, f: HostFunction) -> bool {
    match f {
        HostFunction::ReadFile => c.read_fs,
        HostFunction::WriteFile => c.write_fs,
        HostFunction::Execute => c.execute,
        _ => true,
    }
}

fn holds(granted: &Vec<String>, p: &str) -> (b: bool)
    ensures
        b == granted.deep_view().contains(p@),
{
    let want = owned(p);
    let mut i: usize = 0;
    while i < granted.len()
        invariant
            i <= granted@.len(),
            want@ == p@,
            forall|j: int| 0 <= j < i ==> granted.deep_view()[j] != p@,
        decreases granted.len() - i,
    {
        if granted[i] == want {
            assert(granted.deep_view()[i as int] == p@);
            return true;
        }
        i = i + 1;
    }
    false
}

/// The abilities that a plugin's granted permissions give.
pub fn capabilities_of(granted: &Vec<String>) -> (c: Capabilities)
    ensures
        c == capabilities_spec(granted.deep_view()),
{
    Capabilities {
        read_fs: holds(granted, "read_fs"),
        write_fs: holds(granted, "write_fs"),
        execute: holds(granted, "execute"),
    }
}

/// Whether a plugin with these abilities may call a host function; the
/// refusal names the missing permission.
pub fn check_host_call(c: &Capabilities, f: HostFunction) -> (r: Result<(), String>)
    ensures
        r is Ok <==> allows(*c, f),
        r matches Err(m) ==> m@ == "Permission denied: "@ + permission_needed(f)->0,
{
    match f {
        HostFunction::ReadFile => if c.read_fs {
            Ok(())
        } else {
            Err(concat("Permission denied: ", "read_fs"))
        },
        HostFunction::WriteFile => if c.write_fs {
            Ok(())
        } else {
            Err(concat("Permission denied: ", "write_fs"))
        },
        HostFunction::Execute => if c.execute {
            Ok(())
        } else {
            Err(concat("Permission denied: ", "execute"))
        },
        _ => Ok(()),
    }
}

/// A plugin may read files, write files or run commands exactly when it was
/// granted `read_fs`, `write_fs` or `execute`; the other host functions are
/// open to every plugin.
pub proof fn law_permission_gate(granted: Seq<Seq<char>>, f: HostFunction)
    ensures
        allows(capabilities_spec(granted), f) <==> match permission_needed(f) {
            Some(p) => granted.contains(p),
            None => true,
        },
{
}

// ---------------------------------------------------------------------------
// Keyed lists of strings.

/// No key occurs twice.
pub open spec fn keys_unique<V>(es: Seq<(String, V)>) -> bool {
    forall|i: int, j: int| 0 <= i < j < es.len() ==> es[i].0@ != es[j].0@
}

/// The position of a key, if it occurs.
pub open spec fn has_key_at<V>(es: Seq<(String, V)>, k: Seq<char>, i: int) -> bool {
    0 <= i < es.len() && es[i].0@ == k
}

/// A map's value at a key, if it has one.
pub open spec fn lookup<V>(m: Map<Seq<char>, V>, k: Seq<char>) -> Option<V> {
    if m.contains_key(k) {
        Some(m[k])
    } else {
        None
    }
}

/// The string cache that plugins share, keyed by string.
pub struct PluginCache {
    entries: Vec<(String, String)>,
}

impl View for PluginCache {
    type V = Map<Seq<char>, Seq<char>>;

    closed spec fn view(&self) -> Map<Seq<char>, Seq<char>> {
        Map::new(
            |k: Seq<char>| exists|i: int| has_key_at(self.entries@, k, i),
            |k: Seq<char>| self.entries@[choose|i: int| has_key_at(self.entries@, k, i)].1@,
        )
    }
}

impl PluginCache {
    #[verifier::type_invariant]
    spec fn inv(self) -> bool {
        keys_unique(self.entries@)
    }

    /// An empty cache.
    pub fn new() -> (c: PluginCache)
        ensures
            c@ == Map::<Seq<char>, Seq<char>>::empty(),
    {
        let c = PluginCache { entries: Vec::new() };
        assert(c@ =~= Map::<Seq<char>, Seq<char>>::empty());
        c
    }

    fn position(&self, key: &String) -> (r: Option<usize>)
        ensures
            match r {
                Some(i) => has_key_at(self.entries@, key@, i as int),
                None => forall|i: int| !has_key_at(self.entries@, key@, i),
            },
    {
        let mut i: usize = 0;
        while i < self.entries.len()
            invariant
                i <= self.entries@.len(),
                forall|j: int| 0 <= j < i ==> !has_key_at(self.entries@, key@, j),
            decreases self.entries.len() - i,
        {
            if self.entries[i].0 == *key {
                return Some(i);
            }
            i = i + 1;
        }
        None
    }

    /// The value stored under a key (`read_cache`); None when there is none.
    pub fn get(&self, key: &String) -> (r: Option<String>)
        ensures
            r.deep_view() == lookup(self@, key@),
    {
        proof {
            use_type_invariant(self);
        }
        match self.position(key) {
            Some(i) => {
                proof {
                    let k = choose|j: int| has_key_at(self.entries@, key@, j);
                    assert(k == i);
                }
                Some(self.entries[i].1.clone())
            },
            None => None,
        }
    }

    /// Stores a value under a key (`write_cache`), replacing what was there.
    pub fn insert(&mut self, key: String, value: String)
        ensures
            final(self)@ == old(self)@.insert(key@, value@),
    {
        proof {
            use_type_invariant(&*self);
        }
        let ghost old_entries = self.entries@;
        match self.position(&key) {
            Some(i) => {
                let mut entries: Vec<(String, String)> = Vec::new();
                std::mem::swap(&mut entries, &mut self.entries);
                entries.set(i, (key, value));
                assert(keys_unique(entries@));
                self.entries = entries;
                proof {
                    assert(self@ =~= old(self)@.insert(key@, value@)) by {
                        assert forall|k: Seq<char>| #![auto] self@.contains_key(k) <==> old(self)@.insert(
                            key@,
                            value@,
                        ).contains_key(k) by {
                            if exists|j: int| has_key_at(old_entries, k, j) {
                                let j = choose|j: int| has_key_at(old_entries, k, j);
                                assert(has_key_at(self.entries@, k, j) || k == key@);
                            }
                            if exists|j: int| has_key_at(self.entries@, k, j) {
                                let j = choose|j: int| has_key_at(self.entries@, k, j);
                                if j != i {
                                    assert(has_key_at(old_entries, k, j));
                                }
                            }
                        }
                        assert forall|k: Seq<char>| #![auto] self@.contains_key(k) implies self@[k]
                            == old(self)@.insert(key@, value@)[k] by {
                            let j = choose|j: int| has_key_at(self.entries@, k, j);
                            if k == key@ {
                                assert(j == i);
                            } else {
                                assert(has_key_at(old_entries, k, j));
                                let j2 = choose|j2: int| has_key_at(old_entries, k, j2);
                                assert(j2 == j);
                            }
                        }
                    }
                }
            },
            None => {
                let mut entries: Vec<(String, String)> = Vec::new();
                std::mem::swap(&mut entries, &mut self.entries);
                entries.push((key, value));
                assert forall|a: int, b: int| 0 <= a < b < entries@.len() implies entries@[a].0@
                    != entries@[b].0@ by {
                    if b == old_entries.len() {
                        assert(!has_key_at(old_entries, key@, a));
                    } else {
                        assert(entries@[a] == old_entries[a]);
                        assert(entries@[b] == old_entries[b]);
                    }
                }
                assert(keys_unique(entries@));
                self.entries = entries;
                proof {
                    assert(self@ =~= old(self)@.insert(key@, value@)) by {
                        let n = old_entries.len() as int;
                        assert forall|k: Seq<char>| #![auto] self@.contains_key(k) <==> old(self)@.insert(
                            key@,
                            value@,
                        ).contains_key(k) by {
                            if exists|j: int| has_key_at(old_entries, k, j) {
                                let j = choose|j: int| has_key_at(old_entries, k, j);
                                assert(has_key_at(self.entries@, k, j));
                            }
                            if k == key@ {
                                assert(has_key_at(self.entries@, k, n));
                            }
                            if exists|j: int| has_key_at(self.entries@, k, j) {
                                let j = choose|j: int| has_key_at(self.entries@, k, j);
                                if j != n {
                                    assert(has_key_at(old_entries, k, j));
                                }
                            }
                        }
                        assert forall|k: Seq<char>| #![auto] self@.contains_key(k) implies self@[k]
                            == old(self)@.insert(key@, value@)[k] by {
                            let j = choose|j: int| has_key_at(self.entries@, k, j);
                            if k == key@ {
                                if j < n {
                                    assert(has_key_at(old_entries, key@, j));
                                }
                                assert(j == n);
                            } else {
                                assert(has_key_at(old_entries, k, j));
                                let j2 = choose|j2: int| has_key_at(old_entries, k, j2);
                                assert(j2 == j);
                            }
                        }
                    }
                }
            },
        }
    }
}

/// The map that a list of key/value pairs gives when stored in order
/// (a later value for a key replaces an earlier one).
pub open spec fn pairs_map(ps: Seq<(Seq<char>, Seq<char>)>) -> Map<Seq<char>, Seq<char>>
    decreases ps.len(),
{
    if ps.len() == 0 {
        Map::empty()
    } else {
        pairs_map(ps.drop_last()).insert(ps.last().0, ps.last().1)
    }
}

impl PluginCache {
    /// A cache holding the given pairs, stored in order.
    pub fn from_pairs(pairs: Vec<(String, String)>) -> (c: PluginCache)
        ensures
            c@ == pairs_map(pairs.deep_view()),
    {
        let mut c = PluginCache::new();
        let mut i: usize = 0;
        while i < pairs.len()
            invariant
                i <= pairs@.len(),
                c@ == pairs_map(pairs.deep_view().take(i as int)),
            decreases pairs.len() - i,
        {
            assert(pairs.deep_view().take(i + 1).drop_last() =~= pairs.deep_view().take(i as int));
            c.insert(pairs[i].0.clone(), pairs[i].1.clone());
            i = i + 1;
        }
        assert(pairs.deep_view().take(pairs@.len() as int) =~= pairs.deep_view());
        c
    }

    /// The stored pairs, each key once.
    pub fn to_pairs(&self) -> (r: Vec<(String, String)>)
        ensures
            keys_unique(r@),
            pairs_map(r.deep_view()) == self@,
            forall|i: int| 0 <= i < r@.len() ==> #[trigger] lookup(self@, r@[i].0@) == Some(r@[i].1@),
            forall|k: Seq<char>| self@.contains_key(k) ==> exists|i: int| has_key_at(r@, k, i),
    {
        proof {
            use_type_invariant(self);
        }
        let mut r: Vec<(String, String)> = Vec::new();
        let mut i: usize = 0;
        while i < self.entries.len()
            invariant
                i <= self.entries@.len(),
                keys_unique(self.entries@),
                r@.len() == i,
                forall|j: int| 0 <= j < i ==> #[trigger] r@[j].0@ == self.entries@[j].0@ && r@[j].1@
                    == self.entries@[j].1@,
            decreases self.entries.len() - i,
        {
            r.push((self.entries[i].0.clone(), self.entries[i].1.clone()));
            i = i + 1;
        }
        proof {
            assert forall|i: int| 0 <= i < r@.len() implies #[trigger] lookup(self@, r@[i].0@) == Some(
                r@[i].1@,
            ) by {
                assert(has_key_at(self.entries@, r@[i].0@, i));
                let j = choose|j: int| has_key_at(self.entries@, r@[i].0@, j);
                assert(j == i);
            }
            assert forall|k: Seq<char>| self@.contains_key(k) implies exists|i: int| has_key_at(r@, k, i) by {
                let j = choose|j: int| has_key_at(self.entries@, k, j);
                assert(has_key_at(r@, k, j));
            }
            assert forall|a: int, b: int| 0 <= a < b < r@.len() implies r@[a].0@ != r@[b].0@ by {
                assert(r@[a].0@ == self.entries@[a].0@);
                assert(r@[b].0@ == self.entries@[b].0@);
            }
            let d = r.deep_view();
            assert(pair_keys_unique(d));
            lemma_pairs_map(d);
            assert forall|k: Seq<char>| #![auto] pairs_map(d).contains_key(k) <==> self@.contains_key(k) by {
                if self@.contains_key(k) {
                    let i = choose|i: int| has_key_at(r@, k, i);
                    assert(d[i].0 == k);
                }
                if pairs_map(d).contains_key(k) {
                    let i = choose|i: int| 0 <= i < d.len() && d[i].0 == k;
                    assert(lookup(self@, r@[i].0@) == Some(r@[i].1@));
                }
            }
            assert forall|k: Seq<char>| #![auto] pairs_map(d).contains_key(k) implies pairs_map(d)[k] == self@[k] by {
                let i = choose|i: int| 0 <= i < d.len() && d[i].0 == k;
                assert(lookup(self@, r@[i].0@) == Some(r@[i].1@));
            }
            assert(pairs_map(d) =~= self@);
        }
        r
    }
}

/// No key occurs twice among key/value pairs.
pub open spec fn pair_keys_unique(ps: Seq<(Seq<char>, Seq<char>)>) -> bool {
    forall|i: int, j: int| 0 <= i < j < ps.len() ==> ps[i].0 != ps[j].0
}

/// The map of pairs with distinct keys holds exactly their keys, each with
/// its own value.
pub proof fn lemma_pairs_map(ps: Seq<(Seq<char>, Seq<char>)>)
    requires
        pair_keys_unique(ps),
    ensures
        forall|k: Seq<char>| #![auto] pairs_map(ps).contains_key(k) <==> exists|i: int| 0 <= i < ps.len()
            && ps[i].0 == k,
        forall|i: int| 0 <= i < ps.len() ==> #[trigger] pairs_map(ps)[ps[i].0] == ps[i].1,
    decreases ps.len(),
{
    if ps.len() > 0 {
        let rest = ps.drop_last();
        lemma_pairs_map(rest);
        let n = ps.len() - 1;
        assert forall|k: Seq<char>| #![auto] pairs_map(ps).contains_key(k) <==> exists|i: int| 0 <= i
            < ps.len() && ps[i].0 == k by {
            if exists|i: int| 0 <= i < ps.len() && ps[i].0 == k {
                let i = choose|i: int| 0 <= i < ps.len() && ps[i].0 == k;
                if i < n {
                    assert(rest[i].0 == k);
                }
            }
            if pairs_map(rest).contains_key(k) {
                let i = choose|i: int| 0 <= i < rest.len() && rest[i].0 == k;
                assert(ps[i].0 == k);
            }
            assert(ps[n].0 == ps.last().0);
        }
        assert forall|i: int| 0 <= i < ps.len() implies #[trigger] pairs_map(ps)[ps[i].0] == ps[i].1 by {
            if i < n {
                assert(rest[i] == ps[i]);
                assert(ps[i].0 != ps[n].0);
                assert(pairs_map(rest)[rest[i].0] == rest[i].1);
            } else {
                assert(ps[i] == ps.last());
            }
        }
    }
}

/// A saved cache loads back as it was, whatever order the pairs are listed
/// in: pairs with distinct keys that hold the same entries give the same
/// map.
pub proof fn law_cache_order_irrelevant(ps: Seq<(Seq<char>, Seq<char>)>, qs: Seq<(Seq<char>, Seq<char>)>)
    requires
        pair_keys_unique(ps),
        pair_keys_unique(qs),
        forall|x: (Seq<char>, Seq<char>)| ps.contains(x) <==> qs.contains(x),
    ensures
        pairs_map(ps) == pairs_map(qs),
{
    lemma_pairs_map(ps);
    lemma_pairs_map(qs);
    assert forall|k: Seq<char>| #![auto] pairs_map(ps).contains_key(k) <==> pairs_map(qs).contains_key(k) by {
        if pairs_map(ps).contains_key(k) {
            let i = choose|i: int| 0 <= i < ps.len() && ps[i].0 == k;
            assert(ps.contains(ps[i]));
            let j = choose|j: int| 0 <= j < qs.len() && qs[j] == ps[i];
            assert(qs[j].0 == k);
        }
        if pairs_map(qs).contains_key(k) {
            let i = choose|i: int| 0 <= i < qs.len() && qs[i].0 == k;
            assert(qs.contains(qs[i]));
            let j = choose|j: int| 0 <= j < ps.len() && ps[j] == qs[i];
            assert(ps[j].0 == k);
        }
    }
    assert forall|k: Seq<char>| #![auto] pairs_map(ps).contains_key(k) implies pairs_map(ps)[k] == pairs_map(qs)[k] by {
        let i = choose|i: int| 0 <= i < ps.len() && ps[i].0 == k;
        assert(ps.contains(ps[i]));
        let j = choose|j: int| 0 <= j < qs.len() && qs[j] == ps[i];
        assert(pairs_map(qs)[qs[j].0] == qs[j].1);
    }
    assert(pairs_map(ps) =~= pairs_map(qs));
}

/// Reading a key right after writing it gives the written value, and
/// writing a key leaves every other key's value as it was.
pub proof fn law_cache_read_after_write(
    cache: Map<Seq<char>, Seq<char>>,
    key: Seq<char>,
    value: Seq<char>,
    other: Seq<char>,
)
    ensures
        lookup(cache.insert(key, value), key) == Some(value),
        other != key ==> lookup(cache.insert(key, value), other) == lookup(cache, other),
{
}

/// A key never written reads as nothing from a fresh cache.
pub proof fn law_cache_starts_empty(key: Seq<char>)
    ensures
        lookup(Map::<Seq<char>, Seq<char>>::empty(), key) is None,
{
}

/// The permissions granted to each plugin, by plugin id.
pub struct PermissionGrants {
    entries: Vec<(String, Vec<String>)>,
}

impl View for PermissionGrants {
    type V = Map<Seq<char>, Seq<Seq<char>>>;

    closed spec fn view(&self) -> Map<Seq<char>, Seq<Seq<char>>> {
        Map::new(
            |k: Seq<char>| exists|i: int| has_key_at(self.entries@, k, i),
            |k: Seq<char>| self.entries@[choose|i: int| has_key_at(self.entries@, k, i)].1.deep_view(),
        )
    }
}

/// The grants after a plugin asks for permissions, and what it holds: a
/// plugin seen before keeps what it was granted; a new one is granted what
/// it asks for.
pub open spec fn grant_spec(m: Map<Seq<char>, Seq<Seq<char>>>, id: Seq<char>, requested: Seq<Seq<char>>) -> (
    Map<Seq<char>, Seq<Seq<char>>>,
    Seq<Seq<char>>,
) {
    if m.contains_key(id) {
        (m, m[id])
    } else {
        (m.insert(id, requested), requested)
    }
}

impl PermissionGrants {
    #[verifier::type_invariant]
    spec fn inv(self) -> bool {
        keys_unique(self.entries@)
    }

    /// No plugin granted anything yet.
    pub fn new() -> (g: PermissionGrants)
        ensures
            g@ == Map::<Seq<char>, Seq<Seq<char>>>::empty(),
    {
        let g = PermissionGrants { entries: Vec::new() };
        assert(g@ =~= Map::<Seq<char>, Seq<Seq<char>>>::empty());
        g
    }

    fn position(&self, id: &String) -> (r: Option<usize>)
        ensures
            match r {
                Some(i) => has_key_at(self.entries@, id@, i as int),
                None => forall|i: int| !has_key_at(self.entries@, id@, i),
            },
    {
        let mut i: usize = 0;
        while i < self.entries.len()
            invariant
                i <= self.entries@.len(),
                forall|j: int| 0 <= j < i ==> !has_key_at(self.entries@, id@, j),
            decreases self.entries.len() - i,
        {
            if self.entries[i].0 == *id {
                return Some(i);
            }
            i = i + 1;
        }
        None
    }

    /// What a plugin was granted, if it was seen.
    pub fn get(&self, id: &String) -> (r: Option<Vec<String>>)
        ensures
            r.deep_view() == lookup(self@, id@),
    {
        proof {
            use_type_invariant(self);
        }
        match self.position(id) {
            Some(i) => {
                proof {
                    let k = choose|j: int| has_key_at(self.entries@, id@, j);
                    assert(k == i);
                }
                Some(clone_strings(&self.entries[i].1))
            },
            None => None,
        }
    }

    /// A plugin asks for permissions: it keeps an earlier grant, or is
    /// granted what it asks for. Returns what it holds.
    pub fn grant(&mut self, id: &String, requested: &Vec<String>) -> (held: Vec<String>)
        ensures
            (final(self)@, held.deep_view()) == grant_spec(old(self)@, id@, requested.deep_view()),
    {
        proof {
            use_type_invariant(&*self);
        }
        let ghost old_entries = self.entries@;
        match self.position(id) {
            Some(i) => {
                proof {
                    let k = choose|j: int| has_key_at(self.entries@, id@, j);
                    assert(k == i);
                }
                clone_strings(&self.entries[i].1)
            },
            None => {
                let mut entries: Vec<(String, Vec<String>)> = Vec::new();
                std::mem::swap(&mut entries, &mut self.entries);
                let granted = clone_strings(requested);
                entries.push((id.clone(), granted));
                assert forall|a: int, b: int| 0 <= a < b < entries@.len() implies entries@[a].0@
                    != entries@[b].0@ by {
                    if b == old_entries.len() {
                        assert(!has_key_at(old_entries, id@, a));
                    } else {
                        assert(entries@[a] == old_entries[a]);
                        assert(entries@[b] == old_entries[b]);
                    }
                }
                self.entries = entries;
                proof {
                    let n = old_entries.len() as int;
                    assert(self@ =~= old(self)@.insert(id@, requested.deep_view())) by {
                        assert forall|k: Seq<char>| #![auto] self@.contains_key(k) <==> old(self)@.insert(
                            id@,
                            requested.deep_view(),
                        ).contains_key(k) by {
                            if exists|j: int| has_key_at(old_entries, k, j) {
                                let j = choose|j: int| has_key_at(old_entries, k, j);
                                assert(has_key_at(self.entries@, k, j));
                            }
                            if k == id@ {
                                assert(has_key_at(self.entries@, k, n));
                            }
                            if exists|j: int| has_key_at(self.entries@, k, j) {
                                let j = choose|j: int| has_key_at(self.entries@, k, j);
                                if j != n {
                                    assert(has_key_at(old_entries, k, j));
                                }
                            }
                        }
                        assert forall|k: Seq<char>| #![auto] self@.contains_key(k) implies self@[k]
                            == old(self)@.insert(id@, requested.deep_view())[k] by {
                            let j = choose|j: int| has_key_at(self.entries@, k, j);
                            if k == id@ {
                                if j < n {
                                    assert(has_key_at(old_entries, id@, j));
                                }
                                assert(j == n);
                            } else {
                                assert(has_key_at(old_entries, k, j));
                                let j2 = choose|j2: int| has_key_at(old_entries, k, j2);
                                assert(j2 == j);
                            }
                        }
                    }
                }
                clone_strings(requested)
            },
        }
    }
}

/// A plugin's first grant sticks: asking again, for anything, leaves the
/// grants as they were and gives what was granted the first time.
pub proof fn law_first_grant_sticks(
    m: Map<Seq<char>, Seq<Seq<char>>>,
    id: Seq<char>,
    first: Seq<Seq<char>>,
    later: Seq<Seq<char>>,
)
    ensures
        ({
            let (m1, held1) = grant_spec(m, id, first);
            let (m2, held2) = grant_spec(m1, id, later);
            m2 == m1 && held2 == held1
        }),
{
}

// ---------------------------------------------------------------------------
// Loading a plugin.

/// The `metadata` table a plugin script returned, field by field: each when
/// it could be read with the expected type.
pub struct RawPluginMetadata {
    pub id: Option<String>,
    pub name: Option<String>,
    pub permissions: Option<Vec<String>>,
}

/// Who a plugin is and what it asks for.
pub struct PluginMetadata {
    pub id: String,
    pub name: String,
    pub permissions: Vec<String>,
}

/// A plugin's metadata as values.
pub struct PluginMetadataView {
    pub id: Seq<char>,
    pub name: Seq<char>,
    pub permissions: Seq<Seq<char>>,
}

impl View for PluginMetadata {
    type V = PluginMetadataView;

    open spec fn view(&self) -> PluginMetadataView {
        PluginMetadataView { id: self.id@, name: self.name@, permissions: self.permissions.deep_view() }
    }
}

/// What evaluating a plugin script tells of the plugin: the evaluation's
/// failure, a missing `metadata` table, a missing `id` or `name` (in that
/// order), or the metadata, with no permissions when none are listed.
pub open spec fn metadata_spec(script: Result<Option<RawPluginMetadata>, String>) -> Result<PluginMetadataView, Seq<char>> {
    match script {
        Err(e) => Err("Lua evaluation failed: "@ + e@),
        Ok(None) => Err("Missing plugin metadata table"@),
        Ok(Some(m)) => match m.id {
            None => Err("Missing plugin metadata.id"@),
            Some(id) => match m.name {
                None => Err("Missing plugin metadata.name"@),
                Some(name) => Ok(
                    PluginMetadataView {
                        id: id@,
                        name: name@,
                        permissions: match m.permissions {
                            Some(p) => p.deep_view(),
                            None => Seq::empty(),
                        },
                    },
                ),
            },
        },
    }
}

/// Reads a plugin's metadata from what evaluating its script gave: the
/// evaluation error, or the `metadata` table when the script returned one.
pub fn plugin_metadata(script: Result<Option<RawPluginMetadata>, String>) -> (r: Result<PluginMetadata, String>)
    ensures
        match r {
            Ok(m) => metadata_spec(script) == Ok::<PluginMetadataView, Seq<char>>(m@),
            Err(e) => metadata_spec(script) == Err::<PluginMetadataView, Seq<char>>(e@),
        },
{
    match script {
        Err(e) => Err(concat("Lua evaluation failed: ", e.as_str())),
        Ok(None) => Err(owned("Missing plugin metadata table")),
        Ok(Some(m)) => match m.id {
            None => Err(owned("Missing plugin metadata.id")),
            Some(id) => match m.name {
                None => Err(owned("Missing plugin metadata.name")),
                Some(name) => {
                    let permissions = match m.permissions {
                        Some(p) => p,
                        None => Vec::new(),
                    };
                    proof {
                        assert(permissions.deep_view() =~= match m.permissions {
                            Some(p) => p.deep_view(),
                            None => Seq::empty(),
                        });
                    }
                    Ok(PluginMetadata { id, name, permissions })
                },
            },
        },
    }
}

/// The globals removed from a plugin's sandbox: the loaders, `require`,
/// `io` and `package`.
pub open spec fn removed_globals_spec() -> Seq<Seq<char>> {
    seq!["dofile"@, "loadfile"@, "load"@, "loadstring"@, "require"@, "io"@, "package"@]
}

/// The only `os` functions a plugin keeps.
pub open spec fn kept_os_functions_spec() -> Seq<Seq<char>> {
    seq!["time"@, "date"@, "difftime"@]
}

/// The globals removed from a plugin's sandbox.
pub fn removed_globals() -> (v: Vec<String>)
    ensures
        v.deep_view() == removed_globals_spec(),
{
    let v = vec![
        owned("dofile"),
        owned("loadfile"),
        owned("load"),
        owned("loadstring"),
        owned("require"),
        owned("io"),
        owned("package"),
    ];
    assert(v.deep_view() =~= removed_globals_spec());
    v
}

/// The `os` functions a plugin keeps; the rest of `os` is taken away.
pub fn kept_os_functions() -> (v: Vec<String>)
    ensures
        v.deep_view() == kept_os_functions_spec(),
{
    let v = vec![owned("time"), owned("date"), owned("difftime")];
    assert(v.deep_view() =~= kept_os_functions_spec());
    v
}

/// The sandbox strips `io` and `require`, and of `os` keeps neither
/// `execute` nor anything but time functions.
pub proof fn law_sandbox_strips_unsafe_modules()
    ensures
        removed_globals_spec().contains("io"@),
        removed_globals_spec().contains("require"@),
        !kept_os_functions_spec().contains("execute"@),
{
    reveal_strlit("execute");
    reveal_strlit("time");
    reveal_strlit("date");
    reveal_strlit("difftime");
    assert(removed_globals_spec()[5] == "io"@);
    assert(removed_globals_spec()[4] == "require"@);
    assert forall|i: int| 0 <= i < 3 implies kept_os_functions_spec()[i] != "execute"@ by {
        assert(kept_os_functions_spec()[i].len() != "execute"@.len() || kept_os_functions_spec()[i][0]
            != "execute"@[0]);
    }
}

} // verus!

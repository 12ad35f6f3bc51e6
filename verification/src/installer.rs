//! Unpacking downloads, silent Wine installers, and finding the game's
//! main executable inside a prefix.

use vstd::prelude::*;
use crate::text::{
    ascii_lower,
    chars_of, contains, contains_exec, extension_of, file_extension, lowercase_view, owned,
    string_from_chars, to_lowercase, concat,
};

verus! {

broadcast use vstd::string::group_string_axioms;

/// A program to run: its path or name, extra environment variables in the
/// order they are set, and its arguments.
pub struct ProcessCommand {
    pub program: String,
    pub env: Vec<(String, String)>,
    pub args: Vec<String>,
}

/// A command as values.
pub struct ProcessCommandView {
    pub program: Seq<char>,
    pub env: Seq<(Seq<char>, Seq<char>)>,
    pub args: Seq<Seq<char>>,
}

impl View for ProcessCommand {
    type V = ProcessCommandView;

    open spec fn view(&self) -> ProcessCommandView {
        ProcessCommandView {
            program: self.program@,
            env: self.env.deep_view(),
            args: self.args.deep_view(),
        }
    }
}

/// The command that unpacks an archive with the given extension, or the
/// refusal for an extension that is not handled: `.zip` with `unzip`,
/// `.gz`/`.tgz` and `.xz` with `tar`.
pub open spec fn extraction_spec(ext: Seq<char>, archive: Seq<char>, dest: Seq<char>) -> Result<ProcessCommandView, Seq<char>> {
    if ext == "zip"@ {
        Ok(ProcessCommandView { program: "unzip"@, env: seq![], args: seq!["-q"@, archive, "-d"@, dest] })
    } else if ext == "gz"@ || ext == "tgz"@ {
        Ok(ProcessCommandView { program: "tar"@, env: seq![], args: seq!["-xzf"@, archive, "-C"@, dest] })
    } else if ext == "xz"@ {
        Ok(ProcessCommandView { program: "tar"@, env: seq![], args: seq!["-xJf"@, archive, "-C"@, dest] })
    } else {
        Err("Unsupported archive extension: ."@ + ext)
    }
}

/// The extension of a file name, or nothing when it has none.
pub open spec fn extension_or_empty(name: Seq<char>) -> Seq<char> {
    match extension_of(name) {
        Some(e) => e,
        None => Seq::empty(),
    }
}

fn four(a: String, b: String, c: String, d: String) -> (v: Vec<String>)
    ensures
        v.deep_view() == seq![a@, b@, c@, d@],
{
    let v = vec![a, b, c, d];
    assert(v.deep_view() =~= seq![a@, b@, c@, d@]);
    v
}

/// The command that unpacks `archive` (whose file name is `archive_name`)
/// into `dest`, or the error for an unsupported extension.
pub fn extraction_command(archive_name: &str, archive: &str, dest: &str) -> (r: Result<ProcessCommand, String>)
    ensures
        match r {
            Ok(c) => extraction_spec(extension_or_empty(archive_name@), archive@, dest@) == Ok::<
                ProcessCommandView,
                Seq<char>,
            >(c@),
            Err(e) => extraction_spec(extension_or_empty(archive_name@), archive@, dest@) == Err::<
                ProcessCommandView,
                Seq<char>,
            >(e@),
        },
{
    let ext = match file_extension(archive_name) {
        Some(e) => e,
        None => owned(""),
    };
    proof {
        reveal_strlit("");
    }
    assert(ext@ == extension_or_empty(archive_name@));
    let no_env: Vec<(String, String)> = Vec::new();
    assert(no_env.deep_view() =~= Seq::<(Seq<char>, Seq<char>)>::empty());
    if ext == owned("zip") {
        let args = four(owned("-q"), owned(archive), owned("-d"), owned(dest));
        Ok(ProcessCommand { program: owned("unzip"), env: no_env, args })
    } else if ext == owned("gz") || ext == owned("tgz") {
        let args = four(owned("-xzf"), owned(archive), owned("-C"), owned(dest));
        Ok(ProcessCommand { program: owned("tar"), env: no_env, args })
    } else if ext == owned("xz") {
        let args = four(owned("-xJf"), owned(archive), owned("-C"), owned(dest));
        Ok(ProcessCommand { program: owned("tar"), env: no_env, args })
    } else {
        Err(concat("Unsupported archive extension: .", ext.as_str()))
    }
}

/// The flags that make common Windows installers run without asking
/// anything: Inno Setup's `/VERYSILENT /SUPPRESSMSGBOXES /NORESTART /SP-`
/// and NSIS's `/S`.
pub open spec fn silent_flags() -> Seq<Seq<char>> {
    seq!["/VERYSILENT"@, "/SUPPRESSMSGBOXES"@, "/NORESTART"@, "/SP-"@, "/S"@]
}

/// The command that runs `installer` silently with the runner, in the prefix.
pub open spec fn installer_spec(installer: Seq<char>, prefix: Seq<char>, runner: Seq<char>) -> ProcessCommandView {
    ProcessCommandView {
        program: runner,
        env: seq![("WINEPREFIX"@, prefix)],
        args: seq![installer] + silent_flags(),
    }
}

/// The command that runs a Windows installer silently inside a prefix.
pub fn silent_installer_command(installer: &str, prefix_dir: &str, runner: &str) -> (c: ProcessCommand)
    ensures
        c@ == installer_spec(installer@, prefix_dir@, runner@),
{
    let env = vec![(owned("WINEPREFIX"), owned(prefix_dir))];
    let args = vec![
        owned(installer),
        owned("/VERYSILENT"),
        owned("/SUPPRESSMSGBOXES"),
        owned("/NORESTART"),
        owned("/SP-"),
        owned("/S"),
    ];
    assert(env.deep_view() =~= seq![("WINEPREFIX"@, prefix_dir@)]);
    assert(args.deep_view() =~= seq![installer@] + silent_flags());
    ProcessCommand { program: owned(runner), env, args }
}

/// `a` and `b` are equal ignoring ASCII case (`eq_ignore_ascii_case`).
pub open spec fn eq_ignore_ascii_case(a: Seq<char>, b: Seq<char>) -> bool {
    a.len() == b.len() && forall|i: int| 0 <= i < a.len() ==> ascii_lower(a[i]) == ascii_lower(b[i])
}

/// The characters of `exe`.
pub open spec fn exe_chars() -> Seq<char> {
    Seq::empty().push('e').push('x').push('e')
}

/// A file name whose extension is `exe` in any ASCII case.
pub open spec fn is_exe_name(name: Seq<char>) -> bool {
    match extension_of(name) {
        Some(e) => eq_ignore_ascii_case(e, exe_chars()),
        None => false,
    }
}

fn ascii_lower_exec(c: char) -> (r: char)
    ensures
        r == ascii_lower(c),
{
    if 'A' <= c && c <= 'Z' {
        let n: u32 = (c as u32) + 32;
        assert(n <= 0x7f);
        char_from_ascii(n)
    } else {
        c
    }
}

fn char_from_ascii(n: u32) -> (c: char)
    requires
        n <= 0x7f,
    ensures
        c == n as char,
{
    let b: u8 = n as u8;
    b as char
}

/// Whether a file name ends in `.exe` (any ASCII case), as the executable
/// scan counts files.
pub fn has_exe_extension(name: &str) -> (b: bool)
    ensures
        b == is_exe_name(name@),
{
    match file_extension(name) {
        None => false,
        Some(e) => {
            let v = chars_of(e.as_str());
            if v.len() != 3 {
                return false;
            }
            let mut i: usize = 0;
            while i < 3
                invariant
                    i <= 3,
                    v@.len() == 3,
                    v@ == e@,
                    extension_of(name@) == Some(e@),
                    forall|j: int| 0 <= j < i ==> ascii_lower(v@[j]) == ascii_lower(exe_chars()[j]),
                decreases 3 - i,
            {
                let want: char = if i == 0 { 'e' } else if i == 1 { 'x' } else { 'e' };
                assert(want == exe_chars()[i as int]);
                if ascii_lower_exec(v[i]) != ascii_lower_exec(want) {
                    assert(ascii_lower(e@[i as int]) != ascii_lower(exe_chars()[i as int]));
                    return false;
                }
                i = i + 1;
            }
            true
        },
    }
}

/// An executable found under a prefix's `drive_c`.
pub struct ExeCandidate {
    /// Its path relative to `drive_c`, with `/` between components.
    pub relative_path: String,
    /// Its file name.
    pub file_name: String,
    /// Its size in bytes.
    pub size: u64,
}

/// An executable candidate as values.
pub struct ExeCandidateView {
    pub relative_path: Seq<char>,
    pub file_name: Seq<char>,
    pub size: u64,
}

impl View for ExeCandidate {
    type V = ExeCandidateView;

    open spec fn view(&self) -> ExeCandidateView {
        ExeCandidateView { relative_path: self.relative_path@, file_name: self.file_name@, size: self.size }
    }
}

/// A lower-case file name that marks an uninstaller, a redistributable,
/// a crash reporter, a setup program or a helper rather than the game.
pub open spec fn is_auxiliary_name(lower: Seq<char>) -> bool {
    ||| contains(lower, "unins"@)
    ||| contains(lower, "uninstall"@)
    ||| contains(lower, "uninst"@)
    ||| contains(lower, "redist"@)
    ||| contains(lower, "dxsetup"@)
    ||| contains(lower, "crash"@)
    ||| contains(lower, "cleanup"@)
    ||| contains(lower, "touchup"@)
    ||| contains(lower, "setup"@)
    ||| contains(lower, "helper"@)
}

/// A candidate that may be the game itself: its lower-cased file name is
/// not an auxiliary one.
pub open spec fn may_be_game(c: ExeCandidateView) -> bool {
    !is_auxiliary_name(lowercase_view(c.file_name))
}

/// The Wine path of a file under `drive_c`: `C:\` followed by the relative
/// path with `/` turned into `\`.
pub open spec fn wine_path(rel: Seq<char>) -> Seq<char> {
    "C:\\"@ + rel.map_values(|ch: char| if ch == '/' { '\\' } else { ch })
}

/// Position `i` holds the game's main executable: it may be the game, no
/// such candidate is larger, and every earlier such candidate is smaller.
pub open spec fn is_main_exe_at(cs: Seq<ExeCandidateView>, i: int) -> bool {
    &&& 0 <= i < cs.len()
    &&& may_be_game(cs[i])
    &&& forall|j: int| 0 <= j < cs.len() && may_be_game(cs[j]) ==> cs[j].size <= cs[i].size
    &&& forall|j: int| 0 <= j < i && may_be_game(cs[j]) ==> cs[j].size < cs[i].size
}

/// The views of a list of candidates.
pub open spec fn candidates_view(v: Seq<ExeCandidate>) -> Seq<ExeCandidateView> {
    v.map_values(|c: ExeCandidate| c@)
}

/// Whether a lower-case file name is an auxiliary one.
pub fn is_auxiliary(lower: &str) -> (b: bool)
    ensures
        b == is_auxiliary_name(lower@),
{
    let v = chars_of(lower);
    let h = v.as_slice();
    contains_exec(h, chars_of("unins").as_slice()) || contains_exec(h, chars_of("uninstall").as_slice())
        || contains_exec(h, chars_of("uninst").as_slice()) || contains_exec(h, chars_of("redist").as_slice())
        || contains_exec(h, chars_of("dxsetup").as_slice()) || contains_exec(h, chars_of("crash").as_slice())
        || contains_exec(h, chars_of("cleanup").as_slice()) || contains_exec(h, chars_of("touchup").as_slice())
        || contains_exec(h, chars_of("setup").as_slice()) || contains_exec(h, chars_of("helper").as_slice())
}

/// Whether a candidate may be the game (its name, lower-cased, is not an
/// auxiliary one).
pub fn candidate_may_be_game(c: &ExeCandidate) -> (b: bool)
    ensures
        b == may_be_game(c@),
{
    let lower = to_lowercase(c.file_name.as_str());
    !is_auxiliary(lower.as_str())
}

/// The Wine path of a file given by its path relative to `drive_c`.
pub fn to_wine_path(rel: &str) -> (p: String)
    ensures
        p@ == wine_path(rel@),
{
    let v = chars_of(rel);
    let mut out = chars_of("C:\\");
    let ghost head = out@;
    let mut k: usize = 0;
    while k < v.len()
        invariant
            k <= v.len(),
            out@ == head + v@.take(k as int).map_values(|ch: char| if ch == '/' { '\\' } else { ch }),
        decreases v.len() - k,
    {
        let c = v[k];
        if c == '/' {
            out.push('\\');
        } else {
            out.push(c);
        }
        k = k + 1;
        assert(out@ =~= head + v@.take(k as int).map_values(
            |ch: char| if ch == '/' { '\\' } else { ch },
        ));
    }
    assert(v@.take(v.len() as int) =~= v@);
    string_from_chars(out.as_slice())
}

/// The Wine path of the game's main executable among the candidates: the
/// first of the largest ones that may be the game. None when every
/// candidate is auxiliary.
pub fn pick_main_executable(cs: &Vec<ExeCandidate>) -> (r: Option<String>)
    ensures
        r is None <==> forall|j: int| 0 <= j < cs@.len() ==> !may_be_game(#[trigger] cs@[j]@),
        r matches Some(p) ==> exists|i: int|
            is_main_exe_at(candidates_view(cs@), i) && p@ == wine_path(cs@[i].relative_path@),
{
    let ghost v = candidates_view(cs@);
    let mut best: Option<usize> = None;
    let mut i: usize = 0;
    while i < cs.len()
        invariant
            i <= cs@.len(),
            v == candidates_view(cs@),
            match best {
                None => forall|j: int| 0 <= j < i ==> !may_be_game(v[j]),
                Some(b) => {
                    &&& b < i
                    &&& may_be_game(v[b as int])
                    &&& forall|j: int| 0 <= j < i && may_be_game(v[j]) ==> v[j].size <= v[b as int].size
                    &&& forall|j: int| 0 <= j < b && may_be_game(v[j]) ==> v[j].size < v[b as int].size
                },
            },
        decreases cs.len() - i,
    {
        if candidate_may_be_game(&cs[i]) {
            match best {
                None => {
                    best = Some(i);
                },
                Some(b) => {
                    if cs[i].size > cs[b].size {
                        best = Some(i);
                    }
                },
            }
        }
        i = i + 1;
    }
    match best {
        None => {
            assert forall|j: int| 0 <= j < cs@.len() implies !may_be_game(#[trigger] cs@[j]@) by {
                assert(v[j] == cs@[j]@);
            }
            None
        },
        Some(b) => {
            assert(is_main_exe_at(v, b as int));
            assert(may_be_game(cs@[b as int]@));
            Some(to_wine_path(cs[b].relative_path.as_str()))
        },
    }
}

/// The executable chosen from a scan is never an auxiliary one, and no
/// candidate that may be the game is larger.
pub proof fn law_scan_picks_largest_game(cs: Seq<ExeCandidateView>, i: int)
    requires
        is_main_exe_at(cs, i),
    ensures
        !is_auxiliary_name(lowercase_view(cs[i].file_name)),
        forall|j: int| 0 <= j < cs.len() && may_be_game(cs[j]) ==> cs[j].size <= cs[i].size,
{
}

/// At most one position holds the main executable, so the choice is
/// well defined.
pub proof fn law_main_exe_unique(cs: Seq<ExeCandidateView>, i: int, k: int)
    requires
        is_main_exe_at(cs, i),
        is_main_exe_at(cs, k),
    ensures
        i == k,
{
    if i < k {
        assert(cs[i].size < cs[k].size);
        assert(cs[k].size <= cs[i].size);
    } else if k < i {
        assert(cs[k].size < cs[i].size);
        assert(cs[i].size <= cs[k].size);
    }
}

} // verus!

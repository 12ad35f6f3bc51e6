//! Reading aria2's progress lines and preparing its command line.

use vstd::prelude::*;
use crate::text::{
    chars_of, find_from_exec, first_index, owned, path_join, join_path, stop_index_exec,
    lemma_stop_index, substring_of, until_stop,
};

verus! {

broadcast use vstd::string::group_string_axioms;

/// Download progress as aria2 reports it. The percentage is kept as the
/// text aria2 printed; its numeric value is read by the caller.
pub struct DownloadProgress {
    pub percentage: String,
    pub speed: String,
    pub eta: String,
}

/// The characters that end the ETA field of a progress line.
pub open spec fn eta_stops() -> Seq<char> {
    seq![' ', ']', '\r', '\n']
}

/// The fields of an aria2 progress line such as
/// `[#3b1a8d 12.3MiB/45.6MiB(27%) CN:3 DL:2.4MiB ETA:3m45s]`:
/// the text between the first `(` and the next `%)`, the text after the
/// first `DL:` up to a space, and the text after the first `ETA:` up to a
/// space, `]` or line break. None when a marker is missing.
pub open spec fn aria2_fields(line: Seq<char>) -> Option<(Seq<char>, Seq<char>, Seq<char>)> {
    match first_index(line, "("@) {
        None => None,
        Some(open) => match first_index(line.subrange(open, line.len() as int), "%)"@) {
            None => None,
            Some(close) => match first_index(line, "DL:"@) {
                None => None,
                Some(dl) => match first_index(line, "ETA:"@) {
                    None => None,
                    Some(eta) => Some(
                        (
                            line.subrange(open + 1, open + close),
                            until_stop(line.subrange(dl + 3, line.len() as int), seq![' ']),
                            until_stop(line.subrange(eta + 4, line.len() as int), eta_stops()),
                        ),
                    ),
                },
            },
        },
    }
}

fn find_in(h: &Vec<char>, n: &str, from: usize) -> (r: Option<usize>)
    ensures
        match r {
            Some(k) => crate::text::find_from(h@, n@, from as int) == Some(k as int),
            None => crate::text::find_from(h@, n@, from as int) is None,
        },
{
    let nv = chars_of(n);
    find_from_exec(h.as_slice(), nv.as_slice(), from)
}

/// Reads the percentage, speed and ETA out of an aria2 progress line.
pub fn parse_aria2_line(line: &str) -> (r: Option<DownloadProgress>)
    ensures
        match r {
            Some(p) => aria2_fields(line@) == Some((p.percentage@, p.speed@, p.eta@)),
            None => aria2_fields(line@) is None,
        },
{
    let v = chars_of(line);
    let ghost l = line@;
    let open = match find_in(&v, "(", 0) {
        Some(k) => k,
        None => return None,
    };
    proof {
        crate::text::lemma_find_from(l, "("@, 0);
    }
    let ghost rest = l.subrange(open as int, l.len() as int);
    let close_abs = match find_in(&v, "%)", open) {
        Some(k) => k,
        None => {
            proof {
                lemma_find_shift(l, "%)"@, open as int);
            }
            return None;
        },
    };
    proof {
        lemma_find_shift(l, "%)"@, open as int);
        crate::text::lemma_find_from(l, "%)"@, open as int);
    }
    let close = close_abs - open;
    let dl = match find_in(&v, "DL:", 0) {
        Some(k) => k,
        None => return None,
    };
    proof {
        crate::text::lemma_find_from(l, "DL:"@, 0);
    }
    let eta = match find_in(&v, "ETA:", 0) {
        Some(k) => k,
        None => return None,
    };
    proof {
        crate::text::lemma_find_from(l, "ETA:"@, 0);
        reveal_strlit("(");
        reveal_strlit("DL:");
        reveal_strlit("ETA:");
        reveal_strlit("%)");
    }
    assert(close >= 1) by {
        assert(rest[0] == '(');
        if close == 0 {
            assert(rest.subrange(0, 2)[0] == '%');
        }
    }
    let percentage = substring_of(v.as_slice(), open + 1, open + close);

    let space = vec![' '];
    assert(space@ =~= seq![' ']);
    let speed_end = stop_index_exec(v.as_slice(), space.as_slice(), dl + 3);
    let speed = substring_of(v.as_slice(), dl + 3, speed_end);
    proof {
        lemma_stop_shift(l, seq![' '], dl + 3);
    }

    let ends = vec![' ', ']', '\r', '\n'];
    assert(ends@ =~= eta_stops());
    let eta_end = stop_index_exec(v.as_slice(), ends.as_slice(), eta + 4);
    let eta_text = substring_of(v.as_slice(), eta + 4, eta_end);
    proof {
        lemma_stop_shift(l, eta_stops(), eta + 4);
    }
    assert(first_index(rest, "%)"@) == Some(close as int));
    assert(first_index(l, "("@) == Some(open as int));
    assert(first_index(l, "DL:"@) == Some(dl as int));
    assert(first_index(l, "ETA:"@) == Some(eta as int));
    assert(percentage@ == l.subrange(open + 1, open + close));
    assert(speed@ == until_stop(l.subrange(dl + 3, l.len() as int), seq![' ']));
    assert(eta_text@ == until_stop(l.subrange(eta + 4, l.len() as int), eta_stops()));
    Some(DownloadProgress { percentage, speed, eta: eta_text })
}

/// Searching a suffix is searching the whole from the suffix's start.
proof fn lemma_find_shift(h: Seq<char>, n: Seq<char>, a: int)
    requires
        0 <= a <= h.len(),
    ensures
        match first_index(h.subrange(a, h.len() as int), n) {
            Some(k) => crate::text::find_from(h, n, a) == Some(k + a),
            None => crate::text::find_from(h, n, a) is None,
        },
{
    lemma_find_shift_from(h, n, a, 0);
}

proof fn lemma_find_shift_from(h: Seq<char>, n: Seq<char>, a: int, i: int)
    requires
        0 <= a <= h.len(),
        0 <= i,
    ensures
        match crate::text::find_from(h.subrange(a, h.len() as int), n, i) {
            Some(k) => crate::text::find_from(h, n, a + i) == Some(k + a),
            None => crate::text::find_from(h, n, a + i) is None,
        },
    decreases h.len() + 1 - (a + i),
{
    let s = h.subrange(a, h.len() as int);
    if i + n.len() <= s.len() {
        assert(s.subrange(i, i + n.len()) =~= h.subrange(a + i, a + i + n.len()));
        if !crate::text::occurs_at(s, n, i) {
            lemma_find_shift_from(h, n, a, i + 1);
        }
    }
}

/// The stop search in a suffix is the stop search in the whole, shifted.
proof fn lemma_stop_shift(h: Seq<char>, stops: Seq<char>, a: int)
    requires
        0 <= a <= h.len(),
    ensures
        until_stop(h.subrange(a, h.len() as int), stops) == h.subrange(
            a,
            crate::text::stop_index(h, stops, a),
        ),
{
    lemma_stop_shift_from(h, stops, a, 0);
    lemma_stop_index(h, stops, a);
    let s = h.subrange(a, h.len() as int);
    assert(s.take(crate::text::stop_index(s, stops, 0)) =~= h.subrange(
        a,
        crate::text::stop_index(h, stops, a),
    ));
}

proof fn lemma_stop_shift_from(h: Seq<char>, stops: Seq<char>, a: int, i: int)
    requires
        0 <= a <= h.len(),
        0 <= i <= h.len() - a,
    ensures
        crate::text::stop_index(h.subrange(a, h.len() as int), stops, i) + a
            == crate::text::stop_index(h, stops, a + i),
    decreases h.len() - a - i,
{
    let s = h.subrange(a, h.len() as int);
    if i < s.len() && !stops.contains(s[i]) {
        lemma_stop_shift_from(h, stops, a, i + 1);
    }
}

/// The arguments aria2 is started with to fetch `magnet_link` into
/// `dest_dir`: no RPC, no seeding, and a two-minute limit without peers.
pub fn aria2_args(dest_dir: &str, magnet_link: &str) -> (v: Vec<String>)
    ensures
        v.deep_view() == seq![
            "--enable-rpc=false"@,
            "--seed-time=0"@,
            "--bt-stop-timeout=120"@,
            "--dir"@,
            dest_dir@,
            magnet_link@,
        ],
{
    let v = vec![
        owned("--enable-rpc=false"),
        owned("--seed-time=0"),
        owned("--bt-stop-timeout=120"),
        owned("--dir"),
        owned(dest_dir),
        owned(magnet_link),
    ];
    assert(v.deep_view() =~= seq![
        "--enable-rpc=false"@,
        "--seed-time=0"@,
        "--bt-stop-timeout=120"@,
        "--dir"@,
        dest_dir@,
        magnet_link@,
    ]);
    v
}

/// `~/.local/bin/aria2c` under a home directory.
pub open spec fn local_aria2c_in(home: Seq<char>) -> Seq<char> {
    path_join(path_join(path_join(home, ".local"@), "bin"@), "aria2c"@)
}

/// The per-user aria2c location under a given home directory.
pub fn local_aria2c_path_in(home: &str) -> (p: String)
    ensures
        p@ == local_aria2c_in(home@),
{
    let a = join_path(home, ".local");
    let b = join_path(a.as_str(), "bin");
    join_path(b.as_str(), "aria2c")
}

/// The per-user aria2c location under the current home directory (or `.`).
pub fn local_aria2c_path() -> (p: String)
    ensures
        exists|home: Option<Seq<char>>| p@ == local_aria2c_in(crate::orchestrator::home_or_dot(home)),
{
    let home = crate::orchestrator::home_dir();
    let h = crate::orchestrator::home_text(&home);
    local_aria2c_path_in(h.as_str())
}

/// Which aria2 to run: the one on the `PATH` when it starts, else the
/// per-user copy when it exists, else the name on the `PATH` anyway.
pub fn choose_aria2_binary(path_copy_starts: bool, local_copy: &str, local_copy_exists: bool) -> (b: String)
    ensures
        b@ == if path_copy_starts {
            "aria2c"@
        } else if local_copy_exists {
            local_copy@
        } else {
            "aria2c"@
        },
{
    if path_copy_starts {
        owned("aria2c")
    } else if local_copy_exists {
        owned(local_copy)
    } else {
        owned("aria2c")
    }
}

/// What a finished download produced: the first entry of the destination
/// directory, or the directory itself when it holds none.
pub fn downloaded_path(dest_dir: &str, first_entry: Option<String>) -> (p: String)
    ensures
        p@ == match first_entry {
            Some(e) => e@,
            None => dest_dir@,
        },
{
    match first_entry {
        Some(e) => e,
        None => owned(dest_dir),
    }
}

} // verus!

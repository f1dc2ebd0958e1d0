//! Firmware discovery in a project folder: which directories to walk, which
//! files are firmware images, and how the candidates are ranked.

use vstd::prelude::*;

use crate::text::chars_of;
use crate::text::occurs_at;
use crate::text::matches_at;
use crate::text::lowercase;
use crate::text::lemma_lt_irreflexive;
use crate::text::lemma_lt_transitive;
use crate::text::lt_chars;
use crate::text::seq_lt;
use crate::text::str_eq;
use crate::text::to_lower;

verus! {

/// A firmware image found in a project folder.
pub struct FirmwareCandidate {
    pub path: String,
    pub kind: &'static str,
    pub size_kb: u64,
    pub modified: u64,
}

// ---------------------------------------------------------------------------
// The walk
// ---------------------------------------------------------------------------

/// Directories deeper than this below the project folder are not read.
pub const MAX_SCAN_DEPTH: usize = 10;

/// Directories that the scan skips: hidden ones, dependency and tooling
/// folders, and `build` inside a cargo `target` folder.
pub open spec fn ignored_dir(name: Seq<char>, in_target: bool) -> bool {
    ||| name.len() > 0 && name[0] == '.'
    ||| name == "node_modules"@
    ||| name == "tmp"@
    ||| name == "doc"@
    ||| name == "deps"@
    ||| name == "incremental"@
    ||| name == "examples"@
    ||| name == ".fingerprint"@
    ||| name == "package"@
    ||| name == "crates"@
    ||| name == "build"@ && in_target
}

/// See [`ignored_dir`].
pub fn is_ignored_dir(name: &str, in_target: bool) -> (r: bool)
    ensures
        r == ignored_dir(name@, in_target),
{
    let n = chars_of(name);
    if n.len() > 0 && n[0] == '.' {
        return true;
    }
    str_eq(name, "node_modules") || str_eq(name, "tmp") || str_eq(name, "doc") || str_eq(name, "deps")
        || str_eq(name, "incremental") || str_eq(name, "examples") || str_eq(name, ".fingerprint")
        || str_eq(name, "package") || str_eq(name, "crates") || (str_eq(name, "build") && in_target)
}

/// How the walk continues into a subdirectory named `name` of a directory
/// at `depth`: `None` when the directory is skipped, else its depth and
/// whether it lies inside a cargo `target` folder.
pub fn scan_child(name: &str, depth: usize, in_target: bool) -> (r: Option<(usize, bool)>)
    requires
        depth < usize::MAX,
    ensures
        ignored_dir(name@, in_target) ==> r is None,
        !ignored_dir(name@, in_target) ==> r == Some(((depth + 1) as usize, in_target || name@ == "target"@)),
{
    if is_ignored_dir(name, in_target) {
        None
    } else {
        Some((depth + 1, in_target || str_eq(name, "target")))
    }
}

/// Whether the walk reads a directory at `depth`.
pub fn within_scan_depth(depth: usize) -> (r: bool)
    ensures
        r == (depth <= MAX_SCAN_DEPTH),
{
    depth <= MAX_SCAN_DEPTH
}

/// Whether the first bytes of a file are the ELF magic number `7F 'E' 'L' 'F'`.
pub open spec fn elf_header(head: Seq<u8>) -> bool {
    head.len() >= 4 && head[0] == 0x7F && head[1] == 0x45 && head[2] == 0x4C && head[3] == 0x46
}

/// See [`elf_header`]; `head` holds the first bytes of the file, as many as
/// it has up to four.
pub fn has_elf_magic(head: &[u8]) -> (r: bool)
    ensures
        r == elf_header(head@),
{
    head.len() >= 4 && head[0] == 0x7F && head[1] == 0x45 && head[2] == 0x4C && head[3] == 0x46
}

/// The firmware kind of a file by its extension (compared in lower case);
/// a file without an extension counts as ELF when it has the ELF magic.
pub open spec fn kind_of(ext: Option<Seq<char>>, elf_magic: bool) -> Option<Seq<char>> {
    match ext {
        Some(e) => {
            let l = lowercase(e);
            if l == "elf"@ || l == "axf"@ {
                Some("ELF"@)
            } else if l == "hex"@ {
                Some("HEX"@)
            } else if l == "bin"@ {
                Some("BIN"@)
            } else if l == "uf2"@ {
                Some("UF2"@)
            } else {
                None
            }
        },
        None => if elf_magic {
            Some("ELF"@)
        } else {
            None
        },
    }
}

/// See [`kind_of`].
pub fn firmware_kind(ext: Option<&str>, elf_magic: bool) -> (r: Option<&'static str>)
    ensures
        match r {
            Some(k) => kind_of(
                match ext {
                    Some(e) => Some(e@),
                    None => None,
                },
                elf_magic,
            ) == Some(k@),
            None => kind_of(
                match ext {
                    Some(e) => Some(e@),
                    None => None,
                },
                elf_magic,
            ) is None,
        },
{
    match ext {
        Some(e) => {
            let l = to_lower(e);
            let ls = l.as_str();
            if str_eq(ls, "elf") || str_eq(ls, "axf") {
                Some("ELF")
            } else if str_eq(ls, "hex") {
                Some("HEX")
            } else if str_eq(ls, "bin") {
                Some("BIN")
            } else if str_eq(ls, "uf2") {
                Some("UF2")
            } else {
                None
            }
        },
        None => if elf_magic {
            Some("ELF")
        } else {
            None
        },
    }
}

/// The candidate for a file of `len` bytes, modified at `modified` (seconds
/// since the Unix epoch); empty files are not candidates.
pub fn candidate_for(path: String, kind: &'static str, len: u64, modified: u64) -> (r: Option<
    FirmwareCandidate,
>)
    ensures
        len == 0 ==> r is None,
        len > 0 ==> (r matches Some(c) && c.path == path && c.kind == kind && c.size_kb == len / 1024
            && c.modified == modified),
{
    if len == 0 {
        None
    } else {
        Some(FirmwareCandidate { path, kind, size_kb: len / 1024, modified })
    }
}

// ---------------------------------------------------------------------------
// Ranking
// ---------------------------------------------------------------------------

/// Score of a firmware kind: ELF and HEX images first, then BIN, then UF2.
pub open spec fn kind_score(kind: Seq<char>) -> int {
    if kind == "ELF"@ || kind == "HEX"@ {
        4
    } else if kind == "BIN"@ {
        2
    } else if kind == "UF2"@ {
        1
    } else {
        0
    }
}

/// A path separator: `/` or `\`.
pub open spec fn is_sep(c: char) -> bool {
    c == '/' || c == '\\'
}

/// A folder named `name` starts at position `i` of the path `p`: `name`
/// stands there, right after the start or a separator, and a separator
/// follows it (so the file name itself is no folder).
pub open spec fn folder_at(p: Seq<char>, name: Seq<char>, i: int) -> bool {
    &&& 0 <= i
    &&& i + name.len() < p.len()
    &&& occurs_at(p, name, i)
    &&& is_sep(p[i + name.len()])
    &&& (i == 0 || is_sep(p[i - 1]))
}

/// The path `p` runs through a folder named `name`, with folders separated
/// by `/` or `\`.
pub open spec fn has_folder(p: Seq<char>, name: Seq<char>) -> bool {
    exists|i: int| folder_at(p, name, i)
}

/// Score of a candidate: its kind, plus bonuses for the build-output
/// folders that its lower-case path runs through (release over debug; build
/// and output folders; Keil's Objects; bin).
pub open spec fn score(c: FirmwareCandidate) -> int {
    let p = lowercase(c.path@);
    kind_score(c.kind@) + (if has_folder(p, "release"@) {
        20int
    } else if has_folder(p, "debug"@) {
        15int
    } else {
        0int
    }) + (if has_folder(p, "build"@) || has_folder(p, "out"@) || has_folder(p, "output"@) {
        8int
    } else {
        0int
    }) + (if has_folder(p, "objects"@) {
        6int
    } else {
        0int
    }) + (if has_folder(p, "bin"@) {
        3int
    } else {
        0int
    })
}

/// Whether `c` separates path components.
fn is_sep_char(c: char) -> (r: bool)
    ensures
        r == is_sep(c),
{
    c == '/' || c == '\\'
}

/// Whether the path `p` runs through a folder named `name`.
fn has_folder_chars(p: &Vec<char>, name: &Vec<char>) -> (r: bool)
    ensures
        r == has_folder(p@, name@),
{
    let mut i: usize = 0;
    while i < p.len()
        invariant
            i <= p.len(),
            forall|k: int| 0 <= k < i ==> !folder_at(p@, name@, k),
        decreases p.len() - i,
    {
        if (i == 0 || is_sep_char(p[i - 1])) && name.len() < p.len() - i && matches_at(p, name, i)
            && is_sep_char(p[i + name.len()]) {
            assert(folder_at(p@, name@, i as int));
            return true;
        }
        i = i + 1;
    }
    assert forall|k: int| !folder_at(p@, name@, k) by {
        if 0 <= k < p.len() {
        }
    }
    false
}

/// Scores a candidate (see [`score`]).
pub fn fw_score(c: &FirmwareCandidate) -> (s: i64)
    ensures
        s == score(*c),
{
    let k = c.kind;
    let mut s: i64 = if str_eq(k, "ELF") || str_eq(k, "HEX") {
        4
    } else if str_eq(k, "BIN") {
        2
    } else if str_eq(k, "UF2") {
        1
    } else {
        0
    };
    let p = chars_of(to_lower(c.path.as_str()).as_str());
    if has_folder_chars(&p, &chars_of("release")) {
        s = s + 20;
    } else if has_folder_chars(&p, &chars_of("debug")) {
        s = s + 15;
    }
    if has_folder_chars(&p, &chars_of("build")) || has_folder_chars(&p, &chars_of("out"))
        || has_folder_chars(&p, &chars_of("output")) {
        s = s + 8;
    }
    if has_folder_chars(&p, &chars_of("objects")) {
        s = s + 6;
    }
    if has_folder_chars(&p, &chars_of("bin")) {
        s = s + 3;
    }
    s
}

/// `p` with path separators replaced by the character that sorts first, so
/// that comparing keys compares paths component by component.
pub open spec fn path_key(p: Seq<char>) -> Seq<char> {
    p.map_values(|c: char| if c == '/' || c == '\\' { '\0' } else { c })
}

/// Path order: component by component, each component by its characters.
pub open spec fn path_lt(a: Seq<char>, b: Seq<char>) -> bool {
    seq_lt(path_key(a), path_key(b))
}

/// Ranking order: higher score first, then newer, then by path.
pub open spec fn ranks_before(a: FirmwareCandidate, b: FirmwareCandidate) -> bool {
    ||| score(a) > score(b)
    ||| score(a) == score(b) && a.modified > b.modified
    ||| score(a) == score(b) && a.modified == b.modified && path_lt(a.path@, b.path@)
}

/// Where candidate `x` goes in `s`: before the first entry that it ranks
/// before, looking from position `k` on.
pub open spec fn rank_slot(s: Seq<FirmwareCandidate>, x: FirmwareCandidate, k: int) -> int
    decreases s.len() - k,
{
    if k < 0 || k >= s.len() {
        s.len() as int
    } else if ranks_before(x, s[k]) {
        k
    } else {
        rank_slot(s, x, k + 1)
    }
}

/// `s` stably sorted by [`ranks_before`] (a stable insertion sort).
pub open spec fn ranked(s: Seq<FirmwareCandidate>) -> Seq<FirmwareCandidate>
    decreases s.len(),
{
    if s.len() == 0 {
        s
    } else {
        let t = ranked(s.drop_last());
        t.insert(rank_slot(t, s.last(), 0), s.last())
    }
}

fn path_key_of(path: &str) -> (k: Vec<char>)
    ensures
        k@ == path_key(path@),
{
    let p = chars_of(path);
    let mut k: Vec<char> = Vec::new();
    let mut i: usize = 0;
    while i < p.len()
        invariant
            i <= p.len(),
            k@ == p@.take(i as int).map_values(
                |c: char|
                    if c == '/' || c == '\\' {
                        '\0'
                    } else {
                        c
                    },
            ),
        decreases p.len() - i,
    {
        let c = p[i];
        k.push(
            if c == '/' || c == '\\' {
                '\0'
            } else {
                c
            },
        );
        i = i + 1;
        assert(k@ =~= p@.take(i as int).map_values(
            |c: char|
                if c == '/' || c == '\\' {
                    '\0'
                } else {
                    c
                },
        ));
    }
    assert(p@.take(p@.len() as int) =~= p@);
    k
}

/// Ranks firmware candidates, best first, and points at the best one.
pub fn rank_candidates(candidates: Vec<FirmwareCandidate>) -> (r: (Vec<FirmwareCandidate>, Option<usize>))
    ensures
        r.0@ == ranked(candidates@),
        r.0@.to_multiset() == candidates@.to_multiset(),
        forall|i: int, j: int|
            0 <= i < j < r.0@.len() ==> !ranks_before(#[trigger] r.0@[j], #[trigger] r.0@[i]),
        r.1 == (if candidates@.len() == 0 { None } else { Some(0usize) }),
{
    let ghost m = candidates@;
    let mut rest = candidates;
    let mut out: Vec<FirmwareCandidate> = Vec::new();
    let mut scores: Vec<i64> = Vec::new();
    let mut keys: Vec<Vec<char>> = Vec::new();
    let mut j: usize = 0;
    assert(m.len() == rest.len());
    while rest.len() > 0
        invariant
            j + rest@.len() == m.len(),
            m.len() <= usize::MAX,
            rest@ == m.skip(j as int),
            out@ == ranked(m.take(j as int)),
            scores@.len() == out@.len(),
            keys@.len() == out@.len(),
            forall|k: int| 0 <= k < out@.len() ==> #[trigger] scores@[k] == score(out@[k]),
            forall|k: int| 0 <= k < out@.len() ==> #[trigger] keys@[k]@ == path_key(out@[k].path@),
        decreases rest@.len(),
    {
        let c = rest.remove(0);
        let sc = fw_score(&c);
        let key = path_key_of(c.path.as_str());
        let mut p: usize = 0;
        while p < out.len() && !(sc > scores[p] || (sc == scores[p] && (c.modified > out[p].modified
            || (c.modified == out[p].modified && lt_chars(&key, &keys[p])))))
            invariant
                p <= out@.len(),
                scores@.len() == out@.len(),
                keys@.len() == out@.len(),
                sc == score(c),
                key@ == path_key(c.path@),
                forall|k: int| 0 <= k < out@.len() ==> #[trigger] scores@[k] == score(out@[k]),
                forall|k: int|
                    0 <= k < out@.len() ==> #[trigger] keys@[k]@ == path_key(out@[k].path@),
                rank_slot(out@, c, 0) == rank_slot(out@, c, p as int),
            decreases out@.len() - p,
        {
            p = p + 1;
        }
        proof {
            assert(m.take(j + 1).drop_last() =~= m.take(j as int));
            assert(m.take(j + 1).last() == m[j as int]);
            assert(m[j as int] == c);
        }
        out.insert(p, c);
        scores.insert(p, sc);
        keys.insert(p, key);
        j = j + 1;
    }
    assert(m.take(m.len() as int) =~= m);
    let best = if out.len() == 0 {
        None
    } else {
        Some(0)
    };
    proof {
        lemma_ranked_len(m);
        lemma_ranked_sorted(m);
        lemma_ranked_permutes(m);
    }
    (out, best)
}

/// Ranking keeps every candidate.
pub proof fn lemma_ranked_len(s: Seq<FirmwareCandidate>)
    ensures
        ranked(s).len() == s.len(),
    decreases s.len(),
{
    if s.len() > 0 {
        lemma_ranked_len(s.drop_last());
        lemma_rank_slot_bounds(ranked(s.drop_last()), s.last(), 0);
    }
}

proof fn lemma_rank_slot_bounds(s: Seq<FirmwareCandidate>, x: FirmwareCandidate, k: int)
    requires
        0 <= k <= s.len(),
    ensures
        k <= rank_slot(s, x, k) <= s.len(),
    decreases s.len() - k,
{
    if k < s.len() && !ranks_before(x, s[k]) {
        lemma_rank_slot_bounds(s, x, k + 1);
    }
}

proof fn lemma_ranks_before_transitive(a: FirmwareCandidate, b: FirmwareCandidate, c: FirmwareCandidate)
    requires
        ranks_before(a, b),
        ranks_before(b, c),
    ensures
        ranks_before(a, c),
{
    if score(a) == score(b) && score(b) == score(c) && a.modified == b.modified && b.modified
        == c.modified {
        lemma_lt_transitive(path_key(a.path@), path_key(b.path@), path_key(c.path@));
    }
}

proof fn lemma_ranks_before_irreflexive(a: FirmwareCandidate)
    ensures
        !ranks_before(a, a),
{
    lemma_lt_irreflexive(path_key(a.path@));
}

/// Where a candidate is inserted: every entry before the slot is not ranked
/// below it, and the entry at the slot is.
proof fn lemma_rank_slot_props(s: Seq<FirmwareCandidate>, x: FirmwareCandidate, k: int)
    requires
        0 <= k <= s.len(),
    ensures
        forall|i: int| k <= i < rank_slot(s, x, k) ==> !ranks_before(x, #[trigger] s[i]),
        rank_slot(s, x, k) < s.len() ==> ranks_before(x, s[rank_slot(s, x, k)]),
        k <= rank_slot(s, x, k) <= s.len(),
    decreases s.len() - k,
{
    if k < s.len() && !ranks_before(x, s[k]) {
        lemma_rank_slot_props(s, x, k + 1);
    }
}

/// The ranking puts better candidates first: no candidate ranks before
/// one that comes earlier.
pub proof fn lemma_ranked_sorted(s: Seq<FirmwareCandidate>)
    ensures
        forall|i: int, j: int|
            0 <= i < j < ranked(s).len() ==> !ranks_before(#[trigger] ranked(s)[j], #[trigger] ranked(s)[i]),
    decreases s.len(),
{
    if s.len() > 0 {
        let t = ranked(s.drop_last());
        let x = s.last();
        lemma_ranked_sorted(s.drop_last());
        lemma_rank_slot_props(t, x, 0);
        let k = rank_slot(t, x, 0);
        let r = ranked(s);
        assert(r == t.insert(k, x));
        assert forall|i: int, j: int| 0 <= i < j < r.len() implies !ranks_before(
            #[trigger] r[j],
            #[trigger] r[i],
        ) by {
            if j < k {
                assert(r[i] == t[i] && r[j] == t[j]);
            } else if j == k {
                assert(r[i] == t[i] && r[j] == x);
            } else if i < k {
                assert(r[i] == t[i] && r[j] == t[j - 1]);
            } else if i == k {
                assert(r[i] == x && r[j] == t[j - 1]);
                assert(ranks_before(x, t[k]));
                if ranks_before(t[j - 1], x) {
                    lemma_ranks_before_transitive(t[j - 1], x, t[k]);
                    if j - 1 == k {
                        lemma_ranks_before_irreflexive(t[k]);
                    }
                }
            } else {
                assert(r[i] == t[i - 1] && r[j] == t[j - 1]);
            }
        }
    }
}

/// The ranking keeps exactly the candidates it was given.
pub proof fn lemma_ranked_permutes(s: Seq<FirmwareCandidate>)
    ensures
        ranked(s).to_multiset() == s.to_multiset(),
    decreases s.len(),
{
    broadcast use vstd::seq_lib::group_to_multiset_ensures;

    if s.len() > 0 {
        let t = ranked(s.drop_last());
        let x = s.last();
        lemma_ranked_permutes(s.drop_last());
        lemma_rank_slot_props(t, x, 0);
        let k = rank_slot(t, x, 0);
        assert(ranked(s) == t.insert(k, x));
        assert(s =~= s.drop_last().push(x));
    }
}

/// `p` and `q` run through the same folders among those in `names`.
pub open spec fn same_folders(p: Seq<char>, q: Seq<char>, names: Seq<Seq<char>>) -> bool {
    forall|k: int| 0 <= k < names.len() ==> has_folder(p, #[trigger] names[k]) == has_folder(q, names[k])
}

/// The build-output bonus: of two candidates of the same kind whose
/// lower-case paths run through the same release, debug, objects and bin
/// folders, one through a folder named build, out or output and the other
/// through none of these, the first scores exactly 8 more.
pub proof fn lemma_build_folder_bonus(c1: FirmwareCandidate, c2: FirmwareCandidate, name: Seq<char>)
    requires
        c1.kind@ == c2.kind@,
        name == "build"@ || name == "out"@ || name == "output"@,
        has_folder(lowercase(c1.path@), name),
        !has_folder(lowercase(c2.path@), "build"@),
        !has_folder(lowercase(c2.path@), "out"@),
        !has_folder(lowercase(c2.path@), "output"@),
        same_folders(
            lowercase(c1.path@),
            lowercase(c2.path@),
            seq!["release"@, "debug"@, "objects"@, "bin"@],
        ),
    ensures
        score(c1) == score(c2) + 8,
{
    let names = seq!["release"@, "debug"@, "objects"@, "bin"@];
    assert(names[0] == "release"@);
    assert(names[1] == "debug"@);
    assert(names[2] == "objects"@);
    assert(names[3] == "bin"@);
}

/// The release and debug bonuses: of two candidates of the same kind whose
/// lower-case paths run through the same build-output, objects and bin
/// folders and no debug folder besides, one through a release folder
/// scores 20 more than one through none; and, with no release folder on
/// either, one through a debug folder scores 15 more than one through none.
pub proof fn lemma_release_debug_bonus(c1: FirmwareCandidate, c2: FirmwareCandidate, release: bool)
    requires
        c1.kind@ == c2.kind@,
        same_folders(
            lowercase(c1.path@),
            lowercase(c2.path@),
            seq!["build"@, "out"@, "output"@, "objects"@, "bin"@],
        ),
        !has_folder(lowercase(c2.path@), "release"@),
        !has_folder(lowercase(c2.path@), "debug"@),
        release ==> has_folder(lowercase(c1.path@), "release"@),
        !release ==> !has_folder(lowercase(c1.path@), "release"@) && has_folder(
            lowercase(c1.path@),
            "debug"@,
        ),
    ensures
        score(c1) == score(c2) + if release { 20int } else { 15int },
{
    let names = seq!["build"@, "out"@, "output"@, "objects"@, "bin"@];
    assert(names[0] == "build"@);
    assert(names[1] == "out"@);
    assert(names[2] == "output"@);
    assert(names[3] == "objects"@);
    assert(names[4] == "bin"@);
}

/// The Keil objects and bin bonuses: of two candidates of the same kind
/// whose lower-case paths run through the same release, debug and
/// build-output folders and differ only in that the first runs through a
/// folder `name` (objects or bin) and the second does not, the first
/// scores 6 more for objects and 3 more for bin.
pub proof fn lemma_objects_bin_bonus(c1: FirmwareCandidate, c2: FirmwareCandidate, name: Seq<char>)
    requires
        c1.kind@ == c2.kind@,
        name == "objects"@ || name == "bin"@,
        has_folder(lowercase(c1.path@), name),
        !has_folder(lowercase(c2.path@), name),
        same_folders(
            lowercase(c1.path@),
            lowercase(c2.path@),
            seq!["release"@, "debug"@, "build"@, "out"@, "output"@, if name == "bin"@ { "objects"@ } else { "bin"@ }],
        ),
    ensures
        score(c1) == score(c2) + if name == "objects"@ { 6int } else { 3int },
{
    reveal_strlit("objects");
    reveal_strlit("bin");
    let other = if name == "bin"@ { "objects"@ } else { "bin"@ };
    let names = seq!["release"@, "debug"@, "build"@, "out"@, "output"@, other];
    assert(names[0] == "release"@);
    assert(names[1] == "debug"@);
    assert(names[2] == "build"@);
    assert(names[3] == "out"@);
    assert(names[4] == "output"@);
    assert(names[5] == other);
}

} // verus!

//! Windows path text: joining, searching, the directories that hold junk,
//! the `Run` keys, and the command-line text of start-up entries.

use vstd::prelude::*;
use crate::text::{chars_of, concat2};

verus! {

/// `pat` occurs in `s` starting at index `i`.
pub open spec fn occurs_at(s: Seq<char>, pat: Seq<char>, i: int) -> bool {
    0 <= i && i + pat.len() <= s.len() && s.subrange(i, i + pat.len()) == pat
}

/// The first index at or after `from` where `pat` occurs in `s`, if any.
pub open spec fn find_from(s: Seq<char>, pat: Seq<char>, from: int) -> Option<int>
    decreases s.len() + 1 - from,
{
    if from < 0 || from + pat.len() > s.len() {
        None
    } else if occurs_at(s, pat, from) {
        Some(from)
    } else {
        find_from(s, pat, from + 1)
    }
}

/// What [`find_from`] finds is an occurrence at or after `from`, and no
/// occurrence lies between `from` and it.
pub proof fn lemma_find_from(s: Seq<char>, pat: Seq<char>, from: int)
    ensures
        find_from(s, pat, from) matches Some(i) ==> {
            &&& from <= i
            &&& occurs_at(s, pat, i)
            &&& forall|k: int| from <= k < i ==> !occurs_at(s, pat, k)
        },
        find_from(s, pat, from) is None && 0 <= from ==> forall|k: int|
            from <= k ==> !occurs_at(s, pat, k),
    decreases s.len() + 1 - from,
{
    if from < 0 || from + pat.len() > s.len() {
    } else if occurs_at(s, pat, from) {
    } else {
        lemma_find_from(s, pat, from + 1);
    }
}

/// Whether `pat` occurs in `s` at index `i`.
pub fn matches_at(s: &Vec<char>, pat: &Vec<char>, i: usize) -> (r: bool)
    requires
        i + pat.len() <= s.len(),
    ensures
        r == occurs_at(s@, pat@, i as int),
{
    let mut k: usize = 0;
    while k < pat.len()
        invariant
            k <= pat.len(),
            i + pat.len() <= s.len(),
            forall|j: int| 0 <= j < k ==> s@[i + j] == pat@[j],
        decreases pat.len() - k,
    {
        if s[i + k] != pat[k] {
            assert(s@.subrange(i as int, i + pat.len())[k as int] != pat@[k as int]);
            return false;
        }
        k = k + 1;
    }
    assert(s@.subrange(i as int, i + pat.len()) =~= pat@);
    true
}

/// The first index at or after `from` where `pat` occurs in `s`.
pub fn find_in(s: &Vec<char>, pat: &Vec<char>, from: usize) -> (r: Option<usize>)
    requires
        from <= s.len(),
    ensures
        match r {
            Some(i) => find_from(s@, pat@, from as int) == Some(i as int),
            None => find_from(s@, pat@, from as int) is None,
        },
{
    let mut i = from;
    while pat.len() <= s.len() - i
        invariant
            from <= i <= s.len(),
            find_from(s@, pat@, from as int) == find_from(s@, pat@, i as int),
        decreases s.len() + 1 - i,
    {
        if matches_at(s, pat, i) {
            return Some(i);
        }
        if i == s.len() {
            assert(s@.subrange(i as int, i as int) =~= pat@);
            return None;
        }
        i = i + 1;
    }
    None
}

/// Separators of Windows paths.
pub open spec fn is_separator(c: char) -> bool {
    c == '\\' || c == '/'
}

/// An ASCII letter.
pub open spec fn is_ascii_letter(c: char) -> bool {
    ('a' <= c && c <= 'z') || ('A' <= c && c <= 'Z')
}

/// A path that is a drive prefix alone, such as `C:`.
pub open spec fn is_drive_only(p: Seq<char>) -> bool {
    p.len() == 2 && p[1] == ':' && is_ascii_letter(p[0])
}

/// Joining onto `base` puts a separator in between.
pub open spec fn needs_separator(base: Seq<char>) -> bool {
    base.len() > 0 && !is_separator(base.last()) && !is_drive_only(base)
}

/// A relative path made of plain names: not empty, no drive, no root, no
/// forward slashes, names separated by single backslashes, and no name
/// starting with `.` (so no `.` or `..` names).
pub open spec fn is_plain_relative(rel: Seq<char>) -> bool {
    &&& rel.len() > 0
    &&& rel[0] != '\\'
    &&& rel.last() != '\\'
    &&& forall|i: int| 0 <= i < rel.len() ==> #[trigger] rel[i] != '/' && rel[i] != ':'
    &&& rel[0] != '.'
    &&& forall|i: int| 0 < i < rel.len() ==> (#[trigger] rel[i] == '.' ==> rel[i - 1] != '\\')
    &&& forall|i: int| 0 < i < rel.len() ==> (#[trigger] rel[i] == '\\' ==> rel[i - 1] != '\\')
}

/// A verbatim path, which starts with `\\?\`.
pub open spec fn is_verbatim(p: Seq<char>) -> bool {
    p.len() >= 4 && p[0] == '\\' && p[1] == '\\' && p[2] == '?' && p[3] == '\\'
}

/// Where the first name of a verbatim path (such as `C:` in `\\?\C:\x`) ends:
/// at the first backslash after `\\?\`, or at the end.
pub open spec fn verbatim_head_end(p: Seq<char>) -> int {
    match find_from(p, seq!['\\'], 4) {
        Some(k) => k,
        None => p.len() as int,
    }
}

/// The character at `i` survives the collapse of separators: it is not a
/// backslash that is followed by another backslash or ends the text.
pub open spec fn kept_char(r: Seq<char>, i: int) -> bool {
    r[i] != '\\' || (i + 1 < r.len() && r[i + 1] != '\\')
}

/// The first `n` characters of `r` without the backslashes that
/// [`kept_char`] drops.
pub open spec fn collapse_prefix(r: Seq<char>, n: int) -> Seq<char>
    decreases n,
{
    if n <= 0 {
        seq![]
    } else if kept_char(r, n - 1) {
        collapse_prefix(r, n - 1).push(r[n - 1])
    } else {
        collapse_prefix(r, n - 1)
    }
}

/// A verbatim path rebuilt from its parts: its first name kept as written,
/// then each later non-empty name after a single backslash.
pub open spec fn verbatim_normal(p: Seq<char>) -> Seq<char> {
    let k = verbatim_head_end(p);
    let rest = p.skip(k);
    p.take(k) + collapse_prefix(rest, rest.len() as int)
}

/// `rel`, a plain relative path, pushed onto `base` as Windows pushes paths.
/// A verbatim `base` is rebuilt from its names and `rel` follows after a
/// backslash; otherwise `rel` is appended, after a backslash unless `base` is
/// empty, already ends in a separator, or is a bare drive.
pub open spec fn path_join(base: Seq<char>, rel: Seq<char>) -> Seq<char> {
    if is_verbatim(base) {
        verbatim_normal(base) + seq!['\\'] + rel
    } else if needs_separator(base) {
        base + seq!['\\'] + rel
    } else {
        base + rel
    }
}

/// Pushing onto a path that is not verbatim keeps it whole, adds `rel` at the
/// end, and keeps names apart: the result is `base`, at most one added
/// backslash, then `rel`; a separator stands right before `rel` whenever
/// `base` is a non-empty path other than a bare drive; and nothing is added
/// after a separator that `base` already ends with.
pub proof fn law_join_keeps_names_apart(base: Seq<char>, rel: Seq<char>)
    requires
        !is_verbatim(base),
    ensures
        ({
            let r = path_join(base, rel);
            &&& r.subrange(0, base.len() as int) == base
            &&& r.subrange(r.len() - rel.len(), r.len() as int) == rel
            &&& r.len() == base.len() + rel.len() || (r.len() == base.len() + rel.len() + 1
                && r[base.len() as int] == '\\')
            &&& base.len() > 0 && !is_drive_only(base) ==> is_separator(r[r.len() - rel.len() - 1])
            &&& base.len() > 0 && is_separator(base.last()) ==> r == base + rel
            &&& base.len() == 0 ==> r == rel
        }),
{
    let r = path_join(base, rel);
    assert(r.subrange(0, base.len() as int) =~= base);
    assert(r.subrange(r.len() - rel.len(), r.len() as int) =~= rel);
}

fn verbatim_normal_text(base: &str, chars: &Vec<char>) -> (r: String)
    requires
        chars@ == base@,
        is_verbatim(base@),
    ensures
        r@ == verbatim_normal(base@),
{
    let n = chars.len();
    proof {
        reveal_strlit("\\");
    }
    let bs = chars_of("\\");
    assert(bs@ == seq!['\\']);
    let k = match find_in(chars, &bs, 4) {
        Some(k) => k,
        None => n,
    };
    proof {
        lemma_find_from(base@, seq!['\\'], 4);
    }
    assert(k == verbatim_head_end(base@));
    let ghost rest = base@.skip(k as int);
    let mut s = String::from_str(base.substring_char(0, k));
    assert(base@.subrange(0, k as int) =~= base@.take(k as int));
    let mut i = k;
    while i < n
        invariant
            k <= i <= n,
            n == chars@.len(),
            chars@ == base@,
            rest == base@.skip(k as int),
            s@ == base@.take(k as int) + collapse_prefix(rest, i - k),
        decreases n - i,
    {
        assert(rest[i - k] == chars@[i as int]);
        assert(i + 1 < n ==> rest[i - k + 1] == chars@[i + 1]);
        if chars[i] != '\\' || (i + 1 < n && chars[i + 1] != '\\') {
            let piece = base.substring_char(i, i + 1);
            assert(piece@ =~= seq![chars@[i as int]]);
            s.append(piece);
        }
        i = i + 1;
    }
    s
}

/// Pushes the plain relative path `rel` onto `base` (see [`path_join`]).
pub fn join_path(base: &str, rel: &str) -> (r: String)
    requires
        is_plain_relative(rel@),
    ensures
        r@ == path_join(base@, rel@),
{
    let chars = chars_of(base);
    let n = chars.len();
    proof {
        reveal_strlit("\\");
    }
    if n >= 4 && chars[0] == '\\' && chars[1] == '\\' && chars[2] == '?' && chars[3] == '\\' {
        let mut s = verbatim_normal_text(base, &chars);
        s.append("\\");
        s.append(rel);
        return s;
    }
    let need = if n == 0 {
        false
    } else {
        let last = chars[n - 1];
        let drive_only = n == 2 && chars[1] == ':' && (('a' <= chars[0] && chars[0] <= 'z') || (
        'A' <= chars[0] && chars[0] <= 'Z'));
        last != '\\' && last != '/' && !drive_only
    };
    if need {
        let mut s = concat2(base, "\\");
        s.append(rel);
        s
    } else {
        concat2(base, rel)
    }
}

/// Windows' rule for absolute paths, as `Path::is_absolute` applies it on
/// Windows: a path is absolute when it has a prefix and a root. Paths that
/// start with two separators (UNC, device and verbatim prefixes) have an
/// implied root; a drive prefix such as `C:` needs a separator after it.
pub open spec fn is_absolute_path(p: Seq<char>) -> bool {
    ||| p.len() >= 2 && is_separator(p[0]) && is_separator(p[1])
    ||| p.len() >= 3 && is_ascii_letter(p[0]) && p[1] == ':' && is_separator(p[2])
}

/// Whether `path` is absolute on Windows (see [`is_absolute_path`]).
pub fn is_absolute_windows(path: &str) -> (r: bool)
    ensures
        r == is_absolute_path(path@),
{
    let c = chars_of(path);
    let n = c.len();
    if n >= 2 && (c[0] == '\\' || c[0] == '/') && (c[1] == '\\' || c[1] == '/') {
        return true;
    }
    n >= 3 && (('a' <= c[0] && c[0] <= 'z') || ('A' <= c[0] && c[0] <= 'Z')) && c[1] == ':' && (c[2]
        == '\\' || c[2] == '/')
}

/// The program part of a start-up command line: the text between the first
/// pair of double quotes when it starts with one (all of it when the closing
/// quote is missing); otherwise the text before the first ` -`, or failing
/// that before the first ` /`, or all of it.
pub open spec fn executable_path(s: Seq<char>) -> Seq<char> {
    if s.len() > 0 && s[0] == '"' {
        match find_from(s, seq!['"'], 1) {
            Some(j) => s.subrange(1, j),
            None => s,
        }
    } else {
        match find_from(s, " -"@, 0) {
            Some(e) => s.subrange(0, e),
            None => match find_from(s, " /"@, 0) {
                Some(e) => s.subrange(0, e),
                None => s,
            },
        }
    }
}

/// Extracts the executable's path from the command line of a start-up entry
/// (see [`executable_path`]).
pub fn extract_executable_path(data: &str) -> (r: &str)
    ensures
        r@ == executable_path(data@),
{
    let chars = chars_of(data);
    let n = chars.len();
    if n > 0 && chars[0] == '"' {
        proof {
            reveal_strlit("\"");
        }
        let quote = chars_of("\"");
        assert(quote@ == seq!['"']);
        match find_in(&chars, &quote, 1) {
            Some(j) => {
                proof {
                    lemma_find_from(data@, seq!['"'], 1);
                    assert(data@.subrange(j as int, j + 1)[0] == '"');
                }
                data.substring_char(1, j)
            },
            None => data,
        }
    } else {
        let dash = chars_of(" -");
        match find_in(&chars, &dash, 0) {
            Some(e) => {
                proof {
                    lemma_find_from(data@, " -"@, 0);
                }
                data.substring_char(0, e)
            },
            None => {
                let slash = chars_of(" /");
                match find_in(&chars, &slash, 0) {
                    Some(e) => {
                        proof {
                            lemma_find_from(data@, " /"@, 0);
                        }
                        data.substring_char(0, e)
                    },
                    None => data,
                }
            },
        }
    }
}

/// The program path is a contiguous piece of the command line it came from.
pub proof fn law_executable_path_is_part_of_command(s: Seq<char>)
    ensures
        exists|a: int, b: int| 0 <= a <= b <= s.len() && executable_path(s) == s.subrange(a, b),
{
    lemma_find_from(s, seq!['"'], 1);
    lemma_find_from(s, " -"@, 0);
    lemma_find_from(s, " /"@, 0);
    assert(s.subrange(0, s.len() as int) =~= s);
    if s.len() > 0 && s[0] == '"' {
        match find_from(s, seq!['"'], 1) {
            Some(j) => assert(executable_path(s) == s.subrange(1, j)),
            None => assert(executable_path(s) == s.subrange(0, s.len() as int)),
        }
    } else {
        match find_from(s, " -"@, 0) {
            Some(e) => assert(executable_path(s) == s.subrange(0, e)),
            None => match find_from(s, " /"@, 0) {
                Some(e) => assert(executable_path(s) == s.subrange(0, e)),
                None => assert(executable_path(s) == s.subrange(0, s.len() as int)),
            },
        }
    }
}

/// A command line that does not start with a double quote and holds ` -`
/// names the program written before the first ` -`: the program path is a
/// prefix of the command line, holds no ` -` itself, and ` -` follows it
/// directly. So options after the program never become part of its path.
pub proof fn law_program_ends_at_first_option(s: Seq<char>, k: int)
    requires
        s.len() == 0 || s[0] != '"',
        occurs_at(s, " -"@, k),
    ensures
        ({
            let r = executable_path(s);
            &&& r.len() <= k
            &&& r == s.subrange(0, r.len() as int)
            &&& occurs_at(s, " -"@, r.len() as int)
            &&& forall|j: int| !occurs_at(r, " -"@, j)
        }),
{
    reveal_strlit(" -");
    lemma_find_from(s, " -"@, 0);
    let r = executable_path(s);
    match find_from(s, " -"@, 0) {
        Some(e) => {
            assert(r == s.subrange(0, e));
            assert forall|j: int| !occurs_at(r, " -"@, j) by {
                if occurs_at(r, " -"@, j) {
                    assert(r.subrange(j, j + 2) =~= s.subrange(j, j + 2));
                    assert(occurs_at(s, " -"@, j));
                }
            }
        },
        None => {
            assert(!occurs_at(s, " -"@, k));
        },
    }
}

/// A command line that starts with a double quote names the program written
/// between it and the next double quote: the path holds no double quote, the
/// next character is the closing quote, and without a closing quote the whole
/// command line is taken.
pub proof fn law_quoted_program(s: Seq<char>)
    requires
        s.len() > 0,
        s[0] == '"',
    ensures
        ({
            let r = executable_path(s);
            (exists|k: int| 1 <= k < s.len() && #[trigger] s[k] == '"') ==> {
                &&& r.len() + 1 < s.len()
                &&& r == s.subrange(1, r.len() + 1int)
                &&& s[r.len() + 1int] == '"'
                &&& forall|j: int| 0 <= j < r.len() ==> #[trigger] r[j] != '"'
            }
        }),
        (forall|k: int| 1 <= k < s.len() ==> #[trigger] s[k] != '"') ==> executable_path(s) == s,
{
    lemma_find_from(s, seq!['"'], 1);
    let r = executable_path(s);
    match find_from(s, seq!['"'], 1) {
        Some(q) => {
            assert(s.subrange(q, q + 1)[0] == s[q]);
            assert(r == s.subrange(1, q));
            assert forall|j: int| 0 <= j < r.len() implies #[trigger] r[j] != '"' by {
                assert(r[j] == s[j + 1]);
                if s[j + 1] == '"' {
                    assert(s.subrange(j + 1, j + 2) =~= seq!['"']);
                    assert(occurs_at(s, seq!['"'], j + 1));
                }
            }
        },
        None => {
            if exists|k: int| 1 <= k < s.len() && #[trigger] s[k] == '"' {
                let k = choose|k: int| 1 <= k < s.len() && #[trigger] s[k] == '"';
                assert(s.subrange(k, k + 1) =~= seq!['"']);
                assert(occurs_at(s, seq!['"'], k));
            }
        },
    }
}

/// A command line that does not start with a double quote and holds no ` -`
/// but holds ` /` names the program written before the first ` /`; with
/// neither, the whole command line is the program.
pub proof fn law_program_ends_at_first_slash_option(s: Seq<char>)
    requires
        s.len() == 0 || s[0] != '"',
        forall|k: int| !occurs_at(s, " -"@, k),
    ensures
        ({
            let r = executable_path(s);
            (exists|k: int| occurs_at(s, " /"@, k)) ==> {
                &&& r == s.subrange(0, r.len() as int)
                &&& occurs_at(s, " /"@, r.len() as int)
                &&& forall|j: int| !occurs_at(r, " /"@, j)
            }
        }),
        (forall|k: int| !occurs_at(s, " /"@, k)) ==> executable_path(s) == s,
{
    reveal_strlit(" /");
    lemma_find_from(s, " -"@, 0);
    lemma_find_from(s, " /"@, 0);
    let r = executable_path(s);
    if find_from(s, " -"@, 0) is Some {
        let e = find_from(s, " -"@, 0)->0;
        assert(occurs_at(s, " -"@, e));
    }
    match find_from(s, " /"@, 0) {
        Some(e) => {
            assert(r == s.subrange(0, e));
            assert forall|j: int| !occurs_at(r, " /"@, j) by {
                if occurs_at(r, " /"@, j) {
                    assert(r.subrange(j, j + 2) =~= s.subrange(j, j + 2));
                    assert(occurs_at(s, " /"@, j));
                }
            }
        },
        None => {},
    }
}

/// The lower-case form of a text, as `str::to_lowercase` gives it.
pub uninterp spec fn lowercase(s: Seq<char>) -> Seq<char>;

/// Calls `str::to_lowercase`, whose result is named by [`lowercase`].
#[verifier::external_body]
fn to_lowercase(s: &str) -> (r: String)
    ensures
        r@ == lowercase(s@),
{
    s.to_lowercase()
}

/// `p` is a prefix of `s`.
pub open spec fn has_prefix(s: Seq<char>, p: Seq<char>) -> bool {
    p.len() <= s.len() && s.subrange(0, p.len() as int) == p
}

/// Whether `s` starts with `p`.
pub fn starts_with(s: &str, p: &str) -> (r: bool)
    ensures
        r == has_prefix(s@, p@),
{
    let sc = chars_of(s);
    let pc = chars_of(p);
    if pc.len() > sc.len() {
        return false;
    }
    matches_at(&sc, &pc, 0)
}

/// Lower-case path prefixes that the large-file finder does not enter.
pub open spec fn protected_prefix(lower: Seq<char>) -> bool {
    ||| has_prefix(lower, "c:\\windows"@)
    ||| has_prefix(lower, "c:\\program files"@)
    ||| has_prefix(lower, "c:\\program files (x86)"@)
    ||| has_prefix(lower, "c:\\programdata"@)
    ||| has_prefix(lower, "c:\\$recycle.bin"@)
}

/// The large-file finder skips exactly what lies under one of five system
/// directories of drive C: every lower-case path that starts with
/// `c:\windows`, `c:\program files`, `c:\program files (x86)`,
/// `c:\programdata` or `c:\$recycle.bin` is protected, and a protected path
/// always starts with `c:\`.
pub proof fn law_protected_directories(lower: Seq<char>)
    ensures
        has_prefix(lower, "c:\\windows"@) ==> protected_prefix(lower),
        has_prefix(lower, "c:\\program files"@) ==> protected_prefix(lower),
        has_prefix(lower, "c:\\program files (x86)"@) ==> protected_prefix(lower),
        has_prefix(lower, "c:\\programdata"@) ==> protected_prefix(lower),
        has_prefix(lower, "c:\\$recycle.bin"@) ==> protected_prefix(lower),
        protected_prefix(lower) ==> lower.len() >= 3 && lower[0] == 'c' && lower[1] == ':'
            && lower[2] == '\\',
{
    reveal_strlit("c:\\windows");
    reveal_strlit("c:\\program files");
    reveal_strlit("c:\\program files (x86)");
    reveal_strlit("c:\\programdata");
    reveal_strlit("c:\\$recycle.bin");
    if protected_prefix(lower) {
        let p = if has_prefix(lower, "c:\\windows"@) {
            "c:\\windows"@
        } else if has_prefix(lower, "c:\\program files"@) {
            "c:\\program files"@
        } else if has_prefix(lower, "c:\\program files (x86)"@) {
            "c:\\program files (x86)"@
        } else if has_prefix(lower, "c:\\programdata"@) {
            "c:\\programdata"@
        } else {
            "c:\\$recycle.bin"@
        };
        assert(lower.subrange(0, p.len() as int)[0] == p[0]);
        assert(lower.subrange(0, p.len() as int)[1] == p[1]);
        assert(lower.subrange(0, p.len() as int)[2] == p[2]);
    }
}

/// Whether an already lower-cased path lies under a protected system directory.
pub fn is_protected_lowercase(lower: &str) -> (r: bool)
    ensures
        r == protected_prefix(lower@),
{
    starts_with(lower, "c:\\windows") || starts_with(lower, "c:\\program files")
        || starts_with(lower, "c:\\program files (x86)") || starts_with(lower, "c:\\programdata")
        || starts_with(lower, "c:\\$recycle.bin")
}

/// Whether the large-file finder skips `path` (and all below it): its lower-case
/// form starts with a protected system directory.
pub fn is_protected_path(path: &str) -> (r: bool)
    ensures
        r == protected_prefix(lowercase(path@)),
{
    let lower = to_lowercase(path);
    is_protected_lowercase(lower.as_str())
}

} // verus!

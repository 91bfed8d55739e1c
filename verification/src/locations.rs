//! Where the cleaner looks: the directories that hold junk and the registry
//! keys that start programs at logon.

use vstd::prelude::*;
use crate::paths::{is_plain_relative, join_path, path_join};

verus! {

/// The environment variables that locate per-user junk, each present only when
/// it is set to valid Unicode.
pub struct JunkEnvironment {
    pub temp: Option<String>,
    pub appdata: Option<String>,
    pub local_appdata: Option<String>,
}

/// A directory that may hold junk; `must_exist` says that it is kept only when
/// it exists on disk.
pub struct DirCandidate {
    pub path: String,
    pub must_exist: bool,
}

/// The text of an optional string.
pub open spec fn opt_text(o: Option<String>) -> Option<Seq<char>> {
    match o {
        Some(s) => Some(s@),
        None => None,
    }
}

/// The views of a sequence of candidates: each path with its existence flag.
pub open spec fn candidate_views(s: Seq<DirCandidate>) -> Seq<(Seq<char>, bool)> {
    s.map_values(|c: DirCandidate| (c.path@, c.must_exist))
}

/// Paths that are kept only when they exist.
pub open spec fn checked(s: Seq<Seq<char>>) -> Seq<(Seq<char>, bool)> {
    s.map_values(|p: Seq<char>| (p, true))
}

/// `%APPDATA%\Microsoft\Windows\Recent`.
pub open spec fn recent_dir(appdata: Seq<char>) -> Seq<char> {
    path_join(path_join(path_join(appdata, "Microsoft"@), "Windows"@), "Recent"@)
}

/// `%LOCALAPPDATA%\Mozilla\Firefox\Profiles`.
pub open spec fn firefox_profiles_path(local: Seq<char>) -> Seq<char> {
    path_join(local, "Mozilla\\Firefox\\Profiles"@)
}

/// Crash dumps and browser caches under `%LOCALAPPDATA%`, in the order they are checked.
pub open spec fn local_dirs(local: Seq<char>) -> Seq<Seq<char>> {
    seq![
        path_join(local, "CrashDumps"@),
        path_join(local, "Google\\Chrome\\User Data\\Default\\Cache\\Cache_Data"@),
        path_join(local, "Google\\Chrome\\User Data\\Default\\System Cache\\Cache_Data"@),
        path_join(local, "Microsoft\\Edge\\User Data\\Default\\Cache\\Cache_Data"@),
    ]
}

/// The `cache2` directory of each Firefox profile, given the profiles' paths.
pub open spec fn firefox_caches(profiles: Seq<Seq<char>>) -> Seq<Seq<char>> {
    profiles.map_values(|p: Seq<char>| path_join(p, "cache2"@))
}

/// System-wide temporary, prefetch, update-download and log directories.
pub open spec fn system_dirs() -> Seq<Seq<char>> {
    seq![
        "C:\\Windows\\Temp"@,
        "C:\\Windows\\Prefetch"@,
        "C:\\Windows\\SoftwareDistribution\\Download"@,
        "C:\\Windows\\Logs"@,
        "C:\\Windows\\System32\\LogFiles"@,
    ]
}

/// All directories to consider, in order: the user's `%TEMP%` (kept whether
/// or not it exists), the recent-documents list, the crash dumps and browser
/// caches, each Firefox profile's cache, and the system directories.
pub open spec fn junk_candidates(
    temp: Option<Seq<char>>,
    appdata: Option<Seq<char>>,
    local: Option<Seq<char>>,
    profiles: Seq<Seq<char>>,
) -> Seq<(Seq<char>, bool)> {
    let temp_part: Seq<(Seq<char>, bool)> = match temp {
        Some(t) => seq![(t, false)],
        None => seq![],
    };
    let recent_part: Seq<(Seq<char>, bool)> = match appdata {
        Some(a) => seq![(recent_dir(a), true)],
        None => seq![],
    };
    let local_part: Seq<(Seq<char>, bool)> = match local {
        Some(l) => checked(local_dirs(l)) + checked(firefox_caches(profiles)),
        None => seq![],
    };
    temp_part + recent_part + local_part + checked(system_dirs())
}

/// The names that the cleaner pushes onto paths are plain relative paths.
proof fn lemma_names_are_plain()
    ensures
        is_plain_relative("Microsoft"@),
        is_plain_relative("Windows"@),
        is_plain_relative("Recent"@),
        is_plain_relative("CrashDumps"@),
        is_plain_relative("Google\\Chrome\\User Data\\Default\\Cache\\Cache_Data"@),
        is_plain_relative("Google\\Chrome\\User Data\\Default\\System Cache\\Cache_Data"@),
        is_plain_relative("Microsoft\\Edge\\User Data\\Default\\Cache\\Cache_Data"@),
        is_plain_relative("Mozilla\\Firefox\\Profiles"@),
        is_plain_relative("cache2"@),
{
    reveal_strlit("Microsoft");
    reveal_strlit("Windows");
    reveal_strlit("Recent");
    reveal_strlit("CrashDumps");
    reveal_strlit("Google\\Chrome\\User Data\\Default\\Cache\\Cache_Data");
    reveal_strlit("Google\\Chrome\\User Data\\Default\\System Cache\\Cache_Data");
    reveal_strlit("Microsoft\\Edge\\User Data\\Default\\Cache\\Cache_Data");
    reveal_strlit("Mozilla\\Firefox\\Profiles");
    reveal_strlit("cache2");
}

/// The directories considered: only the user's temporary directory is taken
/// whether or not it exists, it comes first when set, the five system
/// directories always come last, and the count is one per set variable's
/// directories (1 for `TEMP`, 1 for `APPDATA`, 4 for `LOCALAPPDATA`), one per
/// Firefox profile when `LOCALAPPDATA` is set, and 5.
pub proof fn law_candidate_layout(
    temp: Option<Seq<char>>,
    appdata: Option<Seq<char>>,
    local: Option<Seq<char>>,
    profiles: Seq<Seq<char>>,
)
    ensures
        ({
            let c = junk_candidates(temp, appdata, local, profiles);
            let n = (if temp is Some { 1int } else { 0int }) + (if appdata is Some { 1int } else { 0int })
                + (if local is Some { 4 + profiles.len() as int } else { 0int }) + 5;
            &&& c.len() == n
            &&& temp is Some ==> c[0] == (temp->0, false)
            &&& forall|i: int| 0 <= i < c.len() && !(temp is Some && i == 0) ==> #[trigger] c[i].1
            &&& c.subrange(c.len() - 5, c.len() as int) == checked(system_dirs())
        }),
{
    let c = junk_candidates(temp, appdata, local, profiles);
    let tail = checked(system_dirs());
    assert(c.subrange(c.len() - 5, c.len() as int) =~= tail);
}

/// The Firefox profiles directory under `%LOCALAPPDATA%`, whose entries are
/// the profiles.
pub fn firefox_profiles_dir(local_appdata: &str) -> (r: String)
    ensures
        r@ == firefox_profiles_path(local_appdata@),
{
    proof {
        lemma_names_are_plain();
    }
    join_path(local_appdata, "Mozilla\\Firefox\\Profiles")
}

fn push_checked(out: &mut Vec<DirCandidate>, path: String)
    ensures
        candidate_views(final(out)@) == candidate_views(old(out)@).push((path@, true)),
{
    let ghost p = path@;
    out.push(DirCandidate { path, must_exist: true });
    assert(candidate_views(final(out)@) =~= candidate_views(old(out)@).push((p, true)));
}

/// The directories that may hold junk, in the order the cleaner scans them
/// (see [`junk_candidates`]); `firefox_profiles` are the paths of the entries
/// of [`firefox_profiles_dir`], empty when it does not exist.
#[verifier::spinoff_prover]
#[verifier::rlimit(40)]
pub fn junk_directory_candidates(env: &JunkEnvironment, firefox_profiles: &Vec<String>) -> (r: Vec<
    DirCandidate,
>)
    ensures
        candidate_views(r@) == junk_candidates(
            opt_text(env.temp),
            opt_text(env.appdata),
            opt_text(env.local_appdata),
            firefox_profiles@.map_values(|p: String| p@),
        ),
{
    proof {
        lemma_names_are_plain();
    }
    let mut out: Vec<DirCandidate> = Vec::new();
    let ghost temp_part: Seq<(Seq<char>, bool)> = match opt_text(env.temp) {
        Some(t) => seq![(t, false)],
        None => seq![],
    };
    if let Some(t) = &env.temp {
        out.push(DirCandidate { path: t.clone(), must_exist: false });
    }
    assert(candidate_views(out@) =~= temp_part);
    let ghost recent_part: Seq<(Seq<char>, bool)> = match opt_text(env.appdata) {
        Some(a) => seq![(recent_dir(a), true)],
        None => seq![],
    };
    if let Some(a) = &env.appdata {
        let m = join_path(a.as_str(), "Microsoft");
        let w = join_path(m.as_str(), "Windows");
        let r = join_path(w.as_str(), "Recent");
        push_checked(&mut out, r);
    }
    assert(candidate_views(out@) =~= temp_part + recent_part);
    let ghost before_local = candidate_views(out@);
    let ghost names = firefox_profiles@.map_values(|p: String| p@);
    if let Some(l) = &env.local_appdata {
        let ls = l.as_str();
        push_checked(&mut out, join_path(ls, "CrashDumps"));
        push_checked(&mut out, join_path(ls, "Google\\Chrome\\User Data\\Default\\Cache\\Cache_Data"));
        push_checked(
            &mut out,
            join_path(ls, "Google\\Chrome\\User Data\\Default\\System Cache\\Cache_Data"),
        );
        push_checked(&mut out, join_path(ls, "Microsoft\\Edge\\User Data\\Default\\Cache\\Cache_Data"));
        assert(candidate_views(out@) =~= before_local + checked(local_dirs(l@)));
        let mut i: usize = 0;
        while i < firefox_profiles.len()
            invariant
                i <= firefox_profiles.len(),
                is_plain_relative("cache2"@),
                names == firefox_profiles@.map_values(|p: String| p@),
                candidate_views(out@) == before_local + checked(local_dirs(l@)) + checked(
                    firefox_caches(names.take(i as int)),
                ),
            decreases firefox_profiles.len() - i,
        {
            let cache = join_path(firefox_profiles[i].as_str(), "cache2");
            push_checked(&mut out, cache);
            assert(names.take(i + 1) =~= names.take(i as int).push(firefox_profiles@[i as int]@));
            assert(checked(firefox_caches(names.take(i + 1))) =~= checked(
                firefox_caches(names.take(i as int)),
            ).push((cache@, true)));
            i = i + 1;
        }
        assert(names.take(i as int) =~= names);
    }
    let ghost before_system = candidate_views(out@);
    push_checked(&mut out, String::from_str("C:\\Windows\\Temp"));
    push_checked(&mut out, String::from_str("C:\\Windows\\Prefetch"));
    push_checked(&mut out, String::from_str("C:\\Windows\\SoftwareDistribution\\Download"));
    push_checked(&mut out, String::from_str("C:\\Windows\\Logs"));
    push_checked(&mut out, String::from_str("C:\\Windows\\System32\\LogFiles"));
    assert(candidate_views(out@) =~= before_system + checked(system_dirs()));
    out
}

/// The candidates that are kept: those that need not exist, and those that do
/// according to `exists` (one answer per candidate, in order).
pub open spec fn kept_paths(cands: Seq<(Seq<char>, bool)>, exists: Seq<bool>) -> Seq<Seq<char>>
    decreases cands.len(),
{
    if cands.len() == 0 {
        seq![]
    } else {
        let rest = kept_paths(cands.drop_last(), exists.drop_last());
        let last = cands.last();
        if !last.1 || exists.last() {
            rest.push(last.0)
        } else {
            rest
        }
    }
}

/// Which directories a scan keeps: every candidate that need not exist or
/// exists (its flag at the same index) is kept, nothing else is, and when all
/// are kept the result is all their paths in candidate order.
pub proof fn law_kept_paths(cands: Seq<(Seq<char>, bool)>, present: Seq<bool>)
    requires
        present.len() == cands.len(),
    ensures
        (forall|i: int| 0 <= i < cands.len() ==> !cands[i].1 || #[trigger] present[i]) ==> kept_paths(
            cands,
            present,
        ) == cands.map_values(|c: (Seq<char>, bool)| c.0),
        forall|i: int|
            0 <= i < cands.len() && (!cands[i].1 || present[i]) ==> kept_paths(cands, present).contains(
                #[trigger] cands[i].0,
            ),
        forall|k: int|
            #![trigger kept_paths(cands, present)[k]]
            0 <= k < kept_paths(cands, present).len() ==> exists|i: int|
                #![trigger cands[i]]
                0 <= i < cands.len() && (!cands[i].1 || present[i]) && kept_paths(cands, present)[k]
                    == cands[i].0,
        kept_paths(cands, present).len() <= cands.len(),
    decreases cands.len(),
{
    if cands.len() > 0 {
        let c0 = cands.drop_last();
        let e0 = present.drop_last();
        law_kept_paths(c0, e0);
        let rest = kept_paths(c0, e0);
        let r = kept_paths(cands, present);
        let n = cands.len() - 1;
        assert forall|i: int|
            0 <= i < cands.len() && (!cands[i].1 || present[i]) implies r.contains(
            #[trigger] cands[i].0,
        ) by {
            if i < n {
                assert(c0[i] == cands[i]);
                assert(e0[i] == present[i]);
                assert(rest.contains(c0[i].0));
                let k = choose|k: int| 0 <= k < rest.len() && rest[k] == c0[i].0;
                assert(r[k] == rest[k]);
            } else {
                assert(r[r.len() - 1] == cands[i].0);
            }
        }
        assert forall|k: int| #![trigger r[k]] 0 <= k < r.len() implies exists|i: int|
            #![trigger cands[i]]
            0 <= i < cands.len() && (!cands[i].1 || present[i]) && r[k] == cands[i].0 by {
            if k < rest.len() {
                assert(rest[k] == rest[k]);
                let i = choose|i: int|
                    #![trigger c0[i]]
                    0 <= i < c0.len() && (!c0[i].1 || e0[i]) && rest[k] == c0[i].0;
                assert(c0[i] == cands[i] && e0[i] == present[i]);
                assert(r[k] == rest[k]);
            } else {
                assert(r[k] == cands[n].0);
                assert(present.last() == present[n]);
            }
        }
        if forall|i: int| 0 <= i < cands.len() ==> !cands[i].1 || #[trigger] present[i] {
            assert(forall|i: int| 0 <= i < c0.len() ==> !c0[i].1 || #[trigger] e0[i]) by {
                assert forall|i: int| 0 <= i < c0.len() implies !c0[i].1 || #[trigger] e0[i] by {
                    assert(c0[i] == cands[i] && e0[i] == present[i]);
                    assert(!cands[i].1 || present[i]);
                }
            }
            assert(present.last() == present[n]);
            assert(!cands[n].1 || present[n]);
            assert(r =~= cands.map_values(|c: (Seq<char>, bool)| c.0));
        }
    }
}

/// Keeps the candidates that exist or need not exist; `exists[i]` tells
/// whether `candidates[i]` exists on disk.
pub fn select_junk_directories(candidates: &Vec<DirCandidate>, exists: &Vec<bool>) -> (r: Vec<String>)
    requires
        exists.len() == candidates.len(),
    ensures
        r@.map_values(|p: String| p@) == kept_paths(candidate_views(candidates@), exists@),
{
    let ghost cands = candidate_views(candidates@);
    let mut out: Vec<String> = Vec::new();
    let mut i: usize = 0;
    assert(cands.take(0) =~= Seq::<(Seq<char>, bool)>::empty());
    while i < candidates.len()
        invariant
            i <= candidates.len(),
            exists.len() == candidates.len(),
            cands == candidate_views(candidates@),
            out@.map_values(|p: String| p@) == kept_paths(cands.take(i as int), exists@.take(i as int)),
        decreases candidates.len() - i,
    {
        let ghost before = out@;
        assert(cands.take(i + 1).drop_last() =~= cands.take(i as int));
        assert(exists@.take(i + 1).drop_last() =~= exists@.take(i as int));
        assert(cands.take(i + 1).last() == cands[i as int]);
        if !candidates[i].must_exist || exists[i] {
            out.push(candidates[i].path.clone());
            assert(out@.map_values(|p: String| p@) =~= before.map_values(|p: String| p@).push(
                candidates@[i as int].path@,
            ));
        }
        i = i + 1;
    }
    assert(cands.take(i as int) =~= cands);
    assert(exists@.take(i as int) =~= exists@);
    out
}


/// A registry key whose values start programs at logon.
pub struct RunKey {
    pub hkey: isize,
    pub subkey: String,
}

/// The `Run` keys the cleaner reads, in order: the current user's, then the
/// machine's. `current_user` and `local_machine` are the handles of the two
/// predefined root keys.
pub fn run_keys(current_user: isize, local_machine: isize) -> (r: Vec<RunKey>)
    ensures
        r@.len() == 2,
        r@[0].hkey == current_user,
        r@[0].subkey@ == "Software\\Microsoft\\Windows\\CurrentVersion\\Run"@,
        r@[1].hkey == local_machine,
        r@[1].subkey@ == "SOFTWARE\\Microsoft\\Windows\\CurrentVersion\\Run"@,
{
    let mut keys: Vec<RunKey> = Vec::new();
    keys.push(
        RunKey {
            hkey: current_user,
            subkey: String::from_str("Software\\Microsoft\\Windows\\CurrentVersion\\Run"),
        },
    );
    keys.push(
        RunKey {
            hkey: local_machine,
            subkey: String::from_str("SOFTWARE\\Microsoft\\Windows\\CurrentVersion\\Run"),
        },
    );
    keys
}

} // verus!

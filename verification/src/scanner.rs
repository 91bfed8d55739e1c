//! What a scan makes of what it finds on disk and in the registry.

use vstd::prelude::*;
use crate::model::{
    JunkItem, JunkItemView, JunkType, JunkTypeView, LargeFile, StartupItem, StartupItemView,
    junk_size_sum, junk_views, large_size_sum, startup_views,
};
use crate::paths::{executable_path, extract_executable_path, is_absolute_path, is_absolute_windows};

verus! {

/// What the metadata of a directory entry tells the scan.
pub struct EntryMetadata {
    pub is_file: bool,
    pub len: u64,
}

/// The junk item for an entry found under a junk directory: files count with
/// their length, directories and entries whose metadata cannot be read with 0.
pub fn junk_item_for_entry(path: String, metadata: Option<EntryMetadata>) -> (r: JunkItem)
    ensures
        r.junk_type == JunkType::FileOrDir(path),
        r.size == match metadata {
            Some(m) => if m.is_file { m.len } else { 0 },
            None => 0,
        },
{
    let size = match metadata {
        Some(m) => if m.is_file { m.len } else { 0 },
        None => 0,
    };
    JunkItem { junk_type: JunkType::FileOrDir(path), size }
}

/// A value of a `Run` key: its name and its command line as text.
pub struct RunValue {
    pub name: String,
    pub data: String,
}

/// A `Run` value is dead when its command line is not empty and the program
/// it names (see [`executable_path`]) is an absolute path (see
/// [`is_absolute_path`]) that does not exist; `program_exists` says whether
/// that program exists on disk.
pub open spec fn is_dead_run_value(data: Seq<char>, program_exists: bool) -> bool {
    data.len() > 0 && is_absolute_path(executable_path(data)) && !program_exists
}

/// Only a missing program makes a `Run` value dead: an empty command line, a
/// program that exists, or a program path that is relative (no drive and
/// separator, and not starting with two separators) never does.
pub proof fn law_dead_needs_missing_absolute_program(data: Seq<char>, program_exists: bool)
    ensures
        data.len() == 0 ==> !is_dead_run_value(data, program_exists),
        program_exists ==> !is_dead_run_value(data, program_exists),
        is_dead_run_value(data, program_exists) ==> executable_path(data).len() >= 2,
        ({
            let p = executable_path(data);
            (p.len() < 2 || !crate::paths::is_separator(p[0]) || !crate::paths::is_separator(p[1]))
                && (p.len() < 3 || p[1] != ':' || !crate::paths::is_separator(p[2]))
                ==> !is_dead_run_value(data, program_exists)
        }),
{
}

/// The junk item that stands for the `Run` value `name` under `hkey\subkey`.
pub open spec fn dead_value_view(hkey: isize, subkey: Seq<char>, name: Seq<char>) -> JunkItemView {
    JunkItemView {
        junk_type: JunkTypeView::RegistryValue { hkey, subkey, value_name: name },
        size: 0,
    }
}

/// The junk item for a dead `Run` value, or `None` when the value is alive.
/// `program_exists` says whether the program that `data` names exists.
pub fn dead_run_value(hkey: isize, subkey: &str, value_name: String, data: &str, program_exists: bool) -> (r:
    Option<JunkItem>)
    ensures
        r is Some <==> is_dead_run_value(data@, program_exists),
        r matches Some(item) ==> item@ == dead_value_view(hkey, subkey@, value_name@),
{
    if data.is_empty() {
        return None;
    }
    let program = extract_executable_path(data);
    if is_absolute_windows(program) && !program_exists {
        Some(
            JunkItem {
                junk_type: JunkType::RegistryValue {
                    hkey,
                    subkey: String::from_str(subkey),
                    value_name,
                },
                size: 0,
            },
        )
    } else {
        None
    }
}

/// The dead values among `values`, in order, as junk items; `program_exists[i]`
/// says whether the program of `values[i]` exists.
pub open spec fn dead_entries(
    hkey: isize,
    subkey: Seq<char>,
    values: Seq<RunValue>,
    program_exists: Seq<bool>,
) -> Seq<JunkItemView>
    decreases values.len(),
{
    if values.len() == 0 {
        seq![]
    } else {
        let rest = dead_entries(hkey, subkey, values.drop_last(), program_exists.drop_last());
        if is_dead_run_value(values.last().data@, program_exists.last()) {
            rest.push(dead_value_view(hkey, subkey, values.last().name@))
        } else {
            rest
        }
    }
}

/// The dead `Run` values of the key `hkey\subkey` (see [`dead_entries`]).
pub fn dead_run_values(hkey: isize, subkey: &str, values: &Vec<RunValue>, program_exists: &Vec<bool>) -> (r:
    Vec<JunkItem>)
    requires
        program_exists.len() == values.len(),
    ensures
        junk_views(r@) == dead_entries(hkey, subkey@, values@, program_exists@),
{
    let mut out: Vec<JunkItem> = Vec::new();
    let mut i: usize = 0;
    while i < values.len()
        invariant
            i <= values.len(),
            program_exists.len() == values.len(),
            junk_views(out@) == dead_entries(
                hkey,
                subkey@,
                values@.take(i as int),
                program_exists@.take(i as int),
            ),
        decreases values.len() - i,
    {
        assert(values@.take(i + 1).drop_last() =~= values@.take(i as int));
        assert(program_exists@.take(i + 1).drop_last() =~= program_exists@.take(i as int));
        let ghost before = out@;
        let v = &values[i];
        match dead_run_value(hkey, subkey, v.name.clone(), v.data.as_str(), program_exists[i]) {
            Some(item) => {
                out.push(item);
                assert(junk_views(out@) =~= junk_views(before).push(
                    dead_value_view(hkey, subkey@, values@[i as int].name@),
                ));
            },
            None => {},
        }
        i = i + 1;
    }
    assert(values@.take(i as int) =~= values@);
    assert(program_exists@.take(i as int) =~= program_exists@);
    out
}

/// The start-up entry for the `Run` value `v` of `hkey\subkey`.
pub open spec fn startup_view(hkey: isize, subkey: Seq<char>, v: RunValue) -> StartupItemView {
    StartupItemView { name: v.name@, command: v.data@, hkey, subkey }
}

/// The start-up entries for the values of `hkey\subkey`: one per value, in order.
pub open spec fn startup_list(hkey: isize, subkey: Seq<char>, values: Seq<RunValue>) -> Seq<StartupItemView> {
    values.map_values(|v: RunValue| startup_view(hkey, subkey, v))
}

/// The start-up entries of the key `hkey\subkey` (see [`startup_list`]).
pub fn startup_entries(hkey: isize, subkey: &str, values: &Vec<RunValue>) -> (r: Vec<StartupItem>)
    ensures
        startup_views(r@) == startup_list(hkey, subkey@, values@),
{
    let mut out: Vec<StartupItem> = Vec::new();
    let mut i: usize = 0;
    while i < values.len()
        invariant
            i <= values.len(),
            startup_views(out@) == values@.take(i as int).map_values(
                |v: RunValue| startup_view(hkey, subkey@, v),
            ),
        decreases values.len() - i,
    {
        let ghost before = out@;
        let v = &values[i];
        out.push(
            StartupItem {
                name: v.name.clone(),
                command: v.data.clone(),
                hkey,
                subkey: String::from_str(subkey),
            },
        );
        assert(startup_views(out@) =~= startup_views(before).push(
            startup_view(hkey, subkey@, values@[i as int]),
        ));
        assert(values@.take(i + 1).map_values(|v: RunValue| startup_view(hkey, subkey@, v))
            =~= values@.take(i as int).map_values(|v: RunValue| startup_view(hkey, subkey@, v)).push(
            startup_view(hkey, subkey@, values@[i as int]),
        ));
        i = i + 1;
    }
    assert(values@.take(i as int) =~= values@);
    out
}

/// Each item of [`dead_entries`] stands for one of the values.
pub proof fn lemma_dead_entries_from_values(
    hkey: isize,
    subkey: Seq<char>,
    values: Seq<RunValue>,
    program_exists: Seq<bool>,
)
    requires
        program_exists.len() == values.len(),
    ensures
        forall|k: int|
            0 <= k < dead_entries(hkey, subkey, values, program_exists).len() ==> exists|j: int|
                0 <= j < values.len() && #[trigger] dead_entries(hkey, subkey, values, program_exists)[k]
                    == dead_value_view(hkey, subkey, values[j].name@),
    decreases values.len(),
{
    if values.len() > 0 {
        let front = values.drop_last();
        lemma_dead_entries_from_values(hkey, subkey, front, program_exists.drop_last());
        let d = dead_entries(hkey, subkey, values, program_exists);
        let rest = dead_entries(hkey, subkey, front, program_exists.drop_last());
        assert forall|k: int| 0 <= k < d.len() implies exists|j: int|
            0 <= j < values.len() && #[trigger] d[k] == dead_value_view(hkey, subkey, values[j].name@) by {
            if k < rest.len() {
                let j = choose|j: int|
                    0 <= j < front.len() && #[trigger] rest[k] == dead_value_view(hkey, subkey, front[j].name@);
                assert(front[j] == values[j]);
                assert(d[k] == rest[k]);
            } else {
                assert(d[k] == dead_value_view(hkey, subkey, values[values.len() - 1].name@));
            }
        }
    }
}

/// `item` is the junk item of a registry value with size 0 that names the key
/// and the value of the start-up entry `entry`.
pub open spec fn names_entry(item: JunkItemView, entry: StartupItemView) -> bool {
    &&& item.size == 0
    &&& item.junk_type == JunkTypeView::RegistryValue {
        hkey: entry.hkey,
        subkey: entry.subkey,
        value_name: entry.name,
    }
}

/// Some entry of `entries` is the one that `item` names.
pub open spec fn listed_entry(item: JunkItemView, entries: Seq<StartupItemView>) -> bool {
    exists|j: int| 0 <= j < entries.len() && names_entry(item, #[trigger] entries[j])
}

/// Every dead `Run` value is also a start-up entry: reading the same values
/// of a key, each item that the dead-value scan reports names the key and
/// the value of an entry that the start-up manager lists.
pub proof fn law_dead_values_are_startup_entries(
    hkey: isize,
    subkey: Seq<char>,
    values: Seq<RunValue>,
    program_exists: Seq<bool>,
)
    requires
        program_exists.len() == values.len(),
    ensures
        forall|k: int|
            0 <= k < dead_entries(hkey, subkey, values, program_exists).len() ==> listed_entry(
                #[trigger] dead_entries(hkey, subkey, values, program_exists)[k],
                startup_list(hkey, subkey, values),
            ),
{
    lemma_dead_entries_from_values(hkey, subkey, values, program_exists);
    let d = dead_entries(hkey, subkey, values, program_exists);
    let st = startup_list(hkey, subkey, values);
    assert forall|k: int| 0 <= k < d.len() implies listed_entry(#[trigger] d[k], st) by {
        let j = choose|j: int|
            0 <= j < values.len() && #[trigger] d[k] == dead_value_view(hkey, subkey, values[j].name@);
        assert(st[j] == startup_view(hkey, subkey, values[j]));
        assert(names_entry(d[k], st[j]));
    }
}

/// Files above this many bytes (500 MiB) count as large.
pub const LARGE_FILE_THRESHOLD: u64 = 524288000;

/// The large-file record for an entry, kept when it is a file of more than
/// [`LARGE_FILE_THRESHOLD`] bytes.
pub fn large_file_entry(path: String, is_file: bool, size: u64) -> (r: Option<LargeFile>)
    ensures
        r is Some <==> is_file && size > LARGE_FILE_THRESHOLD,
        r matches Some(f) ==> f.path == path && f.size == size,
{
    if is_file && size > LARGE_FILE_THRESHOLD {
        Some(LargeFile { path, size })
    } else {
        None
    }
}

/// The total size of `items`, or `None` when it does not fit in a `u64`.
pub fn total_junk_size(items: &Vec<JunkItem>) -> (r: Option<u64>)
    ensures
        match r {
            Some(t) => t == junk_size_sum(items@),
            None => junk_size_sum(items@) > u64::MAX,
        },
{
    let mut total: u64 = 0;
    let mut i: usize = 0;
    while i < items.len()
        invariant
            i <= items.len(),
            total == junk_size_sum(items@.take(i as int)),
        decreases items.len() - i,
    {
        assert(items@.take(i + 1).drop_last() =~= items@.take(i as int));
        match total.checked_add(items[i].size) {
            Some(t) => total = t,
            None => {
                proof {
                    lemma_junk_sum_prefix(items@, i + 1);
                }
                return None;
            },
        }
        i = i + 1;
    }
    assert(items@.take(i as int) =~= items@);
    Some(total)
}

/// Sizes add up: the total of two lists of items joined is the sum of their
/// totals, and the total of one item is its size.
pub proof fn law_junk_sizes_add_up(a: Seq<JunkItem>, b: Seq<JunkItem>)
    ensures
        junk_size_sum(a + b) == junk_size_sum(a) + junk_size_sum(b),
        a.len() == 1 ==> junk_size_sum(a) == a[0].size,
        junk_size_sum(Seq::<JunkItem>::empty()) == 0,
    decreases b.len(),
{
    if a.len() == 1 {
        assert(a.drop_last() =~= Seq::<JunkItem>::empty());
    }
    if b.len() > 0 {
        law_junk_sizes_add_up(a, b.drop_last());
        assert((a + b).drop_last() =~= a + b.drop_last());
    } else {
        assert(a + b =~= a);
    }
}

/// The sum of the sizes of a prefix is at most the sum of all sizes.
pub proof fn lemma_junk_sum_prefix(s: Seq<JunkItem>, k: int)
    requires
        0 <= k <= s.len(),
    ensures
        junk_size_sum(s.take(k)) <= junk_size_sum(s),
    decreases s.len() - k,
{
    if k < s.len() {
        lemma_junk_sum_prefix(s, k + 1);
        assert(s.take(k + 1).drop_last() =~= s.take(k));
    } else {
        assert(s.take(k) =~= s);
    }
}

/// The total size of `files`, or `None` when it does not fit in a `u64`.
pub fn total_large_size(files: &Vec<LargeFile>) -> (r: Option<u64>)
    ensures
        match r {
            Some(t) => t == large_size_sum(files@),
            None => large_size_sum(files@) > u64::MAX,
        },
{
    let mut total: u64 = 0;
    let mut i: usize = 0;
    while i < files.len()
        invariant
            i <= files.len(),
            total == large_size_sum(files@.take(i as int)),
        decreases files.len() - i,
    {
        assert(files@.take(i + 1).drop_last() =~= files@.take(i as int));
        match total.checked_add(files[i].size) {
            Some(t) => total = t,
            None => {
                proof {
                    lemma_large_sum_prefix(files@, i + 1);
                }
                return None;
            },
        }
        i = i + 1;
    }
    assert(files@.take(i as int) =~= files@);
    Some(total)
}

/// The sum of the sizes of a prefix is at most the sum of all sizes.
pub proof fn lemma_large_sum_prefix(s: Seq<LargeFile>, k: int)
    requires
        0 <= k <= s.len(),
    ensures
        large_size_sum(s.take(k)) <= large_size_sum(s),
    decreases s.len() - k,
{
    if k < s.len() {
        lemma_large_sum_prefix(s, k + 1);
        assert(s.take(k + 1).drop_last() =~= s.take(k));
    } else {
        assert(s.take(k) =~= s);
    }
}

/// Number of items whose deletion succeeded.
pub open spec fn deleted_count(succeeded: Seq<bool>) -> nat
    decreases succeeded.len(),
{
    if succeeded.len() == 0 {
        0
    } else {
        deleted_count(succeeded.drop_last()) + if succeeded.last() { 1nat } else { 0nat }
    }
}

/// Bytes freed: the sizes of the items whose deletion succeeded.
pub open spec fn deleted_size(items: Seq<JunkItem>, succeeded: Seq<bool>) -> nat
    decreases items.len(),
{
    if items.len() == 0 {
        0
    } else {
        deleted_size(items.drop_last(), succeeded.drop_last()) + if succeeded.last() {
            items.last().size as nat
        } else {
            0nat
        }
    }
}

/// The number of deleted items and the bytes they occupied, given whether the
/// deletion of each item succeeded; `None` when the bytes do not fit in a `u64`.
pub fn cleanup_tally(items: &Vec<JunkItem>, succeeded: &Vec<bool>) -> (r: Option<(u64, u64)>)
    requires
        succeeded.len() == items.len(),
    ensures
        match r {
            Some((count, size)) => count == deleted_count(succeeded@) && size == deleted_size(
                items@,
                succeeded@,
            ),
            None => deleted_size(items@, succeeded@) > u64::MAX,
        },
{
    let mut count: u64 = 0;
    let mut size: u64 = 0;
    let mut i: usize = 0;
    while i < items.len()
        invariant
            i <= items.len(),
            succeeded.len() == items.len(),
            count == deleted_count(succeeded@.take(i as int)),
            count <= i,
            size == deleted_size(items@.take(i as int), succeeded@.take(i as int)),
        decreases items.len() - i,
    {
        assert(items@.take(i + 1).drop_last() =~= items@.take(i as int));
        assert(succeeded@.take(i + 1).drop_last() =~= succeeded@.take(i as int));
        if succeeded[i] {
            match size.checked_add(items[i].size) {
                Some(t) => size = t,
                None => {
                    proof {
                        lemma_deleted_size_prefix(items@, succeeded@, i + 1);
                    }
                    return None;
                },
            }
            count = count + 1;
        }
        i = i + 1;
    }
    assert(items@.take(i as int) =~= items@);
    assert(succeeded@.take(i as int) =~= succeeded@);
    Some((count, size))
}

/// The count of deleted items is the number of deletions that succeeded.
pub proof fn lemma_count_is_successes(succeeded: Seq<bool>)
    ensures
        deleted_count(succeeded) == succeeded.filter(|b: bool| b).len(),
    decreases succeeded.len(),
{
    reveal_with_fuel(Seq::<bool>::filter, 1);
    if succeeded.len() > 0 {
        lemma_count_is_successes(succeeded.drop_last());
    }
}

/// What a clean-up reports is what succeeded: the count is the number of
/// `true` flags; when every deletion succeeded it is the number of items and
/// the bytes freed are all the items' bytes; when none did, both are zero.
pub proof fn law_tally_counts_successes(items: Seq<JunkItem>, succeeded: Seq<bool>)
    requires
        succeeded.len() == items.len(),
    ensures
        deleted_count(succeeded) == succeeded.filter(|b: bool| b).len(),
        (forall|i: int| 0 <= i < succeeded.len() ==> #[trigger] succeeded[i]) ==> deleted_count(
            succeeded,
        ) == items.len() && deleted_size(items, succeeded) == junk_size_sum(items),
        (forall|i: int| 0 <= i < succeeded.len() ==> !#[trigger] succeeded[i]) ==> deleted_count(
            succeeded,
        ) == 0 && deleted_size(items, succeeded) == 0,
    decreases items.len(),
{
    lemma_count_is_successes(succeeded);
    if items.len() > 0 {
        law_tally_counts_successes(items.drop_last(), succeeded.drop_last());
        assert(forall|i: int| 0 <= i < succeeded.drop_last().len() ==> succeeded.drop_last()[i] == succeeded[i]);
        assert(succeeded.last() == succeeded[succeeded.len() - 1]);
    }
}

/// The bytes freed by a prefix of the items are at most those freed by all.
pub proof fn lemma_deleted_size_prefix(items: Seq<JunkItem>, succeeded: Seq<bool>, k: int)
    requires
        0 <= k <= items.len(),
        succeeded.len() == items.len(),
    ensures
        deleted_size(items.take(k), succeeded.take(k)) <= deleted_size(items, succeeded),
    decreases items.len() - k,
{
    if k < items.len() {
        lemma_deleted_size_prefix(items, succeeded, k + 1);
        assert(items.take(k + 1).drop_last() =~= items.take(k));
        assert(succeeded.take(k + 1).drop_last() =~= succeeded.take(k));
    } else {
        assert(items.take(k) =~= items);
        assert(succeeded.take(k) =~= succeeded);
    }
}

/// A clean-up never reports more than it was given: at most as many items
/// deleted as there were, and at most as many bytes freed as they occupied.
pub proof fn law_freed_within_found(items: Seq<JunkItem>, succeeded: Seq<bool>)
    requires
        succeeded.len() == items.len(),
    ensures
        deleted_count(succeeded) <= succeeded.len(),
        deleted_size(items, succeeded) <= junk_size_sum(items),
    decreases items.len(),
{
    if items.len() > 0 {
        law_freed_within_found(items.drop_last(), succeeded.drop_last());
    }
}

/// The non-zero process ids among the first `bytes_returned / 4` entries of
/// the buffer that the process enumeration filled.
pub open spec fn trimmable_pids(processes: Seq<u32>, bytes_returned: u32) -> Seq<u32> {
    processes.take(bytes_returned as int / 4).filter(|pid: u32| pid != 0)
}

/// The processes whose working sets the RAM optimiser empties: the non-zero
/// ids among the `bytes_returned / 4` ids that the enumeration wrote.
pub fn pids_to_trim(processes: &Vec<u32>, bytes_returned: u32) -> (r: Vec<u32>)
    requires
        bytes_returned as int / 4 <= processes.len(),
    ensures
        r@ == trimmable_pids(processes@, bytes_returned),
{
    let count = (bytes_returned / 4) as usize;
    let mut out: Vec<u32> = Vec::new();
    let mut i: usize = 0;
    while i < count
        invariant
            i <= count,
            count == bytes_returned as int / 4,
            count <= processes.len(),
            out@ == processes@.take(i as int).filter(|pid: u32| pid != 0),
        decreases count - i,
    {
        proof {
            reveal_with_fuel(Seq::<u32>::filter, 1);
            assert(processes@.take(i + 1).drop_last() =~= processes@.take(i as int));
        }
        let pid = processes[i];
        if pid != 0 {
            out.push(pid);
        }
        i = i + 1;
    }
    out
}

} // verus!

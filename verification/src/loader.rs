use vstd::prelude::*;
use crate::array_list::ArrayList;
use crate::process::{fresh_process, Process};

verus! {

/// An application-table entry the loader accepts: a non-null entry address.
pub open spec fn valid_entry(entry: usize) -> bool {
    entry != 0
}

/// How many table entries the loader consumes when `room` process slots are
/// free: the longest prefix of valid entries, cut off at `room`.
///
/// This pins the boot policy down: loading stops at the first invalid entry
/// and when the process table fills, without failing the boot — the kernel
/// starts with however many processes validated and fit.
pub open spec fn load_count(table: Seq<usize>, room: int) -> int
    decreases table.len(),
{
    if table.len() == 0 || !valid_entry(table[0]) || room <= 0 {
        0
    } else {
        1 + load_count(table.subrange(1, table.len() as int), room - 1)
    }
}

/// `load_count` equals `k` whenever the first `k` entries are valid and
/// something stops the walk at `k`: the table's end, an invalid entry, or
/// the room running out.
proof fn lemma_load_count_value(table: Seq<usize>, room: int, k: int)
    requires
        0 <= k <= table.len(),
        k <= room,
        forall|i: int| 0 <= i < k ==> valid_entry(#[trigger] table[i]),
        k < table.len() && k < room ==> !valid_entry(table[k]),
    ensures
        load_count(table, room) == k,
    decreases k,
{
    if k == 0 {
    } else {
        let rest = table.subrange(1, table.len() as int);
        assert(forall|i: int| 0 <= i < k - 1 ==> rest[i] == table[i + 1]);
        lemma_load_count_value(rest, room - 1, k - 1);
    }
}

/// Walks the linker-provided table of application entry addresses,
/// creating one process per entry and adding it to the process table.
///
/// Loading is best effort and stops early, without failing the boot, at the
/// first entry `Process::create` refuses and once the process table is
/// full; `load_count` states exactly how many processes that yields.
pub fn load_apps(procs: &mut ArrayList<Process>, table: &Vec<usize>)
    requires
        old(procs).wf(),
    ensures
        final(procs).wf(),
        final(procs).capacity() == old(procs).capacity(),
        ({
            let loaded = load_count(
                table@,
                old(procs).capacity() as int - old(procs)@.len() as int,
            );
            &&& final(procs)@.len() == old(procs)@.len() + loaded
            &&& forall|i: int|
                0 <= i < old(procs)@.len() ==> final(procs)@[i] == old(procs)@[i]
            &&& forall|i: int|
                0 <= i < loaded ==> fresh_process(
                    #[trigger] final(procs)@[old(procs)@.len() + i],
                    table@[i],
                )
        }),
{
    let ghost old_len = old(procs)@.len() as int;
    let ghost room = old(procs).capacity() as int - old(procs)@.len() as int;
    let mut idx: usize = 0;
    while idx < table.len()
        invariant_except_break
            idx <= table.len(),
            procs.wf(),
            procs.capacity() == old(procs).capacity(),
            procs@.len() == old_len + idx,
            old_len == old(procs)@.len(),
            room == old(procs).capacity() as int - old_len,
            idx <= room,
            forall|i: int| 0 <= i < old_len ==> procs@[i] == old(procs)@[i],
            forall|i: int| 0 <= i < idx ==> valid_entry(#[trigger] table@[i]),
            forall|i: int|
                0 <= i < idx ==> fresh_process(#[trigger] procs@[old_len + i], table@[i]),
        ensures
            procs.wf(),
            procs.capacity() == old(procs).capacity(),
            procs@.len() == old_len + idx,
            idx <= table.len(),
            idx <= room,
            forall|i: int| 0 <= i < old_len ==> procs@[i] == old(procs)@[i],
            forall|i: int| 0 <= i < idx ==> valid_entry(#[trigger] table@[i]),
            forall|i: int|
                0 <= i < idx ==> fresh_process(#[trigger] procs@[old_len + i], table@[i]),
            idx < table.len() && idx < room ==> !valid_entry(table@[idx as int]),
        decreases table.len() - idx,
    {
        let entry = table[idx];
        let created = match Process::create(entry) {
            Ok(p) => p,
            Err(_) => { break },
        };
        if !procs.add(created) {
            break ;
        }
        idx = idx + 1;
    }
    proof {
        lemma_load_count_value(table@, room, idx as int);
    }
}

} // verus!

//! The process identifier strategy: given a snapshot of the OS process table,
//! rediscover the group's processes by the distinguishing substring of their
//! command lines, since no spawn handles are retained.

use vstd::prelude::*;
use vstd::string::StringExecFns;
use crate::text::{contains_seq, str_contains};

verus! {

/// One entry of a process-table snapshot: an OS identifier and the full
/// command line the process was invoked with.
#[derive(Clone, PartialEq, Debug)]
pub struct ProcessEntry {
    pub pid: u64,
    pub command_line: String,
}

/// The substring that marks a command line as belonging to the managed group.
pub open spec fn spec_group_pattern() -> Seq<char> {
    "wicked-waifus"@
}

/// The group's distinguishing command-line substring.
pub fn group_pattern() -> (r: String)
    ensures
        r@ == spec_group_pattern(),
{
    String::from_str("wicked-waifus")
}

/// Whether a table entry belongs to the group: its command line contains the
/// pattern.
pub open spec fn entry_matches(e: ProcessEntry, pattern: Seq<char>) -> bool {
    contains_seq(e.command_line@, pattern)
}

/// The identifiers of the matching entries, in table order.
pub open spec fn spec_targets(table: Seq<ProcessEntry>, pattern: Seq<char>) -> Seq<u64>
    decreases table.len(),
{
    if table.len() == 0 {
        Seq::<u64>::empty()
    } else {
        let rest = spec_targets(table.drop_last(), pattern);
        if entry_matches(table.last(), pattern) {
            rest.push(table.last().pid)
        } else {
            rest
        }
    }
}

/// Scans a process-table snapshot and collects the identifiers of exactly
/// those entries whose command line contains the pattern.
pub fn select_targets(table: &Vec<ProcessEntry>, pattern: &str) -> (r: Vec<u64>)
    ensures
        r@ == spec_targets(table@, pattern@),
{
    let mut out: Vec<u64> = Vec::new();
    let mut i: usize = 0;
    while i < table.len()
        invariant
            0 <= i <= table@.len(),
            out@ == spec_targets(table@.take(i as int), pattern@),
        decreases table@.len() - i,
    {
        let ghost prev = table@.take(i as int);
        if str_contains(table[i].command_line.as_str(), pattern) {
            out.push(table[i].pid);
        }
        proof {
            assert(table@.take(i + 1).drop_last() =~= prev);
            assert(table@.take(i + 1).last() == table@[i as int]);
            if entry_matches(table@[i as int], pattern@) {
                assert(out@ =~= spec_targets(prev, pattern@).push(table@[i as int].pid));
            } else {
                assert(out@ =~= spec_targets(prev, pattern@));
            }
        }
        i = i + 1;
    }
    proof {
        assert(table@.take(table@.len() as int) =~= table@);
    }
    out
}

/// The identifier strategy targets exactly the tagged processes: the selected
/// identifiers are those of the entries whose command line contains the
/// pattern, and no others, in table order.
pub proof fn lemma_targets_are_exactly_matches(table: Seq<ProcessEntry>, pattern: Seq<char>)
    ensures
        spec_targets(table, pattern) =~= table.filter(
            |e: ProcessEntry| entry_matches(e, pattern),
        ).map_values(|e: ProcessEntry| e.pid),
    decreases table.len(),
{
    let pred = |e: ProcessEntry| entry_matches(e, pattern);
    let f = |e: ProcessEntry| e.pid;
    reveal(Seq::filter);
    if table.len() == 0 {
        assert(table.filter(pred) =~= table);
        assert(table.map_values(f) =~= Seq::<u64>::empty());
    } else {
        lemma_targets_are_exactly_matches(table.drop_last(), pattern);
        let rest = table.drop_last().filter(pred);
        if pred(table.last()) {
            assert(rest.push(table.last()).map_values(f) =~= rest.map_values(f).push(
                table.last().pid,
            ));
        }
    }
}

/// The single bulk command the terminator hands the OS shell: enumerate the
/// processes of the parent build tool, and force-kill each whose command line
/// contains the group pattern.
pub fn bulk_stop_command() -> (r: String)
    ensures
        r@
            == "Get-Process -Name cargo | ForEach-Object { $id = $_.Id; $cmdLine = (Get-CimInstance Win32_Process -Filter \"ProcessId = $id\").CommandLine; if ($cmdLine -like '*wicked-waifus*') { taskkill /F /PID $id } }"@,
{
    String::from_str(
        "Get-Process -Name cargo | ForEach-Object { $id = $_.Id; $cmdLine = (Get-CimInstance Win32_Process -Filter \"ProcessId = $id\").CommandLine; if ($cmdLine -like '*wicked-waifus*') { taskkill /F /PID $id } }",
    )
}

} // verus!

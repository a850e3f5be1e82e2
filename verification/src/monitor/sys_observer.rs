//! A point-in-time view of host memory and of the process table, and the
//! metrics derived from it.
//!
//! The snapshot holds plain values. Whoever reads the operating system hands
//! them in; nothing here reads it.

use crate::text::{decimal, decimal_text};
use vstd::prelude::*;
use vstd::string::StringExecFns;

verus! {

/// Bytes per megabyte, as the query commands report memory.
pub const MB: u64 = 1048576;

/// A percentage is counted in thousandths of a percent.
pub const UNITS_PER_PERCENT: u64 = 1000;

/// What the query commands can ask for.
#[derive(Clone, Copy, Debug)]
pub enum Info {
    RamUsage,
    TopProcess,
}

/// One row of the process table: a process's name and its resident memory in
/// bytes.
#[derive(Clone, Debug)]
pub struct ProcessEntry {
    pub name: String,
    pub memory: u64,
}

impl View for ProcessEntry {
    type V = (Seq<char>, u64);

    open spec fn view(&self) -> (Seq<char>, u64) {
        (self.name@, self.memory)
    }
}

/// The mathematical content of a snapshot.
pub struct Snapshot {
    pub used: u64,
    pub total: u64,
    pub processes: Seq<(Seq<char>, u64)>,
}

/// The rows of a process table, each as name and resident memory.
pub open spec fn table_of(entries: Seq<ProcessEntry>) -> Seq<(Seq<char>, u64)> {
    entries.map_values(|e: ProcessEntry| e@)
}

/// Memory in use as a share of the total, in thousandths of a percent and
/// rounded down. With no memory reported at all the share is zero.
pub open spec fn usage_of(used: u64, total: u64) -> nat {
    if total == 0 {
        0
    } else {
        (used as nat * 100 * UNITS_PER_PERCENT as nat) / (total as nat)
    }
}

/// Whether `top` answers "which process holds the most memory" for `table`:
/// nothing for an empty table, else a row that no other row exceeds. Among
/// rows that share the maximum any one may be the answer.
pub open spec fn is_top(table: Seq<(Seq<char>, u64)>, top: Option<(Seq<char>, u64)>) -> bool {
    match top {
        None => table.len() == 0,
        Some(row) => table.contains(row) && forall|i: int|
            0 <= i < table.len() ==> (#[trigger] table[i]).1 <= row.1,
    }
}

/// The view of an optional row.
pub open spec fn row_view(top: Option<(String, u64)>) -> Option<(Seq<char>, u64)> {
    match top {
        None => None,
        Some(row) => Some((row.0@, row.1)),
    }
}

/// The line that reports used and total memory, both in whole megabytes.
pub open spec fn ram_usage_line(used: u64, total: u64) -> Seq<char> {
    "used_memory: "@ + decimal((used / MB) as nat) + " MB, total_memory: "@ + decimal(
        (total / MB) as nat,
    ) + " MB"@
}

/// The line that reports the top process, or that there is none.
pub open spec fn top_process_line(top: Option<(Seq<char>, u64)>) -> Seq<char> {
    match top {
        None => "process: "@ + "No process found"@,
        Some(row) => "process: "@ + "Process: "@ + row.0 + ", Memory usage: "@ + decimal(
            (row.1 / MB) as nat,
        ) + " MB"@,
    }
}

/// Renders the memory report line.
pub fn ram_usage_text(used: u64, total: u64) -> (line: String)
    ensures
        line@ == ram_usage_line(used, total),
{
    let mut line = String::from_str("used_memory: ");
    let used_mb = decimal_text(used / MB);
    line.append(used_mb.as_str());
    line.append(" MB, total_memory: ");
    let total_mb = decimal_text(total / MB);
    line.append(total_mb.as_str());
    line.append(" MB");
    line
}

/// Renders the top-process report line.
pub fn top_process_text(top: Option<(String, u64)>) -> (line: String)
    ensures
        line@ == top_process_line(row_view(top)),
{
    let mut line = String::from_str("process: ");
    match top {
        None => {
            line.append("No process found");
        },
        Some(row) => {
            line.append("Process: ");
            line.append(row.0.as_str());
            line.append(", Memory usage: ");
            let mb = decimal_text(row.1 / MB);
            line.append(mb.as_str());
            line.append(" MB");
        },
    }
    line
}

/// The latest snapshot of the host.
pub struct Monitor {
    used: u64,
    total: u64,
    processes: Vec<ProcessEntry>,
}

impl View for Monitor {
    type V = Snapshot;

    closed spec fn view(&self) -> Snapshot {
        Snapshot { used: self.used, total: self.total, processes: table_of(self.processes@) }
    }
}

impl Monitor {
    /// A monitor that starts from the given reading.
    pub fn new(used: u64, total: u64, processes: Vec<ProcessEntry>) -> (m: Self)
        ensures
            m@ == (Snapshot { used, total, processes: table_of(processes@) }),
    {
        Monitor { used, total, processes }
    }

    /// Replaces the snapshot by a new reading. Nothing of the old one is kept.
    pub fn update(&mut self, used: u64, total: u64, processes: Vec<ProcessEntry>)
        ensures
            final(self)@ == (Snapshot { used, total, processes: table_of(processes@) }),
    {
        self.used = used;
        self.total = total;
        self.processes = processes;
    }

    /// Used and total memory in bytes, as last read.
    pub fn ram_usage(&self) -> (r: (u64, u64))
        ensures
            r.0 == self@.used,
            r.1 == self@.total,
    {
        (self.used, self.total)
    }

    /// Memory in use as a share of the total, in thousandths of a percent,
    /// rounded down; zero where the total is zero.
    pub fn ram_consumed(&self) -> (usage: u128)
        ensures
            usage == usage_of(self@.used, self@.total),
            self@.total == 0 ==> usage == 0,
    {
        if self.total == 0 {
            0
        } else {
            let full: u128 = 100 * (UNITS_PER_PERCENT as u128);
            assert(full == 100000);
            let scaled: u128 = (self.used as u128) * full;
            scaled / (self.total as u128)
        }
    }

    /// The process that holds the most memory, if there is any process.
    pub fn top_process(&self) -> (top: Option<(String, u64)>)
        ensures
            is_top(self@.processes, row_view(top)),
    {
        let n = self.processes.len();
        if n == 0 {
            return None;
        }
        let mut best: usize = 0;
        let mut i: usize = 1;
        while i < n
            invariant
                n == self.processes.len(),
                0 <= best < i <= n,
                forall|j: int| 0 <= j < i ==> self.processes[j].memory <= self.processes[best as int].memory,
            decreases n - i,
        {
            if self.processes[i].memory >= self.processes[best].memory {
                best = i;
            }
            i += 1;
        }
        let entry = &self.processes[best];
        let name = entry.name.clone();
        proof {
            let table = self@.processes;
            assert(table[best as int] == (name@, entry.memory));
        }
        Some((name, entry.memory))
    }

    /// The text that answers a query from the current snapshot.
    pub fn display_info(&self, info: Info) -> (line: String)
        ensures
            shows(self@, info, line@),
    {
        match info {
            Info::RamUsage => {
                let result = self.ram_usage();
                ram_usage_text(result.0, result.1)
            },
            Info::TopProcess => top_process_text(self.top_process()),
        }
    }
}

/// Whether `line` answers the query `info` on the snapshot `s`. The memory
/// report is one fixed line; the top-process report names any one process
/// that holds the maximum.
pub open spec fn shows(s: Snapshot, info: Info, line: Seq<char>) -> bool {
    match info {
        Info::RamUsage => line == ram_usage_line(s.used, s.total),
        Info::TopProcess => exists|top: Option<(Seq<char>, u64)>|
            is_top(s.processes, top) && line == #[trigger] top_process_line(top),
    }
}

/// A larger amount of used memory never gives a smaller share of the same
/// total.
pub proof fn usage_monotonic(used_a: u64, used_b: u64, total: u64)
    requires
        total > 0,
        used_a <= used_b,
    ensures
        usage_of(used_a, total) <= usage_of(used_b, total),
{
    let a = used_a as int * 100 * UNITS_PER_PERCENT as int;
    let b = used_b as int * 100 * UNITS_PER_PERCENT as int;
    let t = total as int;
    assert(a / t <= b / t) by (nonlinear_arith)
        requires
            0 <= a <= b,
            t > 0,
    ;
}

/// Rounding down loses no decision: a threshold in thousandths of a percent
/// is reached by the rounded share exactly when the true share has reached
/// it.
pub proof fn usage_reaches_exactly(threshold: u64, used: u64, total: u64)
    requires
        total > 0,
    ensures
        threshold <= usage_of(used, total) <==> threshold * total <= used * 100
            * UNITS_PER_PERCENT,
{
    let a = used as int * 100 * UNITS_PER_PERCENT as int;
    let t = total as int;
    let h = threshold as int;
    assert(h <= a / t <==> h * t <= a) by (nonlinear_arith)
        requires
            0 <= a,
            0 <= h,
            t > 0,
    ;
}

/// With no memory reported at all the share is zero, whatever is in use.
pub proof fn usage_of_nothing(used: u64)
    ensures
        usage_of(used, 0) == 0,
{
}

/// The top process of a table with one row is that row.
pub proof fn top_of_one(row: (Seq<char>, u64), top: Option<(Seq<char>, u64)>)
    requires
        is_top(seq![row], top),
    ensures
        top == Some(row),
{
}

/// Of two rows with different memory the top process is the one with more,
/// whichever comes first in the table.
pub proof fn top_of_two(
    a: (Seq<char>, u64),
    b: (Seq<char>, u64),
    top: Option<(Seq<char>, u64)>,
)
    requires
        a.1 != b.1,
        is_top(seq![a, b], top),
    ensures
        top == Some(if a.1 > b.1 { a } else { b }),
{
}

} // verus!

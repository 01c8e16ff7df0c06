//! The process lister: turns a snapshot of the process table into one
//! formatted line per entry, or reports that the table could not be read.
//! Reading the table itself is operating-system work and happens outside the
//! library; this module receives the snapshot as plain values.

use vstd::prelude::*;
use vstd::string::StringExecFns;

use crate::decimal::{dec_seq, int_dec_seq, is_dec_digit, lemma_dec_seq_digits, i32_to_dec,
    u64_to_dec};
use crate::errors::OsError;
use crate::text::{contains_seq, lemma_contains_extend_left, lemma_contains_extend_right,
    lemma_contains_here, lemma_contains_self};

verus! {

/// One entry of the process-table snapshot: the fields the tool reports.
pub struct ProcSummary {
    /// Process identifier.
    pub pid: i32,
    /// Command name (short executable name).
    pub comm: String,
    /// Virtual memory size in bytes.
    pub vsize: u64,
}

/// The summary line for one process: its id, command name and virtual size.
pub open spec fn proc_line_spec(pid: int, comm: Seq<char>, vsize: nat) -> Seq<char> {
    int_dec_seq(pid) + ": "@ + comm + " - "@ + dec_seq(vsize) + " bytes"@
}

/// Formats one process-table entry.
pub fn format_proc_line(p: &ProcSummary) -> (line: String)
    ensures
        line@ == proc_line_spec(p.pid as int, p.comm@, p.vsize as nat),
{
    let mut line = i32_to_dec(p.pid);
    line.append(": ");
    line.append(p.comm.as_str());
    line.append(" - ");
    line.append(u64_to_dec(p.vsize).as_str());
    line.append(" bytes");
    line
}

/// Formats every entry of a process-table snapshot, in table order.
pub fn render_proc_lines(procs: &Vec<ProcSummary>) -> (lines: Vec<String>)
    ensures
        lines@.len() == procs@.len(),
        forall|i: int|
            0 <= i < procs@.len() ==> #[trigger] lines@[i]@ == proc_line_spec(
                procs@[i].pid as int,
                procs@[i].comm@,
                procs@[i].vsize as nat,
            ),
{
    let mut lines: Vec<String> = Vec::new();
    let mut i: usize = 0;
    while i < procs.len()
        invariant
            i <= procs@.len(),
            lines@.len() == i,
            forall|j: int|
                0 <= j < i ==> #[trigger] lines@[j]@ == proc_line_spec(
                    procs@[j].pid as int,
                    procs@[j].comm@,
                    procs@[j].vsize as nat,
                ),
        decreases procs@.len() - i,
    {
        lines.push(format_proc_line(&procs[i]));
        i += 1;
    }
    lines
}

/// The lister's decision: a readable snapshot yields exactly one line per
/// entry; an unreadable process table is an unavailable OS resource and
/// yields no lines at all.
pub fn view_procs(table: Option<Vec<ProcSummary>>) -> (r: Result<Vec<String>, OsError>)
    ensures
        table matches Some(procs) ==> (r matches Ok(lines) && lines@.len() == procs@.len()
            && forall|i: int|
            0 <= i < procs@.len() ==> #[trigger] lines@[i]@ == proc_line_spec(
                procs@[i].pid as int,
                procs@[i].comm@,
                procs@[i].vsize as nat,
            )),
        table is None ==> (r matches Err(e) && e == OsError::ResourceUnavailable),
{
    match table {
        Some(procs) => Ok(render_proc_lines(&procs)),
        None => Err(OsError::ResourceUnavailable),
    }
}

/// Every process line shows the entry's id, its command name, and its size
/// as a plain (unsigned) decimal digit string.
pub proof fn lemma_proc_line_fields(pid: int, comm: Seq<char>, vsize: nat)
    ensures
        contains_seq(proc_line_spec(pid, comm, vsize), int_dec_seq(pid)),
        contains_seq(proc_line_spec(pid, comm, vsize), comm),
        contains_seq(proc_line_spec(pid, comm, vsize), dec_seq(vsize)),
        dec_seq(vsize).len() >= 1,
        forall|j: int| 0 <= j < dec_seq(vsize).len() ==> is_dec_digit(#[trigger] dec_seq(vsize)[j]),
{
    let id = int_dec_seq(pid);
    let ds = dec_seq(vsize);
    let a = id + ": "@;
    let b = a + comm;
    let c = b + " - "@;
    let d = c + ds;
    let line = d + " bytes"@;
    assert(line == proc_line_spec(pid, comm, vsize));
    // the id stands at the front
    lemma_contains_self(id);
    lemma_contains_extend_right(id, ": "@, id);
    lemma_contains_extend_right(a, comm, id);
    lemma_contains_extend_right(b, " - "@, id);
    lemma_contains_extend_right(c, ds, id);
    lemma_contains_extend_right(d, " bytes"@, id);
    // the command name follows the separator
    lemma_contains_here(a, comm, " - "@);
    lemma_contains_extend_right(c, ds, comm);
    lemma_contains_extend_right(d, " bytes"@, comm);
    // the size digits precede the unit
    lemma_contains_self(ds);
    lemma_contains_extend_left(c, ds, ds);
    lemma_contains_extend_right(d, " bytes"@, ds);
    lemma_dec_seq_digits(vsize);
}

} // verus!

//! The path watcher: decodes filesystem change-notification records (an
//! event bitmask plus an optional file name) into readable lines, and drives
//! the watch session as a state machine.  Opening the notification channel
//! and blocking for event batches is operating-system work and happens
//! outside the library; this module receives each record as plain values and
//! decides what to print and whether the session goes on.

use vstd::prelude::*;
use vstd::string::StringExecFns;

use crate::errors::OsError;
use crate::text::{contains_seq, lemma_contains_extend_left, lemma_contains_extend_right,
    lemma_contains_here};

verus! {

/// One filesystem change record: the raw event bitmask and, for events on an
/// entry inside a watched directory, that entry's name.
pub struct FsEvent {
    /// Raw event bitmask, as the notification interface reports it.
    pub mask: u32,
    /// Name of the affected directory entry, when the event carries one.
    pub name: Option<String>,
}

/// Number of event categories this decoder knows.
pub const FLAG_COUNT: usize = 16;

/// The bit of the `i`-th known event category.
pub open spec fn flag_bit(i: int) -> u32 {
    if i == 0 {
        0x1u32  // file was accessed
    } else if i == 1 {
        0x2u32  // file was modified
    } else if i == 2 {
        0x4u32  // metadata changed
    } else if i == 3 {
        0x8u32  // writable file closed
    } else if i == 4 {
        0x10u32  // unwritable file closed
    } else if i == 5 {
        0x20u32  // file was opened
    } else if i == 6 {
        0x40u32  // moved out of the watched directory
    } else if i == 7 {
        0x80u32  // moved into the watched directory
    } else if i == 8 {
        0x100u32  // entry created
    } else if i == 9 {
        0x200u32  // entry deleted
    } else if i == 10 {
        0x400u32  // watched path itself deleted
    } else if i == 11 {
        0x800u32  // watched path itself moved
    } else if i == 12 {
        0x2000u32  // backing filesystem unmounted
    } else if i == 13 {
        0x4000u32  // event queue overflowed
    } else if i == 14 {
        0x8000u32  // watch was removed
    } else {
        0x40000000u32  // event concerns a directory
    }
}

/// The name of the `i`-th known event category.
pub open spec fn flag_name(i: int) -> Seq<char> {
    if i == 0 {
        "IN_ACCESS"@
    } else if i == 1 {
        "IN_MODIFY"@
    } else if i == 2 {
        "IN_ATTRIB"@
    } else if i == 3 {
        "IN_CLOSE_WRITE"@
    } else if i == 4 {
        "IN_CLOSE_NOWRITE"@
    } else if i == 5 {
        "IN_OPEN"@
    } else if i == 6 {
        "IN_MOVED_FROM"@
    } else if i == 7 {
        "IN_MOVED_TO"@
    } else if i == 8 {
        "IN_CREATE"@
    } else if i == 9 {
        "IN_DELETE"@
    } else if i == 10 {
        "IN_DELETE_SELF"@
    } else if i == 11 {
        "IN_MOVE_SELF"@
    } else if i == 12 {
        "IN_UNMOUNT"@
    } else if i == 13 {
        "IN_Q_OVERFLOW"@
    } else if i == 14 {
        "IN_IGNORED"@
    } else {
        "IN_ISDIR"@
    }
}

fn flag_entry(i: usize) -> (e: (u32, &'static str))
    requires
        i < FLAG_COUNT,
    ensures
        e.0 == flag_bit(i as int),
        e.1@ == flag_name(i as int),
{
    if i == 0 {
        (0x1u32, "IN_ACCESS")
    } else if i == 1 {
        (0x2u32, "IN_MODIFY")
    } else if i == 2 {
        (0x4u32, "IN_ATTRIB")
    } else if i == 3 {
        (0x8u32, "IN_CLOSE_WRITE")
    } else if i == 4 {
        (0x10u32, "IN_CLOSE_NOWRITE")
    } else if i == 5 {
        (0x20u32, "IN_OPEN")
    } else if i == 6 {
        (0x40u32, "IN_MOVED_FROM")
    } else if i == 7 {
        (0x80u32, "IN_MOVED_TO")
    } else if i == 8 {
        (0x100u32, "IN_CREATE")
    } else if i == 9 {
        (0x200u32, "IN_DELETE")
    } else if i == 10 {
        (0x400u32, "IN_DELETE_SELF")
    } else if i == 11 {
        (0x800u32, "IN_MOVE_SELF")
    } else if i == 12 {
        (0x2000u32, "IN_UNMOUNT")
    } else if i == 13 {
        (0x4000u32, "IN_Q_OVERFLOW")
    } else if i == 14 {
        (0x8000u32, "IN_IGNORED")
    } else {
        (0x40000000u32, "IN_ISDIR")
    }
}

/// The names of the categories set in `mask`, from index `i` on, separated
/// by `'|'`; `first` records whether a name has already been emitted before
/// index `i`.
pub open spec fn mask_names_from(mask: u32, i: int, first: bool) -> Seq<char>
    decreases FLAG_COUNT - i,
{
    if i < 0 || i >= FLAG_COUNT {
        Seq::<char>::empty()
    } else if mask & flag_bit(i) != 0 {
        (if first {
            Seq::<char>::empty()
        } else {
            "|"@
        }) + flag_name(i) + mask_names_from(mask, i + 1, false)
    } else {
        mask_names_from(mask, i + 1, first)
    }
}

/// Whether `mask` has at least one known category bit set.
pub open spec fn known_mask(mask: u32) -> bool {
    exists|j: int| 0 <= j < FLAG_COUNT && mask & #[trigger] flag_bit(j) != 0
}

/// The text shown for an event bitmask: the `'|'`-separated names of its set
/// category bits, or a fixed marker when no known bit is set.
pub open spec fn mask_text_spec(mask: u32) -> Seq<char> {
    if known_mask(mask) {
        mask_names_from(mask, 0, true)
    } else {
        "(unknown)"@
    }
}

/// Decodes an event bitmask into the names of its set category bits.
pub fn mask_text(mask: u32) -> (s: String)
    ensures
        s@ == mask_text_spec(mask),
{
    let mut s = String::new();
    let mut first: bool = true;
    let mut i: usize = 0;
    while i < FLAG_COUNT
        invariant
            i <= FLAG_COUNT,
            first <==> (forall|j: int| 0 <= j < i ==> mask & #[trigger] flag_bit(j) == 0),
            s@ + mask_names_from(mask, i as int, first) == mask_names_from(mask, 0, true),
        decreases FLAG_COUNT - i,
    {
        let e = flag_entry(i);
        let ghost s_before = s@;
        let ghost first_before = first;
        if mask & e.0 != 0 {
            if !first {
                s.append("|");
            }
            s.append(e.1);
            first = false;
            proof {
                let sep: Seq<char> = if first_before {
                    Seq::<char>::empty()
                } else {
                    "|"@
                };
                assert(s@ =~= s_before + sep + flag_name(i as int));
                assert(s@ + mask_names_from(mask, i as int + 1, false) =~= s_before
                    + mask_names_from(mask, i as int, first_before));
            }
        }
        i += 1;
    }
    if first {
        proof {
            assert(!known_mask(mask));
        }
        String::from_str("(unknown)")
    } else {
        proof {
            assert(s@ + mask_names_from(mask, FLAG_COUNT as int, false) =~= s@);
        }
        s
    }
}

/// Turns the optional name of an event's record into a view of it, for
/// contracts.
pub open spec fn opt_name_view(name: Option<String>) -> Option<Seq<char>> {
    match name {
        Some(n) => Some(n@),
        None => None,
    }
}

/// The text shown for an event's optional file name.
pub open spec fn name_text_spec(name: Option<Seq<char>>) -> Seq<char> {
    match name {
        Some(n) => "Some(\""@ + n + "\")"@,
        None => "None"@,
    }
}

/// The full line for one change record: its decoded category names and the
/// affected entry's name, if any.
pub open spec fn event_line_spec(mask: u32, name: Option<Seq<char>>) -> Seq<char> {
    "Event: "@ + mask_text_spec(mask) + " for "@ + name_text_spec(name)
}

/// Formats one change record.
pub fn format_event_line(ev: &FsEvent) -> (line: String)
    ensures
        line@ == event_line_spec(ev.mask, opt_name_view(ev.name)),
{
    let mut line = String::from_str("Event: ");
    line.append(mask_text(ev.mask).as_str());
    line.append(" for ");
    match &ev.name {
        Some(n) => {
            line.append("Some(\"");
            line.append(n.as_str());
            line.append("\")");
        },
        None => {
            line.append("None");
        },
    }
    line
}

/// Formats every record of an event batch, in arrival order.
pub fn format_event_batch(events: &Vec<FsEvent>) -> (lines: Vec<String>)
    ensures
        lines@.len() == events@.len(),
        forall|i: int|
            0 <= i < events@.len() ==> #[trigger] lines@[i]@ == event_line_spec(
                events@[i].mask,
                opt_name_view(events@[i].name),
            ),
{
    let mut lines: Vec<String> = Vec::new();
    let mut i: usize = 0;
    while i < events.len()
        invariant
            i <= events@.len(),
            lines@.len() == i,
            forall|j: int|
                0 <= j < i ==> #[trigger] lines@[j]@ == event_line_spec(
                    events@[j].mask,
                    opt_name_view(events@[j].name),
                ),
        decreases events@.len() - i,
    {
        lines.push(format_event_line(&events[i]));
        i += 1;
    }
    lines
}

/// Where a watch session stands.
#[derive(Clone, Copy, Debug, PartialEq, Eq, Structural)]
pub enum WatchPhase {
    /// The notification channel is being opened and the path attached.
    SettingUp,
    /// The channel is open; the session blocks for event batches.
    Watching,
    /// The session is over; nothing further happens.
    Ended,
}

/// What the outside world reports to the session.
pub enum WatchInput {
    /// The channel was opened and the path attached.
    SetupOk,
    /// Opening the channel or attaching the path failed.
    SetupFailed,
    /// A batch of change records arrived.
    Batch(Vec<FsEvent>),
    /// Reading from the established channel failed.
    ReadFailed,
    /// The caller asked the session to stop.
    Cancel,
}

/// What the session asks the outside world to do next.
pub enum WatchOutput {
    /// Block for the next event batch.
    AwaitEvents,
    /// Print these lines, then block for the next batch.
    Report(Vec<String>),
    /// Report this failure and stop.
    Abort(OsError),
    /// Stop cleanly.
    Done,
}

/// Which inputs can arrive in which phase: setup outcomes only while setting
/// up, batches, read failures and cancellation only while watching, and
/// nothing at all once the session has ended.
pub open spec fn phase_admits(phase: WatchPhase, input: WatchInput) -> bool {
    match phase {
        WatchPhase::SettingUp => input is SetupOk || input is SetupFailed,
        WatchPhase::Watching => input is Batch || input is ReadFailed || input is Cancel,
        WatchPhase::Ended => false,
    }
}

/// One decision of the watch session: from the current phase and what the
/// outside world reported, the next phase and the action to perform.  A
/// failed setup aborts with an unavailable OS resource before any batch is
/// awaited; a failed read aborts with a read failure; a batch is formatted
/// in full and the session goes on; a cancellation ends it cleanly.
pub fn watch_step(phase: WatchPhase, input: WatchInput) -> (r: (WatchPhase, WatchOutput))
    requires
        phase_admits(phase, input),
    ensures
        input is SetupOk ==> (r.0 is Watching && r.1 is AwaitEvents),
        input is SetupFailed ==> (r.1 matches WatchOutput::Abort(e) && e
            == OsError::ResourceUnavailable && r.0 is Ended),
        input matches WatchInput::Batch(events) ==> (r.1 matches WatchOutput::Report(lines)
            && r.0 is Watching && lines@.len() == events@.len()
            && forall|i: int|
            0 <= i < events@.len() ==> #[trigger] lines@[i]@ == event_line_spec(
                events@[i].mask,
                opt_name_view(events@[i].name),
            )),
        input is ReadFailed ==> (r.1 matches WatchOutput::Abort(e) && e
            == OsError::ReadFailure && r.0 is Ended),
        input is Cancel ==> (r.0 is Ended && r.1 is Done),
{
    match input {
        WatchInput::SetupOk => (WatchPhase::Watching, WatchOutput::AwaitEvents),
        WatchInput::SetupFailed => (
            WatchPhase::Ended,
            WatchOutput::Abort(OsError::ResourceUnavailable),
        ),
        WatchInput::Batch(events) => (
            WatchPhase::Watching,
            WatchOutput::Report(format_event_batch(&events)),
        ),
        WatchInput::ReadFailed => (WatchPhase::Ended, WatchOutput::Abort(OsError::ReadFailure)),
        WatchInput::Cancel => (WatchPhase::Ended, WatchOutput::Done),
    }
}

/// An ended session admits no further input: once setup has failed (or the
/// session has stopped for any other reason), no event loop is entered.
pub proof fn lemma_ended_is_final(input: WatchInput)
    ensures
        !phase_admits(WatchPhase::Ended, input),
{
}

/// A category bit that is set in the mask has its name in the decoded text.
proof fn lemma_names_contains(mask: u32, i: int, first: bool, k: int)
    requires
        0 <= i <= k < FLAG_COUNT,
        mask & flag_bit(k) != 0,
    ensures
        contains_seq(mask_names_from(mask, i, first), flag_name(k)),
    decreases FLAG_COUNT - i,
{
    let sep: Seq<char> = if first {
        Seq::<char>::empty()
    } else {
        "|"@
    };
    if i == k {
        lemma_contains_here(sep, flag_name(k), mask_names_from(mask, i + 1, false));
    } else if mask & flag_bit(i) != 0 {
        lemma_names_contains(mask, i + 1, false, k);
        lemma_contains_extend_left(
            sep + flag_name(i),
            mask_names_from(mask, i + 1, false),
            flag_name(k),
        );
        assert((sep + flag_name(i)) + mask_names_from(mask, i + 1, false) =~= mask_names_from(
            mask,
            i,
            first,
        ));
    } else {
        lemma_names_contains(mask, i + 1, first, k);
    }
}

/// A creation event's line names the creation category and the created
/// entry: the decoded text of any mask with the creation bit set contains
/// `IN_CREATE`, and the line for a record that carries a file name contains
/// that name.
pub proof fn lemma_creation_event_line(mask: u32, name: Seq<char>)
    requires
        mask & 0x100u32 != 0,
    ensures
        contains_seq(event_line_spec(mask, Some(name)), "IN_CREATE"@),
        contains_seq(event_line_spec(mask, Some(name)), name),
{
    assert(flag_bit(8) == 0x100u32);
    assert(known_mask(mask));
    lemma_names_contains(mask, 0, true, 8);
    assert(flag_name(8) == "IN_CREATE"@);
    let mt = mask_text_spec(mask);
    let nt = name_text_spec(Some(name));
    // the line is built as (("Event: " + mt) + " for ") + nt
    lemma_contains_extend_left("Event: "@, mt, "IN_CREATE"@);
    lemma_contains_extend_right("Event: "@ + mt, " for "@, "IN_CREATE"@);
    lemma_contains_extend_right("Event: "@ + mt + " for "@, nt, "IN_CREATE"@);
    // the name stands inside the quoted tail
    lemma_contains_here("Some(\""@, name, "\")"@);
    lemma_contains_extend_left("Event: "@ + mt + " for "@, nt, name);
}

} // verus!

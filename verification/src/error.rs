//! The error slot: the most recent failure of one calling thread.
//!
//! A slot holds at most one [`ErrorRecord`]. Recording overwrites whatever was
//! there; reading moves the record out, so a second read finds nothing.

use vstd::prelude::*;
use vstd::string::StringExecFns;

verus! {

/// A failure as the boundary reports it: the primary message, followed by the
/// messages of its causes, ordered from the immediate cause to the root.
#[derive(Debug)]
pub struct ErrorRecord {
    pub message: String,
    pub causes: Vec<String>,
}

/// The mathematical value of an [`ErrorRecord`].
pub ghost struct ErrorRecordView {
    pub message: Seq<char>,
    pub causes: Seq<Seq<char>>,
}

impl View for ErrorRecord {
    type V = ErrorRecordView;

    open spec fn view(&self) -> ErrorRecordView {
        ErrorRecordView { message: self.message@, causes: self.causes.deep_view() }
    }
}

/// How loudly a diagnostic line is logged.
#[derive(Clone, Copy, Debug, PartialEq, Eq, Structural)]
pub enum Severity {
    Error,
    Warn,
}

/// One line for the diagnostic log.
#[derive(Debug)]
pub struct LogLine {
    pub severity: Severity,
    pub text: String,
}

impl View for LogLine {
    type V = (Severity, Seq<char>);

    open spec fn view(&self) -> (Severity, Seq<char>) {
        (self.severity, self.text@)
    }
}

impl DeepView for LogLine {
    type V = (Severity, Seq<char>);

    open spec fn deep_view(&self) -> (Severity, Seq<char>) {
        self@
    }
}

/// The prefix of the line that announces a newly recorded failure.
pub open spec fn recorded_prefix() -> Seq<char> {
    "Setting LAST_ERROR: "@
}

/// The prefix of the line that names one cause of a recorded failure.
pub open spec fn cause_prefix() -> Seq<char> {
    "Caused by: "@
}

/// The diagnostic lines that recording `record` produces: the primary message
/// at error severity, then each cause, in chain order, at warning severity.
pub open spec fn diagnostic_lines(record: ErrorRecordView) -> Seq<(Severity, Seq<char>)> {
    seq![(Severity::Error, recorded_prefix() + record.message)] + Seq::new(
        record.causes.len(),
        |i: int| (Severity::Warn, cause_prefix() + record.causes[i]),
    )
}

/// What a boundary caller reads from a slot holding `slot`: the primary
/// message of the record, or the empty string when the slot is empty.
pub open spec fn message_of(slot: Option<ErrorRecordView>) -> Seq<char> {
    match slot {
        Some(record) => record.message,
        None => Seq::empty(),
    }
}

/// The content of a slot after a read: nothing.
pub open spec fn slot_after_read(slot: Option<ErrorRecordView>) -> Option<ErrorRecordView> {
    None
}

/// The content of a slot after `record` is recorded: the record, whatever
/// the slot held before.
pub open spec fn slot_after_record(
    slot: Option<ErrorRecordView>,
    record: ErrorRecordView,
) -> Option<ErrorRecordView> {
    Some(record)
}

/// A single-slot container for the last failure of one calling thread.
pub struct ErrorSlot {
    last: Option<ErrorRecord>,
}

impl View for ErrorSlot {
    type V = Option<ErrorRecordView>;

    closed spec fn view(&self) -> Option<ErrorRecordView> {
        match self.last {
            Some(record) => Some(record@),
            None => None,
        }
    }
}

impl ErrorSlot {
    /// An empty slot.
    pub fn new() -> (slot: ErrorSlot)
        ensures
            slot@ is None,
    {
        ErrorSlot { last: None }
    }

    /// Whether a failure is waiting to be read.
    pub fn is_pending(&self) -> (pending: bool)
        ensures
            pending == (self@ is Some),
    {
        self.last.is_some()
    }
}

/// Stores `err` in the slot, overwriting any failure that was not read, and
/// returns the lines to emit to the diagnostic log.
pub fn update_last_error(slot: &mut ErrorSlot, err: ErrorRecord) -> (log: Vec<LogLine>)
    ensures
        final(slot)@ == slot_after_record(old(slot)@, err@),
        log.deep_view() == diagnostic_lines(err@),
{
    let mut log: Vec<LogLine> = Vec::new();
    let mut head = "Setting LAST_ERROR: ".to_owned();
    head.append(err.message.as_str());
    log.push(LogLine { severity: Severity::Error, text: head });
    let mut i: usize = 0;
    while i < err.causes.len()
        invariant
            i <= err.causes.len(),
            log.len() == i + 1,
            log[0]@ == (Severity::Error, recorded_prefix() + err.message@),
            forall|k: int|
                1 <= k <= i ==> (#[trigger] log[k])@ == (
                    Severity::Warn,
                    cause_prefix() + err.causes[k - 1]@,
                ),
        decreases err.causes.len() - i,
    {
        let mut line = "Caused by: ".to_owned();
        line.append(err.causes[i].as_str());
        log.push(LogLine { severity: Severity::Warn, text: line });
        i += 1;
    }
    proof {
        let lines = diagnostic_lines(err@);
        assert(log.deep_view().len() == lines.len());
        assert forall|k: int| 0 <= k < lines.len() implies log.deep_view()[k] == lines[k] by {
            if k > 0 {
                assert(log[k]@ == (Severity::Warn, cause_prefix() + err.causes[k - 1]@));
                assert(err@.causes[k - 1] == err.causes[k - 1]@);
            }
        }
        assert(log.deep_view() =~= lines);
    }
    slot.last = Some(err);
    log
}

/// Moves the last failure out of the slot, leaving the slot empty.
pub fn take_last_error(slot: &mut ErrorSlot) -> (taken: Option<ErrorRecord>)
    ensures
        final(slot)@ == slot_after_read(old(slot)@),
        match taken {
            Some(record) => old(slot)@ == Some(record@),
            None => old(slot)@ is None,
        },
{
    slot.last.take()
}

/// Reads the last failure for the boundary: returns its primary message, or
/// the empty string if none is pending, and leaves the slot empty.
pub fn arti_last_error_message(slot: &mut ErrorSlot) -> (message: String)
    ensures
        message@ == message_of(old(slot)@),
        final(slot)@ == slot_after_read(old(slot)@),
{
    match take_last_error(slot) {
        Some(record) => record.message,
        None => String::new(),
    }
}

/// Settles the outcome of a fallible step: a failure is recorded in the slot
/// and reported as `false`, together with the lines to log; a success leaves
/// the slot as it was.
pub fn settle(slot: &mut ErrorSlot, outcome: Result<(), ErrorRecord>) -> (settled: (
    bool,
    Vec<LogLine>,
))
    ensures
        match outcome {
            Ok(_) => {
                &&& settled.0
                &&& settled.1.deep_view() == Seq::<(Severity, Seq<char>)>::empty()
                &&& final(slot)@ == old(slot)@
            },
            Err(record) => {
                &&& !settled.0
                &&& settled.1.deep_view() == diagnostic_lines(record@)
                &&& final(slot)@ == Some(record@)
            },
        },
{
    match outcome {
        Ok(_) => {
            let log: Vec<LogLine> = Vec::new();
            assert(log.deep_view() =~= Seq::<(Severity, Seq<char>)>::empty());
            (true, log)
        },
        Err(record) => {
            let log = update_last_error(slot, record);
            (false, log)
        },
    }
}

/// Reading is take-once: whatever the slot held, a read that follows another
/// read, with no failure recorded in between, finds the empty string.
pub proof fn law_second_read_is_empty(slot: Option<ErrorRecordView>)
    ensures
        message_of(slot_after_read(slot)) == Seq::<char>::empty(),
        slot_after_read(slot_after_read(slot)) == slot_after_read(slot),
{
}

/// A failure is readable right after it is recorded, whatever was in the slot
/// before: the read returns its primary message.
pub proof fn law_read_after_record(slot: Option<ErrorRecordView>, record: ErrorRecordView)
    ensures
        message_of(slot_after_record(slot, record)) == record.message,
{
}

} // verus!

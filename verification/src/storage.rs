//! The operation log on disk and the snapshot beside it: which lines of the log
//! count, in which order they are applied, and over what.
use vstd::prelude::*;
use crate::collections::{outcome, Replicate};
use crate::control::{
    apply_result, apply_state, ControlEnvelope, ControlEnvelopeModel, ControlError, ControlState,
    ControlStateModel,
};
use crate::sorting::{put_in_order, sorted, Ranked};
use crate::text::{decimal, decimal_text, lines_of, split_lines, trim, trimmed};

verus! {

/// Why the log or the snapshot could not be used.
#[derive(Debug, PartialEq, Eq)]
pub enum StoreError {
    Io(String),
    Json(String),
    InvalidOpLog { line: usize, message: String },
}

/// What a [`StoreError`] holds.
#[verifier::ext_equal]
pub enum StoreErrorModel {
    Io(Seq<char>),
    Json(Seq<char>),
    InvalidOpLog { line: usize, message: Seq<char> },
}

impl DeepView for StoreError {
    type V = StoreErrorModel;

    open spec fn deep_view(&self) -> StoreErrorModel {
        match self {
            StoreError::Io(a) => StoreErrorModel::Io(a.deep_view()),
            StoreError::Json(a) => StoreErrorModel::Json(a.deep_view()),
            StoreError::InvalidOpLog { line, message } => StoreErrorModel::InvalidOpLog {
                line: line.deep_view(),
                message: message.deep_view(),
            },
        }
    }
}

impl View for StoreError {
    type V = StoreErrorModel;

    open spec fn view(&self) -> StoreErrorModel {
        self.deep_view()
    }
}

impl Replicate for StoreError {
    fn replicate(&self) -> (copy: Self) {
        match self {
            StoreError::Io(a) => StoreError::Io(a.replicate()),
            StoreError::Json(a) => StoreError::Json(a.replicate()),
            StoreError::InvalidOpLog { line, message } => StoreError::InvalidOpLog {
                line: line.replicate(),
                message: message.replicate(),
            },
        }
    }
}

impl Clone for StoreError {
    fn clone(&self) -> (copy: Self)
        ensures
            copy@ == self@,
    {
        self.replicate()
    }
}

/// A line of the log that is not blank, with its number, counted from one.
#[derive(Debug, PartialEq, Eq)]
pub struct LogLine {
    pub line: usize,
    pub text: String,
}

/// What a [`LogLine`] holds.
#[verifier::ext_equal]
pub struct LogLineModel {
    pub line: usize,
    pub text: Seq<char>,
}

impl DeepView for LogLine {
    type V = LogLineModel;

    open spec fn deep_view(&self) -> LogLineModel {
        LogLineModel {
            line: self.line.deep_view(),
            text: self.text.deep_view(),
        }
    }
}

impl View for LogLine {
    type V = LogLineModel;

    open spec fn view(&self) -> LogLineModel {
        self.deep_view()
    }
}

impl Replicate for LogLine {
    fn replicate(&self) -> (copy: Self) {
        LogLine {
            line: self.line.replicate(),
            text: self.text.replicate(),
        }
    }
}

impl Clone for LogLine {
    fn clone(&self) -> (copy: Self)
        ensures
            copy@ == self@,
    {
        self.replicate()
    }
}

/// An operation of the log, with the number of its line.
#[derive(Debug, PartialEq, Eq)]
pub struct LogEntry {
    pub line: usize,
    pub op: ControlEnvelope,
}

/// What a [`LogEntry`] holds.
#[verifier::ext_equal]
pub struct LogEntryModel {
    pub line: usize,
    pub op: ControlEnvelopeModel,
}

impl DeepView for LogEntry {
    type V = LogEntryModel;

    open spec fn deep_view(&self) -> LogEntryModel {
        LogEntryModel {
            line: self.line.deep_view(),
            op: self.op.deep_view(),
        }
    }
}

impl View for LogEntry {
    type V = LogEntryModel;

    open spec fn view(&self) -> LogEntryModel {
        self.deep_view()
    }
}

impl Replicate for LogEntry {
    fn replicate(&self) -> (copy: Self) {
        LogEntry {
            line: self.line.replicate(),
            op: self.op.replicate(),
        }
    }
}

impl Clone for LogEntry {
    fn clone(&self) -> (copy: Self)
        ensures
            copy@ == self@,
    {
        self.replicate()
    }
}

impl StoreError {
    /// The failure in words.
    pub open spec fn words(error: StoreErrorModel) -> Seq<char> {
        match error {
            StoreErrorModel::Io(text) => "io error: "@ + text,
            StoreErrorModel::Json(text) => "json error: "@ + text,
            StoreErrorModel::InvalidOpLog { line, message } => "invalid operation log at line "@
                + decimal_text(line as nat) + ": "@ + message,
        }
    }

    /// The failure in words.
    pub fn message(&self) -> (text: String)
        ensures
            text@ == StoreError::words(self@),
    {
        match self {
            StoreError::Io(text) => "io error: ".to_owned().concat(text.as_str()),
            StoreError::Json(text) => "json error: ".to_owned().concat(text.as_str()),
            StoreError::InvalidOpLog { line, message } => "invalid operation log at line ".to_owned().concat(
                decimal(*line as u64).as_str(),
            ).concat(": ").concat(message.as_str()),
        }
    }
}

/// The lines that are not blank, with their numbers; the first has the number
/// `first`.
pub open spec fn counted_lines(lines: Seq<Seq<char>>, first: int) -> Seq<LogLineModel>
    decreases lines.len(),
{
    if lines.len() == 0 {
        Seq::empty()
    } else {
        let rest = counted_lines(lines.drop_first(), first + 1);
        if trimmed(lines[0]).len() == 0 {
            rest
        } else {
            seq![LogLineModel { line: first as usize, text: lines[0] }] + rest
        }
    }
}

/// The lines of a log that are not blank, with their numbers.
pub fn log_lines(text: &str) -> (entries: Vec<LogLine>)
    ensures
        entries.deep_view() == counted_lines(lines_of(text@), 1),
{
    let lines = split_lines(text);
    let ghost all = lines.deep_view();
    let mut entries: Vec<LogLine> = Vec::new();
    let mut i: usize = 0;
    proof {
        assert(all.skip(0) =~= all);
        assert(entries.deep_view() + counted_lines(all, 1) =~= counted_lines(all, 1));
    }
    while i < lines.len()
        invariant
            i <= lines.len(),
            all == lines.deep_view(),
            entries.deep_view() + counted_lines(all.skip(i as int), i + 1) == counted_lines(all, 1),
        decreases lines.len() - i,
    {
        let ghost before = entries.deep_view();
        proof {
            assert(all.skip(i as int).drop_first() =~= all.skip(i + 1));
            assert(all.skip(i as int)[0] == lines@[i as int]@);
        }
        let number: usize = i + 1;
        if !trim(lines[i].as_str()).as_str().is_empty() {
            let entry = LogLine { line: number, text: lines[i].clone() };
            let ghost added = entry@;
            entries.push(entry);
            proof {
                assert(entries.deep_view() =~= before.push(added));
                assert(entries.deep_view() + counted_lines(all.skip(i + 1), i + 2) =~= before + (
                seq![added] + counted_lines(all.skip(i + 1), i + 2)));
            }
        }
        i += 1;
    }
    proof {
        assert(all.skip(i as int) =~= Seq::<Seq<char>>::empty());
        assert(entries.deep_view() =~= counted_lines(all, 1));
    }
    entries
}

impl Ranked for LogEntry {
    /// By the time of the operation, and at the same time by its id.
    open spec fn ahead(a: LogEntryModel, b: LogEntryModel) -> bool {
        ControlEnvelope::ahead(a.op, b.op)
    }

    proof fn lemma_asymmetric(a: LogEntryModel, b: LogEntryModel) {
        ControlEnvelope::lemma_asymmetric(a.op, b.op);
    }

    proof fn lemma_not_ahead_transitive(a: LogEntryModel, b: LogEntryModel, c: LogEntryModel) {
        ControlEnvelope::lemma_not_ahead_transitive(a.op, b.op, c.op);
    }

    fn is_ahead(&self, other: &Self) -> (before: bool) {
        self.op.is_ahead(&other.op)
    }
}

/// Puts the entries of a log in order.
pub fn sort_entries(entries: Vec<LogEntry>) -> (ordered: Vec<LogEntry>)
    ensures
        ordered.deep_view() == sorted::<LogEntry>(entries.deep_view()),
{
    let ghost all = entries.deep_view();
    let mut ordered: Vec<LogEntry> = Vec::new();
    let mut i: usize = 0;
    proof {
        assert(ordered.deep_view() =~= all.take(0));
    }
    while i < entries.len()
        invariant
            i <= entries.len(),
            all == entries.deep_view(),
            ordered.deep_view() == sorted::<LogEntry>(all.take(i as int)),
        decreases entries.len() - i,
    {
        put_in_order(&mut ordered, entries[i].replicate());
        i += 1;
        proof {
            assert(all.take(i as int).drop_last() =~= all.take(i - 1));
            assert(all.take(i as int).last() == all[i - 1]);
        }
    }
    proof {
        assert(all.take(i as int) =~= all);
    }
    ordered
}

/// The state after the entries of a log were applied one after the other; where
/// one is refused, the number of its line and why.
pub open spec fn loaded(state: ControlStateModel, entries: Seq<LogEntryModel>) -> Result<
    ControlStateModel,
    StoreErrorModel,
>
    decreases entries.len(),
{
    if entries.len() == 0 {
        Ok(state)
    } else {
        match apply_result(state, entries[0].op) {
            Err(error) => Err(
                StoreErrorModel::InvalidOpLog {
                    line: entries[0].line,
                    message: ControlError::words(error),
                },
            ),
            Ok(_) => loaded(apply_state(state, entries[0].op), entries.drop_first()),
        }
    }
}

/// The state that a snapshot and a log lead to.
pub fn load_state(snapshot: ControlState, entries: Vec<LogEntry>) -> (result: Result<
    ControlState,
    StoreError,
>)
    ensures
        match loaded(snapshot@, sorted::<LogEntry>(entries.deep_view())) {
            Ok(state) => result is Ok && result->Ok_0@ == state,
            Err(error) => outcome(result) == Err::<ControlState, StoreErrorModel>(error),
        },
{
    let ordered = sort_entries(entries);
    let ghost all = ordered.deep_view();
    let ghost start = snapshot@;
    let mut state = snapshot;
    let mut i: usize = 0;
    proof {
        assert(all.skip(0) =~= all);
    }
    while i < ordered.len()
        invariant
            i <= ordered.len(),
            all == ordered.deep_view(),
            start == snapshot@,
            all == sorted::<LogEntry>(entries.deep_view()),
            loaded(start, all) == loaded(state@, all.skip(i as int)),
        decreases ordered.len() - i,
    {
        proof {
            assert(all.skip(i as int)[0] == ordered@[i as int]@);
            assert(all.skip(i as int).drop_first() =~= all.skip(i + 1));
        }
        if let Err(error) = state.apply(ordered[i].op.replicate()) {
            return Err(
                StoreError::InvalidOpLog { line: ordered[i].line, message: error.message() },
            );
        }
        i += 1;
    }
    Ok(state)
}

/// The operations of a log in its order.
pub fn load_ops(entries: Vec<LogEntry>) -> (ops: Vec<ControlEnvelope>)
    ensures
        ops.deep_view() == sorted::<LogEntry>(entries.deep_view()).map_values(
            |entry: LogEntryModel| entry.op,
        ),
{
    let ordered = sort_entries(entries);
    let ghost all = ordered.deep_view();
    let mut ops: Vec<ControlEnvelope> = Vec::new();
    let mut i: usize = 0;
    while i < ordered.len()
        invariant
            i <= ordered.len(),
            all == ordered.deep_view(),
            ops.len() == i,
            forall|j: int| 0 <= j < i ==> #[trigger] ops@[j]@ == all[j].op,
        decreases ordered.len() - i,
    {
        ops.push(ordered[i].op.replicate());
        i += 1;
    }
    proof {
        let f = |entry: LogEntryModel| entry.op;
        assert forall|j: int| 0 <= j < ops.len() implies #[trigger] ops.deep_view()[j]
            == all.map_values(f)[j] by {
            assert(ops@[j]@ == all[j].op);
        }
        assert(ops.deep_view() =~= all.map_values(f));
    }
    ops
}

} // verus!

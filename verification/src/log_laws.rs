//! In which order a log is replayed, and what is read of it from disk.
use vstd::prelude::*;
use crate::control::{
    apply_result, apply_state, ControlEnvelope, ControlEnvelopeModel, ControlErrorModel,
    ControlStateModel,
};
use crate::replay::{log_order, replay_from};
use crate::sorting::{sorted, sorted_is_ordered, Ranked};
use crate::storage::{counted_lines, loaded, LogEntry, LogEntryModel, StoreErrorModel};
use crate::text::{text_before, trimmed};

verus! {

/// A log holds what was put into it, each as often, by time, and at the same time by id.
pub proof fn log_is_ordered_by_time_and_id(ops: Seq<ControlEnvelopeModel>, i: int, j: int)
    ensures
        log_order(ops).len() == ops.len(),
        log_order(ops).to_multiset() == ops.to_multiset(),
        0 <= i < j < ops.len() ==> ({
            let a = log_order(ops)[i];
            let b = log_order(ops)[j];
            a.ts_ms <= b.ts_ms && (a.ts_ms == b.ts_ms ==> !text_before(b.op_id, a.op_id))
        }),
{
    sorted_is_ordered::<ControlEnvelope>(ops);
    let log = log_order(ops);
    if 0 <= i < j < log.len() {
        assert(!ControlEnvelope::ahead(log[j], log[i]));
    }
}

/// Replaying applies one operation after the other, each to what those before it left;
/// the first that is refused is the failure.
pub proof fn replay_applies_in_turn(
    state: ControlStateModel,
    op: ControlEnvelopeModel,
    rest: Seq<ControlEnvelopeModel>,
)
    ensures
        replay_from(state, Seq::empty()) == Ok::<ControlStateModel, ControlErrorModel>(state),
        apply_result(state, op) is Ok ==> replay_from(state, seq![op] + rest) == replay_from(
            apply_state(state, op),
            rest,
        ),
        apply_result(state, op) is Err ==> replay_from(state, seq![op] + rest) == Err::<
            ControlStateModel,
            ControlErrorModel,
        >(apply_result(state, op)->Err_0),
{
    assert((seq![op] + rest).drop_first() =~= rest);
}

/// Entries of a log are loaded in the order of their operations, whatever lines they
/// stood on.
pub proof fn entries_are_ordered_by_operation(entries: Seq<LogEntryModel>, i: int, j: int)
    ensures
        sorted::<LogEntry>(entries).len() == entries.len(),
        sorted::<LogEntry>(entries).to_multiset() == entries.to_multiset(),
        0 <= i < j < entries.len() ==> ({
            let a = sorted::<LogEntry>(entries)[i].op;
            let b = sorted::<LogEntry>(entries)[j].op;
            a.ts_ms <= b.ts_ms && (a.ts_ms == b.ts_ms ==> !text_before(b.op_id, a.op_id))
        }),
{
    sorted_is_ordered::<LogEntry>(entries);
    let all = sorted::<LogEntry>(entries);
    if 0 <= i < j < all.len() {
        assert(!LogEntry::ahead(all[j], all[i]));
    }
}

/// Loading applies one entry after the other; one that is refused is told with the line
/// it stood on.
pub proof fn loading_tells_the_line(
    state: ControlStateModel,
    entry: LogEntryModel,
    rest: Seq<LogEntryModel>,
)
    ensures
        loaded(state, Seq::empty()) == Ok::<ControlStateModel, StoreErrorModel>(state),
        apply_result(state, entry.op) is Ok ==> loaded(state, seq![entry] + rest) == loaded(
            apply_state(state, entry.op),
            rest,
        ),
        apply_result(state, entry.op) is Err ==> loaded(state, seq![entry] + rest) is Err
            && loaded(state, seq![entry] + rest)->Err_0 is InvalidOpLog && loaded(
            state,
            seq![entry] + rest,
        )->Err_0->line == entry.line,
{
    assert((seq![entry] + rest).drop_first() =~= rest);
}

/// Each line that is not blank is read, with its number from one on; blank lines count
/// but are not read.
pub proof fn lines_are_numbered(line: Seq<char>, rest: Seq<Seq<char>>, first: int)
    ensures
        counted_lines(Seq::empty(), first).len() == 0,
        trimmed(line).len() == 0 ==> counted_lines(seq![line] + rest, first) == counted_lines(
            rest,
            first + 1,
        ),
        trimmed(line).len() > 0 ==> ({
            let read = counted_lines(seq![line] + rest, first);
            &&& read.len() == counted_lines(rest, first + 1).len() + 1
            &&& read[0].text == line
            &&& 0 <= first <= usize::MAX ==> read[0].line == first
            &&& read.drop_first() == counted_lines(rest, first + 1)
        }),
{
    assert((seq![line] + rest).drop_first() =~= rest);
    if trimmed(line).len() > 0 {
        assert(counted_lines(seq![line] + rest, first).drop_first() =~= counted_lines(
            rest,
            first + 1,
        ));
    }
}

} // verus!

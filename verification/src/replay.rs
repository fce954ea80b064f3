//! Replaying a log of operations in its own order, whatever order the
//! operations arrived in.
//!
//! The log is ordered by time, and at the same time by operation id. Operations
//! that agree in both stay in the order of their arrival.
use vstd::prelude::*;
use crate::collections::{outcome, Key, Relation, Replicate};
use crate::control::{
    apply_result, apply_state, no_guilds, ApplyOutcome, ControlEnvelope, ControlEnvelopeModel, ControlError,
    ControlErrorModel, ControlState, ControlStateModel,
};
use crate::sorting::{put_in_order, sorted, sorted_ignores_arrival, Ranked};
use crate::text::{
    lemma_text_before_irreflexive, lemma_text_before_total, lemma_text_before_transitive,
    text_before,
};

verus! {

impl Ranked for ControlEnvelope {
    /// By time, and at the same time by operation id.
    open spec fn ahead(a: ControlEnvelopeModel, b: ControlEnvelopeModel) -> bool {
        a.ts_ms < b.ts_ms || (a.ts_ms == b.ts_ms && text_before(a.op_id, b.op_id))
    }

    proof fn lemma_asymmetric(a: ControlEnvelopeModel, b: ControlEnvelopeModel) {
        if Self::ahead(b, a) {
            lemma_text_before_transitive(a.op_id, b.op_id, a.op_id);
            lemma_text_before_irreflexive(a.op_id);
        }
    }

    proof fn lemma_not_ahead_transitive(
        a: ControlEnvelopeModel,
        b: ControlEnvelopeModel,
        c: ControlEnvelopeModel,
    ) {
        if Self::ahead(c, a) {
            if a.op_id != b.op_id {
                lemma_text_before_total(a.op_id, b.op_id);
            }
            if b.op_id != c.op_id {
                lemma_text_before_total(b.op_id, c.op_id);
            }
            if text_before(c.op_id, a.op_id) && a.op_id != b.op_id && text_before(
                a.op_id,
                b.op_id,
            ) {
                lemma_text_before_transitive(c.op_id, a.op_id, b.op_id);
            }
        }
    }

    fn is_ahead(&self, other: &Self) -> (before: bool) {
        self.ts_ms < other.ts_ms || (self.ts_ms == other.ts_ms && self.op_id.relate(&other.op_id)
            == Relation::Before)
    }
}

/// The operations in the order of the log.
pub open spec fn log_order(ops: Seq<ControlEnvelopeModel>) -> Seq<ControlEnvelopeModel> {
    sorted::<ControlEnvelope>(ops)
}

/// Operations of which no two have the same time and the same id.
pub open spec fn distinctly_stamped(ops: Seq<ControlEnvelopeModel>) -> bool {
    forall|i: int, j: int|
        0 <= i < j < ops.len() ==> #[trigger] ops[i].ts_ms != #[trigger] ops[j].ts_ms || ops[i].op_id
            != ops[j].op_id
}

/// The state after `ops` were applied one after the other, up to the first that
/// is refused.
pub open spec fn replay_from(
    state: ControlStateModel,
    ops: Seq<ControlEnvelopeModel>,
) -> Result<ControlStateModel, ControlErrorModel>
    decreases ops.len(),
{
    if ops.len() == 0 {
        Ok(state)
    } else {
        match apply_result(state, ops[0]) {
            Err(error) => Err(error),
            Ok(_) => replay_from(apply_state(state, ops[0]), ops.drop_first()),
        }
    }
}

/// The state that applying `ops` one after the other leaves: that after all of them, or
/// after those before the first that is refused.
pub open spec fn replay_left(
    state: ControlStateModel,
    ops: Seq<ControlEnvelopeModel>,
) -> ControlStateModel
    decreases ops.len(),
{
    if ops.len() == 0 || apply_result(state, ops[0]) is Err {
        state
    } else {
        replay_left(apply_state(state, ops[0]), ops.drop_first())
    }
}

/// Applying operations one after the other leaves the state after all of them, or, where
/// one is refused, the state after those before it, in which it is refused.
pub proof fn replay_stops_at_the_refused(
    state: ControlStateModel,
    ops: Seq<ControlEnvelopeModel>,
)
    ensures
        match replay_from(state, ops) {
            Ok(after) => replay_left(state, ops) == after,
            Err(error) => exists|i: int|
                0 <= i < ops.len() && #[trigger] refused_at(state, ops, i, error),
        },
    decreases ops.len(),
{
    if ops.len() > 0 {
        let next = apply_state(state, ops[0]);
        let rest = ops.drop_first();
        match apply_result(state, ops[0]) {
            Err(error) => {
                assert(ops.take(0) =~= Seq::empty());
                assert(refused_at(state, ops, 0, error));
            },
            Ok(_) => {
                replay_stops_at_the_refused(next, rest);
                if let Err(error) = replay_from(state, ops) {
                    let i = choose|i: int|
                        0 <= i < rest.len() && #[trigger] refused_at(next, rest, i, error);
                    assert(ops.take(i + 1).drop_first() =~= rest.take(i));
                    assert(refused_at(state, ops, i + 1, error));
                }
            },
        }
    }
}

/// Whether the operation in a place is the first that is refused, and why.
pub open spec fn refused_at(
    state: ControlStateModel,
    ops: Seq<ControlEnvelopeModel>,
    i: int,
    error: ControlErrorModel,
) -> bool {
    let left = replay_left(state, ops);
    &&& replay_from(state, ops.take(i)) == Ok::<ControlStateModel, ControlErrorModel>(left)
    &&& apply_result(left, ops[i]) == Err::<ApplyOutcome, ControlErrorModel>(error)
}

/// A log does not depend on the order in which its operations arrived, as long
/// as no two of them have the same time and the same id.
pub proof fn log_order_ignores_arrival(
    ops: Seq<ControlEnvelopeModel>,
    others: Seq<ControlEnvelopeModel>,
)
    requires
        distinctly_stamped(ops),
        ops.to_multiset() == others.to_multiset(),
    ensures
        log_order(ops) == log_order(others),
        replay_from(no_guilds(), log_order(ops)) == replay_from(no_guilds(), log_order(others)),
{
    assert forall|i: int, j: int| 0 <= i < j < ops.len() implies #[trigger] ControlEnvelope::ahead(
        ops[i],
        ops[j],
    ) || ControlEnvelope::ahead(ops[j], ops[i]) by {
        assert(ops[i].ts_ms != ops[j].ts_ms || ops[i].op_id != ops[j].op_id);
        if ops[i].op_id != ops[j].op_id {
            lemma_text_before_total(ops[i].op_id, ops[j].op_id);
        }
    }
    sorted_ignores_arrival::<ControlEnvelope>(ops, others);
}

/// Replaying one stretch of operations and then another is replaying both.
pub proof fn replay_in_two_stretches(
    state: ControlStateModel,
    first: Seq<ControlEnvelopeModel>,
    second: Seq<ControlEnvelopeModel>,
)
    ensures
        replay_from(state, first + second) == match replay_from(state, first) {
            Ok(middle) => replay_from(middle, second),
            Err(error) => Err(error),
        },
    decreases first.len(),
{
    if first.len() == 0 {
        assert(first + second =~= second);
    } else {
        assert((first + second).drop_first() =~= first.drop_first() + second);
        replay_in_two_stretches(apply_state(state, first[0]), first.drop_first(), second);
    }
}

/// The operations in the order of the log.
pub fn sort_log(ops: &[ControlEnvelope]) -> (log: Vec<ControlEnvelope>)
    ensures
        log.deep_view() == log_order(ops.deep_view()),
{
    let mut log: Vec<ControlEnvelope> = Vec::new();
    let mut i: usize = 0;
    proof {
        assert(log.deep_view() =~= ops.deep_view().take(0));
    }
    while i < ops.len()
        invariant
            i <= ops@.len(),
            log.deep_view() == log_order(ops.deep_view().take(i as int)),
        decreases ops@.len() - i,
    {
        put_in_order(&mut log, ops[i].replicate());
        i += 1;
        proof {
            let seen = ops.deep_view().take(i as int);
            assert(seen.drop_last() =~= ops.deep_view().take(i - 1));
            assert(seen.last() == ops.deep_view()[i - 1]);
        }
    }
    proof {
        assert(ops.deep_view().take(i as int) =~= ops.deep_view());
    }
    log
}

impl ControlState {
    /// Applies operations one after the other, up to the first that is refused. Those
    /// before it stay applied.
    pub fn apply_all(&mut self, log: Vec<ControlEnvelope>) -> (result: Result<(), ControlError>)
        ensures
            match replay_from(old(self)@, log.deep_view()) {
                Ok(state) => result is Ok && final(self)@ == state,
                Err(error) => outcome(result) == Err::<(), ControlErrorModel>(error),
            },
            final(self)@ == replay_left(old(self)@, log.deep_view()),
    {
        let ghost all = log.deep_view();
        let ghost start = self@;
        let mut i: usize = 0;
        proof {
            assert(all.skip(0) =~= all);
        }
        while i < log.len()
            invariant
                i <= log.len(),
                all == log.deep_view(),
                start == old(self)@,
                replay_from(start, all) == replay_from(self@, all.skip(i as int)),
                replay_left(start, all) == replay_left(self@, all.skip(i as int)),
            decreases log.len() - i,
        {
            proof {
                assert(all.skip(i as int)[0] == log@[i as int]@);
                assert(all.skip(i as int).drop_first() =~= all.skip(i + 1));
            }
            if let Err(error) = self.apply(log[i].replicate()) {
                return Err(error);
            }
            i += 1;
        }
        Ok(())
    }

    /// The state that a log leads to, whatever order it is given in.
    pub fn replay_sorted(ops: &[ControlEnvelope]) -> (result: Result<ControlState, ControlError>)
        ensures
            match replay_from(no_guilds(), log_order(ops.deep_view())) {
                Ok(state) => result is Ok && result->Ok_0@ == state,
                Err(error) => outcome(result) == Err::<ControlState, ControlErrorModel>(error),
            },
    {
        let mut state = ControlState::default();
        match state.apply_all(sort_log(ops)) {
            Ok(()) => Ok(state),
            Err(error) => Err(error),
        }
    }
}

} // verus!

//! What a command is answered that is repeated, however much happened since.
use vstd::prelude::*;
use crate::agent::builds::all_progressed;
use crate::agent::commands::{
    dispatched, handled, opened, resumed, CommandContextModel, CommandStepModel, StepEventModel,
};
use crate::agent::reaper::{next_reap, sweep_resumed, ReapStepModel, SweepModel};
use crate::agent::service::{
    concluded, is_cached, kept_answer, queued, replayed, AgentControlServiceModel,
};
use crate::agent::state::{
    answers_sound, kept_within, remembering_adds_no_other, remembering_keeps_newest,
    remembering_keeps_others, remembering_keeps_sound, restored, restoring_gives_sound, truncated,
    truncating_keeps_sound, PersistedControlStateModel,
};
use crate::agent::types::{
    answered, AgentControlCmdEnvelopeModel, CachedTerminalModel, CommandOutcomeModel,
    CMD_SCHEMA_V1,
};

verus! {

/// Whether a service has the same answers at hand as another, and room for as many.
pub open spec fn same_answers(a: AgentControlServiceModel, b: AgentControlServiceModel) -> bool {
    &&& a.state.idempotency == b.state.idempotency
    &&& a.state.idempotency_order == b.state.idempotency_order
    &&& a.idempotency_max_entries == b.idempotency_max_entries
}

/// Handling a command leaves the answers that are kept as they are.
pub proof fn handling_leaves_answers(
    service: AgentControlServiceModel,
    requester: Seq<char>,
    cmd: AgentControlCmdEnvelopeModel,
    context: CommandContextModel,
)
    ensures
        same_answers(handled(service, requester, cmd, context).0, service),
{
}

/// Going on with a command leaves the answers that are kept as they are.
pub proof fn resuming_leaves_answers(
    service: AgentControlServiceModel,
    step: CommandStepModel,
    event: StepEventModel,
    at: u64,
)
    ensures
        same_answers(resumed(service, step, event, at).0, service),
{
}

/// A step of a sweep leaves the answers that are kept as they are.
pub proof fn sweeping_leaves_answers(
    service: AgentControlServiceModel,
    sweep: SweepModel,
    step: ReapStepModel,
    event: StepEventModel,
)
    ensures
        same_answers(next_reap(service, sweep).0, service),
        same_answers(sweep_resumed(service, sweep, step, event).0, service),
{
}

/// Asking about builds leaves the answers that are kept as they are.
pub proof fn asking_about_builds_leaves_answers(
    service: AgentControlServiceModel,
    build_ids: Seq<Seq<char>>,
    now: u64,
)
    ensures
        same_answers(all_progressed(service, build_ids, now), service),
    decreases build_ids.len(),
{
    if build_ids.len() > 0 {
        asking_about_builds_leaves_answers(service, build_ids.drop_last(), now);
    }
}

/// The answers that a service begins with are sound, whatever was read from disk.
pub proof fn answers_begin_sound(
    persisted: PersistedControlStateModel,
    idempotency_max_entries: usize,
    now: u64,
    ttl_secs: u64,
)
    ensures
        answers_sound(opened(restored(persisted), idempotency_max_entries, now, ttl_secs)),
{
    restoring_gives_sound(persisted);
    truncating_keeps_sound(restored(persisted), idempotency_max_entries as nat);
    let kept = truncated(restored(persisted), idempotency_max_entries as nat);
    let begun = opened(restored(persisted), idempotency_max_entries, now, ttl_secs);
    assert(begun.idempotency == kept.idempotency);
    assert(begun.idempotency_order == kept.idempotency_order);
}

/// What happens to a service, as far as its answers go.
pub enum ServiceEvent {
    /// A command is handled or gone on with, or runtimes, builds or artifacts are seen
    /// to.
    Work,
    /// A command has come to its answer.
    Answer {
        requester: Seq<char>,
        cmd: AgentControlCmdEnvelopeModel,
        outcome: CommandOutcomeModel,
    },
}

/// Whether an event can lead from one service to another.
pub open spec fn service_step(
    before: AgentControlServiceModel,
    event: ServiceEvent,
    after: AgentControlServiceModel,
) -> bool {
    match event {
        ServiceEvent::Work => same_answers(after, before),
        ServiceEvent::Answer { requester, cmd, outcome } => after == concluded(
            before,
            requester,
            cmd,
            outcome,
        ),
    }
}

/// Whether services are what a run of events leads through.
pub open spec fn service_run(
    services: Seq<AgentControlServiceModel>,
    events: Seq<ServiceEvent>,
) -> bool {
    &&& services.len() == events.len() + 1
    &&& forall|i: int|
        0 <= i < events.len() ==> service_step(services[i], #[trigger] events[i], services[i + 1])
}

/// Whether an event keeps an answer.
pub open spec fn keeps_answer(event: ServiceEvent) -> bool {
    event matches ServiceEvent::Answer { requester, cmd, outcome } && kept_answer(
        cmd,
        outcome,
    ) is Some
}

/// How many answers a run of events keeps.
pub open spec fn answers_kept(events: Seq<ServiceEvent>) -> nat
    decreases events.len(),
{
    if events.len() == 0 {
        0
    } else {
        answers_kept(events.drop_last()) + if keeps_answer(events.last()) {
            1nat
        } else {
            0
        }
    }
}

/// Whether no event of a run keeps an answer under a key.
pub open spec fn key_untouched(events: Seq<ServiceEvent>, key: (Seq<char>, Seq<char>)) -> bool {
    forall|i: int|
        0 <= i < events.len() ==> (#[trigger] events[i] matches ServiceEvent::Answer {
            requester,
            cmd,
            outcome,
        } ==> kept_answer(cmd, outcome) is Some ==> (requester, cmd.idempotency_key) != key)
}

/// An answer stays kept through any run of events that keeps fewer other answers than
/// there is room for.
pub proof fn answer_stays_kept(
    services: Seq<AgentControlServiceModel>,
    events: Seq<ServiceEvent>,
    key: (Seq<char>, Seq<char>),
    terminal: CachedTerminalModel,
)
    requires
        service_run(services, events),
        answers_sound(services[0].state),
        kept_within(services[0].state, key, terminal, 1),
        key_untouched(events, key),
        answers_kept(events) < services[0].idempotency_max_entries,
    ensures
        ({
            let last = services[events.len() as int];
            &&& answers_sound(last.state)
            &&& last.idempotency_max_entries == services[0].idempotency_max_entries
            &&& kept_within(last.state, key, terminal, answers_kept(events) + 1)
        }),
    decreases events.len(),
{
    if events.len() > 0 {
        let k = events.len() - 1;
        let earlier = events.drop_last();
        let before = services.drop_last();
        assert forall|i: int| 0 <= i < earlier.len() implies service_step(
            before[i],
            #[trigger] earlier[i],
            before[i + 1],
        ) by {
            assert(service_step(services[i], events[i], services[i + 1]));
        }
        assert(key_untouched(earlier, key)) by {
            assert forall|i: int| 0 <= i < earlier.len() implies (
            #[trigger] earlier[i] matches ServiceEvent::Answer { requester, cmd, outcome }
                ==> kept_answer(cmd, outcome) is Some ==> (requester, cmd.idempotency_key)
                != key) by {
                assert(earlier[i] == events[i]);
            }
        }
        answer_stays_kept(before, earlier, key, terminal);
        assert(service_step(services[k], events[k], services[k + 1]));
        let n = answers_kept(earlier) + 1;
        match events[k] {
            ServiceEvent::Work => {
                assert(kept_within(services[k + 1].state, key, terminal, n)) by {
                    let order = services[k].state.idempotency_order;
                    let p = choose|i: int|
                        0 <= i < order.len() && order.len() - i <= n && #[trigger] order[i] == key;
                    assert(services[k + 1].state.idempotency_order[p] == key);
                }
            },
            ServiceEvent::Answer { requester, cmd, outcome } => {
                if kept_answer(cmd, outcome) is Some {
                    let max = services[k].idempotency_max_entries as nat;
                    let other = (requester, cmd.idempotency_key);
                    let kept = kept_answer(cmd, outcome)->0;
                    remembering_keeps_sound(services[k].state, other, kept, max);
                    remembering_keeps_others(
                        services[k].state,
                        key,
                        terminal,
                        n,
                        other,
                        kept,
                        max,
                    );
                }
            },
        }
    }
}

/// A command that went through and changed something is answered the same when it is
/// repeated under its key, whatever it then says: the runtime and the payload are
/// those of the first time, the request is the new one, a status tells of the replay,
/// and the service stays as it is. That holds however much happened in between, as
/// long as fewer other answers were kept since than there is room for, and none again
/// under the same key.
pub proof fn repetition_is_replayed(
    service: AgentControlServiceModel,
    requester: Seq<char>,
    cmd: AgentControlCmdEnvelopeModel,
    outcome: CommandOutcomeModel,
    services: Seq<AgentControlServiceModel>,
    events: Seq<ServiceEvent>,
    again: AgentControlCmdEnvelopeModel,
    context: CommandContextModel,
)
    requires
        answers_sound(service.state),
        is_cached(cmd.command),
        outcome.result is Some,
        service_run(services, events),
        services[0] == concluded(service, requester, cmd, outcome),
        key_untouched(events, (requester, cmd.idempotency_key)),
        answers_kept(events) < service.idempotency_max_entries,
        again.schema == CMD_SCHEMA_V1@,
        again.idempotency_key == cmd.idempotency_key,
    ensures
        ({
            let last = services[events.len() as int];
            handled(last, requester, again, context) == (
                last,
                CommandStepModel::Settled(
                    answered(
                        queued(again.request_id).push(
                            replayed(again.request_id, kept_answer(cmd, outcome)->0),
                        ),
                        again.request_id,
                        outcome.result->0.runtime,
                        outcome.result->0.payload,
                    ),
                ),
            )
        }),
{
    let key = (requester, cmd.idempotency_key);
    let terminal = kept_answer(cmd, outcome)->0;
    let max = service.idempotency_max_entries as nat;
    remembering_keeps_sound(service.state, key, terminal, max);
    remembering_keeps_newest(service.state, key, terminal, max);
    answer_stays_kept(services, events, key, terminal);
}

/// No answer is kept under a key through a run of events that keeps none under it.
pub proof fn answer_stays_absent(
    services: Seq<AgentControlServiceModel>,
    events: Seq<ServiceEvent>,
    key: (Seq<char>, Seq<char>),
)
    requires
        service_run(services, events),
        !services[0].state.idempotency.contains_key(key),
        key_untouched(events, key),
    ensures
        !services[events.len() as int].state.idempotency.contains_key(key),
    decreases events.len(),
{
    if events.len() > 0 {
        let k = events.len() - 1;
        let earlier = events.drop_last();
        let before = services.drop_last();
        assert forall|i: int| 0 <= i < earlier.len() implies service_step(
            before[i],
            #[trigger] earlier[i],
            before[i + 1],
        ) by {
            assert(service_step(services[i], events[i], services[i + 1]));
        }
        assert(key_untouched(earlier, key)) by {
            assert forall|i: int| 0 <= i < earlier.len() implies (
            #[trigger] earlier[i] matches ServiceEvent::Answer { requester, cmd, outcome }
                ==> kept_answer(cmd, outcome) is Some ==> (requester, cmd.idempotency_key)
                != key) by {
                assert(earlier[i] == events[i]);
            }
        }
        answer_stays_absent(before, earlier, key);
        assert(service_step(services[k], events[k], services[k + 1]));
        if let ServiceEvent::Answer { requester, cmd, outcome } = events[k] {
            if kept_answer(cmd, outcome) is Some {
                remembering_adds_no_other(
                    services[k].state,
                    (requester, cmd.idempotency_key),
                    kept_answer(cmd, outcome)->0,
                    services[k].idempotency_max_entries as nat,
                    key,
                );
            }
        }
    }
}

/// A command that did not go through is run again when it is repeated, whatever
/// happened in between, as long as no answer was kept under its key since: nothing is
/// replayed.
pub proof fn failure_is_run_again(
    service: AgentControlServiceModel,
    requester: Seq<char>,
    cmd: AgentControlCmdEnvelopeModel,
    outcome: CommandOutcomeModel,
    services: Seq<AgentControlServiceModel>,
    events: Seq<ServiceEvent>,
    again: AgentControlCmdEnvelopeModel,
    context: CommandContextModel,
)
    requires
        !service.state.idempotency.contains_key((requester, cmd.idempotency_key)),
        outcome.result is None,
        service_run(services, events),
        services[0] == concluded(service, requester, cmd, outcome),
        key_untouched(events, (requester, cmd.idempotency_key)),
        again.schema == CMD_SCHEMA_V1@,
        again.idempotency_key == cmd.idempotency_key,
    ensures
        ({
            let last = services[events.len() as int];
            &&& services[0] == service
            &&& handled(last, requester, again, context) == dispatched(
                last,
                requester,
                again,
                context,
            )
            &&& !(handled(last, requester, again, context).1 is Settled)
        }),
{
    answer_stays_absent(services, events, (requester, cmd.idempotency_key));
}

} // verus!

//! The reaper: it tears down, one after the other, the runtimes that are due.
use vstd::prelude::*;
use crate::agent::commands::{
    torn_down_by, SaveReply, SaveReplyModel, StepEvent, StepEventModel, TeardownReply,
};
use crate::agent::metadata::is_due;
use crate::agent::service::{AgentControlService, AgentControlServiceModel};
use crate::agent::teardown::{
    begun_reap, reaped, unpersisted_reap, with_runtime, ReapJob, ReapJobModel,
};
use crate::agent::types::RuntimeLifecyclePhase;
use crate::collections::{listing_of, Replicate};

verus! {

/// A sweep over the runtimes that were due when it began; `next` is how many of them
/// were taken up.
#[derive(Debug, PartialEq, Eq)]
pub struct Sweep {
    pub now: u64,
    pub due: Vec<String>,
    pub next: usize,
}

/// What a [`Sweep`] holds.
#[verifier::ext_equal]
pub struct SweepModel {
    pub now: u64,
    pub due: Seq<Seq<char>>,
    pub next: usize,
}

impl DeepView for Sweep {
    type V = SweepModel;

    open spec fn deep_view(&self) -> SweepModel {
        SweepModel {
            now: self.now.deep_view(),
            due: self.due.deep_view(),
            next: self.next.deep_view(),
        }
    }
}

impl View for Sweep {
    type V = SweepModel;

    open spec fn view(&self) -> SweepModel {
        self.deep_view()
    }
}

impl Replicate for Sweep {
    fn replicate(&self) -> (copy: Self) {
        Sweep {
            now: self.now.replicate(),
            due: self.due.replicate(),
            next: self.next.replicate(),
        }
    }
}

impl Clone for Sweep {
    fn clone(&self) -> (copy: Self)
        ensures
            copy@ == self@,
    {
        self.replicate()
    }
}

/// What is to be done next in a sweep. Where the state is to be saved, it is to be
/// written to disk.
#[derive(Debug, PartialEq, Eq)]
pub enum ReapStep {
    /// Nothing is left to do.
    Rest,
    /// The state with a runtime on its way out is to be saved.
    Save(ReapJob),
    /// A provider is to tear a runtime down.
    TearDown(ReapJob),
}

/// What a [`ReapStep`] holds.
#[verifier::ext_equal]
pub enum ReapStepModel {
    Rest,
    Save(ReapJobModel),
    TearDown(ReapJobModel),
}

impl DeepView for ReapStep {
    type V = ReapStepModel;

    open spec fn deep_view(&self) -> ReapStepModel {
        match self {
            ReapStep::Rest => ReapStepModel::Rest,
            ReapStep::Save(a) => ReapStepModel::Save(a.deep_view()),
            ReapStep::TearDown(a) => ReapStepModel::TearDown(a.deep_view()),
        }
    }
}

impl View for ReapStep {
    type V = ReapStepModel;

    open spec fn view(&self) -> ReapStepModel {
        self.deep_view()
    }
}

impl Replicate for ReapStep {
    fn replicate(&self) -> (copy: Self) {
        match self {
            ReapStep::Rest => ReapStep::Rest,
            ReapStep::Save(a) => ReapStep::Save(a.replicate()),
            ReapStep::TearDown(a) => ReapStep::TearDown(a.replicate()),
        }
    }
}

impl Clone for ReapStep {
    fn clone(&self) -> (copy: Self)
        ensures
            copy@ == self@,
    {
        self.replicate()
    }
}

/// The runtimes that are due, in the order of their ids.
pub open spec fn due_ids(service: AgentControlServiceModel, now: u64) -> Seq<Seq<char>> {
    listing_of::<String>(service.state.runtimes.dom()).filter(
        |id: Seq<char>| is_due(service.state.runtimes[id], now),
    )
}

/// The place of the first runtime, from a place on, that is still there; or the
/// end.
pub open spec fn next_due(service: AgentControlServiceModel, due: Seq<Seq<char>>, from: nat) -> nat
    decreases due.len() - from,
{
    if from >= due.len() || service.state.runtimes.contains_key(due[from as int]) {
        from
    } else {
        next_due(service, due, from + 1)
    }
}

/// What taking up the next runtime of a sweep comes to.
pub open spec fn next_reap(service: AgentControlServiceModel, sweep: SweepModel) -> (
    AgentControlServiceModel,
    SweepModel,
    ReapStepModel,
) {
    let place = next_due(service, sweep.due, sweep.next as nat);
    if place >= sweep.due.len() {
        (service, SweepModel { next: place as usize, ..sweep }, ReapStepModel::Rest)
    } else {
        let (begun, job) = begun_reap(service, sweep.due[place as int]);
        (
            begun,
            SweepModel { next: (place + 1) as usize, ..sweep },
            ReapStepModel::Save(job->0),
        )
    }
}

/// Whether an event is what a sweep waits for.
pub open spec fn sweep_awaits(step: ReapStepModel, event: StepEventModel) -> bool {
    match step {
        ReapStepModel::Rest => false,
        ReapStepModel::Save(_) => event is Saved,
        ReapStepModel::TearDown(_) => event is TornDown,
    }
}

/// What going on with a sweep comes to: a runtime whose way out was saved is torn
/// down; one whose way out was not saved is put off; after each the next is taken
/// up.
pub open spec fn sweep_resumed(
    service: AgentControlServiceModel,
    sweep: SweepModel,
    step: ReapStepModel,
    event: StepEventModel,
) -> (AgentControlServiceModel, SweepModel, ReapStepModel) {
    match (step, event) {
        (ReapStepModel::Save(job), StepEventModel::Saved(reply)) => match reply {
            SaveReplyModel::Saved => (service, sweep, ReapStepModel::TearDown(job)),
            SaveReplyModel::Failed(error) => next_reap(
                with_runtime(service, unpersisted_reap(job, error, sweep.now)),
                sweep,
            ),
        },
        (ReapStepModel::TearDown(job), StepEventModel::TornDown(reply)) => next_reap(
            with_runtime(service, reaped(job, torn_down_by(reply), sweep.now)),
            sweep,
        ),
        _ => (service, sweep, step),
    }
}

impl AgentControlService {
    /// Takes up the next runtime of a sweep.
    fn take_up_next(&mut self, sweep: Sweep) -> (next: (Sweep, ReapStep))
        ensures
            (final(self)@, next.0@, next.1@) == next_reap(old(self)@, sweep@),
    {
        let mut place: usize = sweep.next;
        let ghost from = sweep@.next as nat;
        let ghost due = sweep@.due;
        while place < sweep.due.len()
            invariant
                self@ == old(self)@,
                due == sweep@.due,
                from == sweep@.next,
                next_due(self@, due, from) == next_due(self@, due, place as nat),
            decreases sweep.due.len() - place,
        {
            proof {
                assert(due[place as int] == sweep.due[place as int]@);
            }
            let job = self.begin_reap(&sweep.due[place]);
            if let Some(job) = job {
                let mut sweep = sweep;
                sweep.next = place + 1;
                return (sweep, ReapStep::Save(job));
            }
            place += 1;
        }
        let mut sweep = sweep;
        sweep.next = place;
        (sweep, ReapStep::Rest)
    }

    /// Begins a sweep over the runtimes that are due.
    pub fn begin_sweep(&mut self, now: u64) -> (begun: (Sweep, ReapStep))
        ensures
            (final(self)@, begun.0@, begun.1@) == next_reap(
                old(self)@,
                SweepModel { now, due: due_ids(old(self)@, now), next: 0 },
            ),
    {
        let due = self.state.due_runtimes(now);
        self.take_up_next(Sweep { now, due, next: 0 })
    }

    /// Goes on with a sweep, once what it waits for happened.
    pub fn resume_sweep(&mut self, sweep: Sweep, step: ReapStep, event: StepEvent) -> (next: (
        Sweep,
        ReapStep,
    ))
        requires
            sweep_awaits(step@, event@),
        ensures
            (final(self)@, next.0@, next.1@) == sweep_resumed(
                old(self)@,
                sweep@,
                step@,
                event@,
            ),
    {
        match (step, event) {
            (ReapStep::Save(job), StepEvent::Saved(reply)) => match reply {
                SaveReply::Saved => (sweep, ReapStep::TearDown(job)),
                SaveReply::Failed(error) => {
                    self.reap_not_persisted(job, error.as_str(), sweep.now);
                    self.take_up_next(sweep)
                },
            },
            (ReapStep::TearDown(job), StepEvent::TornDown(reply)) => {
                let torn_down = match reply {
                    TeardownReply::Done(payload) => Ok(payload),
                    TeardownReply::Failed(failure) => Err(failure.full),
                };
                self.reap_finished(job, &torn_down, sweep.now);
                self.take_up_next(sweep)
            },
            (step, _) => (sweep, step),
        }
    }
}

/// How many more events a sweep can wait for at most.
pub open spec fn reaps_left(sweep: SweepModel, step: ReapStepModel) -> int {
    2 * (sweep.due.len() - sweep.next) + match step {
        ReapStepModel::Rest => 0int,
        ReapStepModel::Save(_) => 2,
        ReapStepModel::TearDown(_) => 1,
    }
}

proof fn lemma_next_due(service: AgentControlServiceModel, due: Seq<Seq<char>>, from: nat)
    requires
        from <= due.len(),
    ensures
        from <= next_due(service, due, from) <= due.len(),
    decreases due.len() - from,
{
    if from < due.len() && !service.state.runtimes.contains_key(due[from as int]) {
        lemma_next_due(service, due, from + 1);
    }
}

proof fn lemma_next_reap_is_nearer(service: AgentControlServiceModel, sweep: SweepModel)
    requires
        sweep.next <= sweep.due.len() <= usize::MAX,
    ensures
        ({
            let (_, after, step) = next_reap(service, sweep);
            &&& after.due == sweep.due
            &&& sweep.next <= after.next <= after.due.len()
            &&& reaps_left(after, step) <= 2 * (sweep.due.len() - sweep.next)
        }),
{
    lemma_next_due(service, sweep.due, sweep.next as nat);
}

/// Every sweep comes to an end: each event brings it nearer.
pub proof fn sweep_comes_to_an_end(
    service: AgentControlServiceModel,
    sweep: SweepModel,
    step: ReapStepModel,
    event: StepEventModel,
)
    requires
        sweep.next <= sweep.due.len() <= usize::MAX,
        sweep_awaits(step, event),
    ensures
        ({
            let (_, after, next) = sweep_resumed(service, sweep, step, event);
            &&& reaps_left(after, next) < reaps_left(sweep, step)
            &&& after.next <= after.due.len() <= usize::MAX
        }),
{
    match (step, event) {
        (ReapStepModel::Save(job), StepEventModel::Saved(reply)) => match reply {
            SaveReplyModel::Saved => {},
            SaveReplyModel::Failed(error) => {
                lemma_next_reap_is_nearer(
                    with_runtime(service, unpersisted_reap(job, error, sweep.now)),
                    sweep,
                );
            },
        },
        (ReapStepModel::TearDown(job), StepEventModel::TornDown(reply)) => {
            lemma_next_reap_is_nearer(
                with_runtime(service, reaped(job, torn_down_by(reply), sweep.now)),
                sweep,
            );
        },
        _ => {},
    }
}

/// A runtime that a sweep takes up is on its way out before its provider hears of
/// it.
pub proof fn reaped_runtime_is_on_its_way_out(service: AgentControlServiceModel, sweep: SweepModel)
    requires
        next_reap(service, sweep).2 is Save,
    ensures
        next_reap(service, sweep).2->Save_0.runtime.descriptor.lifecycle_phase
            == RuntimeLifecyclePhase::Teardown,
{
    lemma_next_due_is_there(service, sweep.due, sweep.next as nat);
}

proof fn lemma_next_due_is_there(service: AgentControlServiceModel, due: Seq<Seq<char>>, from: nat)
    ensures
        next_due(service, due, from) < due.len() ==> service.state.runtimes.contains_key(
            due[next_due(service, due, from) as int],
        ),
    decreases due.len() - from,
{
    if from < due.len() && !service.state.runtimes.contains_key(due[from as int]) {
        lemma_next_due_is_there(service, due, from + 1);
    }
}

} // verus!

//! The order in which the endpoints of a run are dealt with.
//!
//! Provisioning draws the gas of every endpoint from one primary gas object,
//! so no two endpoints may be provisioned at once. The sequencer makes that
//! order explicit: it names one step at a time, and names the next one only
//! when it is told how the last one went. Endpoints come in their own order,
//! each is provisioned and then assembled before the next is begun, and a
//! failure gives the whole run up.

use vstd::prelude::*;

verus! {

/// What is to be done next.
#[derive(Clone, Copy, PartialEq, Eq, Debug, Structural)]
pub enum Step {
    /// Provision the gas of this endpoint.
    Provision { endpoint: usize },
    /// Build the workloads of this endpoint on the gas that was provisioned
    /// for it, and set them up.
    Assemble { endpoint: usize },
    /// Every endpoint is configured; nothing is left to do.
    Finished,
    /// The run was given up; no endpoint counts as configured.
    Aborted,
}

/// How a step went.
#[derive(Clone, Copy, PartialEq, Eq, Debug, Structural)]
pub enum Outcome {
    Completed,
    Failed,
}

/// The first step of a run over `num_proxies` endpoints.
pub open spec fn first_step(num_proxies: int) -> Step {
    if num_proxies > 0 {
        Step::Provision { endpoint: 0 }
    } else {
        Step::Finished
    }
}

/// The step that follows `step` once it went as `outcome` says.
pub open spec fn next_step(num_proxies: int, step: Step, outcome: Outcome) -> Step {
    match (step, outcome) {
        (Step::Provision { endpoint }, Outcome::Completed) => Step::Assemble { endpoint },
        (Step::Assemble { endpoint }, Outcome::Completed) => if endpoint + 1 < num_proxies {
            Step::Provision { endpoint: (endpoint + 1) as usize }
        } else {
            Step::Finished
        },
        (Step::Provision { .. }, Outcome::Failed) => Step::Aborted,
        (Step::Assemble { .. }, Outcome::Failed) => Step::Aborted,
        (Step::Finished, _) => Step::Finished,
        (Step::Aborted, _) => Step::Aborted,
    }
}

/// The step that is due after the steps so far went as `outcomes` says.
pub open spec fn step_after(num_proxies: int, outcomes: Seq<Outcome>) -> Step
    decreases outcomes.len(),
{
    if outcomes.len() == 0 {
        first_step(num_proxies)
    } else {
        next_step(num_proxies, step_after(num_proxies, outcomes.drop_last()), outcomes.last())
    }
}

/// Whether the first `count` of `outcomes` are all `Completed`.
pub open spec fn all_completed(outcomes: Seq<Outcome>, count: int) -> bool {
    forall|i: int| 0 <= i < count && i < outcomes.len() ==> outcomes[i] == Outcome::Completed
}

/// Keeps track of where a run over a number of endpoints stands.
#[derive(Clone, Copy, PartialEq, Eq, Debug)]
pub struct Sequencer {
    num_proxies: usize,
    step: Step,
}

impl Sequencer {
    #[verifier::type_invariant]
    spec fn in_range(self) -> bool {
        match self.step {
            Step::Provision { endpoint } => endpoint < self.num_proxies,
            Step::Assemble { endpoint } => endpoint < self.num_proxies,
            Step::Finished => true,
            Step::Aborted => true,
        }
    }

    /// The number of endpoints of the run.
    pub closed spec fn endpoints(self) -> usize {
        self.num_proxies
    }

    /// The step that is due.
    pub closed spec fn pending(self) -> Step {
        self.step
    }

    /// Begins a run over `num_proxies` endpoints.
    pub fn start(num_proxies: usize) -> (sequencer: Sequencer)
        ensures
            sequencer.endpoints() == num_proxies,
            sequencer.pending() == first_step(num_proxies as int),
    {
        let step: Step = if num_proxies > 0 {
            Step::Provision { endpoint: 0 }
        } else {
            Step::Finished
        };
        Sequencer { num_proxies, step }
    }

    /// The number of endpoints of the run.
    pub fn num_proxies(&self) -> (num_proxies: usize)
        ensures
            num_proxies == self.endpoints(),
    {
        self.num_proxies
    }

    /// The step that is due. The endpoint that it names is one of the run.
    pub fn step(&self) -> (step: Step)
        ensures
            step == self.pending(),
            step matches Step::Provision { endpoint } ==> endpoint < self.endpoints(),
            step matches Step::Assemble { endpoint } ==> endpoint < self.endpoints(),
    {
        proof {
            use_type_invariant(self);
        }
        self.step
    }

    /// Takes note of how the step that was due went, and moves on to the
    /// next one.
    pub fn advance(self, outcome: Outcome) -> (next: Sequencer)
        ensures
            next.endpoints() == self.endpoints(),
            next.pending() == next_step(self.endpoints() as int, self.pending(), outcome),
    {
        proof {
            use_type_invariant(&self);
        }
        let step: Step = match self.step {
            Step::Provision { endpoint } => match outcome {
                Outcome::Completed => Step::Assemble { endpoint },
                Outcome::Failed => Step::Aborted,
            },
            Step::Assemble { endpoint } => match outcome {
                Outcome::Completed => if endpoint + 1 < self.num_proxies {
                    Step::Provision { endpoint: endpoint + 1 }
                } else {
                    Step::Finished
                },
                Outcome::Failed => Step::Aborted,
            },
            Step::Finished => Step::Finished,
            Step::Aborted => Step::Aborted,
        };
        Sequencer { num_proxies: self.num_proxies, step }
    }

    /// Whether nothing is left to do, for better or worse.
    pub fn is_done(&self) -> (done: bool)
        ensures
            done == (self.pending() == Step::Finished || self.pending() == Step::Aborted),
    {
        match self.step {
            Step::Finished => true,
            Step::Aborted => true,
            _ => false,
        }
    }
}

/// While every step completes, the endpoints are dealt with one by one in
/// their order, each provisioned first and assembled next, and the run is
/// finished after two steps for each endpoint.
pub proof fn lemma_completed_steps_follow_the_endpoints(num_proxies: int, outcomes: Seq<Outcome>)
    requires
        0 <= num_proxies <= usize::MAX,
        all_completed(outcomes, outcomes.len() as int),
    ensures
        step_after(num_proxies, outcomes) == if outcomes.len() >= 2 * num_proxies {
            Step::Finished
        } else if outcomes.len() % 2 == 0 {
            Step::Provision { endpoint: (outcomes.len() / 2) as usize }
        } else {
            Step::Assemble { endpoint: (outcomes.len() / 2) as usize }
        },
    decreases outcomes.len(),
{
    if outcomes.len() > 0 {
        let before = outcomes.drop_last();
        assert forall|i: int| 0 <= i < before.len() implies before[i] == Outcome::Completed by {
            assert(before[i] == outcomes[i]);
        }
        lemma_completed_steps_follow_the_endpoints(num_proxies, before);
        assert(outcomes.last() == Outcome::Completed);
    }
}

/// Once a step has failed, the run is aborted and stays so, whatever is
/// reported afterwards: a run that fails leaves nothing half configured.
pub proof fn lemma_failure_aborts(num_proxies: int, outcomes: Seq<Outcome>, failed: int)
    requires
        0 <= num_proxies <= usize::MAX,
        0 <= failed < outcomes.len(),
        failed < 2 * num_proxies,
        outcomes[failed] == Outcome::Failed,
        all_completed(outcomes, failed),
    ensures
        step_after(num_proxies, outcomes) == Step::Aborted,
    decreases outcomes.len(),
{
    let before = outcomes.drop_last();
    assert forall|i: int| 0 <= i < failed && i < before.len() implies before[i]
        == Outcome::Completed by {
        assert(before[i] == outcomes[i]);
    }
    if failed == outcomes.len() - 1 {
        lemma_completed_steps_follow_the_endpoints(num_proxies, before);
    } else {
        assert(before[failed] == outcomes[failed]);
        lemma_failure_aborts(num_proxies, before, failed);
    }
}

/// The run is finished exactly when two steps for each endpoint have been
/// reported and all of them completed.
pub proof fn lemma_finished_iff_all_completed(num_proxies: int, outcomes: Seq<Outcome>)
    requires
        0 <= num_proxies <= usize::MAX,
    ensures
        step_after(num_proxies, outcomes) == Step::Finished <==> outcomes.len() >= 2 * num_proxies
            && all_completed(outcomes, 2 * num_proxies),
{
    if all_completed(outcomes, outcomes.len() as int) {
        lemma_completed_steps_follow_the_endpoints(num_proxies, outcomes);
    } else {
        let failed = choose|i: int| 0 <= i < outcomes.len() && outcomes[i] != Outcome::Completed;
        lemma_first_failure(outcomes, failed);
        let first = choose|i: int|
            0 <= i <= failed && outcomes[i] == Outcome::Failed && all_completed(outcomes, i);
        if first < 2 * num_proxies {
            lemma_failure_aborts(num_proxies, outcomes, first);
        } else {
            lemma_settled_once_finished(num_proxies, outcomes, 2 * num_proxies);
        }
    }
}

/// Once two steps for each endpoint have completed, the run is finished and
/// stays so, whatever is reported afterwards.
pub proof fn lemma_settled_once_finished(num_proxies: int, outcomes: Seq<Outcome>, count: int)
    requires
        0 <= num_proxies <= usize::MAX,
        2 * num_proxies <= count <= outcomes.len(),
        all_completed(outcomes, count),
    ensures
        step_after(num_proxies, outcomes) == Step::Finished,
    decreases outcomes.len(),
{
    if count == outcomes.len() {
        lemma_completed_steps_follow_the_endpoints(num_proxies, outcomes);
    } else {
        let before = outcomes.drop_last();
        assert forall|i: int| 0 <= i < count && i < before.len() implies before[i]
            == Outcome::Completed by {
            assert(before[i] == outcomes[i]);
        }
        lemma_settled_once_finished(num_proxies, before, count);
    }
}

/// Before any outcome that is a failure there is a first one.
proof fn lemma_first_failure(outcomes: Seq<Outcome>, failed: int)
    requires
        0 <= failed < outcomes.len(),
        outcomes[failed] != Outcome::Completed,
    ensures
        exists|i: int|
            0 <= i <= failed && outcomes[i] == Outcome::Failed && all_completed(outcomes, i),
    decreases failed,
{
    if all_completed(outcomes, failed) {
        assert(outcomes[failed] == Outcome::Failed);
    } else {
        let earlier = choose|i: int|
            0 <= i < failed && i < outcomes.len() && outcomes[i] != Outcome::Completed;
        lemma_first_failure(outcomes, earlier);
    }
}

} // verus!

//! The ordered start-up sequence of a service.
//!
//! The sequence itself is a state machine: it says which stage to start next
//! and reacts to the outcome of each stage. Performing a stage (connecting to
//! a database, running a hook, serving) is up to the caller.

use vstd::prelude::*;

verus! {

/// One step of start-up, in the order in which steps always run.
#[derive(Debug, Clone, Copy, PartialEq, Eq, Structural)]
pub enum Stage {
    /// Initialize the database connection pool.
    Database,
    /// Initialize the cache connection pool.
    Cache,
    /// Run the hook registered to run before serving.
    PreRun,
    /// Activate the log sink.
    Logging,
    /// Serve requests until the server stops.
    Serve,
}

impl Stage {
    /// Position of the stage in the fixed start-up order.
    pub open spec fn rank(self) -> nat {
        match self {
            Stage::Database => 0,
            Stage::Cache => 1,
            Stage::PreRun => 2,
            Stage::Logging => 3,
            Stage::Serve => 4,
        }
    }

    /// The message that explains a failure of this stage.
    pub fn failure_context(&self) -> (r: &'static str)
        ensures
            r@ == failure_context_spec(*self),
    {
        match self {
            Stage::Database => "postgres initialization failed",
            Stage::Cache => "redis initialization failed",
            Stage::PreRun => "pre-run task failed",
            Stage::Logging => "logger initialization failed",
            Stage::Serve => "service startup failed",
        }
    }
}

pub open spec fn failure_context_spec(stage: Stage) -> Seq<char> {
    match stage {
        Stage::Database => "postgres initialization failed"@,
        Stage::Cache => "redis initialization failed"@,
        Stage::PreRun => "pre-run task failed"@,
        Stage::Logging => "logger initialization failed"@,
        Stage::Serve => "service startup failed"@,
    }
}

/// Which optional stages a start-up sequence holds. Logging and serving are
/// always part of it.
#[derive(Debug, Clone, Copy, PartialEq, Eq, Structural)]
pub struct BootstrapPlan {
    pub database: bool,
    pub cache: bool,
    pub pre_run: bool,
}

/// The stages of a plan, in the order in which they run.
pub open spec fn plan_steps(plan: BootstrapPlan) -> Seq<Stage> {
    (if plan.database { seq![Stage::Database] } else { Seq::empty() })
        + (if plan.cache { seq![Stage::Cache] } else { Seq::empty() })
        + (if plan.pre_run { seq![Stage::PreRun] } else { Seq::empty() })
        + seq![Stage::Logging, Stage::Serve]
}

impl BootstrapPlan {
    /// The stages of this plan, in the order in which they run.
    pub fn steps(&self) -> (r: Vec<Stage>)
        ensures
            r@ == plan_steps(*self),
    {
        let mut v: Vec<Stage> = Vec::new();
        if self.database {
            v.push(Stage::Database);
        }
        if self.cache {
            v.push(Stage::Cache);
        }
        if self.pre_run {
            v.push(Stage::PreRun);
        }
        v.push(Stage::Logging);
        v.push(Stage::Serve);
        assert(v@ =~= plan_steps(*self));
        v
    }
}

/// Where a start-up sequence stands.
#[derive(Debug, Clone, Copy, PartialEq, Eq, Structural)]
pub enum Phase {
    /// Nothing has been started yet.
    Created,
    /// The stage is under way and its outcome is awaited.
    Running(Stage),
    /// Every stage completed.
    Stopped,
    /// The stage failed; nothing after it starts.
    Errored(Stage),
}

/// What the caller is to do next.
#[derive(Debug, Clone, Copy, PartialEq, Eq, Structural)]
pub enum Action {
    /// Perform this stage and report its outcome.
    Start(Stage),
    /// Start-up is over: every stage completed.
    Finish,
    /// Start-up is aborted because this stage failed.
    Abort(Stage),
}

/// The stages that have been started, given the outcomes reported so far
/// (`true` for success), once the first stage has been started.
pub open spec fn launched(steps: Seq<Stage>, outcomes: Seq<bool>) -> Seq<Stage>
    decreases steps.len(),
{
    if steps.len() == 0 {
        Seq::empty()
    } else if outcomes.len() == 0 || !outcomes[0] {
        seq![steps[0]]
    } else {
        seq![steps[0]] + launched(steps.drop_first(), outcomes.drop_first())
    }
}

/// The stage that an action starts, if any.
pub open spec fn started_by(action: Action) -> Seq<Stage> {
    match action {
        Action::Start(s) => seq![s],
        _ => Seq::empty(),
    }
}

/// Drives a start-up sequence one stage at a time.
pub struct Orchestrator {
    steps: Vec<Stage>,
    done: usize,
    phase: Phase,
    outcomes: Ghost<Seq<bool>>,
}

impl Orchestrator {
    pub closed spec fn steps(&self) -> Seq<Stage> {
        self.steps@
    }

    /// How many stages have completed successfully.
    pub closed spec fn completed(&self) -> int {
        self.done as int
    }

    pub closed spec fn phase_spec(&self) -> Phase {
        self.phase
    }

    /// The outcomes reported so far, in order.
    pub closed spec fn outcomes(&self) -> Seq<bool> {
        self.outcomes@
    }

    /// The stages started so far, in order.
    pub open spec fn started(&self) -> Seq<Stage> {
        if self.phase_spec() == Phase::Created {
            Seq::empty()
        } else {
            launched(self.steps(), self.outcomes())
        }
    }

    pub closed spec fn wf(&self) -> bool {
        let n = self.steps@.len();
        let k = self.done as int;
        &&& k <= n
        &&& forall|i: int| 0 <= i < k ==> #[trigger] self.outcomes@[i]
        &&& match self.phase {
            Phase::Created => k == 0 && self.outcomes@.len() == 0,
            Phase::Running(s) => k < n && s == self.steps@[k] && self.outcomes@.len() == k,
            Phase::Stopped => k == n && self.outcomes@.len() == k,
            Phase::Errored(s) => k < n && s == self.steps@[k] && self.outcomes@.len() == k + 1
                && !self.outcomes@[k],
        }
    }

    /// A sequence that will run the stages of `plan`.
    pub fn new(plan: &BootstrapPlan) -> (r: Self)
        ensures
            r.wf(),
            r.steps() == plan_steps(*plan),
            r.phase_spec() == Phase::Created,
            r.completed() == 0,
            r.outcomes() == Seq::<bool>::empty(),
            r.started() == Seq::<Stage>::empty(),
    {
        Orchestrator { steps: plan.steps(), done: 0, phase: Phase::Created, outcomes: Ghost(Seq::empty()) }
    }

    /// Where the sequence stands.
    pub fn phase(&self) -> (r: Phase)
        ensures
            r == self.phase_spec(),
    {
        self.phase
    }

    /// Starts the sequence: the first stage is to be performed.
    pub fn start(&mut self) -> (r: Action)
        requires
            old(self).wf(),
            old(self).phase_spec() == Phase::Created,
        ensures
            final(self).wf(),
            final(self).steps() == old(self).steps(),
            final(self).outcomes() == old(self).outcomes(),
            final(self).completed() == 0,
            old(self).steps().len() == 0 ==> r == Action::Finish && final(self).phase_spec()
                == Phase::Stopped,
            old(self).steps().len() > 0 ==> r == Action::Start(old(self).steps()[0])
                && final(self).phase_spec() == Phase::Running(old(self).steps()[0]),
            final(self).started() == old(self).started() + started_by(r),
    {
        if self.steps.len() == 0 {
            self.phase = Phase::Stopped;
            assert(launched(self.steps@, self.outcomes@) =~= Seq::<Stage>::empty());
            Action::Finish
        } else {
            let s = self.steps[0];
            self.phase = Phase::Running(s);
            assert(launched(self.steps@, self.outcomes@) =~= seq![s]);
            Action::Start(s)
        }
    }

    /// Records the outcome of the stage under way and says what comes next:
    /// the following stage, the end of start-up, or an abort on failure.
    pub fn complete(&mut self, ok: bool) -> (r: Action)
        requires
            old(self).wf(),
            old(self).phase_spec() is Running,
        ensures
            final(self).wf(),
            final(self).steps() == old(self).steps(),
            final(self).outcomes() == old(self).outcomes().push(ok),
            final(self).completed() == old(self).completed() + if ok {
                1int
            } else {
                0int
            },
            !ok ==> r == Action::Abort(old(self).phase_spec()->Running_0) && final(self).phase_spec()
                == Phase::Errored(old(self).phase_spec()->Running_0),
            ok && old(self).completed() + 1 < old(self).steps().len() ==> r == Action::Start(
                old(self).steps()[old(self).completed() + 1],
            ) && final(self).phase_spec() == Phase::Running(
                old(self).steps()[old(self).completed() + 1],
            ),
            ok && old(self).completed() + 1 == old(self).steps().len() ==> r == Action::Finish
                && final(self).phase_spec() == Phase::Stopped,
            final(self).started() == old(self).started() + started_by(r),
    {
        let ghost before = self.outcomes@;
        proof {
            lemma_launched_shape(self.steps@, before);
        }
        self.outcomes = Ghost(before.push(ok));
        proof {
            lemma_launched_shape(self.steps@, self.outcomes@);
        }
        assert(self.done < self.steps.len());
        let s = self.steps[self.done];
        if !ok {
            self.phase = Phase::Errored(s);
            assert(launched(self.steps@, self.outcomes@) =~= launched(self.steps@, before));
            Action::Abort(s)
        } else if self.done + 1 < self.steps.len() {
            self.done = self.done + 1;
            let next = self.steps[self.done];
            self.phase = Phase::Running(next);
            assert(launched(self.steps@, self.outcomes@) =~= launched(self.steps@, before).push(
                next,
            ));
            Action::Start(next)
        } else {
            self.done = self.done + 1;
            self.phase = Phase::Stopped;
            assert(launched(self.steps@, self.outcomes@) =~= launched(self.steps@, before));
            Action::Finish
        }
    }
}

/// How many stages have been started, given outcomes of which all but the
/// last are successes.
pub open spec fn launch_count(n: int, outcomes: Seq<bool>) -> int {
    if outcomes.len() == 0 {
        1
    } else if outcomes.last() && outcomes.len() < n {
        outcomes.len() + 1 as int
    } else {
        outcomes.len() as int
    }
}

proof fn lemma_launched_shape(steps: Seq<Stage>, outcomes: Seq<bool>)
    requires
        steps.len() > 0,
        outcomes.len() <= steps.len(),
        forall|i: int| 0 <= i < outcomes.len() - 1 ==> #[trigger] outcomes[i],
    ensures
        launched(steps, outcomes) =~= steps.take(launch_count(steps.len() as int, outcomes)),
    decreases steps.len(),
{
    if outcomes.len() > 0 && outcomes[0] && steps.len() > 1 {
        let rest = outcomes.drop_first();
        assert forall|i: int| 0 <= i < rest.len() - 1 implies #[trigger] rest[i] by {
            assert(rest[i] == outcomes[i + 1]);
        }
        lemma_launched_shape(steps.drop_first(), rest);
        if rest.len() > 0 {
            assert(rest.last() == outcomes.last());
        }
        let c = launch_count(steps.len() - 1, rest);
        assert(launch_count(steps.len() as int, outcomes) == c + 1);
        assert(seq![steps[0]] + steps.drop_first().take(c) =~= steps.take(c + 1));
    } else if outcomes.len() > 0 && outcomes[0] {
        assert(launched(steps.drop_first(), outcomes.drop_first()) =~= Seq::<Stage>::empty());
        assert(launched(steps, outcomes) =~= seq![steps[0]]);
    } else if outcomes.len() > 1 {
        assert(outcomes[0]);
    }
}

/// The stages of any plan run in the fixed order: resources first, then the
/// pre-run hook, then logging, then serving.
pub proof fn lemma_plan_in_stage_order(plan: BootstrapPlan)
    ensures
        forall|i: int, j: int|
            0 <= i < j < plan_steps(plan).len() ==> (#[trigger] plan_steps(plan)[i]).rank()
                < (#[trigger] plan_steps(plan)[j]).rank(),
        plan_steps(plan).last() == Stage::Serve,
{
    let s = plan_steps(plan);
    assert forall|i: int| 0 <= i < s.len() implies #[trigger] s[i].rank() + s.len() - i <= 5
        && s[i].rank() >= i by {
    }
}

/// The started stages are always the first stages of the sequence, in its
/// order, with none skipped.
pub proof fn lemma_started_is_prefix(steps: Seq<Stage>, outcomes: Seq<bool>)
    ensures
        launched(steps, outcomes).len() <= steps.len(),
        forall|i: int|
            0 <= i < launched(steps, outcomes).len() ==> #[trigger] launched(steps, outcomes)[i]
                == steps[i],
    decreases steps.len(),
{
    if steps.len() > 0 && outcomes.len() > 0 && outcomes[0] {
        lemma_started_is_prefix(steps.drop_first(), outcomes.drop_first());
        let rest = launched(steps.drop_first(), outcomes.drop_first());
        assert forall|i: int| 0 <= i < launched(steps, outcomes).len() implies #[trigger] launched(
            steps,
            outcomes,
        )[i] == steps[i] by {
            if i > 0 {
                assert(launched(steps, outcomes)[i] == rest[i - 1]);
            }
        }
    }
}

/// A failure of the stage at position `i` keeps every later stage from
/// starting.
pub proof fn lemma_failure_stops_later_stages(steps: Seq<Stage>, outcomes: Seq<bool>, i: int)
    requires
        0 <= i < outcomes.len(),
        !outcomes[i],
    ensures
        launched(steps, outcomes).len() <= i + 1,
    decreases steps.len(),
{
    if steps.len() > 0 && outcomes[0] {
        lemma_failure_stops_later_stages(steps.drop_first(), outcomes.drop_first(), i - 1);
    }
}

/// When every stage succeeds, every stage of the sequence is started.
pub proof fn lemma_success_starts_all(steps: Seq<Stage>, outcomes: Seq<bool>)
    requires
        outcomes.len() >= steps.len(),
        forall|i: int| 0 <= i < outcomes.len() ==> #[trigger] outcomes[i],
    ensures
        launched(steps, outcomes) == steps,
    decreases steps.len(),
{
    if steps.len() > 0 {
        let rest = outcomes.drop_first();
        assert forall|i: int| 0 <= i < rest.len() implies #[trigger] rest[i] by {
            assert(rest[i] == outcomes[i + 1]);
        }
        lemma_success_starts_all(steps.drop_first(), rest);
        assert(launched(steps, outcomes) =~= steps);
    }
}

/// Start-up runs in the fixed stage order whatever the outcomes: the stages
/// started are the plan's first stages, each of a later stage than the one
/// before, so resources are initialized before the pre-run hook, and the hook
/// before logging; a failed stage keeps every later stage from starting; and
/// when all succeed, every stage of the plan is started.
pub proof fn lemma_bootstrap_order(plan: BootstrapPlan, outcomes: Seq<bool>)
    ensures
        ({
            let started = launched(plan_steps(plan), outcomes);
            &&& forall|i: int|
                0 <= i < started.len() ==> #[trigger] started[i] == plan_steps(plan)[i]
            &&& forall|i: int, j: int|
                0 <= i < j < started.len() ==> (#[trigger] started[i]).rank()
                    < (#[trigger] started[j]).rank()
            &&& forall|i: int|
                0 <= i < outcomes.len() && !#[trigger] outcomes[i] ==> started.len() <= i + 1
            &&& (outcomes.len() >= plan_steps(plan).len() && forall|i: int|
                0 <= i < outcomes.len() ==> #[trigger] outcomes[i]) ==> started == plan_steps(plan)
        }),
{
    let steps = plan_steps(plan);
    let started = launched(steps, outcomes);
    lemma_started_is_prefix(steps, outcomes);
    lemma_plan_in_stage_order(plan);
    assert forall|i: int, j: int| 0 <= i < j < started.len() implies (#[trigger] started[i]).rank()
        < (#[trigger] started[j]).rank() by {
        assert(started[i] == steps[i]);
        assert(started[j] == steps[j]);
    }
    assert forall|i: int| 0 <= i < outcomes.len() && !#[trigger] outcomes[i] implies started.len()
        <= i + 1 by {
        lemma_failure_stops_later_stages(steps, outcomes, i);
    }
    if outcomes.len() >= steps.len() && forall|i: int| 0 <= i < outcomes.len() ==> #[trigger] outcomes[i] {
        lemma_success_starts_all(steps, outcomes);
    }
}

} // verus!

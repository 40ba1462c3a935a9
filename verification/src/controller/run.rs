//! The run of a controller: what is started, in which order, and when it ends.

use crate::controller::builder::ControllerBuilder;
use crate::controller::election::LeaderElectionConfig;
use crate::controller::leadership;
use crate::controller::leadership::AcquireEvent;
use vstd::prelude::*;

verus! {

/// A step of a run. Each may fail, but for those that only start a task.
#[derive(Debug, Clone, Copy, PartialEq, Eq, Structural)]
pub enum RunStep {
    /// Bind the health server to this port, and start it.
    ServeHealth(u16),
    /// Register the metrics.
    RegisterMetrics,
    /// Bind the metrics server to this port, and start it.
    ServeMetrics(u16),
    /// Start the task that requests a stop on a shutdown signal.
    ListenForShutdown,
    /// Wait until the leader lease is acquired or a stop is requested.
    AcquireLease,
    /// Start the task that renews the lease, and requests a stop once it is lost.
    RenewLease,
    /// Set the controller up, with this limit on concurrent reconciles.
    BuildController(Option<u16>),
    /// Reconcile until the watches end.
    RunLoop,
    /// Reconcile until the watches end or a stop is requested, by a shutdown signal
    /// or by the loss of the lease. Either way the stop is a clean one: no reconcile
    /// is started any more, and those that are running are completed.
    RunLoopUntilStopped,
}

impl RunStep {
    /// Whether this step reconciles.
    pub open spec fn reconciles(self) -> bool {
        self is RunLoop || self is RunLoopUntilStopped
    }
}

/// The steps of the probes and metrics.
pub open spec fn server_steps(health_port: Option<u16>, metrics_port: Option<u16>) -> Seq<RunStep> {
    (match health_port {
        Some(port) => seq![RunStep::ServeHealth(port)],
        None => seq![],
    }) + (match metrics_port {
        Some(port) => seq![RunStep::RegisterMetrics, RunStep::ServeMetrics(port)],
        None => seq![],
    })
}

/// The steps that can request a stop.
pub open spec fn stop_steps(graceful_shutdown: bool, leader_election: bool) -> Seq<RunStep> {
    (if graceful_shutdown {
        seq![RunStep::ListenForShutdown]
    } else {
        seq![]
    }) + (if leader_election {
        seq![RunStep::AcquireLease, RunStep::RenewLease]
    } else {
        seq![]
    })
}

/// The steps of the run that `builder` sets up.
pub open spec fn run_steps<CR, W, T>(builder: ControllerBuilder<CR, W, T>) -> Seq<RunStep> {
    server_steps(builder.health_port, builder.metrics_port) + stop_steps(
        builder.graceful_shutdown,
        builder.leader_election is Some,
    ) + seq![
        RunStep::BuildController(builder.concurrency),
        if builder.graceful_shutdown || builder.leader_election is Some {
            RunStep::RunLoopUntilStopped
        } else {
            RunStep::RunLoop
        },
    ]
}

/// How a step of a run ended.
#[derive(Debug)]
pub enum StepEnd<E> {
    /// It is done.
    Done,
    /// It was given up because a stop was requested.
    Stopped,
    /// It failed.
    Failed(E),
}

/// What a run does next.
#[derive(Debug)]
pub enum RunAction<E> {
    /// Take this step.
    Perform(RunStep),
    /// The run is over.
    Finish(Result<(), E>),
}

/// A run, with the steps that are still to be taken.
#[derive(Debug)]
pub struct ControllerRun {
    steps: Vec<RunStep>,
    next: usize,
}

impl View for ControllerRun {
    type V = Seq<RunStep>;

    /// The steps that are still to be taken.
    closed spec fn view(&self) -> Seq<RunStep> {
        self.steps@.skip(self.next as int)
    }
}

impl<CR, W, T> ControllerBuilder<CR, W, T> {
    /// The run that this builder sets up:
    ///
    /// 1. The health and the metrics server are bound, where they are wanted.
    /// 2. The leader lease is acquired, where leader election is wanted. A stop that
    ///    is requested meanwhile ends the run, and nothing is reconciled.
    /// 3. The reconcile loop runs.
    /// 4. It stops on a shutdown signal, where graceful shutdown is wanted, and on
    ///    the loss of the lease.
    pub fn run(&self) -> (r: ControllerRun)
        ensures
            r@ == run_steps(*self),
    {
        let mut steps: Vec<RunStep> = Vec::new();
        if let Some(port) = self.health_port {
            steps.push(RunStep::ServeHealth(port));
        }
        if let Some(port) = self.metrics_port {
            steps.push(RunStep::RegisterMetrics);
            steps.push(RunStep::ServeMetrics(port));
        }
        let has_stop = self.graceful_shutdown || self.leader_election.is_some();
        if self.graceful_shutdown {
            steps.push(RunStep::ListenForShutdown);
        }
        if self.leader_election.is_some() {
            steps.push(RunStep::AcquireLease);
            steps.push(RunStep::RenewLease);
        }
        steps.push(RunStep::BuildController(self.concurrency));
        if has_stop {
            steps.push(RunStep::RunLoopUntilStopped);
        } else {
            steps.push(RunStep::RunLoop);
        }
        assert(steps@ =~= run_steps(*self));
        let r = ControllerRun { steps, next: 0 };
        assert(r@ =~= steps@);
        r
    }
}

/// What a run does that has `steps` still to take, after one that ended so.
pub open spec fn run_action<E>(steps: Seq<RunStep>, end: StepEnd<E>) -> RunAction<E> {
    match end {
        StepEnd::Done => if steps.len() > 0 {
            RunAction::Perform(steps[0])
        } else {
            RunAction::Finish(Ok(()))
        },
        StepEnd::Stopped => RunAction::Finish(Ok(())),
        StepEnd::Failed(error) => RunAction::Finish(Err(error)),
    }
}

/// The steps that are left to a run that had `steps` still to take, after one
/// that ended so.
pub open spec fn steps_left<E>(steps: Seq<RunStep>, end: StepEnd<E>) -> Seq<RunStep> {
    if end is Done && steps.len() > 0 {
        steps.drop_first()
    } else {
        seq![]
    }
}

impl ControllerRun {
    #[verifier::type_invariant]
    spec fn within_steps(self) -> bool {
        self.next <= self.steps@.len()
    }

    /// Decides what follows the step taken last, given how it ended. A run begins
    /// as after a step that is done. A step that was given up for a stop ends the
    /// run well; one that failed ends it with its error.
    pub fn advance<E>(&mut self, end: StepEnd<E>) -> (action: RunAction<E>)
        ensures
            action == run_action(old(self)@, end),
            final(self)@ == steps_left(old(self)@, end),
    {
        proof {
            use_type_invariant(&*self);
        }
        let next = self.next;
        let len = self.steps.len();
        match end {
            StepEnd::Done => {
                if next < len {
                    let step = self.steps[next];
                    self.next = next + 1;
                    assert(self@ =~= old(self)@.drop_first());
                    RunAction::Perform(step)
                } else {
                    assert(self@ =~= seq![]);
                    RunAction::Finish(Ok(()))
                }
            },
            StepEnd::Stopped => {
                self.next = len;
                assert(self@ =~= seq![]);
                RunAction::Finish(Ok(()))
            },
            StepEnd::Failed(error) => {
                self.next = len;
                assert(self@ =~= seq![]);
                RunAction::Finish(Err(error))
            },
        }
    }
}

/// The steps that a run takes that has `steps` to take, where its calls of
/// [`ControllerRun::advance`] are given `ends`: the first to begin it, and each
/// other one for the step before.
pub open spec fn taken<E>(steps: Seq<RunStep>, ends: Seq<StepEnd<E>>) -> Seq<RunStep>
    decreases ends.len(),
{
    if ends.len() == 0 {
        seq![]
    } else {
        match run_action(steps, ends[0]) {
            RunAction::Perform(step) => seq![step] + taken(
                steps_left(steps, ends[0]),
                ends.drop_first(),
            ),
            RunAction::Finish(_) => seq![],
        }
    }
}

/// How such a run ends, where it does.
pub open spec fn run_result<E>(steps: Seq<RunStep>, ends: Seq<StepEnd<E>>) -> Option<Result<(), E>>
    decreases ends.len(),
{
    if ends.len() == 0 {
        None
    } else {
        match run_action(steps, ends[0]) {
            RunAction::Perform(_) => run_result(steps_left(steps, ends[0]), ends.drop_first()),
            RunAction::Finish(result) => Some(result),
        }
    }
}

/// A run takes its steps in order, and each only after all before it are done.
pub proof fn law_steps_follow_success<E>(steps: Seq<RunStep>, ends: Seq<StepEnd<E>>, i: int)
    requires
        0 <= i < taken(steps, ends).len(),
    ensures
        i < steps.len(),
        i < ends.len(),
        taken(steps, ends)[i] == steps[i],
        forall|j: int| 0 <= j <= i ==> #[trigger] ends[j] is Done,
    decreases ends.len(),
{
    if i > 0 {
        let rest = ends.drop_first();
        law_steps_follow_success(steps.drop_first(), rest, i - 1);
        assert forall|j: int| 0 <= j <= i implies #[trigger] ends[j] is Done by {
            if j > 0 {
                assert(rest[j - 1] is Done);
            }
        }
    }
}

/// A step that is given up for a stop is the last that a run takes, and the run
/// ends well.
pub proof fn law_stopped_step_ends_the_run<E>(steps: Seq<RunStep>, ends: Seq<StepEnd<E>>, i: int)
    requires
        0 <= i < ends.len(),
        i <= taken(steps, ends).len(),
        ends[i] is Stopped,
    ensures
        taken(steps, ends).len() == i,
        run_result(steps, ends) == Some(Result::<(), E>::Ok(())),
    decreases ends.len(),
{
    if i > 0 {
        law_steps_follow_success(steps, ends, 0);
        law_stopped_step_ends_the_run(steps.drop_first(), ends.drop_first(), i - 1);
    }
}

/// The reconcile loop is the last step of every run, and the only one that
/// reconciles. It can be stopped exactly where graceful shutdown or leader
/// election is enabled.
pub proof fn law_loop_comes_last<CR, W, T>(builder: ControllerBuilder<CR, W, T>, i: int)
    requires
        0 <= i < run_steps(builder).len(),
    ensures
        run_steps(builder)[i].reconciles() <==> i == run_steps(builder).len() - 1,
        run_steps(builder)[i] is RunLoopUntilStopped ==> builder.graceful_shutdown
            || builder.leader_election is Some,
        run_steps(builder)[i] is RunLoop ==> !builder.graceful_shutdown
            && builder.leader_election is None,
{
}

/// The loop of a run starts only once every step before it is done: the
/// servers are bound where they are wanted, and the leader lease is held where
/// leader election is enabled.
pub proof fn law_loop_starts_only_after_setup<CR, W, T, E>(
    builder: ControllerBuilder<CR, W, T>,
    ends: Seq<StepEnd<E>>,
    i: int,
)
    requires
        0 <= i < taken(run_steps(builder), ends).len(),
        taken(run_steps(builder), ends)[i].reconciles(),
    ensures
        forall|j: int| 0 <= j <= i ==> #[trigger] ends[j] is Done,
        builder.health_port matches Some(port) ==> taken(run_steps(builder), ends).take(
            i,
        ).contains(RunStep::ServeHealth(port)),
        builder.metrics_port matches Some(port) ==> taken(run_steps(builder), ends).take(
            i,
        ).contains(RunStep::ServeMetrics(port)),
        builder.leader_election is Some ==> taken(run_steps(builder), ends).take(i).contains(
            RunStep::AcquireLease,
        ),
{
    let steps = run_steps(builder);
    let trace = taken(steps, ends);
    let servers = server_steps(builder.health_port, builder.metrics_port);
    let stops = stop_steps(builder.graceful_shutdown, builder.leader_election is Some);
    law_steps_follow_success(steps, ends, i);
    law_loop_comes_last(builder, i);
    assert forall|k: int| 0 <= k < i implies #[trigger] trace.take(i)[k] == steps[k] by {
        law_steps_follow_success(steps, ends, k);
    }
    if let Some(port) = builder.health_port {
        assert(trace.take(i)[0] == RunStep::ServeHealth(port));
    }
    if let Some(port) = builder.metrics_port {
        let k = servers.len() - 1;
        assert(trace.take(i)[k] == servers[k]);
        assert(servers[k] == RunStep::ServeMetrics(port));
    }
    if builder.leader_election is Some {
        let k = stops.len() - 2;
        assert(trace.take(i)[servers.len() + k] == stops[k]);
        assert(stops[k] == RunStep::AcquireLease);
    }
}

/// A stop that is requested while a replica waits for leadership ends the run
/// well, whatever happened last in the wait: the wait is the last step that the run
/// takes, and nothing is reconciled.
pub proof fn law_stop_while_waiting_ends_the_run<CR, W, T, E>(
    builder: ControllerBuilder<CR, W, T>,
    config: LeaderElectionConfig,
    event: AcquireEvent<E>,
    ends: Seq<StepEnd<E>>,
    i: int,
)
    requires
        0 < i < ends.len(),
        i <= taken(run_steps(builder), ends).len(),
        taken(run_steps(builder), ends)[i - 1] is AcquireLease,
        Some(ends[i]) == leadership::wait_end::<E>(
            leadership::acquire_action(config, event, true),
        ),
    ensures
        taken(run_steps(builder), ends).len() == i,
        forall|k: int|
            0 <= k < taken(run_steps(builder), ends).len() ==> !(
            #[trigger] taken(run_steps(builder), ends)[k]).reconciles(),
        run_result(run_steps(builder), ends) == Some(Result::<(), E>::Ok(())),
{
    let steps = run_steps(builder);
    law_stopped_step_ends_the_run(steps, ends, i);
    law_steps_follow_success(steps, ends, i - 1);
    law_loop_comes_last(builder, i - 1);
    assert forall|k: int| 0 <= k < taken(steps, ends).len() implies !(
    #[trigger] taken(steps, ends)[k]).reconciles() by {
        law_steps_follow_success(steps, ends, k);
        law_loop_comes_last(builder, k);
    }
}

/// A run ends in error exactly when a step fails, and with its error; it ends well
/// once no step is left or a step is given up for a stop.
pub proof fn law_run_ends_with_its_error<E>(steps: Seq<RunStep>, end: StepEnd<E>)
    ensures
        forall|error: E|
            run_action(steps, end) == RunAction::<E>::Finish(Err(error)) <==> end
                == StepEnd::<E>::Failed(error),
        run_action(steps, end) matches RunAction::Finish(Ok(_)) <==> end is Stopped || end is Done
            && steps.len() == 0,
        run_action(steps, end) is Finish ==> steps_left(steps, end).len() == 0,
{
}

/// A run has a step exactly where the builder asks for it: the servers on their ports,
/// with the metrics registered for theirs; the task that listens for a shutdown signal
/// exactly with graceful shutdown, be there leader election or not; acquisition and
/// renewal of the lease exactly with leader election; the controller with the limit of
/// the builder; and a loop that can be stopped exactly where something can stop it.
pub proof fn law_steps_are_those_asked_for<CR, W, T>(
    builder: &ControllerBuilder<CR, W, T>,
    run: ControllerRun,
    port: u16,
    limit: Option<u16>,
)
    requires
        call_ensures(ControllerBuilder::<CR, W, T>::run, (builder,), run),
    ensures
        run@.contains(RunStep::ServeHealth(port)) <==> builder.health_port == Some(port),
        run@.contains(RunStep::RegisterMetrics) <==> builder.metrics_port is Some,
        run@.contains(RunStep::ServeMetrics(port)) <==> builder.metrics_port == Some(port),
        run@.contains(RunStep::ListenForShutdown) <==> builder.graceful_shutdown,
        run@.contains(RunStep::AcquireLease) <==> builder.leader_election is Some,
        run@.contains(RunStep::RenewLease) <==> builder.leader_election is Some,
        run@.contains(RunStep::BuildController(limit)) <==> builder.concurrency == limit,
        run@.contains(RunStep::RunLoopUntilStopped) <==> builder.graceful_shutdown
            || builder.leader_election is Some,
        run@.contains(RunStep::RunLoop) <==> !builder.graceful_shutdown
            && builder.leader_election is None,
{
    let steps = run_steps(*builder);
    let servers = server_steps(builder.health_port, builder.metrics_port);
    let stops = stop_steps(builder.graceful_shutdown, builder.leader_election is Some);
    assert(steps[steps.len() - 2] == RunStep::BuildController(builder.concurrency));
    assert(steps[steps.len() - 1].reconciles());
    if builder.health_port is Some {
        assert(steps[0] == servers[0]);
    }
    if builder.metrics_port is Some {
        assert(steps[servers.len() - 2] == servers[servers.len() - 2]);
        assert(steps[servers.len() - 1] == servers[servers.len() - 1]);
    }
    if builder.graceful_shutdown {
        assert(steps[servers.len() as int] == stops[0]);
    }
    if builder.leader_election is Some {
        assert(steps[servers.len() + stops.len() - 2] == stops[stops.len() - 2]);
        assert(steps[servers.len() + stops.len() - 1] == stops[stops.len() - 1]);
    }
}

/// Where a step stands in the order of a run.
pub open spec fn turn(step: RunStep) -> int {
    match step {
        RunStep::ServeHealth(_) => 1,
        RunStep::RegisterMetrics => 2,
        RunStep::ServeMetrics(_) => 3,
        RunStep::ListenForShutdown => 4,
        RunStep::AcquireLease => 5,
        RunStep::RenewLease => 6,
        RunStep::BuildController(_) => 7,
        RunStep::RunLoop => 8,
        RunStep::RunLoopUntilStopped => 8,
    }
}

/// The steps of a run follow each other in one order, each at most once: the health
/// server, the metrics, the metrics server, the listener for a shutdown signal, the
/// lease, its renewal, the controller, the loop. Nothing comes between the metrics and
/// their server, between the lease and its renewal, or between the controller and the
/// loop, which is the last.
pub proof fn law_steps_are_in_order<CR, W, T>(
    builder: &ControllerBuilder<CR, W, T>,
    run: ControllerRun,
    i: int,
    j: int,
)
    requires
        call_ensures(ControllerBuilder::<CR, W, T>::run, (builder,), run),
        0 <= i < run@.len(),
        0 <= j < run@.len(),
    ensures
        i < j <==> turn(run@[i]) < turn(run@[j]),
        run@[i] is ListenForShutdown && run@[j] is AcquireLease ==> i < j,
        run@[i] is ListenForShutdown && run@[j] is RunLoopUntilStopped ==> i < j,
        run@[i] is AcquireLease && run@[j] is RunLoopUntilStopped ==> i < j,
        run@[i] is RegisterMetrics && run@[j] is ServeMetrics ==> j == i + 1,
        run@[i] is AcquireLease && run@[j] is RenewLease ==> j == i + 1,
        run@[i] is BuildController <==> i == run@.len() - 2,
        run@[i] is RunLoop || run@[i] is RunLoopUntilStopped <==> i == run@.len() - 1,
{
}

/// A run that goes on takes the first of the steps that are left, and only that; with
/// none left it ends well. A step that was given up for a stop ends it well, one that
/// failed with its error, and either way no step is left.
pub proof fn law_run_advances_step_by_step<E>(
    run: &mut ControllerRun,
    end: StepEnd<E>,
    action: RunAction<E>,
)
    requires
        call_ensures(ControllerRun::advance::<E>, (run, end), action),
    ensures
        match end {
            StepEnd::Done => if old(run)@.len() > 0 {
                &&& action == RunAction::<E>::Perform(old(run)@[0])
                &&& final(run)@ == old(run)@.skip(1)
            } else {
                &&& action == RunAction::<E>::Finish(Ok(()))
                &&& final(run)@.len() == 0
            },
            StepEnd::Stopped => {
                &&& action == RunAction::<E>::Finish(Ok(()))
                &&& final(run)@.len() == 0
            },
            StepEnd::Failed(error) => {
                &&& action == RunAction::<E>::Finish(Err(error))
                &&& final(run)@.len() == 0
            },
        },
{
    if end is Done && old(run)@.len() > 0 {
        assert(old(run)@.drop_first() =~= old(run)@.skip(1));
    }
}

} // verus!

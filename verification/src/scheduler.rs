//! The two periodic tasks of a registered agent, metrics and heartbeat, and
//! how they end it.

use vstd::prelude::*;
use crate::api::{ack_view, ApiError, ApiErrorView};
use crate::config::Config;
use crate::registration::{Registration, RegistrationView};

verus! {

/// Whether a periodic task goes on to its next tick.
#[derive(Debug, Clone, Copy, PartialEq, Eq, Structural)]
pub enum LoopControl {
    /// Wait for the next tick.
    Continue,
    /// End the task, and with it the agent.
    Stop,
}

/// The result of one call made on a tick.
pub type TickOutcome = Result<(), ApiErrorView>;

/// The failure count and the control that follow a metrics submission which
/// ended in `outcome`, after `failures` failures in a row.
///
/// Success clears the count. `Unauthorized` stops the task. `NotRegistered`
/// changes nothing. Any other error adds one to the count, which stays at
/// the largest number it can hold once it has reached it.
pub open spec fn metrics_step(failures: u32, outcome: TickOutcome) -> (u32, LoopControl) {
    match outcome {
        Ok(_) => (0, LoopControl::Continue),
        Err(ApiErrorView::Unauthorized) => (failures, LoopControl::Stop),
        Err(ApiErrorView::NotRegistered) => (failures, LoopControl::Continue),
        Err(_) => (
            if failures < u32::MAX {
                (failures + 1) as u32
            } else {
                failures
            },
            LoopControl::Continue,
        ),
    }
}

/// The control that follows a heartbeat which ended in `outcome`: the task
/// goes on whatever happened.
pub open spec fn heartbeat_step(outcome: TickOutcome) -> LoopControl {
    LoopControl::Continue
}

/// The task that submits metrics on every tick.
#[derive(Debug, Clone, Copy, PartialEq, Eq, Structural)]
pub struct MetricsLoop {
    /// Submissions that failed in a row; kept to be reported, nothing
    /// depends on it.
    pub consecutive_failures: u32,
}

impl MetricsLoop {
    /// The task before its first tick.
    pub fn new() -> (task: MetricsLoop)
        ensures
            task.consecutive_failures == 0,
    {
        MetricsLoop { consecutive_failures: 0 }
    }

    /// Takes in the outcome of the submission made on a tick.
    pub fn after_tick(&mut self, outcome: &Result<(), ApiError>) -> (control: LoopControl)
        ensures
            (final(self).consecutive_failures, control) == metrics_step(
                old(self).consecutive_failures,
                ack_view(*outcome),
            ),
    {
        match outcome {
            Ok(_) => {
                self.consecutive_failures = 0;
                LoopControl::Continue
            },
            Err(ApiError::Unauthorized) => LoopControl::Stop,
            Err(ApiError::NotRegistered) => LoopControl::Continue,
            Err(_) => {
                if self.consecutive_failures < u32::MAX {
                    self.consecutive_failures = self.consecutive_failures + 1;
                }
                LoopControl::Continue
            },
        }
    }
}

/// The task that sends a heartbeat on every tick.
#[derive(Debug, Clone, Copy, PartialEq, Eq, Structural)]
pub struct HeartbeatLoop {}

impl HeartbeatLoop {
    /// The task before its first tick.
    pub fn new() -> HeartbeatLoop {
        HeartbeatLoop {  }
    }

    /// Takes in the outcome of the heartbeat sent on a tick.
    pub fn after_tick(&self, outcome: &Result<(), ApiError>) -> (control: LoopControl)
        ensures
            control == heartbeat_step(ack_view(*outcome)),
            control == LoopControl::Continue,
    {
        LoopControl::Continue
    }
}

/// What the two periodic tasks run on once the agent is registered.
#[derive(Debug, PartialEq, Eq)]
pub struct Schedule {
    /// The identity under which the backend knows this server.
    pub server_id: String,
    /// Seconds between two metrics submissions.
    pub metrics_interval_seconds: u64,
    /// Seconds between two heartbeats.
    pub heartbeat_interval_seconds: u64,
}

impl Schedule {
    /// The schedule of an agent whose registration stands at `registration`:
    /// there is one only once it is registered, so neither task can start
    /// before.
    pub fn after(registration: Registration, config: &Config) -> (schedule: Option<Schedule>)
        ensures
            schedule is Some <==> registration@ is Registered,
            schedule matches Some(plan) ==> {
                &&& registration@ matches RegistrationView::Registered { server_id }
                &&& plan.server_id@ == server_id
                &&& plan.metrics_interval_seconds == config.agent.metrics_interval_seconds
                &&& plan.heartbeat_interval_seconds == config.agent.heartbeat_interval_seconds
            },
    {
        match registration {
            Registration::Registered { server_id } => Some(
                Schedule {
                    server_id,
                    metrics_interval_seconds: config.agent.metrics_interval_seconds,
                    heartbeat_interval_seconds: config.agent.heartbeat_interval_seconds,
                },
            ),
            _ => None,
        }
    }
}

/// How far a periodic task got.
pub struct LoopTrace {
    /// Ticks on which the task made its call.
    pub ticks: nat,
    /// Whether the task is still going.
    pub running: bool,
    /// Failures in a row at the end.
    pub consecutive_failures: u32,
}

/// Runs the metrics task against a backend whose answer on tick number `i`
/// would be `outcomes[i]`: a tick is served for as long as the task is
/// running and there are answers left.
pub open spec fn run_metrics(outcomes: Seq<TickOutcome>) -> LoopTrace
    decreases outcomes.len(),
{
    if outcomes.len() == 0 {
        LoopTrace { ticks: 0, running: true, consecutive_failures: 0 }
    } else {
        let before = run_metrics(outcomes.drop_last());
        if before.running {
            let (failures, control) = metrics_step(before.consecutive_failures, outcomes.last());
            LoopTrace {
                ticks: before.ticks + 1,
                running: control == LoopControl::Continue,
                consecutive_failures: failures,
            }
        } else {
            before
        }
    }
}

/// Runs the heartbeat task in the same way.
pub open spec fn run_heartbeat(outcomes: Seq<TickOutcome>) -> LoopTrace
    decreases outcomes.len(),
{
    if outcomes.len() == 0 {
        LoopTrace { ticks: 0, running: true, consecutive_failures: 0 }
    } else {
        let before = run_heartbeat(outcomes.drop_last());
        if before.running {
            LoopTrace {
                ticks: before.ticks + 1,
                running: heartbeat_step(outcomes.last()) == LoopControl::Continue,
                consecutive_failures: 0,
            }
        } else {
            before
        }
    }
}

/// The metrics task stops on `Unauthorized` and on nothing else.
pub proof fn lemma_metrics_stops_only_on_unauthorized(failures: u32, outcome: TickOutcome)
    ensures
        metrics_step(failures, outcome).1 == LoopControl::Stop <==> outcome == Err::<
            (),
            ApiErrorView,
        >(ApiErrorView::Unauthorized),
{
}

/// While no submission is refused as `Unauthorized`, the metrics task serves
/// every tick and keeps running.
pub proof fn lemma_metrics_runs_while_authorized(outcomes: Seq<TickOutcome>)
    requires
        forall|i: int|
            0 <= i < outcomes.len() ==> #[trigger] outcomes[i] != Err::<(), ApiErrorView>(
                ApiErrorView::Unauthorized,
            ),
    ensures
        run_metrics(outcomes).running,
        run_metrics(outcomes).ticks == outcomes.len(),
    decreases outcomes.len(),
{
    if outcomes.len() > 0 {
        let earlier = outcomes.drop_last();
        assert forall|i: int| 0 <= i < earlier.len() implies #[trigger] earlier[i] != Err::<
            (),
            ApiErrorView,
        >(ApiErrorView::Unauthorized) by {
            assert(earlier[i] == outcomes[i]);
        }
        lemma_metrics_runs_while_authorized(earlier);
        assert(outcomes[outcomes.len() - 1] != Err::<(), ApiErrorView>(
            ApiErrorView::Unauthorized,
        ));
    }
}

/// Once the metrics task has stopped, no further tick is served.
pub proof fn lemma_metrics_stays_stopped(outcomes: Seq<TickOutcome>, served: int)
    requires
        0 <= served <= outcomes.len(),
        !run_metrics(outcomes.take(served)).running,
    ensures
        run_metrics(outcomes) == run_metrics(outcomes.take(served)),
    decreases outcomes.len() - served,
{
    if served < outcomes.len() {
        assert(outcomes.drop_last().take(served) == outcomes.take(served));
        lemma_metrics_stays_stopped(outcomes.drop_last(), served);
    } else {
        assert(outcomes.take(served) == outcomes);
    }
}

/// Where the submission on tick number `tick` (counted from 0) is the first
/// to be refused as `Unauthorized`, the metrics task stops with that tick:
/// it serves `tick + 1` ticks and never the one after.
pub proof fn lemma_metrics_stops_at_first_unauthorized(outcomes: Seq<TickOutcome>, tick: int)
    requires
        0 <= tick < outcomes.len(),
        outcomes[tick] == Err::<(), ApiErrorView>(ApiErrorView::Unauthorized),
        forall|i: int|
            0 <= i < tick ==> #[trigger] outcomes[i] != Err::<(), ApiErrorView>(
                ApiErrorView::Unauthorized,
            ),
    ensures
        !run_metrics(outcomes).running,
        run_metrics(outcomes).ticks == tick + 1,
{
    let earlier = outcomes.take(tick);
    let served = outcomes.take(tick + 1);
    lemma_metrics_runs_while_authorized(earlier);
    assert(served.drop_last() == earlier);
    assert(served.last() == outcomes[tick]);
    lemma_metrics_stays_stopped(outcomes, tick + 1);
}

/// The heartbeat task never stops on its own: whatever the outcomes, it
/// serves every tick and keeps running.
pub proof fn lemma_heartbeat_never_stops(outcomes: Seq<TickOutcome>)
    ensures
        run_heartbeat(outcomes).running,
        run_heartbeat(outcomes).ticks == outcomes.len(),
    decreases outcomes.len(),
{
    if outcomes.len() > 0 {
        lemma_heartbeat_never_stops(outcomes.drop_last());
    }
}

/// Something that happens to a running agent.
pub enum Event {
    /// The metrics task served a tick; holds the outcome of its submission.
    MetricsTick(TickOutcome),
    /// The heartbeat task served a tick; holds the outcome of its heartbeat.
    HeartbeatTick(TickOutcome),
    /// The interrupt signal arrived.
    Interrupt,
}

impl Event {
    /// Whether the event ends the agent: the interrupt does, and so does a
    /// metrics submission refused as `Unauthorized`.
    pub open spec fn is_fatal(self) -> bool {
        self is Interrupt || self == Event::MetricsTick(Err(ApiErrorView::Unauthorized))
    }

    /// Whether two events are the same but for the outcome of a heartbeat.
    pub open spec fn same_but_for_heartbeat(self, other: Event) -> bool {
        self == other || (self is HeartbeatTick && other is HeartbeatTick)
    }
}

/// Where a running agent stands.
pub struct AgentTrace {
    /// Whether the agent is still running.
    pub alive: bool,
    /// Ticks that the metrics task served.
    pub metrics_ticks: nat,
    /// Ticks that the heartbeat task served.
    pub heartbeat_ticks: nat,
    /// Metrics submissions that failed in a row.
    pub consecutive_failures: u32,
}

/// The agent after `event`. Each task goes by its own rule and touches only
/// its own count; whichever of the two tasks or the interrupt ends first
/// ends the agent, after which nothing is served.
pub open spec fn agent_step(before: AgentTrace, event: Event) -> AgentTrace {
    if !before.alive {
        before
    } else {
        match event {
            Event::MetricsTick(outcome) => {
                let (failures, control) = metrics_step(before.consecutive_failures, outcome);
                AgentTrace {
                    alive: control == LoopControl::Continue,
                    metrics_ticks: before.metrics_ticks + 1,
                    consecutive_failures: failures,
                    ..before
                }
            },
            Event::HeartbeatTick(outcome) => AgentTrace {
                alive: heartbeat_step(outcome) == LoopControl::Continue,
                heartbeat_ticks: before.heartbeat_ticks + 1,
                ..before
            },
            Event::Interrupt => AgentTrace { alive: false, ..before },
        }
    }
}

/// Runs a registered agent through `events`, in the order in which they
/// happen.
pub open spec fn run_agent(events: Seq<Event>) -> AgentTrace
    decreases events.len(),
{
    if events.len() == 0 {
        AgentTrace { alive: true, metrics_ticks: 0, heartbeat_ticks: 0, consecutive_failures: 0 }
    } else {
        agent_step(run_agent(events.drop_last()), events.last())
    }
}

/// The outcomes of the metrics ticks among `events`, in order.
pub open spec fn metrics_outcomes(events: Seq<Event>) -> Seq<TickOutcome>
    decreases events.len(),
{
    if events.len() == 0 {
        Seq::empty()
    } else {
        match events.last() {
            Event::MetricsTick(outcome) => metrics_outcomes(events.drop_last()).push(outcome),
            _ => metrics_outcomes(events.drop_last()),
        }
    }
}

/// The agent runs for as long as no fatal event has happened, and no longer.
pub proof fn lemma_agent_runs_until_fatal_event(events: Seq<Event>)
    ensures
        run_agent(events).alive <==> forall|i: int|
            0 <= i < events.len() ==> !(#[trigger] events[i]).is_fatal(),
    decreases events.len(),
{
    if events.len() > 0 {
        let earlier = events.drop_last();
        lemma_agent_runs_until_fatal_event(earlier);
        if run_agent(events).alive {
            assert forall|i: int| 0 <= i < events.len() implies !(#[trigger] events[i]).is_fatal() by {
                if i < earlier.len() {
                    assert(earlier[i] == events[i]);
                }
            }
        } else if run_agent(earlier).alive {
            assert(events[events.len() - 1].is_fatal());
        } else {
            let i = choose|i: int| 0 <= i < earlier.len() && (#[trigger] earlier[i]).is_fatal();
            assert(events[i] == earlier[i]);
        }
    }
}

/// How heartbeats end is of no consequence: two runs that differ only in
/// the outcomes of their heartbeats leave the agent in the same place, the
/// metrics task included.
pub proof fn lemma_heartbeat_outcomes_are_isolated(events: Seq<Event>, others: Seq<Event>)
    requires
        events.len() == others.len(),
        forall|i: int|
            0 <= i < events.len() ==> (#[trigger] events[i]).same_but_for_heartbeat(others[i]),
    ensures
        run_agent(events) == run_agent(others),
    decreases events.len(),
{
    if events.len() > 0 {
        let earlier = events.drop_last();
        let other_earlier = others.drop_last();
        assert forall|i: int| 0 <= i < earlier.len() implies (#[trigger] earlier[i])
            .same_but_for_heartbeat(other_earlier[i]) by {
            assert(events[i].same_but_for_heartbeat(others[i]));
        }
        lemma_heartbeat_outcomes_are_isolated(earlier, other_earlier);
        assert(events[events.len() - 1].same_but_for_heartbeat(others[events.len() - 1]));
    }
}

/// The metrics task of a running agent fares as it would alone: where no
/// interrupt arrives, the agent's metrics counts are those of the metrics
/// task run against the outcomes of its own ticks, however the heartbeats
/// fall in between.
pub proof fn lemma_metrics_task_is_isolated(events: Seq<Event>)
    requires
        forall|i: int| 0 <= i < events.len() ==> !(#[trigger] events[i] is Interrupt),
    ensures
        run_agent(events).alive == run_metrics(metrics_outcomes(events)).running,
        run_agent(events).metrics_ticks == run_metrics(metrics_outcomes(events)).ticks,
        run_agent(events).consecutive_failures == run_metrics(
            metrics_outcomes(events),
        ).consecutive_failures,
    decreases events.len(),
{
    if events.len() > 0 {
        let earlier = events.drop_last();
        assert forall|i: int| 0 <= i < earlier.len() implies !(#[trigger] earlier[i] is Interrupt) by {
            assert(earlier[i] == events[i]);
        }
        lemma_metrics_task_is_isolated(earlier);
        let last = events[events.len() - 1];
        assert(!(last is Interrupt));
        if last is MetricsTick {
            assert(metrics_outcomes(events).drop_last() == metrics_outcomes(earlier));
        }
    }
}

} // verus!

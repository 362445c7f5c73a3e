//! The consumer: what becomes of a delivery once its task is over, when a
//! message is queued again, how many tasks may run at once, and when the
//! consumer reconnects. Each is a function from what happened to what to do;
//! the broker itself is driven by the caller.

use crate::message::{QueueMessageView, WebhookQueueMessage};
use crate::outcome::DispatchResult;
use crate::topology::{main_queue, retry_queue, QueueDeclaration};
use crate::topology::{field_entries, main_queue_arguments, retry_queue_arguments};
use crate::topology::{QUEUE_NAME, RETRY_QUEUE_NAME};
use vstd::prelude::*;
use vstd::string::StringExecFns;

verus! {

/// The identity under which the work queue is consumed.
pub const CONSUMER_TAG: &'static str = "webhook-dispatcher";

/// The pause before the consumer reconnects, in seconds.
pub const RESTART_DELAY_SECS: u64 = 5;

/// What the consumer is configured with.
#[derive(Clone, Debug, PartialEq, Eq)]
pub struct Config {
    /// The address of the broker.
    pub rabbitmq_url: String,
    /// The address of the record store.
    pub supabase_url: String,
    /// The credential for the record store.
    pub supabase_service_token: String,
    /// The most deliveries handed out unacknowledged, and so the most tasks
    /// running at once.
    pub prefetch_count: u16,
    /// The most times a message is queued again.
    pub max_retries: u32,
    /// The delay before a message queued again comes back, in milliseconds.
    pub retry_delay_ms: u64,
}

/// What is set up at each connection before the first delivery is taken.
#[derive(Debug, PartialEq)]
pub struct ConsumerSetup {
    /// The work queue.
    pub work_queue: QueueDeclaration,
    /// The retry queue.
    pub retry_queue: QueueDeclaration,
    /// The prefetch limit, which bounds the running tasks.
    pub prefetch_count: u16,
}

/// The queues and the prefetch limit for `config`: both queues durable, the
/// work queue replicated, the retry queue handing its messages back after
/// the configured delay, and no more deliveries outstanding than tasks may run.
pub fn consumer_setup(config: &Config) -> (setup: ConsumerSetup)
    ensures
        setup.work_queue.name@ == QUEUE_NAME@,
        setup.work_queue.durable,
        field_entries(setup.work_queue.arguments) == main_queue_arguments(),
        setup.retry_queue.name@ == RETRY_QUEUE_NAME@,
        setup.retry_queue.durable,
        field_entries(setup.retry_queue.arguments) == retry_queue_arguments(
            config.retry_delay_ms as i64,
        ),
        setup.prefetch_count == config.prefetch_count,
{
    ConsumerSetup {
        work_queue: main_queue(),
        retry_queue: retry_queue(config.retry_delay_ms),
        prefetch_count: config.prefetch_count,
    }
}

/// How the task of one delivery ended.
#[derive(Clone, Debug, PartialEq, Eq)]
pub enum TaskResult {
    /// The message was dealt with: delivered, dropped, or queued again.
    Completed,
    /// Processing broke off with an error.
    Failed { error: String },
    /// The task ended without a result.
    Crashed,
}

/// What the broker is told about a delivery.
#[derive(Clone, Copy, Debug, PartialEq, Eq, Structural)]
pub enum Disposition {
    /// Acknowledge: the delivery leaves the work queue for good.
    Ack,
    /// Reject and have the broker queue the delivery again at once.
    NackRequeue,
    /// Nothing: the delivery stays unacknowledged.
    Unresolved,
}

/// The text of a task's result.
pub enum TaskResultView {
    Completed,
    Failed { error: Seq<char> },
    Crashed,
}

impl View for TaskResult {
    type V = TaskResultView;

    open spec fn view(&self) -> TaskResultView {
        match *self {
            TaskResult::Completed => TaskResultView::Completed,
            TaskResult::Failed { error } => TaskResultView::Failed { error: error@ },
            TaskResult::Crashed => TaskResultView::Crashed,
        }
    }
}

/// The disposition that belongs to the end of a task.
pub open spec fn spec_handle_result(result: TaskResultView) -> Disposition {
    match result {
        TaskResultView::Completed => Disposition::Ack,
        TaskResultView::Failed { error } => Disposition::NackRequeue,
        TaskResultView::Crashed => Disposition::Unresolved,
    }
}

/// Decides what the broker is told about a delivery whose task is over: a
/// completed task has it acknowledged, a failed one has it rejected and
/// queued again at once, and after a crash it is left as it is.
pub fn handle_result(result: &TaskResult) -> (disposition: Disposition)
    ensures
        disposition == spec_handle_result(result@),
{
    match result {
        TaskResult::Completed => Disposition::Ack,
        TaskResult::Failed { error } => Disposition::NackRequeue,
        TaskResult::Crashed => Disposition::Unresolved,
    }
}

/// How far the processing of one delivery has come.
#[derive(Clone, Copy, Debug, PartialEq, Eq, Structural)]
pub enum ProcessState {
    /// The body has not been looked at yet.
    Created,
    /// The message is with the dispatcher.
    Dispatching,
    /// The copy for the retry queue is being published.
    Publishing,
    /// Processing is over.
    Finished,
}

/// What happened to the delivery being processed.
#[derive(Clone, Debug, PartialEq, Eq)]
pub enum ProcessEvent {
    /// The body was decoded into this message.
    Decoded { message: WebhookQueueMessage },
    /// The body is no message.
    Malformed,
    /// The dispatcher is done with `attempted` and reports `outcome`.
    Dispatched { attempted: WebhookQueueMessage, outcome: DispatchResult },
    /// The dispatcher broke off.
    DispatchFailed { error: String },
    /// The copy is on the retry queue.
    Published,
    /// The copy could not be published.
    PublishFailed { reason: String },
}

/// What to do next with the delivery being processed.
#[derive(Clone, Debug, PartialEq, Eq)]
pub enum ProcessAction {
    /// Have the dispatcher deliver the message.
    Dispatch { message: WebhookQueueMessage },
    /// Publish `copy` to the queue named `queue`.
    Publish { queue: String, copy: WebhookQueueMessage },
    /// Processing is over, with this result.
    Finish { result: TaskResult },
}

/// The texts of a `ProcessAction`.
pub enum ProcessActionView {
    Dispatch { message: QueueMessageView },
    Publish { queue: Seq<char>, copy: QueueMessageView },
    Finish { result: TaskResultView },
}

impl View for ProcessAction {
    type V = ProcessActionView;

    open spec fn view(&self) -> ProcessActionView {
        match *self {
            ProcessAction::Dispatch { message } => ProcessActionView::Dispatch {
                message: message@,
            },
            ProcessAction::Publish { queue, copy } => ProcessActionView::Publish {
                queue: queue@,
                copy: copy@,
            },
            ProcessAction::Finish { result } => ProcessActionView::Finish { result: result@ },
        }
    }
}

/// The copy of `m` that is queued again: the same message, counted as
/// attempted once more.
pub open spec fn retry_copy(m: QueueMessageView) -> QueueMessageView {
    QueueMessageView { retry_count: (m.retry_count + 1) as u32, ..m }
}

/// Whether a message that came to `outcome` after `retry_count` earlier
/// attempts is queued again.
pub open spec fn is_requeued(outcome: DispatchResult, retry_count: u32, max_retries: u32) -> bool {
    outcome == DispatchResult::RetryableError && retry_count < max_retries
}

/// Processing is over with `result`.
pub open spec fn finished(result: TaskResultView) -> (ProcessState, ProcessActionView) {
    (ProcessState::Finished, ProcessActionView::Finish { result })
}

/// What processing does in `state` when `event` happens: the next state and
/// the action. A body that is no message is dropped. A message is handed to
/// the dispatcher; when it comes back as a transient failure with retries
/// left, its copy goes to the retry queue; in every other case it is done
/// with. An error of the dispatcher or of the publish fails the task.
pub open spec fn spec_process_message(state: ProcessState, event: ProcessEvent, max_retries: u32) -> (
    ProcessState,
    ProcessActionView,
) {
    match (state, event) {
        (ProcessState::Created, ProcessEvent::Decoded { message }) => (
            ProcessState::Dispatching,
            ProcessActionView::Dispatch { message: message@ },
        ),
        (ProcessState::Created, ProcessEvent::Malformed) => finished(TaskResultView::Completed),
        (ProcessState::Dispatching, ProcessEvent::Dispatched { attempted, outcome }) => {
            if is_requeued(outcome, attempted.retry_count, max_retries) {
                (
                    ProcessState::Publishing,
                    ProcessActionView::Publish {
                        queue: RETRY_QUEUE_NAME@,
                        copy: retry_copy(attempted@),
                    },
                )
            } else {
                finished(TaskResultView::Completed)
            }
        },
        (ProcessState::Dispatching, ProcessEvent::DispatchFailed { error }) => finished(
            TaskResultView::Failed { error: error@ },
        ),
        (ProcessState::Publishing, ProcessEvent::Published) => finished(TaskResultView::Completed),
        (ProcessState::Publishing, ProcessEvent::PublishFailed { reason }) => finished(
            TaskResultView::Failed { error: "Failed to publish retry: "@ + reason@ },
        ),
        _ => finished(TaskResultView::Failed { error: "Unexpected event"@ }),
    }
}

/// The state and the view of the action of a step.
pub open spec fn process_step_view(step: (ProcessState, ProcessAction)) -> (
    ProcessState,
    ProcessActionView,
) {
    (step.0, step.1@)
}

/// Advances the processing of one delivery by one step: from the state it
/// is in and what happened, to the next state and what to do. It begins in
/// `Created` with the decoded body, and is over with `Finish`. An event that
/// does not belong to the state fails the task.
pub fn process_message(state: ProcessState, event: ProcessEvent, max_retries: u32) -> (next: (
    ProcessState,
    ProcessAction,
))
    ensures
        process_step_view(next) == spec_process_message(state, event, max_retries),
{
    match (state, event) {
        (ProcessState::Created, ProcessEvent::Decoded { message }) => (
            ProcessState::Dispatching,
            ProcessAction::Dispatch { message },
        ),
        (ProcessState::Created, ProcessEvent::Malformed) => (
            ProcessState::Finished,
            ProcessAction::Finish { result: TaskResult::Completed },
        ),
        (ProcessState::Dispatching, ProcessEvent::Dispatched { attempted, outcome }) => {
            let retryable = match outcome {
                DispatchResult::RetryableError => true,
                _ => false,
            };
            if retryable && attempted.retry_count < max_retries {
                let mut copy = attempted;
                copy.retry_count = copy.retry_count + 1;
                (
                    ProcessState::Publishing,
                    ProcessAction::Publish { queue: String::from_str(RETRY_QUEUE_NAME), copy },
                )
            } else {
                (ProcessState::Finished, ProcessAction::Finish { result: TaskResult::Completed })
            }
        },
        (ProcessState::Dispatching, ProcessEvent::DispatchFailed { error }) => (
            ProcessState::Finished,
            ProcessAction::Finish { result: TaskResult::Failed { error } },
        ),
        (ProcessState::Publishing, ProcessEvent::Published) => (
            ProcessState::Finished,
            ProcessAction::Finish { result: TaskResult::Completed },
        ),
        (ProcessState::Publishing, ProcessEvent::PublishFailed { reason }) => (
            ProcessState::Finished,
            ProcessAction::Finish {
                result: TaskResult::Failed {
                    error: String::from_str("Failed to publish retry: ").concat(reason.as_str()),
                },
            },
        ),
        _ => (
            ProcessState::Finished,
            ProcessAction::Finish {
                result: TaskResult::Failed { error: String::from_str("Unexpected event") },
            },
        ),
    }
}

/// Where the consumer loop stands.
#[derive(Clone, Copy, Debug, PartialEq, Eq, Structural)]
pub enum Phase {
    /// Deliveries are taken as far as there is room.
    Accepting,
    /// No delivery is taken any more; the running tasks are awaited.
    Draining,
    /// The loop is over and every task has been reaped.
    Done,
    /// The delivery stream gave an error; no delivery is taken any more, and
    /// the running tasks are awaited.
    Failing,
    /// The loop is over after an error of the delivery stream, and every
    /// task has been reaped.
    Broken,
}

/// The consumer loop: how many tasks are running, how many may, and where
/// the loop stands.
#[derive(Clone, Copy, Debug, PartialEq, Eq, Structural)]
pub struct ConsumerLoop {
    /// The number of tasks running.
    pub in_flight: usize,
    /// The most tasks that may run at once.
    pub max_concurrent: usize,
    /// Where the loop stands.
    pub phase: Phase,
}

/// The event sources the loop listens to.
#[derive(Clone, Copy, Debug, PartialEq, Eq, Structural)]
pub struct Polls {
    /// The shutdown signal.
    pub shutdown: bool,
    /// The end of a running task.
    pub tasks: bool,
    /// The delivery stream.
    pub deliveries: bool,
}

/// What happened in the consumer loop.
#[derive(Clone, Debug, PartialEq, Eq)]
pub enum LoopEvent {
    /// Shutdown was requested.
    ShutdownRequested,
    /// A running task ended with `result`.
    TaskFinished { result: TaskResult },
    /// The broker handed out a delivery.
    DeliveryArrived,
    /// The delivery stream gave an error.
    StreamFailed,
    /// The delivery stream ended.
    StreamClosed,
}

/// What the consumer loop does about an event.
#[derive(Clone, Copy, Debug, PartialEq, Eq, Structural)]
pub enum LoopAction {
    /// Start a task for the delivery.
    Spawn,
    /// Tell the broker this about the delivery whose task ended.
    Settle { disposition: Disposition },
    /// Nothing beyond what the loop's state now says.
    Idle,
}

impl ConsumerLoop {
    /// No more tasks run than may.
    pub open spec fn wf(self) -> bool {
        self.in_flight <= self.max_concurrent
    }

    /// The loop after one more of its tasks has ended.
    pub open spec fn reaped(self) -> ConsumerLoop {
        let left = if self.in_flight > 0 {
            (self.in_flight - 1) as usize
        } else {
            0
        };
        match self.phase {
            Phase::Draining if left == 0 => ConsumerLoop {
                in_flight: left,
                phase: Phase::Done,
                ..self
            },
            Phase::Failing if left == 0 => ConsumerLoop {
                in_flight: left,
                phase: Phase::Broken,
                ..self
            },
            _ => ConsumerLoop { in_flight: left, ..self },
        }
    }

    /// The loop once the delivery stream has given an error: over if no task
    /// runs, else awaiting the running ones.
    pub open spec fn failed(self) -> ConsumerLoop {
        ConsumerLoop {
            phase: if self.in_flight == 0 {
                Phase::Broken
            } else {
                Phase::Failing
            },
            ..self
        }
    }

    /// The loop once it stops taking deliveries: over if no task runs,
    /// else awaiting the running ones.
    pub open spec fn closed(self) -> ConsumerLoop {
        ConsumerLoop {
            phase: if self.in_flight == 0 {
                Phase::Done
            } else {
                Phase::Draining
            },
            ..self
        }
    }

    /// The sources the loop listens to: while accepting, the shutdown
    /// signal, the tasks if any runs, and the deliveries if there is room
    /// for one more task; while draining, and after an error of the stream,
    /// the tasks alone, until none is left.
    pub open spec fn spec_polls(self) -> Polls {
        match self.phase {
            Phase::Accepting => Polls {
                shutdown: true,
                tasks: self.in_flight > 0,
                deliveries: self.in_flight < self.max_concurrent,
            },
            Phase::Draining | Phase::Failing => Polls {
                shutdown: false,
                tasks: true,
                deliveries: false,
            },
            _ => Polls { shutdown: false, tasks: false, deliveries: false },
        }
    }

    /// A loop that runs nothing yet and takes up to `prefetch_count` tasks.
    pub fn new(prefetch_count: u16) -> (state: ConsumerLoop)
        ensures
            state == (ConsumerLoop {
                in_flight: 0,
                max_concurrent: prefetch_count as usize,
                phase: Phase::Accepting,
            }),
            state.wf(),
    {
        ConsumerLoop {
            in_flight: 0,
            max_concurrent: prefetch_count as usize,
            phase: Phase::Accepting,
        }
    }

    /// Says which event sources to listen to.
    pub fn polls(&self) -> (polls: Polls)
        ensures
            polls == self.spec_polls(),
    {
        match self.phase {
            Phase::Accepting => Polls {
                shutdown: true,
                tasks: self.in_flight > 0,
                deliveries: self.in_flight < self.max_concurrent,
            },
            Phase::Draining | Phase::Failing => Polls {
                shutdown: false,
                tasks: true,
                deliveries: false,
            },
            _ => Polls { shutdown: false, tasks: false, deliveries: false },
        }
    }
}

/// What the consumer loop does in `state` when `event` happens: the next
/// state and the action. A shutdown or the end of the stream closes the
/// loop to new deliveries, and so does an error of the stream; either way
/// the running tasks are awaited and the end of each is settled, and only
/// then is the loop over. A delivery is taken if there is room, and refused
/// otherwise. A loop that is over ignores everything.
pub open spec fn spec_run_inner(state: ConsumerLoop, event: LoopEvent) -> (
    ConsumerLoop,
    LoopAction,
) {
    match (state.phase, event) {
        (Phase::Accepting, LoopEvent::ShutdownRequested) => (state.closed(), LoopAction::Idle),
        (Phase::Accepting, LoopEvent::StreamClosed) => (state.closed(), LoopAction::Idle),
        (Phase::Accepting, LoopEvent::StreamFailed) => (state.failed(), LoopAction::Idle),
        (Phase::Accepting, LoopEvent::DeliveryArrived) => {
            if state.in_flight < state.max_concurrent {
                (
                    ConsumerLoop { in_flight: (state.in_flight + 1) as usize, ..state },
                    LoopAction::Spawn,
                )
            } else {
                (state, LoopAction::Idle)
            }
        },
        (Phase::Accepting, LoopEvent::TaskFinished { result }) => (
            state.reaped(),
            LoopAction::Settle { disposition: spec_handle_result(result@) },
        ),
        (Phase::Draining, LoopEvent::TaskFinished { result }) => (
            state.reaped(),
            LoopAction::Settle { disposition: spec_handle_result(result@) },
        ),
        (Phase::Failing, LoopEvent::TaskFinished { result }) => (
            state.reaped(),
            LoopAction::Settle { disposition: spec_handle_result(result@) },
        ),
        _ => (state, LoopAction::Idle),
    }
}

/// Advances the consumer loop by one event.
pub fn run_inner(state: ConsumerLoop, event: &LoopEvent) -> (next: (ConsumerLoop, LoopAction))
    ensures
        next == spec_run_inner(state, *event),
        state.wf() ==> next.0.wf(),
{
    let left = if state.in_flight > 0 {
        state.in_flight - 1
    } else {
        0
    };
    match (state.phase, event) {
        (Phase::Accepting, LoopEvent::ShutdownRequested)
        | (Phase::Accepting, LoopEvent::StreamClosed) => {
            let phase = if state.in_flight == 0 {
                Phase::Done
            } else {
                Phase::Draining
            };
            (
                ConsumerLoop {
                    in_flight: state.in_flight,
                    max_concurrent: state.max_concurrent,
                    phase,
                },
                LoopAction::Idle,
            )
        },
        (Phase::Accepting, LoopEvent::StreamFailed) => {
            let phase = if state.in_flight == 0 {
                Phase::Broken
            } else {
                Phase::Failing
            };
            (
                ConsumerLoop {
                    in_flight: state.in_flight,
                    max_concurrent: state.max_concurrent,
                    phase,
                },
                LoopAction::Idle,
            )
        },
        (Phase::Accepting, LoopEvent::DeliveryArrived) => {
            if state.in_flight < state.max_concurrent {
                (
                    ConsumerLoop {
                        in_flight: state.in_flight + 1,
                        max_concurrent: state.max_concurrent,
                        phase: Phase::Accepting,
                    },
                    LoopAction::Spawn,
                )
            } else {
                (state, LoopAction::Idle)
            }
        },
        (Phase::Accepting, LoopEvent::TaskFinished { result }) => (
            ConsumerLoop {
                in_flight: left,
                max_concurrent: state.max_concurrent,
                phase: Phase::Accepting,
            },
            LoopAction::Settle { disposition: handle_result(result) },
        ),
        (Phase::Draining, LoopEvent::TaskFinished { result }) => {
            let phase = if left == 0 {
                Phase::Done
            } else {
                Phase::Draining
            };
            (
                ConsumerLoop { in_flight: left, max_concurrent: state.max_concurrent, phase },
                LoopAction::Settle { disposition: handle_result(result) },
            )
        },
        (Phase::Failing, LoopEvent::TaskFinished { result }) => {
            let phase = if left == 0 {
                Phase::Broken
            } else {
                Phase::Failing
            };
            (
                ConsumerLoop { in_flight: left, max_concurrent: state.max_concurrent, phase },
                LoopAction::Settle { disposition: handle_result(result) },
            )
        },
        _ => (state, LoopAction::Idle),
    }
}

/// How one connect-and-consume sequence ended.
#[derive(Clone, Copy, Debug, PartialEq, Eq, Structural)]
pub enum RunExit {
    /// It returned: the loop had been shut down or the stream had ended.
    Returned,
    /// It broke off with an error: the connection or the channel could not
    /// be had, a queue could not be set up, or the delivery stream failed.
    Failed,
}

/// What the supervisor of the consumer does next.
#[derive(Clone, Copy, Debug, PartialEq, Eq, Structural)]
pub enum Supervision {
    /// Stop for good.
    Stop,
    /// Wait, then connect again from scratch.
    RestartAfter { seconds: u64 },
}

/// The supervisor's rule: after an error reconnect, unless shutdown was
/// requested; stop otherwise. There is no bound on the number of restarts.
pub open spec fn spec_run(exit: RunExit, shutdown_requested: bool) -> Supervision {
    match exit {
        RunExit::Returned => Supervision::Stop,
        RunExit::Failed => if shutdown_requested {
            Supervision::Stop
        } else {
            Supervision::RestartAfter { seconds: RESTART_DELAY_SECS }
        },
    }
}

/// Decides, when a connect-and-consume sequence has ended, whether the
/// consumer stops or reconnects after the fixed pause.
pub fn run(exit: RunExit, shutdown_requested: bool) -> (next: Supervision)
    ensures
        next == spec_run(exit, shutdown_requested),
{
    match exit {
        RunExit::Returned => Supervision::Stop,
        RunExit::Failed => if shutdown_requested {
            Supervision::Stop
        } else {
            Supervision::RestartAfter { seconds: RESTART_DELAY_SECS }
        },
    }
}

/// The actions of processing: what is answered, one after the other, to the
/// events `events`, beginning in `state`.
pub open spec fn process_trace(state: ProcessState, events: Seq<ProcessEvent>, max_retries: u32) -> Seq<
    ProcessActionView,
>
    decreases events.len(),
{
    if events.len() == 0 {
        Seq::empty()
    } else {
        let step = spec_process_message(state, events[0], max_retries);
        seq![step.1] + process_trace(step.0, events.drop_first(), max_retries)
    }
}

/// The number of copies that a sequence of actions publishes.
pub open spec fn publishes(actions: Seq<ProcessActionView>) -> nat
    decreases actions.len(),
{
    if actions.len() == 0 {
        0
    } else {
        let rest = publishes(actions.drop_first());
        if actions[0] is Publish {
            rest + 1
        } else {
            rest
        }
    }
}

/// The state of the consumer loop after the events `events`, beginning in
/// `state`.
pub open spec fn loop_after(state: ConsumerLoop, events: Seq<LoopEvent>) -> ConsumerLoop
    decreases events.len(),
{
    if events.len() == 0 {
        state
    } else {
        loop_after(spec_run_inner(state, events[0]).0, events.drop_first())
    }
}

/// The actions that begin with `first` publish what `first` does and what
/// the rest does.
proof fn lemma_publishes_of_cons(first: ProcessActionView, rest: Seq<ProcessActionView>)
    ensures
        publishes(seq![first] + rest) == publishes(rest) + if first is Publish {
            1nat
        } else {
            0nat
        },
{
    let all = seq![first] + rest;
    assert(all.drop_first() =~= rest);
    assert(all[0] == first);
}

/// Once a copy is being published, or processing is over, nothing more is
/// published, whatever happens.
pub proof fn lemma_nothing_published_once_decided(
    state: ProcessState,
    events: Seq<ProcessEvent>,
    max_retries: u32,
)
    requires
        state == ProcessState::Publishing || state == ProcessState::Finished,
    ensures
        publishes(process_trace(state, events, max_retries)) == 0,
    decreases events.len(),
{
    if events.len() > 0 {
        let step = spec_process_message(state, events[0], max_retries);
        lemma_nothing_published_once_decided(step.0, events.drop_first(), max_retries);
        lemma_publishes_of_cons(step.1, process_trace(step.0, events.drop_first(), max_retries));
    }
}

/// Where the answer to the first event leaves a copy being published, or
/// processing over, the answer to that event is all that is ever published.
proof fn lemma_decided_by_first_event(
    state: ProcessState,
    event: ProcessEvent,
    later: Seq<ProcessEvent>,
    max_retries: u32,
)
    requires
        spec_process_message(state, event, max_retries).0 == ProcessState::Publishing
            || spec_process_message(state, event, max_retries).0 == ProcessState::Finished,
    ensures
        publishes(process_trace(state, seq![event] + later, max_retries)) == if spec_process_message(
            state,
            event,
            max_retries,
        ).1 is Publish {
            1nat
        } else {
            0nat
        },
{
    let events = seq![event] + later;
    assert(events.drop_first() =~= later);
    assert(events[0] == event);
    let step = spec_process_message(state, event, max_retries);
    lemma_nothing_published_once_decided(step.0, later, max_retries);
    lemma_publishes_of_cons(step.1, process_trace(step.0, later, max_retries));
}

/// Whatever happens to a delivery, at most one copy of its message is
/// published.
pub proof fn lemma_at_most_one_copy(state: ProcessState, events: Seq<ProcessEvent>, max_retries: u32)
    ensures
        publishes(process_trace(state, events, max_retries)) <= 1,
    decreases events.len(),
{
    if events.len() > 0 {
        let step = spec_process_message(state, events[0], max_retries);
        let rest = events.drop_first();
        lemma_publishes_of_cons(step.1, process_trace(step.0, rest, max_retries));
        if step.1 is Publish {
            lemma_nothing_published_once_decided(step.0, rest, max_retries);
        } else {
            lemma_at_most_one_copy(step.0, rest, max_retries);
        }
    }
}

/// A message that fails transiently with its retries used up is dropped:
/// processing ends, the delivery is acknowledged, and no copy is published,
/// then or later.
pub proof fn lemma_exhausted_message_is_discarded(
    attempted: WebhookQueueMessage,
    max_retries: u32,
    later: Seq<ProcessEvent>,
)
    requires
        attempted.retry_count >= max_retries,
    ensures
        spec_process_message(
            ProcessState::Dispatching,
            ProcessEvent::Dispatched { attempted, outcome: DispatchResult::RetryableError },
            max_retries,
        ) == finished(TaskResultView::Completed),
        spec_handle_result(TaskResultView::Completed) == Disposition::Ack,
        publishes(
            process_trace(
                ProcessState::Dispatching,
                seq![
                    ProcessEvent::Dispatched { attempted, outcome: DispatchResult::RetryableError },
                ] + later,
                max_retries,
            ),
        ) == 0,
{
    let event = ProcessEvent::Dispatched { attempted, outcome: DispatchResult::RetryableError };
    lemma_decided_by_first_event(ProcessState::Dispatching, event, later, max_retries);
}

/// A message that fails transiently with retries left is queued again: one
/// copy goes to the retry queue, the same message with its count of
/// attempts raised by exactly one; when the copy is published the delivery
/// is acknowledged; and whatever happens later, that copy stays the only one.
pub proof fn lemma_retry_publishes_one_copy(
    attempted: WebhookQueueMessage,
    max_retries: u32,
    later: Seq<ProcessEvent>,
)
    requires
        attempted.retry_count < max_retries,
    ensures
        spec_process_message(
            ProcessState::Dispatching,
            ProcessEvent::Dispatched { attempted, outcome: DispatchResult::RetryableError },
            max_retries,
        ) == (
            ProcessState::Publishing,
            ProcessActionView::Publish { queue: RETRY_QUEUE_NAME@, copy: retry_copy(attempted@) },
        ),
        retry_copy(attempted@).retry_count == attempted.retry_count + 1,
        retry_copy(attempted@) == (QueueMessageView {
            retry_count: retry_copy(attempted@).retry_count,
            ..attempted@
        }),
        spec_process_message(ProcessState::Publishing, ProcessEvent::Published, max_retries)
            == finished(TaskResultView::Completed),
        spec_handle_result(TaskResultView::Completed) == Disposition::Ack,
        publishes(
            process_trace(
                ProcessState::Dispatching,
                seq![
                    ProcessEvent::Dispatched { attempted, outcome: DispatchResult::RetryableError },
                ] + later,
                max_retries,
            ),
        ) == 1,
{
    let event = ProcessEvent::Dispatched { attempted, outcome: DispatchResult::RetryableError };
    lemma_decided_by_first_event(ProcessState::Dispatching, event, later, max_retries);
}

/// A message that succeeds or fails for good is never queued again,
/// however few attempts it has had.
pub proof fn lemma_terminal_outcome_is_not_retried(
    attempted: WebhookQueueMessage,
    outcome: DispatchResult,
    max_retries: u32,
    later: Seq<ProcessEvent>,
)
    requires
        outcome != DispatchResult::RetryableError,
    ensures
        spec_process_message(
            ProcessState::Dispatching,
            ProcessEvent::Dispatched { attempted, outcome },
            max_retries,
        ) == finished(TaskResultView::Completed),
        publishes(
            process_trace(
                ProcessState::Dispatching,
                seq![ProcessEvent::Dispatched { attempted, outcome }] + later,
                max_retries,
            ),
        ) == 0,
{
    let event = ProcessEvent::Dispatched { attempted, outcome };
    lemma_decided_by_first_event(ProcessState::Dispatching, event, later, max_retries);
}

/// A body that is no message is dropped: processing ends at once, the
/// delivery is acknowledged, nothing is ever published for it, and the
/// consumer loop goes on as before with one task fewer.
pub proof fn lemma_malformed_body_is_dropped(
    max_retries: u32,
    later: Seq<ProcessEvent>,
    state: ConsumerLoop,
    result: TaskResult,
)
    requires
        result@ == TaskResultView::Completed,
    ensures
        spec_process_message(ProcessState::Created, ProcessEvent::Malformed, max_retries)
            == finished(TaskResultView::Completed),
        publishes(
            process_trace(ProcessState::Created, seq![ProcessEvent::Malformed] + later, max_retries),
        ) == 0,
        state.phase == Phase::Accepting ==> spec_run_inner(
            state,
            LoopEvent::TaskFinished { result },
        ) == (state.reaped(), LoopAction::Settle { disposition: Disposition::Ack }),
        state.phase == Phase::Accepting ==> state.reaped().phase == Phase::Accepting,
{
    lemma_decided_by_first_event(ProcessState::Created, ProcessEvent::Malformed, later, max_retries);
}

/// No event raises the number of running tasks above the limit, and none
/// changes the limit.
pub proof fn lemma_step_keeps_limit(state: ConsumerLoop, event: LoopEvent)
    requires
        state.wf(),
    ensures
        spec_run_inner(state, event).0.wf(),
        spec_run_inner(state, event).0.max_concurrent == state.max_concurrent,
        spec_run_inner(state, event).1 == LoopAction::Spawn ==> state.in_flight
            < state.max_concurrent,
{
}

/// At every instant the number of running tasks is at most the configured
/// limit: after any events whatever, beginning with a loop that keeps it.
pub proof fn lemma_concurrency_never_exceeds_limit(state: ConsumerLoop, events: Seq<LoopEvent>)
    requires
        state.wf(),
    ensures
        loop_after(state, events).wf(),
        loop_after(state, events).in_flight <= state.max_concurrent,
        loop_after(state, events).max_concurrent == state.max_concurrent,
    decreases events.len(),
{
    if events.len() > 0 {
        lemma_step_keeps_limit(state, events[0]);
        lemma_concurrency_never_exceeds_limit(
            spec_run_inner(state, events[0]).0,
            events.drop_first(),
        );
    }
}

/// The number of tasks whose end the loop settles in answer to `events`,
/// beginning in `state`.
pub open spec fn settled(state: ConsumerLoop, events: Seq<LoopEvent>) -> nat
    decreases events.len(),
{
    if events.len() == 0 {
        0
    } else {
        let step = spec_run_inner(state, events[0]);
        let rest = settled(step.0, events.drop_first());
        if step.1 is Settle {
            rest + 1
        } else {
            rest
        }
    }
}

/// `count` tasks end, one after the other, each with the result `result`.
pub open spec fn task_ends(result: TaskResult, count: nat) -> Seq<LoopEvent> {
    Seq::new(count, |i: int| LoopEvent::TaskFinished { result })
}

/// No running task is given up: while tasks run, the loop listens for
/// their end, whether it still takes deliveries, is shut down, or has seen
/// the delivery stream fail; and the end of a task is always settled.
pub proof fn lemma_running_tasks_are_awaited(state: ConsumerLoop, result: TaskResult)
    requires
        state.in_flight > 0,
        state.phase == Phase::Accepting || state.phase == Phase::Draining || state.phase
            == Phase::Failing,
    ensures
        state.spec_polls().tasks,
        spec_run_inner(state, LoopEvent::TaskFinished { result }) == (
            state.reaped(),
            LoopAction::Settle { disposition: spec_handle_result(result@) },
        ),
        state.reaped().in_flight == state.in_flight - 1,
        state.in_flight > 1 ==> state.reaped().phase == state.phase,
{
}

/// An error of the delivery stream cancels nothing. With tasks running the
/// loop stops taking deliveries and goes on listening for the tasks; the
/// end of every one of them is settled; and only with the last one is the
/// loop over, as broken.
pub proof fn lemma_stream_error_lets_tasks_finish(state: ConsumerLoop, result: TaskResult)
    requires
        state.phase == Phase::Accepting,
        state.in_flight > 0,
    ensures
        spec_run_inner(state, LoopEvent::StreamFailed).0 == (ConsumerLoop {
            phase: Phase::Failing,
            ..state
        }),
        spec_run_inner(state, LoopEvent::StreamFailed).0.spec_polls() == (Polls {
            shutdown: false,
            tasks: true,
            deliveries: false,
        }),
        settled(
            spec_run_inner(state, LoopEvent::StreamFailed).0,
            task_ends(result, state.in_flight as nat),
        ) == state.in_flight,
        loop_after(
            spec_run_inner(state, LoopEvent::StreamFailed).0,
            task_ends(result, state.in_flight as nat),
        ) == (ConsumerLoop { phase: Phase::Broken, in_flight: 0, ..state }),
{
    lemma_tasks_drain(spec_run_inner(state, LoopEvent::StreamFailed).0, result);
}

/// A loop that awaits its tasks settles the end of each and is over with
/// the last: done after a shutdown, broken after an error of the stream.
pub proof fn lemma_tasks_drain(state: ConsumerLoop, result: TaskResult)
    requires
        state.phase == Phase::Draining || state.phase == Phase::Failing,
        state.in_flight > 0,
    ensures
        settled(state, task_ends(result, state.in_flight as nat)) == state.in_flight,
        loop_after(state, task_ends(result, state.in_flight as nat)) == (ConsumerLoop {
            phase: if state.phase == Phase::Draining {
                Phase::Done
            } else {
                Phase::Broken
            },
            in_flight: 0,
            ..state
        }),
    decreases state.in_flight,
{
    let events = task_ends(result, state.in_flight as nat);
    let rest = task_ends(result, (state.in_flight - 1) as nat);
    assert(events[0] == LoopEvent::TaskFinished { result });
    assert(events.drop_first() =~= rest);
    let step = spec_run_inner(state, events[0]);
    assert(step.0 == state.reaped());
    assert(step.1 is Settle);
    if state.in_flight > 1 {
        lemma_tasks_drain(step.0, result);
    } else {
        assert(settled(step.0, rest) == 0);
        assert(loop_after(step.0, rest) == step.0);
    }
}

} // verus!

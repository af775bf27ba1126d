//! The worker's state and the dispatch of each power message to the handler.
use vstd::prelude::*;

use crate::message::{decode, decoded, PowerMessage, CAN_SYSTEM_SLEEP};
use crate::{Error, EventHandler, SleepQueryResponse, registration_failure_text};

verus! {

/// Where the worker stands in its life.
#[derive(Debug, Clone, Copy, PartialEq, Eq, Structural)]
pub enum WorkerPhase {
    /// Not yet registered for power notifications.
    Registering,
    /// Registered; the event loop delivers messages.
    Running,
    /// The event loop has stopped, or registration failed: no message reaches
    /// the handler any more.
    Stopped,
}

/// One call of a handler method, with the answer of a sleep query.
#[derive(Debug, Clone, Copy, PartialEq, Eq, Structural)]
pub enum HandlerCall {
    SleepQuery(SleepQueryResponse),
    SleepFailed,
    Sleep,
    Wake,
}

/// A handler method, regardless of what it answered.
#[derive(Debug, Clone, Copy, PartialEq, Eq, Structural)]
pub enum HandlerMethod {
    SleepQuery,
    SleepFailed,
    Sleep,
    Wake,
}

/// How a power change is answered.
#[derive(Debug, Clone, Copy, PartialEq, Eq, Structural)]
pub enum AckKind {
    /// The change may proceed.
    Allow,
    /// The change is vetoed.
    Cancel,
}

/// An answer owed to the system: its kind, the connection it goes through and
/// the argument token of the message it answers.
#[derive(Debug, Clone, Copy, PartialEq, Eq, Structural)]
pub struct Acknowledgement {
    pub kind: AckKind,
    pub port: u32,
    pub argument: usize,
}

/// The method that a call went to.
pub open spec fn method_of(call: HandlerCall) -> HandlerMethod {
    match call {
        HandlerCall::SleepQuery(_) => HandlerMethod::SleepQuery,
        HandlerCall::SleepFailed => HandlerMethod::SleepFailed,
        HandlerCall::Sleep => HandlerMethod::Sleep,
        HandlerCall::Wake => HandlerMethod::Wake,
    }
}

/// The methods of a log of calls, in order.
pub open spec fn methods(calls: Seq<HandlerCall>) -> Seq<HandlerMethod>
    decreases calls.len(),
{
    if calls.len() == 0 {
        seq![]
    } else {
        methods(calls.drop_last()).push(method_of(calls.last()))
    }
}

/// The acknowledgement kind that answers a sleep query.
pub open spec fn answer_kind(response: SleepQueryResponse) -> AckKind {
    match response {
        SleepQueryResponse::Allow => AckKind::Allow,
        SleepQueryResponse::Deny => AckKind::Cancel,
    }
}

/// The handler calls that `msg` makes, where a sleep query is answered with
/// `response`, and the acknowledgement it owes through connection `port`.
pub open spec fn dispatch_outcome(
    msg: PowerMessage,
    response: SleepQueryResponse,
    port: u32,
    argument: usize,
) -> (Seq<HandlerCall>, Option<Acknowledgement>) {
    match msg {
        PowerMessage::CanSystemSleep => (
            seq![HandlerCall::SleepQuery(response)],
            Some(Acknowledgement { kind: answer_kind(response), port, argument }),
        ),
        PowerMessage::SystemWillSleep => (
            seq![HandlerCall::Sleep],
            Some(Acknowledgement { kind: AckKind::Allow, port, argument }),
        ),
        PowerMessage::SystemWillNotSleep => (seq![HandlerCall::SleepFailed], None),
        PowerMessage::SystemWillPowerOn => (seq![], None),
        PowerMessage::SystemHasPoweredOn => (seq![HandlerCall::Wake], None),
        PowerMessage::Other(_) => (seq![], None),
    }
}

/// The handler methods that the message `msg` calls, in order.
pub open spec fn expected_methods(msg: PowerMessage) -> Seq<HandlerMethod> {
    match msg {
        PowerMessage::CanSystemSleep => seq![HandlerMethod::SleepQuery],
        PowerMessage::SystemWillSleep => seq![HandlerMethod::Sleep],
        PowerMessage::SystemWillNotSleep => seq![HandlerMethod::SleepFailed],
        PowerMessage::SystemWillPowerOn => seq![],
        PowerMessage::SystemHasPoweredOn => seq![HandlerMethod::Wake],
        PowerMessage::Other(_) => seq![],
    }
}

/// The handler methods that the codes `message_types` call, delivered in order.
pub open spec fn expected_methods_of_all(message_types: Seq<u32>) -> Seq<HandlerMethod>
    decreases message_types.len(),
{
    if message_types.len() == 0 {
        seq![]
    } else {
        expected_methods_of_all(message_types.drop_last()) + expected_methods(
            decoded(message_types.last()),
        )
    }
}

/// What one dispatch of `message_type` with `argument` does, on a worker in
/// `phase` whose connection is `port`: the log of handler calls goes from
/// `before` to `after`, and `r` is the acknowledgement owed. A running worker
/// makes the calls of the decoded message and owes its acknowledgement; any
/// other makes no call and owes nothing.
pub open spec fn dispatched(
    phase: WorkerPhase,
    port: u32,
    before: Seq<HandlerCall>,
    after: Seq<HandlerCall>,
    message_type: u32,
    argument: usize,
    r: Option<Acknowledgement>,
) -> bool {
    if phase == WorkerPhase::Running {
        exists|response: SleepQueryResponse|
            {
                let outcome = #[trigger] dispatch_outcome(
                    decoded(message_type),
                    response,
                    port,
                    argument,
                );
                &&& after == before + outcome.0
                &&& r == outcome.1
            }
    } else {
        after == before && r is None
    }
}

proof fn lemma_methods_push(calls: Seq<HandlerCall>, call: HandlerCall)
    ensures
        methods(calls.push(call)) == methods(calls).push(method_of(call)),
{
    assert(calls.push(call).drop_last() =~= calls);
}

/// One dispatch on a running worker logs exactly the methods of the decoded
/// message after those logged before.
proof fn lemma_dispatch_methods(
    port: u32,
    before: Seq<HandlerCall>,
    after: Seq<HandlerCall>,
    message_type: u32,
    argument: usize,
    r: Option<Acknowledgement>,
)
    requires
        dispatched(WorkerPhase::Running, port, before, after, message_type, argument, r),
    ensures
        methods(after) == methods(before) + expected_methods(decoded(message_type)),
{
    let response = choose|response: SleepQueryResponse|
        {
            let outcome = #[trigger] dispatch_outcome(
                decoded(message_type),
                response,
                port,
                argument,
            );
            &&& after == before + outcome.0
            &&& r == outcome.1
        };
    let added = dispatch_outcome(decoded(message_type), response, port, argument).0;
    if added.len() == 0 {
        assert(after =~= before);
        assert(methods(after) =~= methods(before) + expected_methods(decoded(message_type)));
    } else {
        assert(after =~= before.push(added[0]));
        lemma_methods_push(before, added[0]);
        assert(methods(after) =~= methods(before) + expected_methods(decoded(message_type)));
    }
}

/// Messages delivered one after another to a running worker call, for each
/// message, exactly the handler method that its code stands for (none for a
/// coming power-on or an unknown code), one call at a time and in the order
/// of delivery. `logs[i]` is the log of calls before the `i`-th delivery.
pub proof fn lemma_calls_follow_deliveries(
    port: u32,
    logs: Seq<Seq<HandlerCall>>,
    message_types: Seq<u32>,
    arguments: Seq<usize>,
    acks: Seq<Option<Acknowledgement>>,
)
    requires
        logs.len() == message_types.len() + 1,
        arguments.len() == message_types.len(),
        acks.len() == message_types.len(),
        forall|i: int|
            0 <= i < message_types.len() ==> #[trigger] dispatched(
                WorkerPhase::Running,
                port,
                logs[i],
                logs[i + 1],
                message_types[i],
                arguments[i],
                acks[i],
            ),
    ensures
        methods(logs.last()) == methods(logs[0]) + expected_methods_of_all(message_types),
    decreases message_types.len(),
{
    let n = message_types.len() as int;
    if n == 0 {
        assert(methods(logs[0]) + expected_methods_of_all(message_types) =~= methods(logs[0]));
    } else {
        let logs_before = logs.drop_last();
        let types_before = message_types.drop_last();
        assert forall|i: int| 0 <= i < types_before.len() implies #[trigger] dispatched(
            WorkerPhase::Running,
            port,
            logs_before[i],
            logs_before[i + 1],
            types_before[i],
            arguments.drop_last()[i],
            acks.drop_last()[i],
        ) by {
            assert(dispatched(
                WorkerPhase::Running,
                port,
                logs[i],
                logs[i + 1],
                message_types[i],
                arguments[i],
                acks[i],
            ));
        }
        lemma_calls_follow_deliveries(
            port,
            logs_before,
            types_before,
            arguments.drop_last(),
            acks.drop_last(),
        );
        assert(dispatched(
            WorkerPhase::Running,
            port,
            logs[n - 1],
            logs[n],
            message_types[n - 1],
            arguments[n - 1],
            acks[n - 1],
        ));
        lemma_dispatch_methods(
            port,
            logs[n - 1],
            logs[n],
            message_types[n - 1],
            arguments[n - 1],
            acks[n - 1],
        );
        assert(methods(logs.last()) =~= methods(logs[0]) + expected_methods_of_all(
            message_types,
        ));
    }
}

/// A sleep query on a running worker asks the handler once; the answer goes
/// back through the worker's connection with the message's own argument, as a
/// cancellation where the handler denied and as an acknowledgement where it
/// allowed.
pub proof fn lemma_query_answered(
    port: u32,
    before: Seq<HandlerCall>,
    after: Seq<HandlerCall>,
    argument: usize,
    r: Option<Acknowledgement>,
)
    requires
        dispatched(WorkerPhase::Running, port, before, after, CAN_SYSTEM_SLEEP, argument, r),
    ensures
        after.len() == before.len() + 1,
        after.drop_last() == before,
        after.last() == HandlerCall::SleepQuery(SleepQueryResponse::Deny) ==> r == Some(
            Acknowledgement { kind: AckKind::Cancel, port, argument },
        ),
        after.last() == HandlerCall::SleepQuery(SleepQueryResponse::Allow) ==> r == Some(
            Acknowledgement { kind: AckKind::Allow, port, argument },
        ),
{
    let response = choose|response: SleepQueryResponse|
        {
            let outcome = #[trigger] dispatch_outcome(
                decoded(CAN_SYSTEM_SLEEP),
                response,
                port,
                argument,
            );
            &&& after == before + outcome.0
            &&& r == outcome.1
        };
    assert(after =~= before.push(HandlerCall::SleepQuery(response)));
    assert(after.drop_last() =~= before);
}

/// Once the worker has stopped, no delivery reaches the handler and none is
/// answered, however many the system still attempts. `logs[i]` is the log of
/// calls before the `i`-th attempt.
pub proof fn lemma_silent_after_stop(
    port: u32,
    logs: Seq<Seq<HandlerCall>>,
    message_types: Seq<u32>,
    arguments: Seq<usize>,
    acks: Seq<Option<Acknowledgement>>,
)
    requires
        logs.len() == message_types.len() + 1,
        arguments.len() == message_types.len(),
        acks.len() == message_types.len(),
        forall|i: int|
            0 <= i < message_types.len() ==> #[trigger] dispatched(
                WorkerPhase::Stopped,
                port,
                logs[i],
                logs[i + 1],
                message_types[i],
                arguments[i],
                acks[i],
            ),
    ensures
        logs.last() == logs[0],
        forall|i: int| 0 <= i < acks.len() ==> acks[i] is None,
    decreases message_types.len(),
{
    let n = message_types.len() as int;
    if n > 0 {
        assert forall|i: int| 0 <= i < n - 1 implies #[trigger] dispatched(
            WorkerPhase::Stopped,
            port,
            logs.drop_last()[i],
            logs.drop_last()[i + 1],
            message_types.drop_last()[i],
            arguments.drop_last()[i],
            acks.drop_last()[i],
        ) by {
            assert(dispatched(
                WorkerPhase::Stopped,
                port,
                logs[i],
                logs[i + 1],
                message_types[i],
                arguments[i],
                acks[i],
            ));
        }
        lemma_silent_after_stop(
            port,
            logs.drop_last(),
            message_types.drop_last(),
            arguments.drop_last(),
            acks.drop_last(),
        );
        assert(dispatched(
            WorkerPhase::Stopped,
            port,
            logs[n - 1],
            logs[n],
            message_types[n - 1],
            arguments[n - 1],
            acks[n - 1],
        ));
        assert forall|i: int| 0 <= i < acks.len() implies acks[i] is None by {
            if i < n - 1 {
                assert(acks.drop_last()[i] is None);
            }
        }
    }
}

/// A step that the worker performs on its own event loop and on the system.
#[derive(Debug, Clone, Copy, PartialEq, Eq, Structural)]
pub enum WorkerStep {
    /// Take a reference on the worker's event loop.
    Retain(usize),
    /// Register for power notifications.
    Register,
    /// Send the startup report to the owner.
    Report,
    /// Meet the owner at the rendezvous.
    Rendezvous,
    /// Add the notification source to the event loop.
    AddSource,
    /// Drive the event loop until it is asked to stop.
    Run,
    /// Take the notification source off the event loop.
    RemoveSource,
    /// Deregister from power notifications.
    Deregister,
    /// Close the connection returned by registration.
    Close(u32),
    /// Destroy the notification port.
    DestroyPort,
    /// Give back the reference taken on the event loop.
    Release(usize),
}

/// The worker's first steps on its event loop `run_loop`.
pub open spec fn opening_steps(run_loop: usize) -> Seq<WorkerStep> {
    seq![WorkerStep::Retain(run_loop), WorkerStep::Register]
}

/// The worker's steps once registration returned the connection `root_port`:
/// on failure (zero) it gives its reference back, reports and ends without
/// meeting the owner; on success it reports, meets the owner and then drives
/// the event loop with the notification source on it.
pub open spec fn registration_steps(root_port: u32, run_loop: usize) -> Seq<WorkerStep> {
    if root_port == 0 {
        seq![WorkerStep::Release(run_loop), WorkerStep::Report]
    } else {
        seq![WorkerStep::Report, WorkerStep::Rendezvous, WorkerStep::AddSource, WorkerStep::Run]
    }
}

/// The worker's steps after its event loop stopped: undo the registration in
/// order and give back the reference on the loop last.
pub open spec fn closing_steps(root_port: u32, run_loop: usize) -> Seq<WorkerStep> {
    seq![
        WorkerStep::RemoveSource,
        WorkerStep::Deregister,
        WorkerStep::Close(root_port),
        WorkerStep::DestroyPort,
        WorkerStep::Release(run_loop),
    ]
}

/// All the steps of a worker on `run_loop` whose registration returned
/// `root_port`, from its start to its end.
pub open spec fn worker_life(root_port: u32, run_loop: usize) -> Seq<WorkerStep> {
    if root_port == 0 {
        opening_steps(run_loop) + registration_steps(root_port, run_loop)
    } else {
        opening_steps(run_loop) + registration_steps(root_port, run_loop) + closing_steps(
            root_port,
            run_loop,
        )
    }
}

/// Over its whole life a worker takes exactly one reference on its event
/// loop, as its first step, and gives exactly one back, after it; when it
/// ran, the release is its last step. A worker whose registration failed
/// neither meets the owner nor drives its loop.
pub proof fn lemma_worker_balanced(root_port: u32, run_loop: usize)
    ensures
        ({
            let all = worker_life(root_port, run_loop);
            &&& forall|i: int| 0 <= i < all.len() ==> (#[trigger] all[i] is Retain <==> i == 0)
            &&& all[0] == WorkerStep::Retain(run_loop)
            &&& exists|k: int|
                0 < k < all.len() && #[trigger] all[k] == WorkerStep::Release(run_loop) && forall|
                    i: int,
                | 0 <= i < all.len() ==> (all[i] is Release <==> i == k)
            &&& root_port != 0 ==> all.last() == WorkerStep::Release(run_loop)
            &&& root_port == 0 ==> forall|i: int|
                0 <= i < all.len() ==> !(all[i] is Rendezvous) && !(all[i] is Run)
        }),
{
    let all = worker_life(root_port, run_loop);
    if root_port == 0 {
        assert(all =~= seq![
            WorkerStep::Retain(run_loop),
            WorkerStep::Register,
            WorkerStep::Release(run_loop),
            WorkerStep::Report,
        ]);
        assert(all[2] == WorkerStep::Release(run_loop));
    } else {
        assert(all =~= seq![
            WorkerStep::Retain(run_loop),
            WorkerStep::Register,
            WorkerStep::Report,
            WorkerStep::Rendezvous,
            WorkerStep::AddSource,
            WorkerStep::Run,
            WorkerStep::RemoveSource,
            WorkerStep::Deregister,
            WorkerStep::Close(root_port),
            WorkerStep::DestroyPort,
            WorkerStep::Release(run_loop),
        ]);
        assert(all[10] == WorkerStep::Release(run_loop));
    }
}

/// The state that the worker owns: the handler, its event loop, the
/// connection returned by registration, and where the worker stands.
pub struct WorkerState<E> {
    handler: E,
    run_loop: usize,
    root_port: u32,
    phase: WorkerPhase,
    calls: Ghost<Seq<HandlerCall>>,
}

impl<E: EventHandler> WorkerState<E> {
    /// The connection through which power changes are acknowledged.
    pub closed spec fn port(&self) -> u32 {
        self.root_port
    }

    /// The worker's event loop.
    pub closed spec fn event_loop(&self) -> usize {
        self.run_loop
    }

    /// Where the worker stands.
    pub closed spec fn stage(&self) -> WorkerPhase {
        self.phase
    }

    /// Every handler call made through this state so far, in order.
    pub closed spec fn calls(&self) -> Seq<HandlerCall> {
        self.calls@
    }

    /// The handler.
    pub closed spec fn the_handler(&self) -> E {
        self.handler
    }

    /// A worker state on the event loop `run_loop` that holds `handler`, not
    /// yet registered, and the worker's first steps.
    pub fn new(handler: E, run_loop: usize) -> (r: (WorkerState<E>, Vec<WorkerStep>))
        ensures
            r.0.stage() == WorkerPhase::Registering,
            r.0.port() == 0,
            r.0.event_loop() == run_loop,
            r.0.calls() == Seq::<HandlerCall>::empty(),
            r.0.the_handler() == handler,
            r.1@ == opening_steps(run_loop),
    {
        let steps = vec![WorkerStep::Retain(run_loop), WorkerStep::Register];
        assert(steps@ =~= opening_steps(run_loop));
        let state = WorkerState {
            handler,
            run_loop,
            root_port: 0,
            phase: WorkerPhase::Registering,
            calls: Ghost(Seq::empty()),
        };
        (state, steps)
    }

    /// Takes in the connection that registration for power notifications
    /// returned; zero means that registration failed. On success the worker
    /// runs and reports its event loop to the owner; on failure it stops and
    /// reports the error. Returns the report and the worker's next steps.
    pub fn registered(&mut self, root_port: u32) -> (r: (Result<usize, Error>, Vec<WorkerStep>))
        requires
            old(self).stage() == WorkerPhase::Registering,
        ensures
            final(self).calls() == old(self).calls(),
            final(self).the_handler() == old(self).the_handler(),
            final(self).event_loop() == old(self).event_loop(),
            r.1@ == registration_steps(root_port, old(self).event_loop()),
            root_port != 0 ==> {
                &&& r.0 == Ok::<usize, Error>(old(self).event_loop())
                &&& final(self).stage() == WorkerPhase::Running
                &&& final(self).port() == root_port
            },
            root_port == 0 ==> {
                &&& r.0 matches Err(e) && e.view_message() == registration_failure_text(root_port)
                &&& final(self).stage() == WorkerPhase::Stopped
                &&& final(self).port() == old(self).port()
            },
    {
        let run_loop = self.run_loop;
        if root_port == 0 {
            self.phase = WorkerPhase::Stopped;
            let steps = vec![WorkerStep::Release(run_loop), WorkerStep::Report];
            assert(steps@ =~= registration_steps(root_port, run_loop));
            (Err(Error::registration_failed(root_port)), steps)
        } else {
            self.root_port = root_port;
            self.phase = WorkerPhase::Running;
            let steps = vec![
                WorkerStep::Report,
                WorkerStep::Rendezvous,
                WorkerStep::AddSource,
                WorkerStep::Run,
            ];
            assert(steps@ =~= registration_steps(root_port, run_loop));
            (Ok(run_loop), steps)
        }
    }

    /// The event loop has stopped: no later message reaches the handler.
    /// Returns the worker's closing steps if it was running, and none
    /// otherwise, so that nothing is undone twice.
    pub fn stop(&mut self) -> (r: Vec<WorkerStep>)
        ensures
            final(self).stage() == WorkerPhase::Stopped,
            final(self).port() == old(self).port(),
            final(self).event_loop() == old(self).event_loop(),
            final(self).calls() == old(self).calls(),
            final(self).the_handler() == old(self).the_handler(),
            old(self).stage() == WorkerPhase::Running ==> r@ == closing_steps(
                old(self).port(),
                old(self).event_loop(),
            ),
            old(self).stage() != WorkerPhase::Running ==> r@ == Seq::<WorkerStep>::empty(),
    {
        let mut steps: Vec<WorkerStep> = Vec::new();
        if self.phase == WorkerPhase::Running {
            steps = vec![
                WorkerStep::RemoveSource,
                WorkerStep::Deregister,
                WorkerStep::Close(self.root_port),
                WorkerStep::DestroyPort,
                WorkerStep::Release(self.run_loop),
            ];
            assert(steps@ =~= closing_steps(self.root_port, self.run_loop));
        }
        self.phase = WorkerPhase::Stopped;
        steps
    }

    /// Delivers the message `message_type` with its argument token `argument`:
    /// calls the handler method the message stands for and returns the
    /// acknowledgement owed to the system, if any. A sleep query that the
    /// handler allows is acknowledged, one that it denies is cancelled; a
    /// coming sleep is acknowledged after the handler hears of it.
    pub fn dispatch(&mut self, message_type: u32, argument: usize) -> (r: Option<Acknowledgement>)
        ensures
            final(self).port() == old(self).port(),
            final(self).stage() == old(self).stage(),
            dispatched(
                old(self).stage(),
                old(self).port(),
                old(self).calls(),
                final(self).calls(),
                message_type,
                argument,
                r,
            ),
    {
        if self.phase != WorkerPhase::Running {
            return None;
        }
        let port = self.root_port;
        let msg = decode(message_type);
        let ghost before = self.calls@;
        match msg {
            PowerMessage::CanSystemSleep => {
                let response = self.handler.sleep_query();
                self.calls = Ghost(self.calls@.push(HandlerCall::SleepQuery(response)));
                let kind = match response {
                    SleepQueryResponse::Allow => AckKind::Allow,
                    SleepQueryResponse::Deny => AckKind::Cancel,
                };
                let r = Some(Acknowledgement { kind, port, argument });
                assert(self.calls@ =~= before + dispatch_outcome(msg, response, port, argument).0);
                r
            },
            PowerMessage::SystemWillSleep => {
                self.handler.sleep();
                self.calls = Ghost(self.calls@.push(HandlerCall::Sleep));
                assert(self.calls@ =~= before + dispatch_outcome(
                    msg,
                    SleepQueryResponse::Allow,
                    port,
                    argument,
                ).0);
                Some(Acknowledgement { kind: AckKind::Allow, port, argument })
            },
            PowerMessage::SystemWillNotSleep => {
                self.handler.sleep_failed();
                self.calls = Ghost(self.calls@.push(HandlerCall::SleepFailed));
                assert(self.calls@ =~= before + dispatch_outcome(
                    msg,
                    SleepQueryResponse::Allow,
                    port,
                    argument,
                ).0);
                None
            },
            PowerMessage::SystemHasPoweredOn => {
                self.handler.wake();
                self.calls = Ghost(self.calls@.push(HandlerCall::Wake));
                assert(self.calls@ =~= before + dispatch_outcome(
                    msg,
                    SleepQueryResponse::Allow,
                    port,
                    argument,
                ).0);
                None
            },
            _ => {
                assert(self.calls@ =~= before + dispatch_outcome(
                    msg,
                    SleepQueryResponse::Allow,
                    port,
                    argument,
                ).0);
                None
            },
        }
    }

    /// The handler.
    pub fn handler(&self) -> (r: &E)
        ensures
            *r == self.the_handler(),
    {
        &self.handler
    }

    /// The connection through which power changes are acknowledged.
    pub fn root_port(&self) -> (r: u32)
        ensures
            r == self.port(),
    {
        self.root_port
    }

    /// Where the worker stands.
    pub fn phase(&self) -> (r: WorkerPhase)
        ensures
            r == self.stage(),
    {
        self.phase
    }

    /// Gives the handler back, ending the worker state.
    pub fn into_handler(self) -> (r: E)
        ensures
            r == self.the_handler(),
    {
        self.handler
    }
}

} // verus!

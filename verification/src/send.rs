use vstd::prelude::*;
use crate::error::{MynewtError, MynewtResult};
use crate::payload::{
    EncodeOp, collector_message, collector_payload, ops_view, server_message, server_payload,
    well_formed_message,
};
use crate::sensor::{SensorValue, SensorValueType};

verus! {

/// Where a reading is sent: a sensor node sends it to its collector node
/// (CBOR over nRF24L01), a collector or standalone node to the CoAP server
/// (JSON over ESP8266).
#[derive(Clone, Copy, Debug, PartialEq, Eq, Structural)]
pub enum Destination {
    Collector,
    Server,
}

/// Why a send stops without an outcome: the conditions under which the
/// network task gives up (by panicking) rather than returning an error.
#[derive(Clone, Copy, Debug, PartialEq, Eq, Structural)]
pub enum Fault {
    /// A reading for the server has no value.
    MissingValue,
    /// The node id for the server is empty.
    EmptyNodeId,
    /// A reading for the collector is not an integer.
    ValueNotInteger,
    /// The operating system did not open the message for composing.
    PostNotOpened,
    /// The operating system did not accept the composed message.
    PostNotSent,
    /// An event arrived that does not answer the pending action.
    UnexpectedEvent,
}

/// How far a send has come.
#[derive(Clone, Copy, Debug, PartialEq, Eq)]
pub enum Phase {
    /// Waiting to learn whether this node sends to a collector.
    AwaitRoute,
    /// Waiting to learn whether the network is ready.
    AwaitNetwork(Destination),
    /// Waiting for the device id (server messages only).
    AwaitDeviceId,
    /// Waiting for the operating system to open a message for composing.
    AwaitPostOpen(Destination),
    /// Waiting for the operating system to take the composed message.
    AwaitPostDone(Destination),
    /// Done, with the result to report to the caller.
    Finished(MynewtResult<()>),
    /// Given up.
    Aborted(Fault),
}

/// What the caller must do next.
#[derive(Clone, Copy, Debug, PartialEq, Eq)]
pub enum Action {
    /// Ask the operating system whether this node sends to a collector
    /// (`should_send_to_collector`) and answer with `Event::Route`.
    QueryRoute,
    /// Read whether the network is ready and answer with
    /// `Event::NetworkReady`.
    QueryNetworkReady,
    /// Read the device id (`get_device_id`) and answer with
    /// `Event::DeviceId`.
    QueryDeviceId,
    /// Open a message to the destination (`init_collector_post` or
    /// `init_server_post`) and answer with `Event::PostOpened`.
    OpenPost(Destination),
    /// Compose the message with the calls of `SendTask::payload`, hand it to
    /// the operating system (`do_collector_post` or `do_server_post`) and
    /// answer with `Event::Posted`.
    Post(Destination),
    /// Return this result to the caller.
    Complete(MynewtResult<()>),
    /// Give up.
    Abort(Fault),
}

/// What the caller reports back after doing an action.
#[derive(Debug, PartialEq, Eq)]
pub enum Event {
    Route { to_collector: bool },
    NetworkReady { ready: bool },
    DeviceId { id: Vec<u8> },
    PostOpened { result: MynewtResult<bool> },
    Posted { result: MynewtResult<bool> },
}

/// The mathematical form of an event.
pub enum EventView {
    Route { to_collector: bool },
    NetworkReady { ready: bool },
    DeviceId { id: Seq<u8> },
    PostOpened { result: MynewtResult<bool> },
    Posted { result: MynewtResult<bool> },
}

impl View for Event {
    type V = EventView;

    open spec fn view(&self) -> EventView {
        match self {
            Event::Route { to_collector } => EventView::Route { to_collector: *to_collector },
            Event::NetworkReady { ready } => EventView::NetworkReady { ready: *ready },
            Event::DeviceId { id } => EventView::DeviceId { id: id@ },
            Event::PostOpened { result } => EventView::PostOpened { result: *result },
            Event::Posted { result } => EventView::Posted { result: *result },
        }
    }
}

/// The mathematical form of a send.
pub struct SendTaskView {
    pub key: Seq<u8>,
    pub val: SensorValueType,
    pub node_id: Seq<u8>,
    pub device_id: Seq<u8>,
    pub phase: Phase,
}

/// The send of one sensor reading, as a state machine: the caller performs
/// each action (the calls into the operating system) and reports what came
/// back as an event.
pub struct SendTask {
    sensor: SensorValue,
    node_id: Vec<u8>,
    device_id: Vec<u8>,
    phase: Phase,
}

impl View for SendTask {
    type V = SendTaskView;

    closed spec fn view(&self) -> SendTaskView {
        SendTaskView {
            key: self.sensor.key@,
            val: self.sensor.val,
            node_id: self.node_id@,
            device_id: self.device_id@,
            phase: self.phase,
        }
    }
}

/// The action that a phase waits on.
pub open spec fn action_of(p: Phase) -> Action {
    match p {
        Phase::AwaitRoute => Action::QueryRoute,
        Phase::AwaitNetwork(_) => Action::QueryNetworkReady,
        Phase::AwaitDeviceId => Action::QueryDeviceId,
        Phase::AwaitPostOpen(d) => Action::OpenPost(d),
        Phase::AwaitPostDone(d) => Action::Post(d),
        Phase::Finished(r) => Action::Complete(r),
        Phase::Aborted(f) => Action::Abort(f),
    }
}

/// Whether a phase ends the send.
pub open spec fn is_terminal(p: Phase) -> bool {
    p is Finished || p is Aborted
}

/// Whether a node id can be sent to the server: its first byte exists and
/// is not zero.
pub open spec fn node_id_usable(node_id: Seq<u8>) -> bool {
    node_id.len() > 0 && node_id[0] != 0u8
}

/// The phase after an event.
pub open spec fn next_phase(t: SendTaskView, e: EventView) -> Phase {
    match t.phase {
        Phase::AwaitRoute => match e {
            EventView::Route { to_collector } => if to_collector {
                Phase::AwaitNetwork(Destination::Collector)
            } else if t.val is Empty {
                Phase::Aborted(Fault::MissingValue)
            } else if !node_id_usable(t.node_id) {
                Phase::Aborted(Fault::EmptyNodeId)
            } else {
                Phase::AwaitNetwork(Destination::Server)
            },
            _ => Phase::Aborted(Fault::UnexpectedEvent),
        },
        Phase::AwaitNetwork(d) => match e {
            EventView::NetworkReady { ready } => if !ready {
                Phase::Finished(Err(MynewtError::SYS_EAGAIN))
            } else if d == Destination::Collector {
                Phase::AwaitPostOpen(Destination::Collector)
            } else {
                Phase::AwaitDeviceId
            },
            _ => Phase::Aborted(Fault::UnexpectedEvent),
        },
        Phase::AwaitDeviceId => match e {
            EventView::DeviceId { .. } => Phase::AwaitPostOpen(Destination::Server),
            _ => Phase::Aborted(Fault::UnexpectedEvent),
        },
        Phase::AwaitPostOpen(d) => match e {
            EventView::PostOpened { result } => match result {
                Err(err) => Phase::Finished(Err(err)),
                Ok(opened) => if !opened {
                    Phase::Aborted(Fault::PostNotOpened)
                } else if d == Destination::Collector && !(t.val is Uint) {
                    Phase::Aborted(Fault::ValueNotInteger)
                } else {
                    Phase::AwaitPostDone(d)
                },
            },
            _ => Phase::Aborted(Fault::UnexpectedEvent),
        },
        Phase::AwaitPostDone(d) => match e {
            EventView::Posted { result } => match result {
                Err(err) => Phase::Finished(Err(err)),
                Ok(sent) => if !sent {
                    Phase::Aborted(Fault::PostNotSent)
                } else {
                    Phase::Finished(Ok(()))
                },
            },
            _ => Phase::Aborted(Fault::UnexpectedEvent),
        },
        Phase::Finished(_) => t.phase,
        Phase::Aborted(_) => t.phase,
    }
}

/// The send after an event: the phase moves on, and the device id is
/// recorded when it arrives.
pub open spec fn transition(t: SendTaskView, e: EventView) -> SendTaskView {
    SendTaskView {
        key: t.key,
        val: t.val,
        node_id: t.node_id,
        device_id: match (t.phase, e) {
            (Phase::AwaitDeviceId, EventView::DeviceId { id }) => id,
            _ => t.device_id,
        },
        phase: next_phase(t, e),
    }
}

/// The message that a send composes when it reaches the post.
pub open spec fn message_of(t: SendTaskView) -> Option<Seq<crate::payload::Op>> {
    match t.phase {
        Phase::AwaitPostDone(Destination::Server) => Some(
            server_message(t.device_id, t.node_id, t.key, t.val),
        ),
        Phase::AwaitPostDone(Destination::Collector) => match t.val {
            SensorValueType::Uint(v) => Some(collector_message(t.key, v)),
            _ => None,
        },
        _ => None,
    }
}

/// What holds of every send: a reading on its way to the server has a value
/// and a usable node id, and a reading posted to the collector is an integer.
pub open spec fn send_invariant(t: SendTaskView) -> bool {
    &&& (t.phase == Phase::AwaitPostDone(Destination::Collector) ==> t.val is Uint)
    &&& ((t.phase == Phase::AwaitNetwork(Destination::Server) || t.phase == Phase::AwaitDeviceId
        || t.phase == Phase::AwaitPostOpen(Destination::Server) || t.phase == Phase::AwaitPostDone(
        Destination::Server,
    )) ==> !(t.val is Empty) && node_id_usable(t.node_id))
}

impl SendTask {
    #[verifier::type_invariant]
    spec fn keeps_invariant(self) -> bool {
        send_invariant(self@)
    }

    /// A send of `sensor` from the node `node_id` (the bytes of its name,
    /// without the closing zero), before anything is asked.
    pub fn new(sensor: SensorValue, node_id: Vec<u8>) -> (t: SendTask)
        ensures
            t@.key == sensor.key@,
            t@.val == sensor.val,
            t@.node_id == node_id@,
            t@.device_id == Seq::<u8>::empty(),
            t@.phase == Phase::AwaitRoute,
    {
        SendTask { sensor, node_id, device_id: Vec::new(), phase: Phase::AwaitRoute }
    }

    /// The phase the send is in.
    pub fn phase(&self) -> (p: Phase)
        ensures
            p == self@.phase,
    {
        self.phase
    }

    /// The action the send waits on.
    pub fn action(&self) -> (a: Action)
        ensures
            a == action_of(self@.phase),
    {
        match self.phase {
            Phase::AwaitRoute => Action::QueryRoute,
            Phase::AwaitNetwork(_) => Action::QueryNetworkReady,
            Phase::AwaitDeviceId => Action::QueryDeviceId,
            Phase::AwaitPostOpen(d) => Action::OpenPost(d),
            Phase::AwaitPostDone(d) => Action::Post(d),
            Phase::Finished(r) => Action::Complete(r),
            Phase::Aborted(f) => Action::Abort(f),
        }
    }

    fn next(&self, e: &Event) -> (p: Phase)
        ensures
            p == next_phase(self@, e@),
    {
        match self.phase {
            Phase::AwaitRoute => match e {
                Event::Route { to_collector } => if *to_collector {
                    Phase::AwaitNetwork(Destination::Collector)
                } else if matches!(self.sensor.val, SensorValueType::Empty) {
                    Phase::Aborted(Fault::MissingValue)
                } else if self.node_id.len() == 0 || self.node_id[0] == 0 {
                    Phase::Aborted(Fault::EmptyNodeId)
                } else {
                    Phase::AwaitNetwork(Destination::Server)
                },
                _ => Phase::Aborted(Fault::UnexpectedEvent),
            },
            Phase::AwaitNetwork(d) => match e {
                Event::NetworkReady { ready } => if !*ready {
                    Phase::Finished(Err(MynewtError::SYS_EAGAIN))
                } else if d == Destination::Collector {
                    Phase::AwaitPostOpen(Destination::Collector)
                } else {
                    Phase::AwaitDeviceId
                },
                _ => Phase::Aborted(Fault::UnexpectedEvent),
            },
            Phase::AwaitDeviceId => match e {
                Event::DeviceId { .. } => Phase::AwaitPostOpen(Destination::Server),
                _ => Phase::Aborted(Fault::UnexpectedEvent),
            },
            Phase::AwaitPostOpen(d) => match e {
                Event::PostOpened { result } => match result {
                    Err(err) => Phase::Finished(Err(*err)),
                    Ok(opened) => if !*opened {
                        Phase::Aborted(Fault::PostNotOpened)
                    } else if d == Destination::Collector && !matches!(
                        self.sensor.val,
                        SensorValueType::Uint(_)
                    ) {
                        Phase::Aborted(Fault::ValueNotInteger)
                    } else {
                        Phase::AwaitPostDone(d)
                    },
                },
                _ => Phase::Aborted(Fault::UnexpectedEvent),
            },
            Phase::AwaitPostDone(_) => match e {
                Event::Posted { result } => match result {
                    Err(err) => Phase::Finished(Err(*err)),
                    Ok(sent) => if !*sent {
                        Phase::Aborted(Fault::PostNotSent)
                    } else {
                        Phase::Finished(Ok(()))
                    },
                },
                _ => Phase::Aborted(Fault::UnexpectedEvent),
            },
            Phase::Finished(r) => Phase::Finished(r),
            Phase::Aborted(f) => Phase::Aborted(f),
        }
    }

    /// Moves the send on by the event that answers its pending action, and
    /// returns the next action.
    pub fn step(&mut self, e: Event) -> (a: Action)
        ensures
            final(self)@ == transition(old(self)@, e@),
            a == action_of(final(self)@.phase),
    {
        proof {
            use_type_invariant(&*self);
        }
        let p = self.next(&e);
        proof {
            law_invariant_kept(self@, e@);
        }
        if let Phase::AwaitDeviceId = self.phase {
            if let Event::DeviceId { id } = e {
                self.device_id = id;
            }
        }
        self.phase = p;
        self.action()
    }

    /// The encoder calls that compose the message, once the send has reached
    /// the post; `None` before that and after it.
    pub fn payload(&self) -> (r: Option<Vec<EncodeOp>>)
        ensures
            message_of(self@) is Some <==> r is Some,
            r matches Some(ops) ==> Some(ops_view(ops@)) == message_of(self@)
                && well_formed_message(ops_view(ops@)),
            r is Some <==> self@.phase is AwaitPostDone,
    {
        proof {
            use_type_invariant(self);
        }
        match self.phase {
            Phase::AwaitPostDone(Destination::Server) => Some(
                server_payload(self.device_id.as_slice(), self.node_id.as_slice(), &self.sensor),
            ),
            Phase::AwaitPostDone(Destination::Collector) => match self.sensor.val {
                SensorValueType::Uint(v) => Some(collector_payload(self.sensor.key.as_slice(), v)),
                _ => None,
            },
            _ => None,
        }
    }
}

/// Every event keeps what holds of every send.
pub proof fn law_invariant_kept(t: SendTaskView, e: EventView)
    requires
        send_invariant(t),
    ensures
        send_invariant(transition(t, e)),
{
}

/// No event changes the reading, its key or the node id; the device id
/// changes only when it arrives while the send waits for it.
pub proof fn law_event_keeps_reading(t: SendTaskView, e: EventView)
    ensures
        transition(t, e).key == t.key,
        transition(t, e).val == t.val,
        transition(t, e).node_id == t.node_id,
        !(t.phase == Phase::AwaitDeviceId && e is DeviceId) ==> transition(t, e).device_id
            == t.device_id,
        t.phase == Phase::AwaitDeviceId ==> (e matches EventView::DeviceId { id } ==> transition(
            t,
            e,
        ).device_id == id),
{
}

/// The answer to the route question: a sensor node goes on to the
/// collector; any other node goes on to the CoAP server, unless the reading
/// has no value or the node id is empty or starts with a zero byte.
pub proof fn law_route_answer(t: SendTaskView, to_collector: bool)
    requires
        t.phase == Phase::AwaitRoute,
    ensures
        ({
            let p = transition(t, EventView::Route { to_collector }).phase;
            &&& to_collector ==> p == Phase::AwaitNetwork(Destination::Collector)
            &&& (!to_collector && t.val == SensorValueType::Empty) ==> p == Phase::Aborted(
                Fault::MissingValue,
            )
            &&& (!to_collector && t.val != SensorValueType::Empty && (t.node_id.len() == 0
                || t.node_id[0] == 0u8)) ==> p == Phase::Aborted(Fault::EmptyNodeId)
            &&& (!to_collector && t.val != SensorValueType::Empty && t.node_id.len() > 0
                && t.node_id[0] != 0u8) ==> p == Phase::AwaitNetwork(Destination::Server)
        }),
{
}

/// The answer to the network question: not ready gives `SYS_EAGAIN`; ready
/// goes on to open the collector post, or to fetch the device id for the
/// server.
pub proof fn law_network_answer(t: SendTaskView, d: Destination, ready: bool)
    requires
        t.phase == Phase::AwaitNetwork(d),
    ensures
        ({
            let p = transition(t, EventView::NetworkReady { ready }).phase;
            &&& !ready ==> p == Phase::Finished(Err(MynewtError::SYS_EAGAIN))
            &&& (ready && d == Destination::Collector) ==> p == Phase::AwaitPostOpen(
                Destination::Collector,
            )
            &&& (ready && d == Destination::Server) ==> p == Phase::AwaitDeviceId
        }),
{
}

/// The device id goes on to open the server post, and is recorded.
pub proof fn law_device_id_answer(t: SendTaskView, id: Seq<u8>)
    requires
        t.phase == Phase::AwaitDeviceId,
    ensures
        transition(t, EventView::DeviceId { id }).phase == Phase::AwaitPostOpen(
            Destination::Server,
        ),
        transition(t, EventView::DeviceId { id }).device_id == id,
{
}

/// The answer to opening the post: an error is returned as it is; a refusal
/// gives up; an opened post goes on to compose and post, except that a
/// collector message needs an integer reading.
pub proof fn law_post_opened_answer(t: SendTaskView, d: Destination, result: MynewtResult<bool>)
    requires
        t.phase == Phase::AwaitPostOpen(d),
    ensures
        ({
            let p = transition(t, EventView::PostOpened { result }).phase;
            &&& (result matches Err(e) ==> p == Phase::Finished(Err(e)))
            &&& result == Ok::<bool, MynewtError>(false) ==> p == Phase::Aborted(Fault::PostNotOpened)
            &&& (result == Ok::<bool, MynewtError>(true) && d == Destination::Collector && !(
            t.val is Uint)) ==> p == Phase::Aborted(Fault::ValueNotInteger)
            &&& (result == Ok::<bool, MynewtError>(true) && d == Destination::Collector
                && t.val is Uint) ==> p == Phase::AwaitPostDone(Destination::Collector)
            &&& (result == Ok::<bool, MynewtError>(true) && d == Destination::Server) ==> p
                == Phase::AwaitPostDone(Destination::Server)
        }),
{
}

/// The answer to the post: an error is returned as it is; a refusal gives
/// up; a message taken for sending is a success.
pub proof fn law_posted_answer(t: SendTaskView, d: Destination, result: MynewtResult<bool>)
    requires
        t.phase == Phase::AwaitPostDone(d),
    ensures
        ({
            let p = transition(t, EventView::Posted { result }).phase;
            &&& (result matches Err(e) ==> p == Phase::Finished(Err(e)))
            &&& result == Ok::<bool, MynewtError>(false) ==> p == Phase::Aborted(Fault::PostNotSent)
            &&& result == Ok::<bool, MynewtError>(true) ==> p == Phase::Finished(Ok(()))
        }),
{
}

/// An event that does not answer the pending question gives up.
pub proof fn law_wrong_answer(t: SendTaskView, e: EventView)
    requires
        (t.phase == Phase::AwaitRoute && !(e is Route)) || (t.phase is AwaitNetwork && !(
        e is NetworkReady)) || (t.phase == Phase::AwaitDeviceId && !(e is DeviceId)) || (
        t.phase is AwaitPostOpen && !(e is PostOpened)) || (t.phase is AwaitPostDone && !(
        e is Posted)),
    ensures
        transition(t, e).phase == Phase::Aborted(Fault::UnexpectedEvent),
{
}

/// What the caller is asked to do in each phase.
pub proof fn law_action_table(d: Destination, r: MynewtResult<()>, f: Fault)
    ensures
        action_of(Phase::AwaitRoute) == Action::QueryRoute,
        action_of(Phase::AwaitNetwork(d)) == Action::QueryNetworkReady,
        action_of(Phase::AwaitDeviceId) == Action::QueryDeviceId,
        action_of(Phase::AwaitPostOpen(d)) == Action::OpenPost(d),
        action_of(Phase::AwaitPostDone(d)) == Action::Post(d),
        action_of(Phase::Finished(r)) == Action::Complete(r),
        action_of(Phase::Aborted(f)) == Action::Abort(f),
{
}

/// At the post, the server message is built from the recorded device id,
/// the node id and the reading, and the collector message from the key and
/// the integer reading; in any other phase there is no message.
pub proof fn law_message_at_post(t: SendTaskView)
    ensures
        t.phase == Phase::AwaitPostDone(Destination::Server) ==> message_of(t) == Some(
            server_message(t.device_id, t.node_id, t.key, t.val),
        ),
        t.phase == Phase::AwaitPostDone(Destination::Collector) ==> (t.val matches SensorValueType::Uint(
            v,
        ) ==> message_of(t) == Some(collector_message(t.key, v))),
        !(t.phase is AwaitPostDone) ==> message_of(t) == None::<Seq<crate::payload::Op>>,
{
}

} // verus!

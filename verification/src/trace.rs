use vstd::prelude::*;
use crate::error::MynewtError;
use crate::payload::{collector_message, server_message};
use crate::send::{
    Action, Destination, EventView, Phase, SendTaskView, action_of, is_terminal, message_of,
    node_id_usable, transition,
};
use crate::sensor::SensorValueType;

verus! {

/// The send after a sequence of events.
pub open spec fn run(t: SendTaskView, events: Seq<EventView>) -> SendTaskView
    decreases events.len(),
{
    if events.len() == 0 {
        t
    } else {
        transition(run(t, events.drop_last()), events.last())
    }
}

/// The actions that a send asks for, one after each event.
pub open spec fn actions(t: SendTaskView, events: Seq<EventView>) -> Seq<Action>
    decreases events.len(),
{
    if events.len() == 0 {
        Seq::empty()
    } else {
        actions(t, events.drop_last()).push(action_of(run(t, events).phase))
    }
}

/// The destination that an answer to the route question selects.
pub open spec fn destination_of(to_collector: bool) -> Destination {
    if to_collector {
        Destination::Collector
    } else {
        Destination::Server
    }
}

/// A phase that lies on the way to `d`, or that ends a send.
pub open spec fn on_route(p: Phase, d: Destination) -> bool {
    match p {
        Phase::AwaitRoute => false,
        Phase::AwaitNetwork(x) => x == d,
        Phase::AwaitDeviceId => d == Destination::Server,
        Phase::AwaitPostOpen(x) => x == d,
        Phase::AwaitPostDone(x) => x == d,
        Phase::Finished(_) => true,
        Phase::Aborted(_) => true,
    }
}

/// How many events a phase may still take at most before it ends.
pub open spec fn steps_left(p: Phase) -> nat {
    match p {
        Phase::AwaitRoute => 5,
        Phase::AwaitNetwork(_) => 4,
        Phase::AwaitDeviceId => 3,
        Phase::AwaitPostOpen(_) => 2,
        Phase::AwaitPostDone(_) => 1,
        Phase::Finished(_) => 0,
        Phase::Aborted(_) => 0,
    }
}

proof fn lemma_actions_len(t: SendTaskView, events: Seq<EventView>)
    ensures
        actions(t, events).len() == events.len(),
    decreases events.len(),
{
    if events.len() > 0 {
        lemma_actions_len(t, events.drop_last());
    }
}

/// The action after the event at index `i` is that of the send after the
/// first `i + 1` events.
proof fn lemma_actions_index(t: SendTaskView, events: Seq<EventView>, i: int)
    requires
        0 <= i < events.len(),
    ensures
        actions(t, events).len() == events.len(),
        actions(t, events)[i] == action_of(run(t, events.take(i + 1)).phase),
    decreases events.len(),
{
    lemma_actions_len(t, events);
    if i == events.len() - 1 {
        assert(events.take(i + 1) =~= events);
    } else {
        lemma_actions_index(t, events.drop_last(), i);
        assert(events.drop_last().take(i + 1) =~= events.take(i + 1));
    }
}

/// The send after the first `k + 1` events is the send after the first `k`,
/// moved on by event `k`.
proof fn lemma_run_prefix(t: SendTaskView, events: Seq<EventView>, k: int)
    requires
        0 <= k < events.len(),
    ensures
        run(t, events.take(k + 1)) == transition(run(t, events.take(k)), events[k]),
{
    assert(events.take(k + 1).drop_last() =~= events.take(k));
}

/// Once a send has ended, no event changes it: it keeps its result.
pub proof fn law_end_is_final(t: SendTaskView, e: EventView)
    requires
        is_terminal(t.phase),
    ensures
        transition(t, e) == t,
{
}

/// Once a send has ended, no sequence of events changes it.
pub proof fn law_end_is_final_for_runs(t: SendTaskView, events: Seq<EventView>)
    requires
        is_terminal(t.phase),
    ensures
        run(t, events) == t,
    decreases events.len(),
{
    if events.len() > 0 {
        law_end_is_final_for_runs(t, events.drop_last());
    }
}

/// When the network is not ready, the send returns `SYS_EAGAIN` (the caller
/// tries again later), and it neither opens nor posts a message, whatever
/// events follow.
pub proof fn law_network_not_ready(
    t: SendTaskView,
    before: Seq<EventView>,
    after: Seq<EventView>,
)
    requires
        run(t, before).phase is AwaitNetwork,
    ensures
        ({
            let events = before.push(EventView::NetworkReady { ready: false }) + after;
            &&& run(t, events).phase == Phase::Finished(Err(MynewtError::SYS_EAGAIN))
            &&& forall|i: int|
                before.len() <= i < actions(t, events).len() ==> !(#[trigger] actions(
                    t,
                    events,
                )[i] is OpenPost) && !(actions(t, events)[i] is Post)
        }),
    decreases after.len(),
{
    let nr = EventView::NetworkReady { ready: false };
    let events = before.push(nr) + after;
    if after.len() == 0 {
        assert(events =~= before.push(nr));
        assert(events.drop_last() =~= before);
    } else {
        law_network_not_ready(t, before, after.drop_last());
        assert(events.drop_last() =~= before.push(nr) + after.drop_last());
        law_end_is_final(run(t, events.drop_last()), events.last());
    }
    lemma_actions_len(t, events);
}

proof fn lemma_step_on_route(t: SendTaskView, e: EventView, d: Destination)
    requires
        on_route(t.phase, d),
    ensures
        on_route(transition(t, e).phase, d),
{
}

proof fn lemma_route_kept(t: SendTaskView, events: Seq<EventView>, d: Destination)
    requires
        t.phase == Phase::AwaitRoute,
        events.len() >= 1,
        events[0] matches EventView::Route { to_collector } && destination_of(to_collector) == d,
    ensures
        on_route(run(t, events).phase, d),
    decreases events.len(),
{
    if events.len() == 1 {
        assert(events.drop_last() =~= Seq::<EventView>::empty());
    } else {
        lemma_route_kept(t, events.drop_last(), d);
        lemma_step_on_route(run(t, events.drop_last()), events.last(), d);
    }
}

/// The answer to the route question decides where the reading goes: a
/// sensor node opens and posts messages to the collector only, and any
/// other node to the CoAP server only.
pub proof fn law_route_decides_destination(
    t: SendTaskView,
    to_collector: bool,
    rest: Seq<EventView>,
)
    requires
        t.phase == Phase::AwaitRoute,
    ensures
        ({
            let events = seq![EventView::Route { to_collector }] + rest;
            let d = destination_of(to_collector);
            forall|i: int|
                0 <= i < actions(t, events).len() ==> (#[trigger] actions(t, events)[i]
                    matches Action::OpenPost(x) ==> x == d) && (actions(t, events)[i] matches Action::Post(
                    x,
                ) ==> x == d)
        }),
{
    let events = seq![EventView::Route { to_collector }] + rest;
    let d = destination_of(to_collector);
    lemma_actions_len(t, events);
    assert forall|i: int| 0 <= i < actions(t, events).len() implies (#[trigger] actions(
        t,
        events,
    )[i] matches Action::OpenPost(x) ==> x == d) && (actions(t, events)[i] matches Action::Post(
        x,
    ) ==> x == d) by {
        lemma_actions_index(t, events, i);
        let prefix = events.take(i + 1);
        assert(prefix[0] == events[0]);
        lemma_route_kept(t, prefix, d);
    }
}

/// A message is composed and posted only right after it was opened for the
/// same destination: between the two the composing buffer is held, and no
/// send posts without holding it.
pub proof fn law_post_follows_open(t: SendTaskView, events: Seq<EventView>, i: int)
    requires
        t.phase == Phase::AwaitRoute,
        0 <= i < events.len(),
        actions(t, events)[i] is Post,
    ensures
        i >= 1,
        actions(t, events)[i - 1] == Action::OpenPost(actions(t, events)[i]->Post_0),
{
    lemma_actions_index(t, events, i);
    lemma_run_prefix(t, events, i);
    if i == 0 {
        assert(events.take(0) =~= Seq::<EventView>::empty());
    } else {
        lemma_actions_index(t, events, i - 1);
    }
}

/// A send succeeds only after it posted its message and the operating
/// system took it.
pub proof fn law_success_needs_post(t: SendTaskView, events: Seq<EventView>)
    requires
        t.phase == Phase::AwaitRoute,
        run(t, events).phase == Phase::Finished(Ok(())),
    ensures
        exists|i: int| 0 <= i < actions(t, events).len() && #[trigger] actions(t, events)[i] is Post,
        exists|j: int|
            0 <= j < events.len() && #[trigger] events[j] == (EventView::Posted { result: Ok(true) }),
    decreases events.len(),
{
    lemma_actions_len(t, events);
    if events.len() == 0 {
    } else {
        let before = events.drop_last();
        let prev = run(t, before);
        lemma_actions_len(t, before);
        if prev.phase == Phase::Finished(Ok(())) {
            law_success_needs_post(t, before);
            let i = choose|i: int| 0 <= i < actions(t, before).len() && #[trigger] actions(t, before)[i] is Post;
            assert(actions(t, events)[i] == actions(t, before)[i]);
            let j = choose|j: int|
                0 <= j < before.len() && #[trigger] before[j] == (EventView::Posted {
                    result: Ok(true),
                });
            assert(events[j] == before[j]);
        } else {
            assert(prev.phase is AwaitPostDone);
            assert(before.len() > 0);
            let i = before.len() - 1;
            assert(actions(t, events)[i] == actions(t, before)[i]);
            assert(events[events.len() - 1] == events.last());
        }
    }
}

/// A send ends after at most five events, whatever they are: the network
/// task never waits on more than the route, the network state, the device
/// id, the opening and the post.
pub proof fn law_send_ends(t: SendTaskView, events: Seq<EventView>)
    requires
        t.phase == Phase::AwaitRoute,
        events.len() >= 5,
    ensures
        is_terminal(run(t, events).phase),
{
    lemma_steps_left(t, events);
}

proof fn lemma_steps_left(t: SendTaskView, events: Seq<EventView>)
    requires
        t.phase == Phase::AwaitRoute,
    ensures
        steps_left(run(t, events).phase) + events.len() <= 5 || steps_left(run(t, events).phase)
            == 0,
        steps_left(run(t, events).phase) == 0 <==> is_terminal(run(t, events).phase),
    decreases events.len(),
{
    if events.len() > 0 {
        lemma_steps_left(t, events.drop_last());
    }
}

/// The message to the CoAP server carries the device id that the operating
/// system reported, the node id and the reading, once the post is open.
pub proof fn law_server_message_contents(t: SendTaskView, device_id: Seq<u8>)
    requires
        t.phase == Phase::AwaitRoute,
        !(t.val is Empty),
        node_id_usable(t.node_id),
    ensures
        ({
            let events = seq![
                EventView::Route { to_collector: false },
                EventView::NetworkReady { ready: true },
                EventView::DeviceId { id: device_id },
                EventView::PostOpened { result: Ok(true) },
            ];
            &&& run(t, events).phase == Phase::AwaitPostDone(Destination::Server)
            &&& message_of(run(t, events)) == Some(
                server_message(device_id, t.node_id, t.key, t.val),
            )
        }),
{
    let events = seq![
        EventView::Route { to_collector: false },
        EventView::NetworkReady { ready: true },
        EventView::DeviceId { id: device_id },
        EventView::PostOpened { result: Ok(true) },
    ];
    assert(events.drop_last() =~= events.take(3));
    assert(events.take(3).drop_last() =~= events.take(2));
    assert(events.take(2).drop_last() =~= events.take(1));
    assert(events.take(1).drop_last() =~= events.take(0));
    assert(events.take(0) =~= Seq::<EventView>::empty());
    assert(events.take(1).last() == events[0]);
    assert(events.take(2).last() == events[1]);
    assert(events.take(3).last() == events[2]);
    assert(run(t, events.take(0)) == t);
    let r1 = transition(t, events[0]);
    assert(run(t, events.take(1)) == r1);
    assert(r1.phase == Phase::AwaitNetwork(Destination::Server));
    let r2 = transition(r1, events[1]);
    assert(run(t, events.take(2)) == r2);
    assert(r2.phase == Phase::AwaitDeviceId);
    let r3 = transition(r2, events[2]);
    assert(run(t, events.take(3)) == r3);
    assert(r3.phase == Phase::AwaitPostOpen(Destination::Server) && r3.device_id == device_id);
    let r4 = transition(r3, events[3]);
    assert(run(t, events) == r4);
}

/// The message to the collector node carries the integer reading under its
/// key, once the post is open.
pub proof fn law_collector_message_contents(t: SendTaskView, value: u32)
    requires
        t.phase == Phase::AwaitRoute,
        t.val == SensorValueType::Uint(value),
    ensures
        ({
            let events = seq![
                EventView::Route { to_collector: true },
                EventView::NetworkReady { ready: true },
                EventView::PostOpened { result: Ok(true) },
            ];
            &&& run(t, events).phase == Phase::AwaitPostDone(Destination::Collector)
            &&& message_of(run(t, events)) == Some(collector_message(t.key, value))
        }),
{
    let events = seq![
        EventView::Route { to_collector: true },
        EventView::NetworkReady { ready: true },
        EventView::PostOpened { result: Ok(true) },
    ];
    assert(events.drop_last() =~= events.take(2));
    assert(events.take(2).drop_last() =~= events.take(1));
    assert(events.take(1).drop_last() =~= events.take(0));
    assert(events.take(0) =~= Seq::<EventView>::empty());
    assert(events.take(1).last() == events[0]);
    assert(events.take(2).last() == events[1]);
    assert(run(t, events.take(0)) == t);
    let r1 = transition(t, events[0]);
    assert(run(t, events.take(1)) == r1);
    assert(r1.phase == Phase::AwaitNetwork(Destination::Collector));
    let r2 = transition(r1, events[1]);
    assert(run(t, events.take(2)) == r2);
    assert(r2.phase == Phase::AwaitPostOpen(Destination::Collector));
    let r3 = transition(r2, events[2]);
    assert(run(t, events) == r3);
}

proof fn lemma_terminal_stays(t: SendTaskView, events: Seq<EventView>, k: int, m: int)
    requires
        0 <= k <= m <= events.len(),
        is_terminal(run(t, events.take(k)).phase),
    ensures
        is_terminal(run(t, events.take(m)).phase),
    decreases m - k,
{
    if m > k {
        lemma_terminal_stays(t, events, k, m - 1);
        lemma_run_prefix(t, events, m - 1);
    }
}

/// A send posts at most one message: once the post has been asked for, the
/// next event ends the send, and an ended send asks for nothing more.
pub proof fn law_posts_at_most_once(t: SendTaskView, events: Seq<EventView>)
    requires
        t.phase == Phase::AwaitRoute,
    ensures
        forall|i: int, j: int|
            0 <= i < j < actions(t, events).len() && #[trigger] actions(t, events)[i] is Post
                ==> !(#[trigger] actions(t, events)[j] is Post),
{
    lemma_actions_len(t, events);
    assert forall|i: int, j: int|
        0 <= i < j < actions(t, events).len() && #[trigger] actions(t, events)[i] is Post implies !(
        #[trigger] actions(t, events)[j] is Post) by {
        lemma_actions_index(t, events, i);
        lemma_actions_index(t, events, j);
        lemma_run_prefix(t, events, i + 1);
        lemma_terminal_stays(t, events, i + 2, j + 1);
    }
}

} // verus!

//! The live-update hub: one broadcast channel per room, made on first use
//! and kept for the life of the server, through which room events reach
//! every WebSocket subscribed to the room. The hub is shared behind an
//! async mutex held by the shell.
use vstd::prelude::*;
use std::collections::HashMap;
use tokio::sync::broadcast::{Receiver, Sender};

verus! {

broadcast use vstd::std_specs::hash::group_hash_axioms;

/// `tokio::sync::broadcast::Sender`, carried through opaquely.
#[verifier::external_type_specification]
#[verifier::external_body]
#[verifier::reject_recursive_types(T)]
pub struct ExSender<T>(Sender<T>);

/// `tokio::sync::broadcast::Receiver`, carried through opaquely.
#[verifier::external_type_specification]
#[verifier::external_body]
#[verifier::reject_recursive_types(T)]
pub struct ExReceiver<T>(Receiver<T>);

/// How many undelivered events a room channel buffers per subscriber.
pub const ROOM_CHANNEL_CAPACITY: usize = 256;

/// The messages handed to a broadcast channel through `Sender::send`, in
/// order, whether or not a receiver was there to take them.
pub uninterp spec fn channel_sends(s: Sender<String>) -> Seq<Seq<char>>;

/// Which channel a sender sends on: the shared state that `channel`
/// allocates and that its sender and receivers hold. Only equality of
/// these numbers carries meaning.
pub uninterp spec fn sender_channel(s: Sender<String>) -> int;

/// Which channel a receiver listens on, numbered as in [`sender_channel`].
pub uninterp spec fn receiver_channel(r: Receiver<String>) -> int;

/// How many messages had been sent on the receiver's channel when it was
/// made: it receives those sent after, and none before.
pub uninterp spec fn receiver_start(r: Receiver<String>) -> nat;

/// `tokio::sync::broadcast::channel(capacity)`: a new channel, nothing yet
/// sent on it, and a first receiver of it, which receives every message
/// sent. It panics on a zero capacity or one above `usize::MAX / 2`.
#[verifier::external_body]
fn open_channel(capacity: usize) -> (r: (Sender<String>, Receiver<String>))
    requires
        0 < capacity <= usize::MAX / 2,
    ensures
        channel_sends(r.0) == Seq::<Seq<char>>::empty(),
        receiver_channel(r.1) == sender_channel(r.0),
        receiver_start(r.1) == 0,
{
    tokio::sync::broadcast::channel(capacity)
}

/// `Sender::subscribe`: a new receiver of the same channel, which receives
/// the messages sent after this call.
#[verifier::external_body]
fn subscribe_to(sender: &Sender<String>) -> (r: Receiver<String>)
    ensures
        receiver_channel(r) == sender_channel(*sender),
        receiver_start(r) == channel_sends(*sender).len(),
{
    sender.subscribe()
}

/// `Sender::send`: hands the message to the channel. The channel keeps it
/// for every current receiver, and refuses it (an error) when there is
/// none; which of the two happens is not claimed.
#[verifier::external_body]
fn send_to(sender: &mut Sender<String>, payload: String) -> (r: Result<usize, ()>)
    ensures
        channel_sends(*final(sender)) == channel_sends(*old(sender)).push(payload@),
        sender_channel(*final(sender)) == sender_channel(*old(sender)),
{
    sender.send(payload).map_err(|_| ())
}

/// What a receiver has been handed by the channel of `s`: the messages
/// sent on it since the receiver was made, if it listens on that channel.
/// The receiver reads them in this order, as long as it keeps fewer than
/// the channel's capacity unread.
pub open spec fn handed_to(rx: Receiver<String>, s: Sender<String>) -> Seq<Seq<char>> {
    if receiver_channel(rx) == sender_channel(s) {
        channel_sends(s).skip(receiver_start(rx) as int)
    } else {
        Seq::<Seq<char>>::empty()
    }
}

/// `rx` is a fresh subscriber of `room`'s channel in the hub contents `m`:
/// it listens on that channel and has been handed nothing yet.
pub open spec fn subscribed_receiver(m: Map<u128, Sender<String>>, room: u128, rx: Receiver<String>) -> bool {
    &&& m.contains_key(room)
    &&& receiver_channel(rx) == sender_channel(m[room])
    &&& receiver_start(rx) == channel_sends(m[room]).len()
}

/// The rooms that have a channel, each with its channel.
pub struct WsHub {
    rooms: HashMap<u128, Sender<String>>,
}

impl View for WsHub {
    type V = Map<u128, Sender<String>>;

    closed spec fn view(&self) -> Map<u128, Sender<String>> {
        self.rooms@
    }
}

/// What has been sent to `room`'s channel: nothing while it has none.
pub open spec fn room_sends(m: Map<u128, Sender<String>>, room: u128) -> Seq<Seq<char>> {
    if m.contains_key(room) {
        channel_sends(m[room])
    } else {
        Seq::<Seq<char>>::empty()
    }
}

/// `after` is `before` with `room` given a channel if it had none: rooms
/// that had one keep it, a new one has had nothing sent, and no other room
/// changes.
pub open spec fn room_subscribed(before: Map<u128, Sender<String>>, after: Map<u128, Sender<String>>, room: u128) -> bool {
    &&& after.dom() == before.dom().insert(room)
    &&& forall|k: u128| #[trigger] before.contains_key(k) ==> after[k] == before[k]
    &&& room_sends(after, room) == room_sends(before, room)
}

/// `after` is `before` with `payload` sent on `room`'s channel (opened if
/// the room had none, else the same channel): every other room is
/// unchanged.
pub open spec fn room_broadcast(
    before: Map<u128, Sender<String>>,
    after: Map<u128, Sender<String>>,
    room: u128,
    payload: Seq<char>,
) -> bool {
    &&& after.dom() == before.dom().insert(room)
    &&& forall|k: u128| k != room && #[trigger] before.contains_key(k) ==> after[k] == before[k]
    &&& before.contains_key(room) ==> sender_channel(after[room]) == sender_channel(before[room])
    &&& room_sends(after, room) == room_sends(before, room).push(payload)
}

impl WsHub {
    /// A hub without rooms.
    pub fn new() -> (h: WsHub)
        ensures
            h@ == Map::<u128, Sender<String>>::empty(),
    {
        WsHub { rooms: HashMap::new() }
    }

    /// Subscribes to a room's events, opening the room's channel if it has
    /// none yet: the receiver listens on the room's channel from now on.
    pub fn subscribe(&mut self, room_id: u128) -> (r: Receiver<String>)
        ensures
            room_subscribed(old(self)@, final(self)@, room_id),
            subscribed_receiver(final(self)@, room_id, r),
    {
        if let Some(sender) = self.rooms.get(&room_id) {
            assert(self.rooms@.dom().insert(room_id) =~= self.rooms@.dom());
            return subscribe_to(sender);
        }
        let (sender, receiver) = open_channel(ROOM_CHANNEL_CAPACITY);
        self.rooms.insert(room_id, sender);
        receiver
    }

    /// Sends an event to a room's subscribers, opening the room's channel
    /// if it has none yet. A room without subscribers drops the event.
    pub fn broadcast(&mut self, room_id: u128, payload: String)
        ensures
            room_broadcast(old(self)@, final(self)@, room_id, payload@),
    {
        let ghost before = self.rooms@;
        let mut sender = match self.rooms.remove(&room_id) {
            Some(s) => s,
            None => open_channel(ROOM_CHANNEL_CAPACITY).0,
        };
        assert(channel_sends(sender) == room_sends(before, room_id));
        let _ = send_to(&mut sender, payload);
        self.rooms.insert(room_id, sender);
        assert(self.rooms@.dom() =~= before.dom().insert(room_id));
    }
}

/// One operation on the hub, as far as the room channels are concerned.
pub enum HubOp {
    Subscribe(u128),
    Broadcast(u128, Seq<char>),
}

/// `after` is `before` changed by the operation `op`.
pub open spec fn hub_op(before: Map<u128, Sender<String>>, after: Map<u128, Sender<String>>, op: HubOp) -> bool {
    match op {
        HubOp::Subscribe(room) => room_subscribed(before, after, room),
        HubOp::Broadcast(room, payload) => room_broadcast(before, after, room, payload),
    }
}

/// The payloads that `ops` broadcast to `room`, in order.
pub open spec fn room_payloads(ops: Seq<HubOp>, room: u128) -> Seq<Seq<char>>
    decreases ops.len(),
{
    if ops.len() == 0 {
        Seq::<Seq<char>>::empty()
    } else {
        let earlier = room_payloads(ops.drop_last(), room);
        match ops.last() {
            HubOp::Broadcast(r, payload) => if r == room { earlier.push(payload) } else { earlier },
            HubOp::Subscribe(_) => earlier,
        }
    }
}

/// `states` are the hub's successive contents while `ops` run.
pub open spec fn hub_run(states: Seq<Map<u128, Sender<String>>>, ops: Seq<HubOp>) -> bool {
    &&& states.len() == ops.len() + 1
    &&& forall|i: int| 0 <= i < ops.len() ==> hub_op(#[trigger] states[i], states[i + 1], ops[i])
}

proof fn lemma_op_sends(before: Map<u128, Sender<String>>, after: Map<u128, Sender<String>>, op: HubOp, room: u128)
    requires
        hub_op(before, after, op),
    ensures
        room_sends(after, room) == room_sends(before, room) + room_payloads(seq![op], room),
{
    let ops = seq![op];
    assert(ops.drop_last() =~= Seq::<HubOp>::empty());
    assert(ops.last() == op);
    assert(room_payloads(Seq::<HubOp>::empty(), room) == Seq::<Seq<char>>::empty());
    match op {
        HubOp::Subscribe(r) => {
            if room != r && !before.contains_key(room) {
                assert(!after.dom().contains(room));
            }
            assert(room_payloads(ops, room) =~= Seq::<Seq<char>>::empty());
        },
        HubOp::Broadcast(r, p) => {
            if room != r && !before.contains_key(room) {
                assert(!after.dom().contains(room));
            }
            if room == r {
                assert(room_payloads(ops, room) =~= seq![p]);
            } else {
                assert(room_payloads(ops, room) =~= Seq::<Seq<char>>::empty());
            }
        },
    }
    assert(room_sends(after, room) =~= room_sends(before, room) + room_payloads(ops, room));
}

/// Whatever subscriptions and broadcasts run on the hub, each room's
/// channel is handed exactly the events broadcast to that room, in the
/// order they were broadcast: operations on other rooms, and
/// subscriptions, add nothing to it.
pub proof fn lemma_room_sends_follow_broadcasts(states: Seq<Map<u128, Sender<String>>>, ops: Seq<HubOp>, room: u128)
    requires
        hub_run(states, ops),
    ensures
        room_sends(states.last(), room) == room_sends(states[0], room) + room_payloads(ops, room),
    decreases ops.len(),
{
    if ops.len() == 0 {
        assert(room_sends(states[0], room) + room_payloads(ops, room) =~= room_sends(states[0], room));
    } else {
        let n = ops.len() - 1;
        let front = states.drop_last();
        assert(hub_run(front, ops.drop_last())) by {
            assert forall|i: int| 0 <= i < ops.drop_last().len() implies hub_op(#[trigger] front[i], front[i + 1], ops.drop_last()[i]) by {
                assert(hub_op(states[i], states[i + 1], ops[i]));
            }
        }
        lemma_room_sends_follow_broadcasts(front, ops.drop_last(), room);
        assert(hub_op(states[n], states[n + 1], ops[n]));
        lemma_op_sends(states[n], states[n + 1], ops[n], room);
        let one = seq![ops[n]];
        assert(one.drop_last() =~= Seq::<HubOp>::empty());
        assert(room_payloads(one, room) + Seq::<Seq<char>>::empty() =~= room_payloads(one, room));
        assert(room_sends(states.last(), room) =~= room_sends(states[0], room) + room_payloads(ops, room));
    }
}

proof fn lemma_run_keeps_channel(states: Seq<Map<u128, Sender<String>>>, ops: Seq<HubOp>, room: u128)
    requires
        hub_run(states, ops),
        states[0].contains_key(room),
    ensures
        states.last().contains_key(room),
        sender_channel(states.last()[room]) == sender_channel(states[0][room]),
    decreases ops.len(),
{
    if ops.len() > 0 {
        let n = ops.len() - 1;
        let front = states.drop_last();
        assert(hub_run(front, ops.drop_last())) by {
            assert forall|i: int| 0 <= i < ops.drop_last().len() implies hub_op(#[trigger] front[i], front[i + 1], ops.drop_last()[i]) by {
                assert(hub_op(states[i], states[i + 1], ops[i]));
            }
        }
        lemma_run_keeps_channel(front, ops.drop_last(), room);
        assert(hub_op(states[n], states[n + 1], ops[n]));
        assert(front.last() == states[n]);
        assert(states[n].contains_key(room));
        assert(states[n + 1].dom().contains(room));
    }
}

/// A room's subscriber is handed exactly the events broadcast to that
/// room after it subscribed, in the order they were broadcast, whatever
/// else runs on the hub meanwhile: the room keeps its channel, and
/// subscriptions and other rooms' broadcasts add nothing to it.
pub proof fn lemma_subscriber_gets_room_broadcasts(
    states: Seq<Map<u128, Sender<String>>>,
    ops: Seq<HubOp>,
    room: u128,
    rx: Receiver<String>,
)
    requires
        hub_run(states, ops),
        subscribed_receiver(states[0], room, rx),
    ensures
        handed_to(rx, states.last()[room]) == room_payloads(ops, room),
{
    lemma_run_keeps_channel(states, ops, room);
    lemma_room_sends_follow_broadcasts(states, ops, room);
    let start = channel_sends(states[0][room]);
    assert(room_sends(states[0], room) == start);
    assert(room_sends(states.last(), room) == channel_sends(states.last()[room]));
    assert((start + room_payloads(ops, room)).skip(start.len() as int) =~= room_payloads(ops, room));
}

} // verus!

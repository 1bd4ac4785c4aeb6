//! The WebSocket session: which room a connection follows and what it is
//! told. The shell owns the socket and the subscription; it reports each
//! thing that happens as a [`WsEvent`] and carries out the [`WsAction`]s
//! that [`WsSession::step`] answers with.
use vstd::prelude::*;
use vstd::string::*;
use crate::error::ApiError;
use crate::ids::{format_hyphenated, uuid_hyphenated};
use crate::text::owned;
use crate::hub::{handed_to, hub_run, lemma_subscriber_gets_room_broadcasts, room_payloads, subscribed_receiver, HubOp};
use tokio::sync::broadcast::{Receiver, Sender};

verus! {

/// A text frame from the client, as parsed by the shell.
pub enum ClientMessage {
    /// `{"type":"subscribe","room_id":"<uuid>"}`
    Subscribe { room_id: u128 },
    /// Anything else.
    Invalid,
}

/// Something that happened on the connection.
pub enum WsEvent {
    /// The client's stream ended or failed.
    InboundEnded,
    /// A text frame.
    InboundText(ClientMessage),
    /// A close frame.
    InboundClose,
    /// Any other frame (binary, ping, pong).
    InboundOther,
    /// The outcome of the membership check the session asked for.
    Membership(Result<(), ApiError>),
    /// The room's channel delivered an event (`None`: the subscription
    /// lagged behind or its channel closed).
    RoomEvent(Option<String>),
    /// Forwarding a room event to the client failed.
    ForwardFailed,
}

/// What the shell is to do.
#[derive(Debug, PartialEq, Eq)]
pub enum WsAction {
    /// Check that the user is a member of the room.
    CheckMembership(u128),
    /// Replace the subscription by one to the room's channel.
    Subscribe(u128),
    /// Send a text frame; a failure to send it is ignored.
    Reply(String),
    /// Send a room event as a text frame; a failure ends the session.
    Forward(String),
    /// End the session.
    Close,
}

/// A membership check in flight, and whether it was asked by the query
/// string at connection time or by a subscribe message.
#[derive(Debug)]
pub struct PendingCheck {
    pub room_id: u128,
    pub from_query: bool,
}

/// The state of a session: the room it follows, if any, and the check in
/// flight, if any.
#[derive(Debug)]
pub struct WsSession {
    pub room: Option<u128>,
    pub pending: Option<PendingCheck>,
}

/// `{"type":"error","message":"<message>"}`
pub open spec fn error_frame(message: Seq<char>) -> Seq<char> {
    "{\"type\":\"error\",\"message\":\""@ + message + "\"}"@
}

/// `{"type":"subscribed","room_id":"<uuid>"}`
pub open spec fn subscribed_frame(room_id: u128) -> Seq<char> {
    "{\"type\":\"subscribed\",\"room_id\":\""@ + uuid_hyphenated(room_id) + "\"}"@
}

/// The error frame carrying `message`.
pub fn error_frame_text(message: &str) -> (r: String)
    ensures
        r@ == error_frame(message@),
{
    let mut r = owned("{\"type\":\"error\",\"message\":\"");
    r.append(message);
    r.append("\"}");
    r
}

/// The frame confirming a subscription to a room.
pub fn subscribed_frame_text(room_id: u128) -> (r: String)
    ensures
        r@ == subscribed_frame(room_id),
{
    let mut r = owned("{\"type\":\"subscribed\",\"room_id\":\"");
    let id = format_hyphenated(room_id);
    r.append(id.as_str());
    r.append("\"}");
    r
}

pub open spec fn only_close(actions: Seq<WsAction>) -> bool {
    actions.len() == 1 && actions[0] is Close
}

pub open spec fn only_reply(actions: Seq<WsAction>, frame: Seq<char>) -> bool {
    actions.len() == 1 && (actions[0] matches WsAction::Reply(m) && m@ == frame)
}

/// What a session does on an event: `after` is its next state and
/// `actions` what the shell is to do, in order.
pub open spec fn step_rel(s: WsSession, event: WsEvent, after: WsSession, actions: Seq<WsAction>) -> bool {
    match event {
        WsEvent::InboundEnded | WsEvent::InboundClose | WsEvent::ForwardFailed => {
            after == s && only_close(actions)
        },
        WsEvent::RoomEvent(None) => after == s && only_close(actions),
        WsEvent::RoomEvent(Some(payload)) => {
            after == s && actions.len() == 1 && actions[0] == WsAction::Forward(payload)
        },
        WsEvent::InboundOther => after == s && actions.len() == 0,
        WsEvent::InboundText(ClientMessage::Invalid) => {
            after == s && only_reply(actions, error_frame("invalid message"@))
        },
        WsEvent::InboundText(ClientMessage::Subscribe { room_id }) => {
            after.room == s.room && after.pending == Some(PendingCheck { room_id, from_query: false })
                && actions.len() == 1 && actions[0] == WsAction::CheckMembership(room_id)
        },
        WsEvent::Membership(outcome) => match s.pending {
            None => after == s && actions.len() == 0,
            Some(p) => after.pending is None && match outcome {
                Ok(()) => {
                    &&& after.room == Some(p.room_id)
                    &&& actions[0] == WsAction::Subscribe(p.room_id)
                    &&& if p.from_query {
                        actions.len() == 1
                    } else {
                        actions.len() == 2 && (actions[1] matches WsAction::Reply(m) && m@ == subscribed_frame(p.room_id))
                    }
                },
                Err(e) => {
                    &&& after.room == s.room
                    &&& if p.from_query {
                        only_reply(actions, error_frame(e.message@))
                    } else {
                        only_reply(actions, error_frame("not a room member"@))
                    }
                },
            },
        },
    }
}

impl WsSession {
    /// The session of a new connection, and what to do first: check the
    /// room named in the query string, if any.
    pub fn start(initial_room: Option<u128>) -> (r: (WsSession, Vec<WsAction>))
        ensures
            r.0.room is None,
            match initial_room {
                Some(room) => r.0.pending == Some(PendingCheck { room_id: room, from_query: true })
                    && r.1@.len() == 1 && r.1@[0] == WsAction::CheckMembership(room),
                None => r.0.pending is None && r.1@.len() == 0,
            },
    {
        match initial_room {
            Some(room) => (
                WsSession { room: None, pending: Some(PendingCheck { room_id: room, from_query: true }) },
                vec![WsAction::CheckMembership(room)],
            ),
            None => (WsSession { room: None, pending: None }, Vec::new()),
        }
    }

    /// The next state and the actions that answer an event. A session only
    /// ever subscribes to a room whose membership check succeeded, and ends
    /// when the client leaves or room events can no longer be delivered.
    pub fn step(self, event: WsEvent) -> (r: (WsSession, Vec<WsAction>))
        ensures
            step_rel(self, event, r.0, r.1@),
            r.1@.len() <= 2,
            forall|i: int, room: u128| 0 <= i < r.1@.len() && r.1@[i] == WsAction::Subscribe(room) ==> {
                &&& self.pending == Some(PendingCheck { room_id: room, from_query: self.pending->0.from_query })
                &&& event matches WsEvent::Membership(Ok(()))
            },
    {
        match event {
            WsEvent::InboundEnded | WsEvent::InboundClose | WsEvent::ForwardFailed => (self, vec![WsAction::Close]),
            WsEvent::RoomEvent(None) => (self, vec![WsAction::Close]),
            WsEvent::RoomEvent(Some(payload)) => (self, vec![WsAction::Forward(payload)]),
            WsEvent::InboundOther => (self, Vec::new()),
            WsEvent::InboundText(ClientMessage::Invalid) => (self, vec![WsAction::Reply(error_frame_text("invalid message"))]),
            WsEvent::InboundText(ClientMessage::Subscribe { room_id }) => (
                WsSession { room: self.room, pending: Some(PendingCheck { room_id, from_query: false }) },
                vec![WsAction::CheckMembership(room_id)],
            ),
            WsEvent::Membership(outcome) => match self.pending {
                None => (WsSession { room: self.room, pending: None }, Vec::new()),
                Some(p) => match outcome {
                    Ok(()) => {
                        if p.from_query {
                            (WsSession { room: Some(p.room_id), pending: None }, vec![WsAction::Subscribe(p.room_id)])
                        } else {
                            let frame = subscribed_frame_text(p.room_id);
                            (
                                WsSession { room: Some(p.room_id), pending: None },
                                vec![WsAction::Subscribe(p.room_id), WsAction::Reply(frame)],
                            )
                        }
                    },
                    Err(e) => {
                        let frame = if p.from_query {
                            error_frame_text(e.message.as_str())
                        } else {
                            error_frame_text("not a room member")
                        };
                        (WsSession { room: self.room, pending: None }, vec![WsAction::Reply(frame)])
                    },
                },
            },
        }
    }
}

/// A session that keeps receiving room events stays as it is and forwards
/// each one, in order, with nothing else.
proof fn lemma_room_events_keep_session(
    sessions: Seq<WsSession>,
    payloads: Seq<String>,
    actions: Seq<Seq<WsAction>>,
    n: int,
)
    requires
        sessions.len() == payloads.len() + 1,
        actions.len() == payloads.len(),
        0 <= n <= payloads.len(),
        forall|i: int|
            0 <= i < payloads.len() ==> #[trigger] step_rel(
                sessions[i],
                WsEvent::RoomEvent(Some(payloads[i])),
                sessions[i + 1],
                actions[i],
            ),
    ensures
        sessions[n] == sessions[0],
    decreases n,
{
    if n > 0 {
        lemma_room_events_keep_session(sessions, payloads, actions, n - 1);
        let i = n - 1;
        assert(step_rel(sessions[i], WsEvent::RoomEvent(Some(payloads[i])), sessions[i + 1], actions[i]));
        assert(i + 1 == n);
    }
}

/// A connection that names a room it belongs to in the query string is
/// subscribed to that room without any reply, and then forwards every room
/// event, one for one and in order, and sends nothing else, for as long as
/// only room events arrive.
pub proof fn lemma_query_subscription_forwards_events(
    start: WsSession,
    room: u128,
    sessions: Seq<WsSession>,
    first: Seq<WsAction>,
    payloads: Seq<String>,
    actions: Seq<Seq<WsAction>>,
)
    requires
        start.pending == Some(PendingCheck { room_id: room, from_query: true }),
        sessions.len() == payloads.len() + 1,
        actions.len() == payloads.len(),
        step_rel(start, WsEvent::Membership(Ok(())), sessions[0], first),
        forall|i: int|
            0 <= i < payloads.len() ==> #[trigger] step_rel(
                sessions[i],
                WsEvent::RoomEvent(Some(payloads[i])),
                sessions[i + 1],
                actions[i],
            ),
    ensures
        first == seq![WsAction::Subscribe(room)],
        sessions[0].room == Some(room),
        forall|i: int| 0 <= i <= payloads.len() ==> #[trigger] sessions[i] == sessions[0],
        forall|i: int| 0 <= i < payloads.len() ==> #[trigger] actions[i] == seq![WsAction::Forward(payloads[i])],
{
    assert(first =~= seq![WsAction::Subscribe(room)]);
    assert forall|i: int| 0 <= i <= payloads.len() implies #[trigger] sessions[i] == sessions[0] by {
        lemma_room_events_keep_session(sessions, payloads, actions, i);
    }
    assert forall|i: int| 0 <= i < payloads.len() implies #[trigger] actions[i] == seq![WsAction::Forward(payloads[i])] by {
        assert(step_rel(sessions[i], WsEvent::RoomEvent(Some(payloads[i])), sessions[i + 1], actions[i]));
        assert(actions[i] =~= seq![WsAction::Forward(payloads[i])]);
    }
}

/// End to end: a connection that names a room it belongs to in the query
/// string, and whose subscription the shell made with the hub's
/// `subscribe`, sends the client exactly the events broadcast to that room
/// afterwards, one frame each, in the order they were broadcast, and
/// nothing else, while the client sends nothing and the subscription keeps
/// up with the channel.
pub proof fn lemma_query_connection_relays_room_broadcasts(
    start: WsSession,
    room: u128,
    first: Seq<WsAction>,
    states: Seq<Map<u128, Sender<String>>>,
    ops: Seq<HubOp>,
    rx: Receiver<String>,
    sessions: Seq<WsSession>,
    payloads: Seq<String>,
    actions: Seq<Seq<WsAction>>,
)
    requires
        start.pending == Some(PendingCheck { room_id: room, from_query: true }),
        step_rel(start, WsEvent::Membership(Ok(())), sessions[0], first),
        subscribed_receiver(states[0], room, rx),
        hub_run(states, ops),
        payloads.map_values(|p: String| p@) == handed_to(rx, states.last()[room]),
        sessions.len() == payloads.len() + 1,
        actions.len() == payloads.len(),
        forall|i: int|
            0 <= i < payloads.len() ==> #[trigger] step_rel(
                sessions[i],
                WsEvent::RoomEvent(Some(payloads[i])),
                sessions[i + 1],
                actions[i],
            ),
    ensures
        first == seq![WsAction::Subscribe(room)],
        actions.len() == room_payloads(ops, room).len(),
        forall|i: int| 0 <= i < actions.len() ==> #[trigger] actions[i] == seq![WsAction::Forward(payloads[i])],
        forall|i: int| 0 <= i < actions.len() ==> (#[trigger] payloads[i])@ == room_payloads(ops, room)[i],
{
    lemma_query_subscription_forwards_events(start, room, sessions, first, payloads, actions);
    lemma_subscriber_gets_room_broadcasts(states, ops, room, rx);
    assert forall|i: int| 0 <= i < actions.len() implies (#[trigger] payloads[i])@ == room_payloads(ops, room)[i] by {
        assert(payloads.map_values(|p: String| p@)[i] == payloads[i]@);
    }
}

} // verus!

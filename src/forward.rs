//! Forwarding decisions in both directions: which group events become
//! messages, how one message is delivered to the chat network step by step,
//! and which chat events go back to a group.
use vstd::prelude::*;
use crate::config::QQ;
use crate::ids::{
    is_virtual_localpart, is_virtual_localpart_spec, match_room_localpart, room_alias,
    room_alias_view, room_match_spec, virtual_localpart, virtual_user_name, RoomMatch,
};
use crate::message::{
    elements_view, normalize_elements, normalize_spec, segments_view, QQElement, QQMessage,
};

verus! {

/// Builds the message for one event of group `group_code` from user
/// `from_uin`, or `None` where the group is not bridged or the event has no
/// segment.
pub fn group_event_message(
    qq: &QQ,
    group_code: i64,
    from_uin: i64,
    display_name: String,
    elements: &Vec<QQElement>,
) -> (r: Option<QQMessage>)
    ensures
        !qq.groups@.contains(group_code) ==> r is None,
        qq.groups@.contains(group_code) ==> {
            let segs = normalize_spec(elements_view(elements@));
            &&& (r is None <==> segs.len() == 0)
            &&& (r matches Some(m) ==> {
                &&& m.group_id == group_code
                &&& m.user_id == from_uin
                &&& m.display_name@ == display_name@
                &&& segments_view(m.segments@) == segs
            })
        },
{
    if !qq.is_bridged(group_code) {
        return None;
    }
    let segments = normalize_elements(elements);
    if segments.len() == 0 {
        return None;
    }
    Some(QQMessage { group_id: group_code, user_id: from_uin, display_name, segments })
}

/// What came of registering a virtual user.
#[derive(Debug, Clone, Copy, PartialEq, Eq, Structural)]
pub enum RegistrationOutcome {
    Registered,
    /// The user exists already.
    UserInUse,
    Failed,
}

#[derive(Debug, Clone, Copy, PartialEq, Eq, Structural)]
pub enum DeliveryError {
    RegistrationFailed,
    JoinFailed,
}

/// Registration succeeds where the user was registered now or before.
pub fn registration_result(outcome: &RegistrationOutcome) -> (r: Result<(), DeliveryError>)
    ensures
        r is Ok <==> !(outcome is Failed),
        r is Err ==> r == Err::<(), DeliveryError>(DeliveryError::RegistrationFailed),
{
    match outcome {
        RegistrationOutcome::Failed => Err(DeliveryError::RegistrationFailed),
        _ => Ok(()),
    }
}

/// Where the delivery of one message stands.
#[derive(Debug, Clone, Copy, PartialEq, Eq, Structural)]
pub enum DeliveryStage {
    Registering,
    Joining,
    Naming,
    /// Sending the segment at this index.
    Sending(usize),
    Done,
    Aborted(DeliveryError),
}

/// What the outside work of the last step gave.
#[derive(Debug, Clone, Copy, PartialEq, Eq, Structural)]
pub enum DeliveryEvent {
    Registration(RegistrationOutcome),
    /// Whether joining the room succeeded.
    Joined(bool),
    /// Whether setting the display name succeeded.
    NameSet(bool),
    /// Whether sending the current segment succeeded.
    Sent(bool),
}

/// The outside work to do next.
#[derive(Debug, Clone, Copy, PartialEq, Eq, Structural)]
pub enum DeliveryAction {
    /// Register the virtual user `localpart`.
    Register,
    /// Join the room `room_alias`, with `server_name` as the hint.
    Join,
    /// Set the virtual user's display name in the room (best effort).
    SetDisplayName,
    /// Send the segment at this index.
    SendSegment(usize),
    /// All segments were attempted.
    Finish,
    Abort(DeliveryError),
}

/// The delivery of one message from a group to the chat network.
#[derive(Debug)]
pub struct Delivery {
    pub message: QQMessage,
    /// The virtual user that speaks for the sender.
    pub localpart: String,
    /// The alias of the room bridged to the group.
    pub room_alias: String,
    /// The homeserver, as the server hint for joining.
    pub server_name: String,
    pub stage: DeliveryStage,
    /// The indices of the segments whose sending failed, in order.
    pub failed_segments: Vec<usize>,
}

/// The stage and action that follow the attempt on segment `i - 1` (or the
/// display name, for `i == 0`).
pub open spec fn next_send(i: int, n: int) -> (DeliveryStage, DeliveryAction) {
    if i < n {
        (DeliveryStage::Sending(i as usize), DeliveryAction::SendSegment(i as usize))
    } else {
        (DeliveryStage::Done, DeliveryAction::Finish)
    }
}

/// The action that a stage waits on.
pub open spec fn pending_action(stage: DeliveryStage) -> DeliveryAction {
    match stage {
        DeliveryStage::Registering => DeliveryAction::Register,
        DeliveryStage::Joining => DeliveryAction::Join,
        DeliveryStage::Naming => DeliveryAction::SetDisplayName,
        DeliveryStage::Sending(i) => DeliveryAction::SendSegment(i),
        DeliveryStage::Done => DeliveryAction::Finish,
        DeliveryStage::Aborted(e) => DeliveryAction::Abort(e),
    }
}

/// One step of a delivery of `n` segments: the next stage and action.
/// Registration and joining abort on failure; the display name is best
/// effort; each segment is attempted once, whatever came of the others. An
/// event that the stage does not wait on changes nothing.
pub open spec fn delivery_step(stage: DeliveryStage, n: int, ev: DeliveryEvent) -> (
    DeliveryStage,
    DeliveryAction,
) {
    match (stage, ev) {
        (DeliveryStage::Registering, DeliveryEvent::Registration(o)) => if o is Failed {
            (
                DeliveryStage::Aborted(DeliveryError::RegistrationFailed),
                DeliveryAction::Abort(DeliveryError::RegistrationFailed),
            )
        } else {
            (DeliveryStage::Joining, DeliveryAction::Join)
        },
        (DeliveryStage::Joining, DeliveryEvent::Joined(ok)) => if ok {
            (DeliveryStage::Naming, DeliveryAction::SetDisplayName)
        } else {
            (
                DeliveryStage::Aborted(DeliveryError::JoinFailed),
                DeliveryAction::Abort(DeliveryError::JoinFailed),
            )
        },
        (DeliveryStage::Naming, DeliveryEvent::NameSet(_)) => next_send(0, n),
        (DeliveryStage::Sending(i), DeliveryEvent::Sent(_)) => next_send(i + 1, n),
        _ => (stage, pending_action(stage)),
    }
}

impl Delivery {
    pub open spec fn wf(&self) -> bool {
        self.stage matches DeliveryStage::Sending(i) ==> i < self.message.segments@.len()
    }

    /// Starts the delivery of `message` to the room of its group on
    /// `homeserver_name`, as the virtual user of its sender.
    pub fn new(message: QQMessage, homeserver_name: &str) -> (r: (Delivery, DeliveryAction))
        ensures
            r.0.wf(),
            r.0.message == message,
            r.0.localpart@ == virtual_localpart(message.user_id as int),
            r.0.room_alias@ == room_alias_view(message.group_id as int, homeserver_name@),
            r.0.server_name@ == homeserver_name@,
            r.0.stage == DeliveryStage::Registering,
            r.0.failed_segments@.len() == 0,
            r.1 == DeliveryAction::Register,
    {
        let localpart = virtual_user_name(message.user_id);
        let alias = room_alias(message.group_id, homeserver_name);
        let d = Delivery {
            message,
            localpart,
            room_alias: alias,
            server_name: String::from_str(homeserver_name),
            stage: DeliveryStage::Registering,
            failed_segments: Vec::new(),
        };
        (d, DeliveryAction::Register)
    }

    /// Takes in what the last action gave and says what to do next.
    pub fn step(&mut self, ev: DeliveryEvent) -> (r: DeliveryAction)
        requires
            old(self).wf(),
        ensures
            final(self).wf(),
            (final(self).stage, r) == delivery_step(
                old(self).stage,
                old(self).message.segments@.len() as int,
                ev,
            ),
            final(self).message == old(self).message,
            final(self).localpart == old(self).localpart,
            final(self).room_alias == old(self).room_alias,
            final(self).server_name == old(self).server_name,
            final(self).failed_segments@ == (match (old(self).stage, ev) {
                (DeliveryStage::Sending(i), DeliveryEvent::Sent(false)) => old(
                    self,
                ).failed_segments@.push(i),
                _ => old(self).failed_segments@,
            }),
    {
        let n = self.message.segments.len();
        let (stage, action) = match (self.stage, &ev) {
            (DeliveryStage::Registering, DeliveryEvent::Registration(o)) => {
                match registration_result(o) {
                    Ok(()) => (DeliveryStage::Joining, DeliveryAction::Join),
                    Err(e) => (DeliveryStage::Aborted(e), DeliveryAction::Abort(e)),
                }
            },
            (DeliveryStage::Joining, DeliveryEvent::Joined(ok)) => {
                if *ok {
                    (DeliveryStage::Naming, DeliveryAction::SetDisplayName)
                } else {
                    (
                        DeliveryStage::Aborted(DeliveryError::JoinFailed),
                        DeliveryAction::Abort(DeliveryError::JoinFailed),
                    )
                }
            },
            (DeliveryStage::Naming, DeliveryEvent::NameSet(_)) => {
                if 0 < n {
                    (DeliveryStage::Sending(0), DeliveryAction::SendSegment(0))
                } else {
                    (DeliveryStage::Done, DeliveryAction::Finish)
                }
            },
            (DeliveryStage::Sending(i), DeliveryEvent::Sent(ok)) => {
                if !*ok {
                    self.failed_segments.push(i);
                }
                if i + 1 < n {
                    (DeliveryStage::Sending(i + 1), DeliveryAction::SendSegment(i + 1))
                } else {
                    (DeliveryStage::Done, DeliveryAction::Finish)
                }
            },
            (stage, _) => {
                let a = match stage {
                    DeliveryStage::Registering => DeliveryAction::Register,
                    DeliveryStage::Joining => DeliveryAction::Join,
                    DeliveryStage::Naming => DeliveryAction::SetDisplayName,
                    DeliveryStage::Sending(i) => DeliveryAction::SendSegment(i),
                    DeliveryStage::Done => DeliveryAction::Finish,
                    DeliveryStage::Aborted(e) => DeliveryAction::Abort(e),
                };
                (stage, a)
            },
        };
        self.stage = stage;
        action
    }
}

/// The kind of content of an event in a room of the chat network.
#[derive(Debug, Clone, Copy, PartialEq, Eq, Structural)]
pub enum MatrixEventKind {
    Text,
    Image,
    /// Any other content, which the bridge does not carry.
    Other,
}

/// What to do with an event in a room of the chat network.
#[derive(Debug, Clone, Copy, PartialEq, Eq, Structural)]
pub enum MatrixRoute {
    Ignore,
    /// The room carries the bridge's prefix, but no valid group id.
    BadGroupId,
    /// Forward the event to this group.
    Forward(i64),
}

/// Events in rooms outside the scheme, from virtual users, or of other kinds
/// are ignored; the rest go to the group that the room names.
pub open spec fn route_spec(room: Seq<char>, sender: Seq<char>, kind: MatrixEventKind) -> MatrixRoute {
    match room_match_spec(room) {
        RoomMatch::NotBridged => MatrixRoute::Ignore,
        m => if is_virtual_localpart_spec(sender) || kind is Other {
            MatrixRoute::Ignore
        } else {
            match m {
                RoomMatch::Group(g) => MatrixRoute::Forward(g),
                _ => MatrixRoute::BadGroupId,
            }
        },
    }
}

/// Decides the fate of an event of kind `kind` posted by `sender_localpart` in
/// the room whose localpart is `room_localpart`.
pub fn route_matrix_event(room_localpart: &str, sender_localpart: &str, kind: MatrixEventKind) -> (r:
    MatrixRoute)
    ensures
        r == route_spec(room_localpart@, sender_localpart@, kind),
        is_virtual_localpart_spec(sender_localpart@) ==> r == MatrixRoute::Ignore,
{
    let m = match_room_localpart(room_localpart);
    if m == RoomMatch::NotBridged {
        return MatrixRoute::Ignore;
    }
    if is_virtual_localpart(sender_localpart) || kind == MatrixEventKind::Other {
        return MatrixRoute::Ignore;
    }
    match m {
        RoomMatch::Group(g) => MatrixRoute::Forward(g),
        _ => MatrixRoute::BadGroupId,
    }
}

/// Nothing that a virtual user posts is forwarded back to a group, whatever
/// the room and the kind of the event.
pub proof fn lemma_no_echo(user_id: i64, room: Seq<char>, kind: MatrixEventKind)
    ensures
        route_spec(room, virtual_localpart(user_id as int), kind) == MatrixRoute::Ignore,
{
    let s = virtual_localpart(user_id as int);
    assert(s.subrange(0, 4) =~= crate::ids::prefix_view());
}

pub open spec fn qq_text_spec(username: Seq<char>, text: Seq<char>) -> Seq<char> {
    username + seq![':', ' '] + text
}

/// The text sent to a group for a text message of `username`:
/// `<username>: <text>`.
pub fn qq_text(username: &str, text: &str) -> (r: String)
    ensures
        r@ == qq_text_spec(username@, text@),
{
    proof { reveal_strlit(": "); }
    let mut s = String::from_str(username);
    s.append(": ");
    s.append(text);
    s
}

} // verus!

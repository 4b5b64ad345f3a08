//! What to send over the chat service, and to which room.
//!
//! Nothing here talks to the chat service. Each method returns the request
//! that the caller is to send.

use vstd::prelude::*;
use vstd::string::StrSliceExecFns;

verus! {

/// What the chat service answers to a login.
#[derive(Clone, Debug, PartialEq, Eq)]
pub struct LoginResponse {
    pub access_token: String,
}

/// What the chat service answers when a room was created.
#[derive(Clone, Debug, PartialEq, Eq)]
pub struct CreateRoomResponse {
    pub room_id: String,
}

/// A chat session: the server, the token of the login, and the room that
/// takes messages with no better destination.
#[derive(Clone, Debug, PartialEq, Eq)]
pub struct MatrixBot {
    pub homeserver: String,
    pub access_token: String,
    pub default_channel_id: String,
}

/// Mathematical model of a [`MatrixBot`].
pub struct MatrixBotView {
    pub homeserver: Seq<char>,
    pub access_token: Seq<char>,
    pub default_channel_id: Seq<char>,
}

impl View for MatrixBot {
    type V = MatrixBotView;

    open spec fn view(&self) -> MatrixBotView {
        MatrixBotView {
            homeserver: self.homeserver@,
            access_token: self.access_token@,
            default_channel_id: self.default_channel_id@,
        }
    }
}

/// A message to post to a room.
#[derive(Clone, Debug, PartialEq, Eq)]
pub struct RoomMessage {
    pub homeserver: String,
    pub access_token: String,
    pub room_id: String,
    pub body: String,
}

/// Mathematical model of a [`RoomMessage`].
pub struct RoomMessageView {
    pub homeserver: Seq<char>,
    pub access_token: Seq<char>,
    pub room_id: Seq<char>,
    pub body: Seq<char>,
}

impl View for RoomMessage {
    type V = RoomMessageView;

    open spec fn view(&self) -> RoomMessageView {
        RoomMessageView {
            homeserver: self.homeserver@,
            access_token: self.access_token@,
            room_id: self.room_id@,
            body: self.body@,
        }
    }
}

/// An invitation of a user to a room.
#[derive(Clone, Debug, PartialEq, Eq)]
pub struct Invitation {
    pub homeserver: String,
    pub access_token: String,
    pub room_id: String,
    pub user_id: String,
}

/// Mathematical model of an [`Invitation`].
pub struct InvitationView {
    pub homeserver: Seq<char>,
    pub access_token: Seq<char>,
    pub room_id: Seq<char>,
    pub user_id: Seq<char>,
}

impl View for Invitation {
    type V = InvitationView;

    open spec fn view(&self) -> InvitationView {
        InvitationView {
            homeserver: self.homeserver@,
            access_token: self.access_token@,
            room_id: self.room_id@,
            user_id: self.user_id@,
        }
    }
}

/// How a private message reaches its user.
#[derive(Clone, Debug, PartialEq, Eq)]
pub enum PrivateMessage {
    /// The user has a room already: post there.
    ToRoom(RoomMessage),
    /// No usable room is on record: one has to be created first.
    NeedsRoom,
}

/// What follows the creation of a private room, in this order: record the
/// room under the user, invite the user, post the message.
#[derive(Clone, Debug, PartialEq, Eq)]
pub struct NewRoomSteps {
    pub mapping_key: Vec<u8>,
    pub mapping_value: Vec<u8>,
    pub invitation: Invitation,
    pub message: RoomMessage,
}

/// Where a message for a code-hosting login goes.
#[derive(Clone, Debug, PartialEq, Eq)]
pub enum Delivery {
    /// Privately, to the chat identity of the login.
    Private { user_id: String, msg: String },
    /// To the default room, because the login has no chat identity.
    Room(RoomMessage),
}

/// The model of the message that the session posts to a room.
pub open spec fn room_message(
    bot: MatrixBotView,
    room_id: Seq<char>,
    msg: Seq<char>,
) -> RoomMessageView {
    RoomMessageView {
        homeserver: bot.homeserver,
        access_token: bot.access_token,
        room_id,
        body: msg,
    }
}

/// `String::from_utf8` of std, with its error dropped: a string whose UTF-8
/// encoding is the given bytes if these are well-formed UTF-8, and nothing
/// otherwise.
#[verifier::external_body]
fn string_from_utf8(bytes: Vec<u8>) -> (text: Option<String>)
    ensures
        text is Some <==> vstd::utf8::valid_utf8(bytes@),
        text matches Some(s) ==> vstd::utf8::encode_utf8(s@) == bytes@,
{
    String::from_utf8(bytes).ok()
}

impl MatrixBot {
    /// The session that a successful login opened.
    pub fn new(homeserver: &str, login: LoginResponse, default_channel_id: &str) -> (bot: Self)
        ensures
            bot@ == (MatrixBotView {
                homeserver: homeserver@,
                access_token: login.access_token@,
                default_channel_id: default_channel_id@,
            }),
    {
        MatrixBot {
            homeserver: homeserver.to_owned(),
            access_token: login.access_token,
            default_channel_id: default_channel_id.to_owned(),
        }
    }

    /// The message `msg` for the room `room_id`.
    pub fn send_to_room(&self, room_id: &str, msg: &str) -> (request: RoomMessage)
        ensures
            request@ == room_message(self@, room_id@, msg@),
    {
        RoomMessage {
            homeserver: self.homeserver.clone(),
            access_token: self.access_token.clone(),
            room_id: room_id.to_owned(),
            body: msg.to_owned(),
        }
    }

    /// The message `msg` for the given room, or for the default room where
    /// none is given.
    pub fn send_to_room_or_default(&self, room_id: Option<&String>, msg: &str) -> (request:
        RoomMessage)
        ensures
            request@ == room_message(
                self@,
                match room_id {
                    Some(r) => r@,
                    None => self@.default_channel_id,
                },
                msg@,
            ),
    {
        match room_id {
            Some(r) => self.send_to_room(r.as_str(), msg),
            None => self.send_to_room(self.default_channel_id.as_str(), msg),
        }
    }

    /// The message `msg` for the default room.
    pub fn send_to_default(&self, msg: &str) -> (request: RoomMessage)
        ensures
            request@ == room_message(self@, self@.default_channel_id, msg@),
    {
        self.send_to_room(self.default_channel_id.as_str(), msg)
    }

    /// Routes a message for a code-hosting login: privately where the login
    /// has a chat identity, else to the default room.
    pub fn message_mapped_or_default(&self, matrix_id: Option<&String>, msg: &str) -> (delivery:
        Delivery)
        ensures
            match matrix_id {
                Some(id) => delivery matches Delivery::Private { user_id, msg: text }
                    && user_id@ == id@ && text@ == msg@,
                None => delivery matches Delivery::Room(request) && request@ == room_message(
                    self@,
                    self@.default_channel_id,
                    msg@,
                ),
            },
    {
        match matrix_id {
            Some(id) => Delivery::Private { user_id: id.clone(), msg: msg.to_owned() },
            None => Delivery::Room(self.send_to_default(msg)),
        }
    }

    /// Decides how a private message reaches its user, given what the store
    /// holds under the user's identity. A stored value that is well-formed
    /// UTF-8 names the room to post to; with no value, or one that is not
    /// text, a room has to be created.
    pub fn send_private_message(&self, stored_room: Option<Vec<u8>>, msg: &str) -> (plan:
        PrivateMessage)
        ensures
            match stored_room {
                Some(bytes) if vstd::utf8::valid_utf8(bytes@) => plan matches PrivateMessage::ToRoom(
                    request,
                ) && request@ == room_message(self@, vstd::utf8::decode_utf8(bytes@), msg@),
                _ => plan is NeedsRoom,
            },
    {
        match stored_room {
            Some(bytes) => match string_from_utf8(bytes) {
                Some(room_id) => {
                    proof {
                        vstd::utf8::encode_utf8_decode_utf8(room_id@);
                    }
                    PrivateMessage::ToRoom(self.send_to_room(room_id.as_str(), msg))
                },
                None => PrivateMessage::NeedsRoom,
            },
            None => PrivateMessage::NeedsRoom,
        }
    }

    /// What follows the creation of a private room for `user_id`: the room is
    /// recorded under the user's identity, the user is invited, and the
    /// message is posted to the new room.
    pub fn send_to_new_private_room(
        &self,
        created: CreateRoomResponse,
        user_id: &str,
        msg: &str,
    ) -> (steps: NewRoomSteps)
        ensures
            steps.mapping_key@ == vstd::utf8::encode_utf8(user_id@),
            steps.mapping_value@ == vstd::utf8::encode_utf8(created.room_id@),
            steps.invitation@ == (InvitationView {
                homeserver: self@.homeserver,
                access_token: self@.access_token,
                room_id: created.room_id@,
                user_id: user_id@,
            }),
            steps.message@ == room_message(self@, created.room_id@, msg@),
    {
        let message = self.send_to_room(created.room_id.as_str(), msg);
        NewRoomSteps {
            mapping_key: user_id.as_bytes_vec(),
            mapping_value: created.room_id.as_str().as_bytes_vec(),
            invitation: Invitation {
                homeserver: self.homeserver.clone(),
                access_token: self.access_token.clone(),
                room_id: created.room_id,
                user_id: user_id.to_owned(),
            },
            message,
        }
    }
}

} // verus!

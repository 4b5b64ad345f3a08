use processbot::matrix_bot::{
    CreateRoomResponse, Delivery, Invitation, LoginResponse, MatrixBot, PrivateMessage,
    RoomMessage,
};

fn session() -> MatrixBot {
    MatrixBot::new(
        "https://chat.example.org",
        LoginResponse { access_token: "token-1".to_owned() },
        "!default:example.org",
    )
}

fn message(room: &str, body: &str) -> RoomMessage {
    RoomMessage {
        homeserver: "https://chat.example.org".to_owned(),
        access_token: "token-1".to_owned(),
        room_id: room.to_owned(),
        body: body.to_owned(),
    }
}

#[test]
fn new_keeps_server_token_and_default_room() {
    let bot = session();
    assert_eq!(bot.homeserver, "https://chat.example.org");
    assert_eq!(bot.access_token, "token-1");
    assert_eq!(bot.default_channel_id, "!default:example.org");
}

#[test]
fn send_to_room_addresses_the_given_room() {
    assert_eq!(session().send_to_room("!r:example.org", "hi"), message("!r:example.org", "hi"));
}

#[test]
fn send_to_room_or_default_prefers_the_given_room() {
    let room = "!r:example.org".to_owned();
    assert_eq!(
        session().send_to_room_or_default(Some(&room), "hi"),
        message("!r:example.org", "hi")
    );
    assert_eq!(
        session().send_to_room_or_default(None, "hi"),
        message("!default:example.org", "hi")
    );
}

#[test]
fn send_to_default_addresses_the_default_room() {
    assert_eq!(session().send_to_default("hello"), message("!default:example.org", "hello"));
}

#[test]
fn mapped_login_gets_a_private_message() {
    let id = "@alice:example.org".to_owned();
    assert_eq!(
        session().message_mapped_or_default(Some(&id), "psst"),
        Delivery::Private { user_id: "@alice:example.org".to_owned(), msg: "psst".to_owned() }
    );
}

#[test]
fn unmapped_login_falls_back_to_default_room() {
    assert_eq!(
        session().message_mapped_or_default(None, "psst"),
        Delivery::Room(message("!default:example.org", "psst"))
    );
}

#[test]
fn private_message_goes_to_the_stored_room() {
    let stored = "!private:example.org".as_bytes().to_vec();
    assert_eq!(
        session().send_private_message(Some(stored), "psst"),
        PrivateMessage::ToRoom(message("!private:example.org", "psst"))
    );
}

#[test]
fn private_message_decodes_multibyte_room_names() {
    let stored = "!caf\u{e9}-\u{1f600}:example.org".as_bytes().to_vec();
    assert_eq!(
        session().send_private_message(Some(stored), "psst"),
        PrivateMessage::ToRoom(message("!caf\u{e9}-\u{1f600}:example.org", "psst"))
    );
}

#[test]
fn private_message_needs_a_room_when_none_is_stored() {
    assert_eq!(session().send_private_message(None, "psst"), PrivateMessage::NeedsRoom);
}

#[test]
fn private_message_needs_a_room_when_stored_bytes_are_not_text() {
    assert_eq!(
        session().send_private_message(Some(vec![0x21, 0xff, 0xfe]), "psst"),
        PrivateMessage::NeedsRoom
    );
    assert_eq!(
        session().send_private_message(Some(vec![0xc3]), "psst"),
        PrivateMessage::NeedsRoom
    );
}

#[test]
fn new_private_room_is_recorded_then_user_invited_then_message_sent() {
    let steps = session().send_to_new_private_room(
        CreateRoomResponse { room_id: "!new:example.org".to_owned() },
        "@alice:example.org",
        "psst",
    );
    assert_eq!(steps.mapping_key, b"@alice:example.org".to_vec());
    assert_eq!(steps.mapping_value, b"!new:example.org".to_vec());
    assert_eq!(
        steps.invitation,
        Invitation {
            homeserver: "https://chat.example.org".to_owned(),
            access_token: "token-1".to_owned(),
            room_id: "!new:example.org".to_owned(),
            user_id: "@alice:example.org".to_owned(),
        }
    );
    assert_eq!(steps.message, message("!new:example.org", "psst"));
}

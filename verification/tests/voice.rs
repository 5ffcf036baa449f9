use vxserver::action::{Action, Outbound};
use vxserver::error::ServerError;
use vxserver::requests::voice::{frame, join, leave, leave_all, voice};
use vxserver::server::{Server, ServerConfig};
use vxserver::types::message::ServerMessage;
use vxserver::utils::client::{Client, SessionState};
use vxserver::utils::voice::Voice;

fn session(id: u64, user: &str) -> Client {
    Client { id, uuid: Some(user.to_string()), state: SessionState::Authenticated }
}

fn sorted(mut names: Vec<String>) -> Vec<String> {
    names.sort();
    names
}

fn members(registry: &Voice, channel: &str) -> Vec<String> {
    sorted(registry.get(channel).into_iter().cloned().collect())
}

#[test]
fn a_new_voice_registry_is_empty() {
    let registry = Voice::new();
    assert!(registry.get("general").is_empty());
    assert_eq!(registry.check("general", "alice"), None);
    assert_eq!(registry.find_user("alice"), None);
    assert!(registry.list().is_empty());
    assert!(registry.channels().is_empty());
}

#[test]
fn set_returns_the_id_under_which_the_user_is_found() {
    let mut registry = Voice::new();
    let id = registry.set("alice".to_string(), "general".to_string());
    assert_eq!(registry.check("general", "alice"), Some(id));
    let general = "general".to_string();
    assert_eq!(registry.find_user("alice"), Some((&general, id)));
    assert_eq!(members(&registry, "general"), vec!["alice".to_string()]);
}

#[test]
fn set_with_replaces_an_earlier_entry() {
    let mut registry = Voice::new();
    registry.set_with("alice".to_string(), "general".to_string(), 7);
    registry.set_with("alice".to_string(), "general".to_string(), 9);
    assert_eq!(registry.check("general", "alice"), Some(9));
    assert_eq!(members(&registry, "general"), vec!["alice".to_string()]);
}

#[test]
fn remove_returns_the_id_and_is_idempotent() {
    let mut registry = Voice::new();
    registry.set_with("alice".to_string(), "general".to_string(), 7);
    registry.set_with("bob".to_string(), "general".to_string(), 8);
    assert_eq!(registry.remove("general", "alice"), Some(7));
    assert_eq!(registry.remove("general", "alice"), None);
    assert_eq!(registry.remove("elsewhere", "bob"), None);
    assert_eq!(members(&registry, "general"), vec!["bob".to_string()]);
    assert_eq!(registry.check("general", "bob"), Some(8));
}

#[test]
fn an_emptied_channel_is_gone() {
    let mut registry = Voice::new();
    registry.set_with("alice".to_string(), "general".to_string(), 7);
    registry.set_with("bob".to_string(), "music".to_string(), 8);
    assert_eq!(registry.remove("general", "alice"), Some(7));
    assert!(registry.get("general").is_empty());
    assert_eq!(registry.channels(), vec!["music".to_string()]);
    assert_eq!(registry.check("general", "alice"), None);
}

#[test]
fn joining_and_leaving_in_turn_keeps_a_user_in_one_channel() {
    let mut registry = Voice::new();
    for channel in ["a", "b", "c", "a"] {
        registry.set("alice".to_string(), channel.to_string());
        let listed = registry.list();
        assert_eq!(listed.iter().filter(|p| p.user_id == "alice").count(), 1);
        assert_eq!(listed[0].channel_id, channel);
        assert!(registry.remove(channel, "alice").is_some());
        assert!(registry.list().is_empty());
        assert!(registry.channels().is_empty());
    }
}

#[test]
fn the_registry_does_not_refuse_a_second_channel() {
    let mut registry = Voice::new();
    registry.set_with("alice".to_string(), "a".to_string(), 1);
    registry.set_with("alice".to_string(), "b".to_string(), 2);
    assert_eq!(registry.check("a", "alice"), Some(1));
    assert_eq!(registry.check("b", "alice"), Some(2));
    let found = registry.find_user("alice").map(|(c, v)| (c.clone(), v));
    assert!(found == Some(("a".to_string(), 1)) || found == Some(("b".to_string(), 2)));
}

#[test]
fn list_names_everyone_once() {
    let mut registry = Voice::new();
    registry.set_with("alice".to_string(), "a".to_string(), 1);
    registry.set_with("bob".to_string(), "a".to_string(), 2);
    registry.set_with("carol".to_string(), "b".to_string(), 3);
    let mut listed: Vec<(String, String, u16)> =
        registry.list().into_iter().map(|p| (p.channel_id, p.user_id, p.voice_id)).collect();
    listed.sort();
    assert_eq!(
        listed,
        vec![
            ("a".to_string(), "alice".to_string(), 1),
            ("a".to_string(), "bob".to_string(), 2),
            ("b".to_string(), "carol".to_string(), 3),
        ]
    );
}

#[test]
fn remove_user_takes_the_user_out_everywhere() {
    let mut registry = Voice::new();
    registry.set_with("alice".to_string(), "a".to_string(), 1);
    registry.set_with("bob".to_string(), "a".to_string(), 2);
    registry.set_with("alice".to_string(), "b".to_string(), 3);
    let mut trail: Vec<(String, u16)> =
        registry.remove_user("alice").into_iter().map(|p| (p.channel_id, p.voice_id)).collect();
    trail.sort();
    assert_eq!(trail, vec![("a".to_string(), 1), ("b".to_string(), 3)]);
    assert_eq!(registry.find_user("alice"), None);
    assert_eq!(registry.check("a", "bob"), Some(2));
    assert_eq!(registry.channels(), vec!["a".to_string()]);
    assert!(registry.remove_user("alice").is_empty());
}

#[test]
fn frame_puts_the_relay_id_first_low_byte_first() {
    assert_eq!(frame(0x1234, &[9, 8, 7]), vec![0x34, 0x12, 9, 8, 7]);
    assert_eq!(frame(0, &[]), vec![0, 0]);
    assert_eq!(frame(0xffff, &[1]), vec![0xff, 0xff, 1]);
    assert_eq!(frame(0x0100, &[]), 0x0100u16.to_le_bytes().to_vec());
}

fn server_with(sessions: &[&Client]) -> Server {
    let mut server = Server::new_config(ServerConfig::default());
    for s in sessions {
        assert!(server.register(s));
    }
    server
}

#[test]
fn a_voice_frame_reaches_the_other_participants_only() {
    let a = session(1, "alice");
    let b = session(2, "bob");
    let c = session(3, "carol");
    let d = session(4, "dave");
    let mut server = server_with(&[&a, &b, &c, &d]);
    server.voice.set_with("alice".to_string(), "general".to_string(), 0xbeef);
    server.voice.set_with("bob".to_string(), "general".to_string(), 2);
    server.voice.set_with("carol".to_string(), "general".to_string(), 3);
    let payload = [1u8, 2, 3, 4, 5, 6, 7, 8, 9, 10];
    let actions = voice(&server, &a, &payload).unwrap();
    let mut framed = vec![0xef, 0xbe];
    framed.extend_from_slice(&payload);
    assert_eq!(framed.len(), 12);
    assert_eq!(
        actions,
        vec![
            Action::Send { client: 2, payload: Outbound::Binary(framed.clone()) },
            Action::Send { client: 3, payload: Outbound::Binary(framed) },
        ]
    );
}

#[test]
fn a_voice_frame_of_a_user_outside_voice_chat_is_dropped() {
    let a = session(1, "alice");
    let b = session(2, "bob");
    let mut server = server_with(&[&a, &b]);
    server.voice.set_with("bob".to_string(), "general".to_string(), 2);
    assert_eq!(voice(&server, &a, &[1, 2, 3]), Ok(Vec::new()));
}

#[test]
fn a_voice_frame_needs_a_user() {
    let server = server_with(&[]);
    let stranger = Client::new(9);
    assert_eq!(
        voice(&server, &stranger, &[1]),
        Err(ServerError::Internal("Client is not authenticated".to_string()))
    );
}

#[test]
fn join_tells_every_session() {
    let a = session(1, "alice");
    let b = session(2, "bob");
    let mut server = server_with(&[&a, &b]);
    let actions = join(&mut server, &a, "general").unwrap();
    let id = server.voice.check("general", "alice").unwrap();
    let news = ServerMessage::VoiceJoin {
        user_id: "alice".to_string(),
        channel_id: "general".to_string(),
        voice_id: id,
    };
    assert_eq!(
        actions,
        vec![
            Action::Send { client: 1, payload: Outbound::Message(news.clone()) },
            Action::Send { client: 2, payload: Outbound::Message(news) },
        ]
    );
}

#[test]
fn leave_tells_every_session_once() {
    let a = session(1, "alice");
    let b = session(2, "bob");
    let mut server = server_with(&[&a, &b]);
    server.voice.set_with("alice".to_string(), "general".to_string(), 5);
    let actions = leave(&mut server, &a, "general").unwrap();
    let news = ServerMessage::VoiceLeave {
        user_id: "alice".to_string(),
        channel_id: "general".to_string(),
        voice_id: 5,
    };
    assert_eq!(
        actions,
        vec![
            Action::Send { client: 1, payload: Outbound::Message(news.clone()) },
            Action::Send { client: 2, payload: Outbound::Message(news) },
        ]
    );
    assert!(server.voice.get("general").is_empty());
    assert_eq!(leave(&mut server, &a, "general"), Ok(Vec::new()));
}

#[test]
fn join_and_leave_need_a_user() {
    let mut server = server_with(&[]);
    let stranger = Client::new(9);
    let refused = Err(ServerError::Internal("Client is not authenticated".to_string()));
    assert_eq!(join(&mut server, &stranger, "general"), refused);
    assert_eq!(leave(&mut server, &stranger, "general"), refused);
    assert!(server.voice.channels().is_empty());
}

#[test]
fn leave_all_clears_a_failed_session_out_of_voice_chat() {
    let a = session(1, "alice");
    let b = session(2, "bob");
    let mut server = server_with(&[&b]);
    server.voice.set_with("alice".to_string(), "general".to_string(), 5);
    server.voice.set_with("bob".to_string(), "general".to_string(), 6);
    let actions = leave_all(&mut server, &a);
    assert_eq!(
        actions,
        vec![Action::Send {
            client: 2,
            payload: Outbound::Message(ServerMessage::VoiceLeave {
                user_id: "alice".to_string(),
                channel_id: "general".to_string(),
                voice_id: 5,
            }),
        }]
    );
    assert_eq!(server.voice.find_user("alice"), None);
    assert_eq!(server.voice.check("general", "bob"), Some(6));
    assert_eq!(leave_all(&mut server, &a), Vec::new());
    assert_eq!(leave_all(&mut server, &Client::new(3)), Vec::new());
}

use vxserver::action::{Action, Outbound, PluginStep};
use vxserver::error::ServerError;
use vxserver::plugin::types::LoaderMessage;
use vxserver::plugin::Plugin;
use vxserver::requests::chunk::{chunk_loaded, load_chunk, window, CHUNK_SIZE};
use vxserver::requests::indicator::{start_typing, Indicator, IndicatorContext, TYPING_EXPIRES};
use vxserver::requests::message::{
    delete, delete_found, edit, edit_found, may_change, send, send_at, sent,
};
use vxserver::requests::{Pending, Step};
use vxserver::server::{Server, ServerConfig};
use vxserver::types::data::Message;
use vxserver::types::message::{ClientMessage, ResponseError, ServerMessage, WsMessage};
use vxserver::utils::client::{Client, SessionState};
use vxserver::utils::database::{StoreAnswer, StoreRequest};

fn user_session(id: u64, user: &str) -> Client {
    Client { id, uuid: Some(user.to_string()), state: SessionState::Authenticated }
}

fn server_of(sessions: &[&Client]) -> Server {
    let mut server = Server::new_config(ServerConfig::default());
    for s in sessions {
        assert!(server.register(s));
    }
    server
}

fn listening_plugin(id: &str, conn: u64) -> Plugin {
    let mut plugin = Plugin::spawned(id.to_string());
    assert!(plugin.attach(conn));
    plugin
}

fn message(id: i64, channel: &str, from: &str, contents: &str) -> Message {
    Message {
        id,
        channel_id: channel.to_string(),
        from: from.to_string(),
        contents: contents.to_string(),
        timestamp: 1_700_000_000 + id,
    }
}

#[test]
fn an_empty_message_is_refused_towards_the_sender_only() {
    let alice = user_session(1, "alice");
    let bob = user_session(2, "bob");
    let server = server_of(&[&alice, &bob]);
    let step = send_at(&server, &alice, "general", "", 5).unwrap();
    assert_eq!(
        step,
        Step {
            actions: vec![Action::Send {
                client: 1,
                payload: Outbound::Error(ResponseError::InvalidRequest(
                    "Invalid message: empty message".to_string()
                )),
            }],
            store: None,
        }
    );
    assert_eq!(send(&server, &alice, "general", "").unwrap(), step);
}

#[test]
fn an_empty_message_is_refused_before_the_user_is_asked_for() {
    let server = server_of(&[]);
    let stranger = Client::new(4);
    let step = send_at(&server, &stranger, "general", "", 5).unwrap();
    assert_eq!(step.store, None);
    assert_eq!(step.actions.len(), 1);
}

#[test]
fn a_message_is_handed_to_the_store_under_the_senders_name() {
    let alice = user_session(1, "alice");
    let server = server_of(&[&alice]);
    let step = send_at(&server, &alice, "general", "hello", 1_700_000_123).unwrap();
    assert_eq!(
        step,
        Step {
            actions: Vec::new(),
            store: Some((
                StoreRequest::InsertMessage {
                    channel_id: "general".to_string(),
                    user_id: "alice".to_string(),
                    contents: "hello".to_string(),
                    timestamp: 1_700_000_123,
                },
                Pending::Created,
            )),
        }
    );
}

#[test]
fn send_stamps_the_message_with_the_clock() {
    let alice = user_session(1, "alice");
    let server = server_of(&[&alice]);
    let step = send(&server, &alice, "general", "hello").unwrap();
    assert!(step.actions.is_empty());
    match step.store {
        Some((StoreRequest::InsertMessage { channel_id, user_id, contents, timestamp }, Pending::Created)) => {
            assert_eq!(channel_id, "general");
            assert_eq!(user_id, "alice");
            assert_eq!(contents, "hello");
            // Later than the first of January 2020.
            assert!(timestamp > 1_577_836_800);
        }
        other => panic!("unexpected step: {:?}", other),
    }
}

#[test]
fn a_message_needs_a_user() {
    let server = server_of(&[]);
    let stranger = Client::new(4);
    assert_eq!(
        send_at(&server, &stranger, "general", "hello", 5),
        Err(ServerError::Internal("Client is not authenticated".to_string()))
    );
}

#[test]
fn a_stored_message_reaches_every_session_once_and_then_the_plugins() {
    let alice = user_session(1, "alice");
    let bob = user_session(2, "bob");
    let carol = user_session(3, "carol");
    let mut server = server_of(&[&alice, &bob, &carol]);
    assert!(server.add_plugin(listening_plugin("echo", 10)));
    let mut deaf = listening_plugin("deaf", 11);
    deaf.stop();
    assert!(server.add_plugin(deaf));
    let stored = message(41, "general", "alice", "hello");
    let actions = sent(&server, &alice, &stored);
    let created = Outbound::Message(ServerMessage::MessageCreate(stored.clone()));
    assert_eq!(
        actions,
        vec![
            Action::Send { client: 1, payload: created.clone() },
            Action::Send { client: 2, payload: created.clone() },
            Action::Send { client: 3, payload: created },
            Action::Plugin {
                plugin: "echo".to_string(),
                step: PluginStep::Send(LoaderMessage::MessageSent {
                    user_id: "alice".to_string(),
                    msg: stored,
                }),
            },
        ]
    );
}

#[test]
fn the_whole_way_of_a_message() {
    let mut alice = user_session(1, "alice");
    let bob = user_session(2, "bob");
    let mut server = server_of(&[&alice, &bob]);
    let request = WsMessage::Message(ClientMessage::SendMessage {
        channel_id: "general".to_string(),
        contents: "hello".to_string(),
    });
    let step = server.handle_client(&mut alice, &request);
    assert!(step.actions.is_empty());
    let (asked, pending) = step.store.unwrap();
    let timestamp = match asked {
        StoreRequest::InsertMessage { timestamp, .. } => timestamp,
        other => panic!("unexpected request: {:?}", other),
    };
    let stored = Message {
        id: 1,
        channel_id: "general".to_string(),
        from: "alice".to_string(),
        contents: "hello".to_string(),
        timestamp,
    };
    let step = server.resume_client(&mut alice, pending, Ok(StoreAnswer::Inserted(stored.clone())));
    let created = Outbound::Message(ServerMessage::MessageCreate(stored));
    assert_eq!(
        step,
        Step {
            actions: vec![
                Action::Send { client: 1, payload: created.clone() },
                Action::Send { client: 2, payload: created },
            ],
            store: None,
        }
    );
    assert_eq!(alice.state, SessionState::Authenticated);
}

#[test]
fn edit_and_delete_look_the_message_up_first() {
    let alice = user_session(1, "alice");
    let server = server_of(&[&alice]);
    assert_eq!(
        edit(&server, &alice, 7, "new").unwrap(),
        Step {
            actions: Vec::new(),
            store: Some((
                StoreRequest::GetMessageById { message_id: 7 },
                Pending::Edit { message_id: 7, new_contents: "new".to_string() },
            )),
        }
    );
    assert_eq!(
        delete(&server, &alice, 7).unwrap(),
        Step {
            actions: Vec::new(),
            store: Some((StoreRequest::GetMessageById { message_id: 7 }, Pending::Delete { message_id: 7 })),
        }
    );
}

#[test]
fn the_author_may_edit_and_delete() {
    let alice = user_session(1, "alice");
    let server = server_of(&[&alice]);
    let found = Some(message(7, "general", "alice", "old"));
    assert_eq!(may_change(&alice, &found), Ok(()));
    assert_eq!(
        edit_found(&server, &alice, 7, "new", &found).unwrap(),
        Step {
            actions: Vec::new(),
            store: Some((
                StoreRequest::EditMessage { message_id: 7, contents: "new".to_string() },
                Pending::Written,
            )),
        }
    );
    assert_eq!(
        delete_found(&server, &alice, 7, &found).unwrap(),
        Step {
            actions: Vec::new(),
            store: Some((StoreRequest::DeleteMessage { message_id: 7 }, Pending::Written)),
        }
    );
}

#[test]
fn nobody_else_may_edit_or_delete() {
    let bob = user_session(2, "bob");
    let server = server_of(&[&bob]);
    let found = Some(message(7, "general", "alice", "old"));
    let refused = ServerError::Unauthorized("You are not the author of this message".to_string());
    assert_eq!(may_change(&bob, &found), Err(refused.clone()));
    assert_eq!(edit_found(&server, &bob, 7, "new", &found), Err(refused.clone()));
    assert_eq!(delete_found(&server, &bob, 7, &found), Err(refused));
}

#[test]
fn a_message_that_is_not_there_cannot_be_changed() {
    let alice = user_session(1, "alice");
    let server = server_of(&[&alice]);
    let missing = ServerError::NotFound("Message does not exist".to_string());
    assert_eq!(may_change(&alice, &None), Err(missing.clone()));
    assert_eq!(edit_found(&server, &alice, 7, "new", &None), Err(missing.clone()));
    assert_eq!(delete_found(&server, &alice, 7, &None), Err(missing));
}

#[test]
fn changing_a_message_needs_a_user() {
    let stranger = Client::new(3);
    let found = Some(message(7, "general", "alice", "old"));
    assert_eq!(
        may_change(&stranger, &found),
        Err(ServerError::Internal("Client is not authenticated".to_string()))
    );
    // That the message is missing is found out first.
    assert_eq!(
        may_change(&stranger, &None),
        Err(ServerError::NotFound("Message does not exist".to_string()))
    );
}

#[test]
fn an_edit_by_someone_else_asks_nothing_of_the_store_and_ends_the_session() {
    let alice = user_session(1, "alice");
    let mut bob = user_session(2, "bob");
    let mut server = server_of(&[&alice, &bob]);
    let request = WsMessage::Message(ClientMessage::EditMessage {
        message_id: 7,
        new_contents: "mine now".to_string(),
    });
    let step = server.handle_client(&mut bob, &request);
    assert!(step.actions.is_empty());
    let (asked, pending) = step.store.unwrap();
    assert_eq!(asked, StoreRequest::GetMessageById { message_id: 7 });
    let found = StoreAnswer::Found(Some(message(7, "general", "alice", "old")));
    let step = server.resume_client(&mut bob, pending, Ok(found));
    assert_eq!(
        step,
        Step {
            actions: vec![
                Action::Send {
                    client: 2,
                    payload: Outbound::Error(ResponseError::InternalError(
                        "You are not the author of this message".to_string()
                    )),
                },
                Action::Close { client: 2 },
            ],
            store: None,
        }
    );
    assert_eq!(bob.state, SessionState::Closed);
    assert_eq!(server.clients, vec![alice]);
}

#[test]
fn a_deletion_of_a_message_that_is_not_there_ends_the_session() {
    let mut alice = user_session(1, "alice");
    let mut server = server_of(&[&alice]);
    let request = WsMessage::Message(ClientMessage::DeleteMessage { message_id: 7 });
    let step = server.handle_client(&mut alice, &request);
    let (_, pending) = step.store.unwrap();
    let step = server.resume_client(&mut alice, pending, Ok(StoreAnswer::Found(None)));
    assert_eq!(
        step,
        Step {
            actions: vec![
                Action::Send {
                    client: 1,
                    payload: Outbound::Error(ResponseError::InternalError(
                        "Message does not exist".to_string()
                    )),
                },
                Action::Close { client: 1 },
            ],
            store: None,
        }
    );
    assert!(server.clients.is_empty());
}

#[test]
fn a_deletion_by_the_author_goes_through() {
    let mut alice = user_session(1, "alice");
    let mut server = server_of(&[&alice]);
    let request = WsMessage::Message(ClientMessage::DeleteMessage { message_id: 7 });
    let step = server.handle_client(&mut alice, &request);
    let (_, pending) = step.store.unwrap();
    let found = StoreAnswer::Found(Some(message(7, "general", "alice", "old")));
    let step = server.resume_client(&mut alice, pending, Ok(found));
    assert!(step.actions.is_empty());
    let (asked, pending) = step.store.unwrap();
    assert_eq!(asked, StoreRequest::DeleteMessage { message_id: 7 });
    let step = server.resume_client(&mut alice, pending, Ok(StoreAnswer::Done));
    assert_eq!(step, Step { actions: Vec::new(), store: None });
}

#[test]
fn a_chunk_is_asked_for_on_behalf_of_the_requester() {
    let alice = user_session(1, "alice");
    let server = server_of(&[&alice]);
    assert_eq!(
        load_chunk(&server, &alice, "general", 3).unwrap(),
        Step {
            actions: Vec::new(),
            store: Some((
                StoreRequest::GetChunk {
                    user_id: "alice".to_string(),
                    channel_id: "general".to_string(),
                    limit: 50,
                    offset: 150,
                },
                Pending::Chunk { channel_id: "general".to_string() },
            )),
        }
    );
    assert_eq!(
        load_chunk(&server, &Client::new(2), "general", 3),
        Err(ServerError::Internal("Client is not authenticated".to_string()))
    );
}

#[test]
fn the_window_of_a_page() {
    assert_eq!(CHUNK_SIZE, 50);
    assert_eq!(window(0), (50, 0));
    assert_eq!(window(1), (50, 50));
    assert_eq!(window(7), (50, 350));
    assert_eq!(window(184_467_440_737_095_516), (50, 9_223_372_036_854_775_800));
    assert_eq!(window(184_467_440_737_095_517), (50, i64::MAX));
    assert_eq!(window(usize::MAX), (50, i64::MAX));
}

#[test]
fn a_chunk_runs_from_the_newest_message_to_the_oldest() {
    let alice = user_session(1, "alice");
    let rows = vec![
        message(1, "general", "alice", "one"),
        message(2, "general", "bob", "two"),
        message(5, "general", "alice", "five"),
    ];
    let actions = chunk_loaded(&alice, "general", rows);
    assert_eq!(
        actions,
        vec![Action::Send {
            client: 1,
            payload: Outbound::Message(ServerMessage::Chunk(vec![
                message(5, "general", "alice", "five"),
                message(2, "general", "bob", "two"),
                message(1, "general", "alice", "one"),
            ])),
        }]
    );
}

#[test]
fn a_chunk_never_holds_a_message_of_another_channel() {
    let alice = user_session(1, "alice");
    let rows = vec![
        message(1, "general", "alice", "one"),
        message(2, "secret", "bob", "two"),
        message(3, "general", "carol", "three"),
        message(4, "secret", "bob", "four"),
    ];
    let actions = chunk_loaded(&alice, "general", rows);
    assert_eq!(
        actions,
        vec![Action::Send {
            client: 1,
            payload: Outbound::Message(ServerMessage::Chunk(vec![
                message(3, "general", "carol", "three"),
                message(1, "general", "alice", "one"),
            ])),
        }]
    );
    let nothing = chunk_loaded(&alice, "general", Vec::new());
    assert_eq!(
        nothing,
        vec![Action::Send { client: 1, payload: Outbound::Message(ServerMessage::Chunk(Vec::new())) }]
    );
}

#[test]
fn typing_reaches_the_scope_of_the_user_and_of_the_channel() {
    let alice = user_session(1, "alice");
    let alice_again = user_session(2, "alice");
    let bob = user_session(3, "bob");
    let general = user_session(4, "general");
    let server = server_of(&[&alice, &alice_again, &bob, &general]);
    let actions = start_typing(&server, &alice, "general").unwrap();
    let indicator = Outbound::Message(ServerMessage::Indicator(IndicatorContext {
        indicator: Indicator::Typing { user_id: "alice".to_string(), channel_id: "general".to_string() },
        expires: 2,
    }));
    assert_eq!(TYPING_EXPIRES, 2);
    assert_eq!(
        actions,
        vec![
            Action::Send { client: 1, payload: indicator.clone() },
            Action::Send { client: 2, payload: indicator.clone() },
            Action::Send { client: 4, payload: indicator },
        ]
    );
    assert_eq!(
        start_typing(&server, &Client::new(9), "general"),
        Err(ServerError::Internal("Client is not authenticated".to_string()))
    );
}

#[test]
fn free_text_is_ignored() {
    let mut alice = user_session(1, "alice");
    let mut server = server_of(&[&alice]);
    let step = server.handle_client(&mut alice, &WsMessage::String("hello?".to_string()));
    assert_eq!(step, Step { actions: Vec::new(), store: None });
}

#[test]
fn an_answer_that_does_not_fit_is_an_error() {
    let alice = user_session(1, "alice");
    let server = server_of(&[&alice]);
    let unexpected = ServerError::Internal("Unexpected answer from the message store".to_string());
    assert_eq!(server.resume(&alice, Pending::Created, StoreAnswer::Done), Err(unexpected.clone()));
    assert_eq!(
        server.resume(&alice, Pending::Written, StoreAnswer::Rows(Vec::new())),
        Err(unexpected.clone())
    );
    assert_eq!(
        server.resume(&alice, Pending::Chunk { channel_id: "general".to_string() }, StoreAnswer::Found(None)),
        Err(unexpected)
    );
}

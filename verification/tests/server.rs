use vxserver::action::{Action, Outbound, PluginStep};
use vxserver::error::ServerError;
use vxserver::plugin::types::LoaderMessage;
use vxserver::plugin::{Plugin, PluginState};
use vxserver::requests::{Pending, Step};
use vxserver::server::{Server, ServerConfig};
use vxserver::types::message::{ClientMessage, ResponseError, ServerMessage, WsMessage};
use vxserver::utils::auth;
use vxserver::utils::client::{Client, SessionState};
use vxserver::utils::database::StoreAnswer;
use vxserver::utils::logger::Logger;

fn guest(id: u64, user: &str) -> Client {
    Client { id, uuid: Some(user.to_string()), state: SessionState::Authenticated }
}

fn linked(id: &str, conn: u64) -> Plugin {
    let mut plugin = Plugin::spawned(id.to_string());
    assert!(plugin.attach(conn));
    plugin
}

fn goodbye(id: u64) -> Vec<Action> {
    vec![
        Action::Send {
            client: id,
            payload: Outbound::Message(ServerMessage::Shutdown {
                message: "Server shutting down... we'll be back shortly".to_string(),
            }),
        },
        Action::Close { client: id },
    ]
}

#[test]
fn the_default_configuration() {
    let config = ServerConfig::default();
    assert_eq!(config.port, 7080);
    assert_eq!(config.server_name, "Server Name");
    assert_eq!(config.server_id, "important");
    assert_eq!(config.server_key, "important");
    assert!(config.channels.is_empty());
    assert_eq!(config.clone(), config);
}

#[test]
fn a_new_server_is_empty_and_running() {
    let server = ServerConfig::default().build();
    assert!(server.clients.is_empty());
    assert!(server.plugins.is_empty());
    assert!(server.voice.channels().is_empty());
    assert!(!server.shutting_down);
    assert_eq!(server.config, ServerConfig::default());
}

#[test]
fn only_an_authenticated_session_is_registered() {
    let mut server = ServerConfig::default().build();
    assert!(!server.register(&Client::new(1)));
    let mut half = Client::new(2);
    half.set_uuid("alice");
    assert_eq!(half.get_uuid(), Ok("alice".to_string()));
    assert!(!server.register(&half));
    let nameless = Client { id: 3, uuid: None, state: SessionState::Authenticated };
    assert!(!server.register(&nameless));
    assert!(server.clients.is_empty());
    assert!(server.register(&guest(4, "alice")));
    assert_eq!(server.clients.len(), 1);
}

#[test]
fn the_registry_holds_each_session_once() {
    let mut server = ServerConfig::default().build();
    assert!(server.register(&guest(1, "alice")));
    assert!(server.register(&guest(2, "bob")));
    assert!(server.register(&guest(1, "alice")));
    assert_eq!(server.clients.len(), 2);
    assert_eq!(server.client_index(1), Some(1));
    assert_eq!(server.client_index(2), Some(0));
    assert_eq!(server.client_index(3), None);
}

#[test]
fn removing_a_session_is_idempotent() {
    let mut server = ServerConfig::default().build();
    assert!(server.register(&guest(1, "alice")));
    assert!(server.register(&guest(2, "bob")));
    assert!(server.remove(1));
    assert!(!server.remove(1));
    assert!(!server.remove(7));
    assert_eq!(server.clients, vec![guest(2, "bob")]);
}

#[test]
fn a_broadcast_reaches_every_session_in_turn() {
    let mut server = ServerConfig::default().build();
    assert_eq!(server.broadcast(ServerMessage::Shutdown { message: "x".to_string() }), Vec::new());
    for (id, user) in [(3, "carol"), (1, "alice"), (2, "bob")] {
        assert!(server.register(&guest(id, user)));
    }
    let news = ServerMessage::PresenceUpdate { user_id: "alice".to_string(), status: "away".to_string() };
    let payload = Outbound::Message(news.clone());
    assert_eq!(
        server.broadcast(news),
        vec![
            Action::Send { client: 3, payload: payload.clone() },
            Action::Send { client: 1, payload: payload.clone() },
            Action::Send { client: 2, payload },
        ]
    );
}

#[test]
fn a_targeted_broadcast_reaches_the_sessions_of_the_targets() {
    let mut server = ServerConfig::default().build();
    for (id, user) in [(1, "alice"), (2, "bob"), (3, "alice"), (4, "carol")] {
        assert!(server.register(&guest(id, user)));
    }
    let alice = "alice".to_string();
    let carol = "carol".to_string();
    let dave = "dave".to_string();
    let news = ServerMessage::MessageDelete { channel_id: "general".to_string(), message_id: 8 };
    let payload = Outbound::Message(news.clone());
    assert_eq!(
        server.broadcast_to(&[&carol, &alice, &dave, &alice], news.clone()),
        vec![
            Action::Send { client: 1, payload: payload.clone() },
            Action::Send { client: 3, payload: payload.clone() },
            Action::Send { client: 4, payload },
        ]
    );
    assert_eq!(server.broadcast_to(&[], news), Vec::new());
    assert_eq!(
        server.broadcast_bin_to(&[&dave, &carol], vec![1, 2]),
        vec![Action::Send { client: 4, payload: Outbound::Binary(vec![1, 2]) }]
    );
}

#[test]
fn every_error_removes_the_session_and_tells_of_an_internal_error() {
    for error in [
        ServerError::Io("reset".to_string()),
        ServerError::Internal("disk full".to_string()),
        ServerError::Protocol("what".to_string()),
        ServerError::Auth("no".to_string()),
        ServerError::NotFound("gone".to_string()),
        ServerError::Unauthorized("hands off".to_string()),
    ] {
        let text = error.message();
        let mut server = ServerConfig::default().build();
        let mut alice = guest(1, "alice");
        assert!(server.register(&alice));
        assert!(server.register(&guest(2, "bob")));
        let (result, actions) = server.wrap_err::<u8>(&mut alice, Err(error.clone()));
        // The typed error reaches the caller as it came.
        assert_eq!(result, Err(error));
        assert_eq!(
            actions,
            vec![
                Action::Send { client: 1, payload: Outbound::Error(ResponseError::InternalError(text)) },
                Action::Close { client: 1 },
            ]
        );
        assert_eq!(alice.state, SessionState::Closed);
        assert_eq!(server.clients, vec![guest(2, "bob")]);
    }
}

#[test]
fn the_text_of_an_error() {
    assert_eq!(ServerError::NotFound("gone".to_string()).message(), "gone");
    assert_eq!(ServerError::Io("reset".to_string()).message(), "reset");
}

#[test]
fn an_error_on_a_session_that_is_not_registered_still_closes_it() {
    let mut server = ServerConfig::default().build();
    assert!(server.register(&guest(2, "bob")));
    let mut stranger = Client::new(7);
    let (_, actions) = server.wrap_err::<u8>(&mut stranger, Err(ServerError::Io("reset".to_string())));
    assert_eq!(actions.len(), 2);
    assert_eq!(stranger.state, SessionState::Closed);
    assert_eq!(server.clients, vec![guest(2, "bob")]);
}

#[test]
fn a_failed_write_takes_the_user_out_of_the_registry_and_of_voice_chat() {
    let mut server = ServerConfig::default().build();
    let alice = guest(1, "alice");
    assert!(server.register(&alice));
    assert!(server.register(&guest(2, "bob")));
    server.voice.set_with("alice".to_string(), "lounge".to_string(), 5);
    server.voice.set_with("bob".to_string(), "lounge".to_string(), 6);
    server.voice.set_with("alice".to_string(), "solo".to_string(), 7);
    let actions = server.write_failed(&alice);
    assert_eq!(server.clients, vec![guest(2, "bob")]);
    assert_eq!(server.voice.find_user("alice"), None);
    assert_eq!(server.voice.check("lounge", "bob"), Some(6));
    assert_eq!(server.voice.channels(), vec!["lounge".to_string()]);
    let mut left: Vec<(String, u16)> = Vec::new();
    for action in &actions {
        match action {
            Action::Send {
                client: 2,
                payload: Outbound::Message(ServerMessage::VoiceLeave { user_id, channel_id, voice_id }),
            } => {
                assert_eq!(user_id, "alice");
                left.push((channel_id.clone(), *voice_id));
            }
            other => panic!("unexpected action: {:?}", other),
        }
    }
    left.sort();
    assert_eq!(left, vec![("lounge".to_string(), 5), ("solo".to_string(), 7)]);
    // Once more, nothing is left to do.
    assert_eq!(server.write_failed(&alice), Vec::new());
}

#[test]
fn a_failed_write_is_dealt_with_by_the_sessions_handle() {
    let mut server = ServerConfig::default().build();
    assert!(server.register(&guest(1, "alice")));
    assert!(server.register(&guest(2, "bob")));
    server.voice.set_with("alice".to_string(), "lounge".to_string(), 5);
    let actions = server.write_failed_to(1);
    assert_eq!(
        actions,
        vec![Action::Send {
            client: 2,
            payload: Outbound::Message(ServerMessage::VoiceLeave {
                user_id: "alice".to_string(),
                channel_id: "lounge".to_string(),
                voice_id: 5,
            }),
        }]
    );
    assert_eq!(server.clients, vec![guest(2, "bob")]);
    assert!(server.voice.channels().is_empty());
    // A session that is not registered is in nobody's view.
    server.voice.set_with("carol".to_string(), "lounge".to_string(), 9);
    assert_eq!(server.write_failed_to(7), Vec::new());
    assert_eq!(server.voice.check("lounge", "carol"), Some(9));
    assert_eq!(server.clients.len(), 1);
}

#[test]
fn a_success_passes_through() {
    let mut server = ServerConfig::default().build();
    let mut alice = guest(1, "alice");
    assert!(server.register(&alice));
    let (result, actions) = server.wrap_err(&mut alice, Ok(42));
    assert_eq!(result, Ok(42));
    assert!(actions.is_empty());
    assert_eq!(server.clients.len(), 1);
}

#[test]
fn a_failing_store_ends_the_session() {
    let mut server = ServerConfig::default().build();
    let mut alice = guest(1, "alice");
    assert!(server.register(&alice));
    let step = server.resume_client(&mut alice, Pending::Created, Err("database is locked".to_string()));
    assert_eq!(
        step,
        Step {
            actions: vec![
                Action::Send {
                    client: 1,
                    payload: Outbound::Error(ResponseError::InternalError("database is locked".to_string())),
                },
                Action::Close { client: 1 },
            ],
            store: None,
        }
    );
    assert_eq!(alice.state, SessionState::Closed);
    assert!(server.clients.is_empty());
}

#[test]
fn a_request_without_a_user_ends_the_session() {
    let mut server = ServerConfig::default().build();
    let mut nobody = Client::new(8);
    let request = WsMessage::Message(ClientMessage::Typing { channel_id: "general".to_string() });
    let step = server.handle_client(&mut nobody, &request);
    assert_eq!(
        step.actions,
        vec![
            Action::Send {
                client: 8,
                payload: Outbound::Error(ResponseError::InternalError(
                    "Client is not authenticated".to_string()
                )),
            },
            Action::Close { client: 8 },
        ]
    );
    assert_eq!(nobody.state, SessionState::Closed);
}

#[test]
fn the_shutdown_tells_and_closes_everyone_and_stops_every_plugin() {
    let mut server = ServerConfig::default().build();
    assert!(server.register(&guest(1, "alice")));
    assert!(server.register(&guest(2, "bob")));
    assert!(server.add_plugin(linked("echo", 4)));
    let mut done = linked("done", 5);
    done.stop();
    assert!(server.add_plugin(done));
    let actions = server.shutdown();
    let mut expected = goodbye(1);
    expected.extend(goodbye(2));
    expected.push(Action::Plugin { plugin: "echo".to_string(), step: PluginStep::Send(LoaderMessage::Shutdown) });
    expected.push(Action::Plugin { plugin: "echo".to_string(), step: PluginStep::CloseStream });
    expected.push(Action::Plugin { plugin: "echo".to_string(), step: PluginStep::Kill });
    expected.push(Action::Exit);
    assert_eq!(actions, expected);
    assert!(server.shutting_down);
    assert!(server.clients.is_empty());
    assert!(server.plugins.iter().all(|p| p.state == PluginState::Stopped));
}

#[test]
fn a_second_shutdown_does_nothing() {
    let mut server = ServerConfig::default().build();
    assert!(server.register(&guest(1, "alice")));
    assert!(server.add_plugin(linked("echo", 4)));
    let mut both = server.shutdown();
    both.extend(server.shutdown());
    let mut expected = goodbye(1);
    expected.push(Action::Plugin { plugin: "echo".to_string(), step: PluginStep::Send(LoaderMessage::Shutdown) });
    expected.push(Action::Plugin { plugin: "echo".to_string(), step: PluginStep::CloseStream });
    expected.push(Action::Plugin { plugin: "echo".to_string(), step: PluginStep::Kill });
    expected.push(Action::Exit);
    // Every part of the shutdown occurs once over both calls.
    for part in &expected {
        assert_eq!(both.iter().filter(|a| *a == part).count(), 1);
    }
    assert_eq!(both.len(), expected.len());
    assert_eq!(server.shutdown(), Vec::new());
    assert!(server.shutting_down);
}

#[test]
fn a_session_that_registers_after_the_shutdown_is_not_parted_from() {
    let mut server = ServerConfig::default().build();
    server.shutdown();
    assert!(server.register(&guest(1, "alice")));
    assert_eq!(server.shutdown(), Vec::new());
    assert_eq!(server.clients.len(), 1);
}

#[test]
fn nothing_is_handled_once_the_server_shuts_down() {
    let mut server = ServerConfig::default().build();
    let mut alice = guest(1, "alice");
    assert!(server.register(&alice));
    server.shutdown();
    let request = WsMessage::Message(ClientMessage::JoinVoice { channel_id: "lounge".to_string() });
    assert_eq!(server.handle_client(&mut alice, &request), Step { actions: Vec::new(), store: None });
    assert!(server.voice.channels().is_empty());
}

#[test]
fn an_answer_of_the_store_is_taken_by_what_is_pending() {
    let mut server = ServerConfig::default().build();
    let mut alice = guest(1, "alice");
    assert!(server.register(&alice));
    let step = server.resume_client(
        &mut alice,
        Pending::Chunk { channel_id: "general".to_string() },
        Ok(StoreAnswer::Rows(Vec::new())),
    );
    assert_eq!(
        step.actions,
        vec![Action::Send { client: 1, payload: Outbound::Message(ServerMessage::Chunk(Vec::new())) }]
    );
}

#[test]
fn the_providers_addresses() {
    let mut config = ServerConfig::default();
    config.server_key = "k3y".to_string();
    config.server_id = "srv".to_string();
    let server = config.build();
    assert_eq!(auth::auth(&server, "t0k3n"), "https://vxchat.netlify.app/api/auth?token=t0k3n&key=k3y");
    assert_eq!(auth::test(&server), "https://vxchat.netlify.app/api/auth-test?key=k3y&id=srv");
}

#[test]
fn log_lines_carry_level_name_and_message() {
    let mut logger = Logger::new("Server");
    logger.info("Starting loader");
    logger.warn("Couldn't stop plugin");
    logger.error("Connection failed");
    assert_eq!(
        logger.take(),
        vec![
            "\x1b[32mINFO\x1b[0m (Server) \u{203a} Starting loader".to_string(),
            "\x1b[33mWARN\x1b[0m (Server) \u{203a} Couldn't stop plugin".to_string(),
            "\x1b[31mERROR\x1b[0m (Server) \u{203a} Connection failed".to_string(),
        ]
    );
    assert_eq!(logger.take(), Vec::<String>::new());
    assert_eq!(logger.name, "Server");
}

#[test]
fn extract_logs_a_failure_and_passes_a_success() {
    let mut logger = Logger::new("CLI");
    assert_eq!(logger.extract(Ok(5), "Failed to initialize client"), Some(5));
    assert!(logger.lines.is_empty());
    assert_eq!(
        logger.extract::<u8>(Err("timed out".to_string()), "Failed to initialize client"),
        None
    );
    assert_eq!(
        logger.take(),
        vec!["\x1b[31mERROR\x1b[0m (CLI) \u{203a} Failed to initialize client: timed out".to_string()]
    );
}

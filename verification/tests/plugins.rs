use vxserver::action::{Action, Outbound, PluginStep};
use vxserver::plugin::loader::PluginLoader;
use vxserver::plugin::types::{LoaderMessage, PluginHandshake, PluginJson, PluginMessage};
use vxserver::plugin::{Plugin, PluginState};
use vxserver::server::{Server, ServerConfig};
use vxserver::types::data::Message;
use vxserver::types::message::{ClientMessage, ServerMessage, WsMessage};
use vxserver::utils::client::{Client, SessionState};
use vxserver::utils::database::StoreRequest;

fn manifest(id: &str) -> PluginJson {
    PluginJson {
        id: id.to_string(),
        version: "1.0.0".to_string(),
        supported_versions: vec!["0.0.1".to_string()],
        file: "./run".to_string(),
        args: vec!["--quiet".to_string()],
    }
}

fn attached(id: &str, conn: u64) -> Plugin {
    let mut plugin = Plugin::spawned(id.to_string());
    assert!(plugin.attach(conn));
    plugin
}

fn member(id: u64, user: &str) -> Client {
    Client { id, uuid: Some(user.to_string()), state: SessionState::Authenticated }
}

fn stop_of(id: &str) -> Vec<Action> {
    vec![
        Action::Plugin { plugin: id.to_string(), step: PluginStep::Send(LoaderMessage::Shutdown) },
        Action::Plugin { plugin: id.to_string(), step: PluginStep::CloseStream },
        Action::Plugin { plugin: id.to_string(), step: PluginStep::Kill },
    ]
}

#[test]
fn a_plugin_is_loaded_once_its_connection_has_arrived() {
    let mut loader = PluginLoader::new();
    assert_eq!(loader.load(&manifest("echo")), None);
    loader.accept(PluginHandshake { id: "other".to_string() }, 3);
    assert_eq!(loader.load(&manifest("echo")), None);
    loader.accept(PluginHandshake { id: "echo".to_string() }, 4);
    assert_eq!(
        loader.load(&manifest("echo")),
        Some(Plugin { id: "echo".to_string(), conn: Some(4), state: PluginState::Handshaken })
    );
    // The connection stays known.
    assert!(loader.load(&manifest("echo")).is_some());
}

#[test]
fn a_later_connection_of_a_plugin_replaces_the_earlier_one() {
    let mut loader = PluginLoader::new();
    loader.accept(PluginHandshake { id: "echo".to_string() }, 4);
    loader.accept(PluginHandshake { id: "echo".to_string() }, 9);
    assert_eq!(loader.load(&manifest("echo")).unwrap().conn, Some(9));
}

#[test]
fn the_loader_forgets_on_request() {
    let mut loader = PluginLoader::new();
    loader.accept(PluginHandshake { id: "echo".to_string() }, 4);
    loader.accept(PluginHandshake { id: "other".to_string() }, 5);
    loader.remove("echo");
    loader.remove("echo");
    loader.remove("never-there");
    assert_eq!(loader.load(&manifest("echo")), None);
    assert_eq!(loader.load(&manifest("other")).unwrap().conn, Some(5));
    loader.clear();
    assert_eq!(loader.load(&manifest("other")), None);
}

#[test]
fn a_plugin_goes_through_its_life() {
    let mut plugin = Plugin::spawned("echo".to_string());
    assert_eq!(plugin.state, PluginState::Spawned);
    assert_eq!(plugin.get_id(), "echo");
    assert_eq!(plugin.send(&LoaderMessage::Shutdown), None);
    assert!(plugin.attach(4));
    assert!(!plugin.attach(5));
    assert_eq!(plugin.conn, Some(4));
    assert_eq!(plugin.state, PluginState::Handshaken);
    let posted = PluginMessage::SendMessage { channel_id: "general".to_string(), contents: "hi".to_string() };
    assert!(plugin.run_at(posted, 10).is_some());
    assert_eq!(plugin.state, PluginState::Running);
    assert_eq!(plugin.stop(), stop_of("echo"));
    assert_eq!(plugin.state, PluginState::Stopped);
}

#[test]
fn stopping_a_stopped_plugin_does_nothing() {
    let mut plugin = attached("echo", 4);
    assert_eq!(plugin.stop().len(), 3);
    assert_eq!(plugin.stop(), Vec::new());
    assert_eq!(plugin.state, PluginState::Stopped);
    assert!(!plugin.attach(7));
    let posted = PluginMessage::SendMessage { channel_id: "general".to_string(), contents: "hi".to_string() };
    assert_eq!(plugin.run_at(posted, 10), None);
    assert_eq!(plugin.send(&LoaderMessage::Shutdown), None);
}

#[test]
fn a_plugins_message_is_stored_under_its_id_and_broadcast() {
    let mut server = Server::new_config(ServerConfig::default());
    assert!(server.register(&member(1, "alice")));
    assert!(server.register(&member(2, "bob")));
    let mut loader = PluginLoader::new();
    loader.accept(PluginHandshake { id: "echo".to_string() }, 4);
    let mut plugin = loader.load(&manifest("echo")).unwrap();
    assert!(server.add_plugin(plugin.clone()));
    let posted = PluginMessage::SendMessage { channel_id: "general".to_string(), contents: "hi".to_string() };
    let asked = plugin.run_at(posted.clone(), 1_700_000_000).unwrap();
    assert_eq!(
        asked,
        StoreRequest::InsertMessage {
            channel_id: "general".to_string(),
            user_id: "echo".to_string(),
            contents: "hi".to_string(),
            timestamp: 1_700_000_000,
        }
    );
    match plugin.run(posted) {
        Some(StoreRequest::InsertMessage { user_id, contents, timestamp, .. }) => {
            assert_eq!(user_id, "echo");
            assert_eq!(contents, "hi");
            assert!(timestamp > 1_577_836_800);
        }
        other => panic!("unexpected request: {:?}", other),
    }
    let stored = Message {
        id: 1,
        channel_id: "general".to_string(),
        from: "echo".to_string(),
        contents: "hi".to_string(),
        timestamp: 1_700_000_000,
    };
    let created = Outbound::Message(ServerMessage::MessageCreate(stored.clone()));
    assert_eq!(
        Plugin::stored(&server, &stored),
        vec![
            Action::Send { client: 1, payload: created.clone() },
            Action::Send { client: 2, payload: created },
        ]
    );
}

#[test]
fn no_two_active_plugins_have_the_same_name() {
    let mut server = Server::new_config(ServerConfig::default());
    assert!(server.add_plugin(attached("echo", 4)));
    assert!(!server.add_plugin(attached("echo", 5)));
    assert!(server.add_plugin(attached("other", 6)));
    assert_eq!(server.plugins.len(), 2);
    assert_eq!(server.plugins[0].conn, Some(4));
    assert_eq!(server.plugin_index("other"), Some(1));
    assert_eq!(server.plugin_index("nobody"), None);
}

#[test]
fn every_listening_plugin_is_shown_a_request() {
    let mut server = Server::new_config(ServerConfig::default());
    let mut alice = member(1, "alice");
    assert!(server.register(&alice));
    assert!(server.add_plugin(attached("echo", 4)));
    assert!(server.add_plugin(Plugin::spawned("late".to_string())));
    assert!(server.add_plugin(attached("stats", 5)));
    let request = WsMessage::Message(ClientMessage::EditMessage {
        message_id: 3,
        new_contents: "x".to_string(),
    });
    let step = server.handle_client(&mut alice, &request);
    let shown = LoaderMessage::Request { user_id: "alice".to_string(), msg: request };
    assert_eq!(
        step.actions,
        vec![
            Action::Plugin { plugin: "echo".to_string(), step: PluginStep::Send(shown.clone()) },
            Action::Plugin { plugin: "stats".to_string(), step: PluginStep::Send(shown) },
        ]
    );
}

#[test]
fn voice_frames_are_not_shown_to_plugins() {
    let mut server = Server::new_config(ServerConfig::default());
    let mut alice = member(1, "alice");
    assert!(server.register(&alice));
    assert!(server.register(&member(2, "bob")));
    assert!(server.add_plugin(attached("echo", 4)));
    server.voice.set_with("alice".to_string(), "lounge".to_string(), 1);
    server.voice.set_with("bob".to_string(), "lounge".to_string(), 2);
    let step = server.handle_client(&mut alice, &WsMessage::Binary(vec![7]));
    assert_eq!(step.actions, vec![Action::Send { client: 2, payload: Outbound::Binary(vec![1, 0, 7]) }]);
    assert_eq!(step.store, None);
}

#[test]
fn reload_stops_and_then_loads() {
    let mut server = Server::new_config(ServerConfig::default());
    let mut loader = PluginLoader::new();
    loader.accept(PluginHandshake { id: "echo".to_string() }, 4);
    assert!(server.add_plugin(loader.load(&manifest("echo")).unwrap()));
    let mut expected = stop_of("echo");
    expected.push(Action::LoadPlugin { plugin: "echo".to_string() });
    assert_eq!(server.reload_plugin(&mut loader, "echo"), expected);
    assert!(server.plugins.is_empty());
    assert_eq!(loader.load(&manifest("echo")), None);
    // Of a plugin that is not active, only the load is left.
    assert_eq!(
        server.reload_plugin(&mut loader, "echo"),
        vec![Action::LoadPlugin { plugin: "echo".to_string() }]
    );
}

#[test]
fn reload_all_stops_every_plugin_and_loads_them_all() {
    let mut server = Server::new_config(ServerConfig::default());
    let mut loader = PluginLoader::new();
    loader.accept(PluginHandshake { id: "echo".to_string() }, 4);
    loader.accept(PluginHandshake { id: "stats".to_string() }, 5);
    assert!(server.add_plugin(loader.load(&manifest("echo")).unwrap()));
    assert!(server.add_plugin(loader.load(&manifest("stats")).unwrap()));
    let mut expected = stop_of("echo");
    expected.extend(stop_of("stats"));
    expected.push(Action::LoadAllPlugins);
    assert_eq!(server.reload_all(&mut loader), expected);
    assert!(server.plugins.is_empty());
    assert_eq!(loader.load(&manifest("stats")), None);
}

#[test]
fn a_manifest_can_be_copied() {
    let m = manifest("echo");
    assert_eq!(m.clone(), m);
}

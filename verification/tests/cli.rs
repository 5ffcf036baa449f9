use vxserver::action::Action;
use vxserver::cli::{parse_args, parse_command, parse_command_with, require_args, run_command, Command};
use vxserver::plugin::loader::PluginLoader;
use vxserver::plugin::types::PluginHandshake;
use vxserver::plugin::{Plugin, PluginState};
use vxserver::server::{Server, ServerConfig};

fn strings(parts: &[&str]) -> Vec<String> {
    parts.iter().map(|p| p.to_string()).collect()
}

#[test]
fn parse_args_splits_on_spaces() {
    assert_eq!(parse_args("load my-plugin"), strings(&["load", "my-plugin"]));
}

#[test]
fn parse_args_of_nothing_is_nothing() {
    assert_eq!(parse_args(""), Vec::<String>::new());
    assert_eq!(parse_args("     "), Vec::<String>::new());
}

#[test]
fn parse_args_skips_repeated_spaces() {
    assert_eq!(parse_args("  a   b  "), strings(&["a", "b"]));
}

#[test]
fn parse_args_keeps_spaces_inside_double_quotes() {
    assert_eq!(parse_args("install \"my file.vxp\""), strings(&["install", "my file.vxp"]));
}

#[test]
fn parse_args_keeps_spaces_inside_single_quotes() {
    assert_eq!(parse_args("say 'hello there' now"), strings(&["say", "hello there", "now"]));
}

#[test]
fn parse_args_keeps_the_other_quote_inside_quotes() {
    assert_eq!(parse_args("\"it's\""), strings(&["it's"]));
    assert_eq!(parse_args("'a \"b\" c'"), strings(&["a \"b\" c"]));
}

#[test]
fn parse_args_joins_quoted_and_unquoted_parts() {
    assert_eq!(parse_args("ab\"c d\"ef"), strings(&["abc def"]));
}

#[test]
fn parse_args_takes_an_escaped_character_literally() {
    assert_eq!(parse_args("a\\ b"), strings(&["a b"]));
    assert_eq!(parse_args("\\\"quoted\\\""), strings(&["\"quoted\""]));
    assert_eq!(parse_args("back\\\\slash"), strings(&["back\\slash"]));
}

#[test]
fn parse_args_keeps_a_dangling_backslash() {
    assert_eq!(parse_args("tail\\"), strings(&["tail\\"]));
    assert_eq!(parse_args("\\"), strings(&["\\"]));
}

#[test]
fn parse_args_drops_an_empty_quoted_argument() {
    assert_eq!(parse_args("a \"\" b"), strings(&["a", "b"]));
}

#[test]
fn parse_args_runs_an_open_quote_to_the_end() {
    assert_eq!(parse_args("a \"b c"), strings(&["a", "b c"]));
}

#[test]
fn parse_args_handles_characters_outside_ascii() {
    assert_eq!(parse_args("größe \"señor x\""), strings(&["größe", "señor x"]));
}

#[test]
fn require_args_counts_the_command_name() {
    let args = strings(&["load", "echo"]);
    assert!(require_args(&args, &["<plugin-id>"]));
    assert!(require_args(&args, &[]));
    assert!(!require_args(&args, &["<a>", "<b>"]));
    assert!(!require_args(&strings(&["load"]), &["<plugin-id>"]));
    assert!(!require_args(&[], &[]));
}

#[test]
fn parse_command_of_an_empty_line_is_none() {
    assert_eq!(parse_command(&Vec::new()), None);
}

#[test]
fn parse_command_knows_the_commands_without_arguments() {
    assert_eq!(parse_command(&strings(&["help"])), Some(Command::Help));
    assert_eq!(parse_command(&strings(&["reload-all"])), Some(Command::ReloadAll));
    assert_eq!(parse_command(&strings(&["shutdown"])), Some(Command::Shutdown));
    assert_eq!(parse_command(&strings(&["ping"])), Some(Command::Ping));
}

#[test]
fn parse_command_takes_the_plugin_id() {
    assert_eq!(
        parse_command(&strings(&["load", "echo"])),
        Some(Command::Load { plugin_id: "echo".to_string() })
    );
    assert_eq!(
        parse_command(&strings(&["stop", "echo"])),
        Some(Command::Stop { plugin_id: "echo".to_string() })
    );
    assert_eq!(
        parse_command(&strings(&["reload", "echo", "ignored"])),
        Some(Command::Reload { plugin_id: "echo".to_string() })
    );
}

#[test]
fn parse_command_reports_missing_arguments() {
    for name in ["load", "stop", "reload"] {
        assert_eq!(
            parse_command(&strings(&[name])),
            Some(Command::MissingArguments { required: "<plugin-id>".to_string() })
        );
    }
    assert_eq!(
        parse_command(&strings(&["install"])),
        Some(Command::MissingArguments { required: "<path.vxp>".to_string() })
    );
}

#[test]
fn parse_command_reports_unknown_commands() {
    assert_eq!(
        parse_command(&strings(&["dance", "now"])),
        Some(Command::NotFound { name: "dance".to_string() })
    );
    assert_eq!(
        parse_command(&strings(&["Help"])),
        Some(Command::NotFound { name: "Help".to_string() })
    );
}

#[test]
fn parse_command_installs_packages_only() {
    assert_eq!(
        parse_command(&strings(&["install", "plugins/echo.vxp"])),
        Some(Command::Install { path: "plugins/echo.vxp".to_string() })
    );
    assert_eq!(parse_command(&strings(&["install", "plugins/echo.zip"])), Some(Command::NotAPackage));
    assert_eq!(parse_command(&strings(&["install", "plugins/echo"])), Some(Command::NotAPackage));
    // A file that is called like the extension has none.
    assert_eq!(parse_command(&strings(&["install", "vxp"])), Some(Command::NotAPackage));
    assert_eq!(parse_command(&strings(&["install", ".vxp"])), Some(Command::NotAPackage));
    assert_eq!(parse_command(&strings(&["install", "echo.VXP"])), Some(Command::NotAPackage));
}

#[test]
fn parse_command_with_goes_by_the_extension_it_is_given() {
    let args = strings(&["install", "whatever"]);
    assert_eq!(
        parse_command_with(&args, &Some("vxp".to_string())),
        Some(Command::Install { path: "whatever".to_string() })
    );
    assert_eq!(parse_command_with(&args, &None), Some(Command::NotAPackage));
    assert_eq!(parse_command_with(&args, &Some("zip".to_string())), Some(Command::NotAPackage));
}

#[test]
fn a_console_line_becomes_a_command() {
    let args = parse_args("  stop   \"echo bot\" ");
    assert_eq!(parse_command(&args), Some(Command::Stop { plugin_id: "echo bot".to_string() }));
}

fn running_plugin(loader: &mut PluginLoader, id: &str, conn: u64) -> Plugin {
    loader.accept(PluginHandshake { id: id.to_string() }, conn);
    let mut plugin = Plugin::spawned(id.to_string());
    assert!(plugin.attach(conn));
    plugin
}

#[test]
fn run_command_load_asks_for_the_plugin() {
    let mut server = Server::new_config(ServerConfig::default());
    let mut loader = PluginLoader::new();
    let actions = run_command(&mut server, &mut loader, &Command::Load { plugin_id: "echo".to_string() });
    assert_eq!(actions, vec![Action::LoadPlugin { plugin: "echo".to_string() }]);
    assert!(server.plugins.is_empty());
}

#[test]
fn run_command_stop_stops_and_forgets_the_plugin() {
    let mut server = Server::new_config(ServerConfig::default());
    let mut loader = PluginLoader::new();
    let echo = running_plugin(&mut loader, "echo", 1);
    let other = running_plugin(&mut loader, "other", 2);
    assert!(server.add_plugin(echo));
    assert!(server.add_plugin(other));
    let actions = run_command(&mut server, &mut loader, &Command::Stop { plugin_id: "echo".to_string() });
    assert_eq!(actions.len(), 3);
    assert_eq!(server.plugins.len(), 1);
    assert_eq!(server.plugins[0].id, "other");
    assert_eq!(server.plugins[0].state, PluginState::Handshaken);
    // Stopping it again does nothing.
    let again = run_command(&mut server, &mut loader, &Command::Stop { plugin_id: "echo".to_string() });
    assert_eq!(again, Vec::<Action>::new());
    assert_eq!(server.plugins.len(), 1);
}

#[test]
fn run_command_of_a_printing_command_changes_nothing() {
    let mut server = Server::new_config(ServerConfig::default());
    let mut loader = PluginLoader::new();
    for command in [
        Command::Help,
        Command::Ping,
        Command::NotAPackage,
        Command::Install { path: "a.vxp".to_string() },
        Command::NotFound { name: "x".to_string() },
        Command::MissingArguments { required: "<plugin-id>".to_string() },
    ] {
        assert_eq!(run_command(&mut server, &mut loader, &command), Vec::<Action>::new());
    }
    assert!(!server.shutting_down);
}

#[test]
fn run_command_shutdown_ends_the_process() {
    let mut server = Server::new_config(ServerConfig::default());
    let mut loader = PluginLoader::new();
    let actions = run_command(&mut server, &mut loader, &Command::Shutdown);
    assert_eq!(actions, vec![Action::Exit]);
    assert!(server.shutting_down);
}

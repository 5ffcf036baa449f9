//! The operator console: splitting a line into arguments and deciding which
//! command it names.

use vstd::prelude::*;

use crate::action::{Action, ActionView};
use crate::plugin::loader::PluginLoader;
use crate::server::plugins::{spec_reload_all, spec_reload_plugin, spec_stop_plugin};
use crate::server::{spec_shutdown, Server, ServerView};
use crate::types::views;

verus! {

/// State of the argument scanner between two characters.
pub struct ScanState {
    /// Arguments completed so far.
    pub args: Seq<Seq<char>>,
    /// The argument being collected.
    pub current: Seq<char>,
    /// Inside a double-quoted section.
    pub in_dq: bool,
    /// Inside a single-quoted section.
    pub in_q: bool,
    /// The previous character was an unconsumed backslash.
    pub escape: bool,
}

/// The scanner before the first character.
pub open spec fn scan_start() -> ScanState {
    ScanState { args: Seq::empty(), current: Seq::empty(), in_dq: false, in_q: false, escape: false }
}

/// One character of input.  A backslash makes the next character literal; a
/// quote toggles its own kind of quoting unless the other kind is open; an
/// unquoted space ends the current argument if it is not empty.
pub open spec fn scan_step(s: ScanState, c: char) -> ScanState {
    if s.escape {
        ScanState { current: s.current.push(c), escape: false, ..s }
    } else if c == '\\' {
        ScanState { escape: true, ..s }
    } else if c == '"' && !s.in_q {
        ScanState { in_dq: !s.in_dq, ..s }
    } else if c == '\'' && !s.in_dq {
        ScanState { in_q: !s.in_q, ..s }
    } else if c == ' ' && !s.in_dq && !s.in_q {
        if s.current.len() > 0 {
            ScanState { args: s.args.push(s.current), current: Seq::empty(), ..s }
        } else {
            s
        }
    } else {
        ScanState { current: s.current.push(c), ..s }
    }
}

/// The scanner after all of `input`.
pub open spec fn scan(input: Seq<char>) -> ScanState
    decreases input.len(),
{
    if input.len() == 0 {
        scan_start()
    } else {
        scan_step(scan(input.drop_last()), input.last())
    }
}

/// The arguments once the input has ended: a dangling backslash is kept as a
/// character, and a non-empty last argument is completed.
pub open spec fn scan_finish(s: ScanState) -> Seq<Seq<char>> {
    let last = if s.escape { s.current.push('\\') } else { s.current };
    if last.len() > 0 {
        s.args.push(last)
    } else {
        s.args
    }
}

/// The arguments that a console line splits into.
pub open spec fn spec_parse_args(input: Seq<char>) -> Seq<Seq<char>> {
    scan_finish(scan(input))
}

/// Splits a console line into arguments, honouring single quotes, double
/// quotes and backslash escapes.
pub fn parse_args(input: &str) -> (args: Vec<String>)
    ensures
        views(args@) == spec_parse_args(input@),
{
    let mut args: Vec<String> = Vec::new();
    let mut current = String::new();
    let mut in_dq = false;
    let mut in_q = false;
    let mut escape = false;
    for c in it: input.chars()
        invariant
            it.seq() == input@,
            scan(input@.take(it.index() as int)).args =~= views(args@),
            scan(input@.take(it.index() as int)).current =~= current@,
            scan(input@.take(it.index() as int)).in_dq == in_dq,
            scan(input@.take(it.index() as int)).in_q == in_q,
            scan(input@.take(it.index() as int)).escape == escape,
    {
        proof {
            let next = input@.take(it.index() as int + 1);
            assert(next.drop_last() == input@.take(it.index() as int));
        }
        if escape {
            current.push(c);
            escape = false;
        } else if c == '\\' {
            escape = true;
        } else if c == '"' && !in_q {
            in_dq = !in_dq;
        } else if c == '\'' && !in_dq {
            in_q = !in_q;
        } else if c == ' ' && !in_dq && !in_q {
            if !current.as_str().is_empty() {
                args.push(current);
                current = String::new();
            }
        } else {
            current.push(c);
        }
    }
    assert(input@.take(input@.len() as int) == input@);
    if escape {
        current.push('\\');
    }
    if !current.as_str().is_empty() {
        args.push(current);
    }
    args
}

/// Whether `args` holds a command name followed by at least as many
/// arguments as `required` names.
pub fn require_args(args: &[String], required: &[&str]) -> (r: bool)
    ensures
        r == (required@.len() + 1 <= args@.len()),
{
    required.len() < args.len()
}

/// A command of the operator.
#[derive(Debug, PartialEq, Eq)]
pub enum Command {
    /// List the commands.
    Help,
    /// Install the plugin package at `path`.
    Install { path: String },
    /// Start an installed plugin.
    Load { plugin_id: String },
    /// Stop an active plugin.
    Stop { plugin_id: String },
    /// Restart a plugin.
    Reload { plugin_id: String },
    /// Restart every plugin.
    ReloadAll,
    /// Shut the server down.
    Shutdown,
    /// Answer with a pong.
    Ping,
    /// The command lacks an argument; `required` names what it takes.
    MissingArguments { required: String },
    /// The file to install is no plugin package.
    NotAPackage,
    /// No command of this name exists.
    NotFound { name: String },
}

/// What a [`Command`] holds.
pub enum CommandView {
    Help,
    Install { path: Seq<char> },
    Load { plugin_id: Seq<char> },
    Stop { plugin_id: Seq<char> },
    Reload { plugin_id: Seq<char> },
    ReloadAll,
    Shutdown,
    Ping,
    MissingArguments { required: Seq<char> },
    NotAPackage,
    NotFound { name: Seq<char> },
}

impl View for Command {
    type V = CommandView;

    open spec fn view(&self) -> CommandView {
        match self {
            Command::Help => CommandView::Help,
            Command::Install { path } => CommandView::Install { path: path@ },
            Command::Load { plugin_id } => CommandView::Load { plugin_id: plugin_id@ },
            Command::Stop { plugin_id } => CommandView::Stop { plugin_id: plugin_id@ },
            Command::Reload { plugin_id } => CommandView::Reload { plugin_id: plugin_id@ },
            Command::ReloadAll => CommandView::ReloadAll,
            Command::Shutdown => CommandView::Shutdown,
            Command::Ping => CommandView::Ping,
            Command::MissingArguments { required } => CommandView::MissingArguments {
                required: required@,
            },
            Command::NotAPackage => CommandView::NotAPackage,
            Command::NotFound { name } => CommandView::NotFound { name: name@ },
        }
    }
}

/// The command that the arguments `args` of a console line name; none for
/// an empty line.  `extension` is the file extension of the first
/// argument after the name, if it has one: only a file that ends in
/// `.vxp` is installed.
pub open spec fn spec_parse_command(args: Seq<Seq<char>>, extension: Option<Seq<char>>) -> Option<
    CommandView,
> {
    if args.len() == 0 {
        None
    } else if args[0] == "help"@ {
        Some(CommandView::Help)
    } else if args[0] == "install"@ {
        if args.len() < 2 {
            Some(CommandView::MissingArguments { required: "<path.vxp>"@ })
        } else if extension == Some("vxp"@) {
            Some(CommandView::Install { path: args[1] })
        } else {
            Some(CommandView::NotAPackage)
        }
    } else if args[0] == "load"@ {
        if args.len() < 2 {
            Some(CommandView::MissingArguments { required: "<plugin-id>"@ })
        } else {
            Some(CommandView::Load { plugin_id: args[1] })
        }
    } else if args[0] == "stop"@ {
        if args.len() < 2 {
            Some(CommandView::MissingArguments { required: "<plugin-id>"@ })
        } else {
            Some(CommandView::Stop { plugin_id: args[1] })
        }
    } else if args[0] == "reload"@ {
        if args.len() < 2 {
            Some(CommandView::MissingArguments { required: "<plugin-id>"@ })
        } else {
            Some(CommandView::Reload { plugin_id: args[1] })
        }
    } else if args[0] == "reload-all"@ {
        Some(CommandView::ReloadAll)
    } else if args[0] == "shutdown"@ {
        Some(CommandView::Shutdown)
    } else if args[0] == "ping"@ {
        Some(CommandView::Ping)
    } else {
        Some(CommandView::NotFound { name: args[0] })
    }
}

/// A command, if there is one, as plain values.
pub open spec fn command_view(c: Option<Command>) -> Option<CommandView> {
    match c {
        Some(c) => Some(c@),
        None => None,
    }
}

/// A text, if there is one, as plain values.
pub open spec fn text_view(t: Option<String>) -> Option<Seq<char>> {
    match t {
        Some(t) => Some(t@),
        None => None,
    }
}

/// `std::path::Path::extension` of `path`, as text: the part of the file
/// name behind its last dot, as the platform reads paths, where there is
/// such a part and it is valid Unicode.  Nothing is claimed of it.
#[verifier::external_body]
fn extension_of(path: &str) -> (r: Option<String>) {
    match std::path::Path::new(path).extension() {
        Some(extension) => match extension.to_str() {
            Some(text) => Some(text.to_owned()),
            None => None,
        },
        None => None,
    }
}

/// The command that a console line names.  For a file to install, the
/// extension of its path is read as the platform reads paths.
pub fn parse_command(args: &Vec<String>) -> (r: Option<Command>)
    ensures
        exists|extension: Option<Seq<char>>|
            command_view(r) == #[trigger] spec_parse_command(views(args@), extension),
{
    let extension = if args.len() >= 2 && *args[0].as_str() == *"install" {
        extension_of(args[1].as_str())
    } else {
        None
    };
    parse_command_with(args, &extension)
}

/// The command that a console line names, where `extension` is the file
/// extension of its argument.
pub fn parse_command_with(args: &Vec<String>, extension: &Option<String>) -> (r: Option<Command>)
    ensures
        command_view(r) == spec_parse_command(views(args@), text_view(*extension)),
{
    if args.len() == 0 {
        return None;
    }
    let name = args[0].as_str();
    if *name == *"help" {
        Some(Command::Help)
    } else if *name == *"install" {
        if !require_args(args.as_slice(), ["<path.vxp>"].as_slice()) {
            return Some(Command::MissingArguments { required: "<path.vxp>".to_owned() });
        }
        let is_package = match extension {
            Some(e) => *e.as_str() == *"vxp",
            None => false,
        };
        if is_package {
            Some(Command::Install { path: args[1].clone() })
        } else {
            Some(Command::NotAPackage)
        }
    } else if *name == *"load" {
        if !require_args(args.as_slice(), ["<plugin-id>"].as_slice()) {
            return Some(Command::MissingArguments { required: "<plugin-id>".to_owned() });
        }
        Some(Command::Load { plugin_id: args[1].clone() })
    } else if *name == *"stop" {
        if !require_args(args.as_slice(), ["<plugin-id>"].as_slice()) {
            return Some(Command::MissingArguments { required: "<plugin-id>".to_owned() });
        }
        Some(Command::Stop { plugin_id: args[1].clone() })
    } else if *name == *"reload" {
        if !require_args(args.as_slice(), ["<plugin-id>"].as_slice()) {
            return Some(Command::MissingArguments { required: "<plugin-id>".to_owned() });
        }
        Some(Command::Reload { plugin_id: args[1].clone() })
    } else if *name == *"reload-all" {
        Some(Command::ReloadAll)
    } else if *name == *"shutdown" {
        Some(Command::Shutdown)
    } else if *name == *"ping" {
        Some(Command::Ping)
    } else {
        Some(Command::NotFound { name: args[0].clone() })
    }
}

/// What carrying out `command` takes, and the server after it.  Starting
/// a plugin is left to the surrounding program, which hands the plugin
/// over once it is there; the commands that only print change nothing.
pub open spec fn spec_run_command(s: ServerView, command: CommandView) -> (ServerView, Seq<ActionView>) {
    match command {
        CommandView::Load { plugin_id } => (s, seq![ActionView::LoadPlugin { plugin: plugin_id }]),
        CommandView::Stop { plugin_id } => spec_stop_plugin(s, plugin_id),
        CommandView::Reload { plugin_id } => spec_reload_plugin(s, plugin_id),
        CommandView::ReloadAll => spec_reload_all(s),
        CommandView::Shutdown => spec_shutdown(s),
        _ => (s, Seq::empty()),
    }
}

/// The control connections after `command`: stopping or restarting a
/// plugin forgets its connection, restarting all forgets every one.
pub open spec fn spec_links_after(links: Map<Seq<char>, u64>, command: CommandView) -> Map<
    Seq<char>,
    u64,
> {
    match command {
        CommandView::Stop { plugin_id } => links.remove(plugin_id),
        CommandView::Reload { plugin_id } => links.remove(plugin_id),
        CommandView::ReloadAll => Map::empty(),
        _ => links,
    }
}

/// Carries out a command of the operator.
pub fn run_command(server: &mut Server, loader: &mut PluginLoader, command: &Command) -> (r: Vec<Action>)
    requires
        old(server).wf(),
        old(loader).wf(),
    ensures
        final(server).wf(),
        final(loader).wf(),
        (final(server)@, views(r@)) == spec_run_command(old(server)@, command@),
        final(loader)@ == spec_links_after(old(loader)@, command@),
{
    match command {
        Command::Load { plugin_id } => {
            let mut actions: Vec<Action> = Vec::new();
            actions.push(Action::LoadPlugin { plugin: plugin_id.clone() });
            actions
        },
        Command::Stop { plugin_id } => server.stop_plugin(loader, plugin_id.as_str()),
        Command::Reload { plugin_id } => server.reload_plugin(loader, plugin_id.as_str()),
        Command::ReloadAll => server.reload_all(loader),
        Command::Shutdown => server.shutdown(),
        _ => {
            let none: Vec<Action> = Vec::new();
            none
        },
    }
}

} // verus!

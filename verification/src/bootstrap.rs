//! The application shell's bootstrap and its remote-command surface.
//!
//! At process start the shell constructs a builder, attaches the
//! filesystem-access and native-dialog capability plugins, registers the two
//! named commands, loads the packaged configuration and enters the host's run
//! loop. The shell has exactly two lifecycle phases: bootstrapping, and
//! running until the last window is gone. A startup fault aborts the process;
//! there is no degraded-mode startup.

use vstd::prelude::*;

use crate::host::CommandError;
use crate::host::Host;
use crate::host::close_transition;
use crate::host::minimize_transition;

verus! {

/// The two capability plugins the shell attaches, unmodified, for the
/// front-end to talk to through the host's own conventions.
#[derive(Clone, Copy, PartialEq, Eq, Debug, Structural)]
pub enum Plugin {
    /// Grants the front-end permissioned file reads and writes.
    FsAccess,
    /// Grants the front-end native file-picker and save dialogs.
    Dialog,
}

/// The two remote commands the shell registers, each a single delegation to
/// the host over the window handle it is invoked with.
#[derive(Clone, Copy, PartialEq, Eq, Debug, Structural)]
pub enum Command {
    CloseWindow,
    MinimizeWindow,
}

/// The packaged application configuration, as loaded at process start:
/// whether it is well formed, and the handle the host will issue for the main
/// window it describes.
#[derive(Clone, Copy, PartialEq, Eq, Debug, Structural)]
pub struct Context {
    pub config_ok: bool,
    pub main_window: u64,
}

/// The startup fault: runtime construction failed and the process aborts;
/// nothing is retried and no window is ever displayed.
#[derive(Clone, Copy, PartialEq, Eq, Debug, Structural)]
pub enum StartupError {
    ConstructionFailed,
}

/// Why a remote invocation produced no effect: its name reached no registered
/// command, or the command's single delegated host call failed.
#[derive(Clone, Copy, PartialEq, Eq, Debug, Structural)]
pub enum DispatchError {
    UnknownCommand,
    Command(CommandError),
}

/// The builder for the application runtime: which plugins have been attached
/// and which commands the invoke handler will route to.
pub struct Builder {
    pub plugins: Vec<Plugin>,
    pub commands: Vec<Command>,
}

impl Default for Builder {
    /// A builder with nothing attached and nothing registered.
    fn default() -> (b: Builder)
        ensures
            b.plugins@ == Seq::<Plugin>::empty(),
            b.commands@ == Seq::<Command>::empty(),
    {
        Builder { plugins: Vec::new(), commands: Vec::new() }
    }
}

impl Builder {
    /// Attaches one more capability plugin.
    pub fn plugin(self, p: Plugin) -> (b: Builder)
        ensures
            b.plugins@ == self.plugins@.push(p),
            b.commands@ == self.commands@,
    {
        let mut plugins = self.plugins;
        plugins.push(p);
        Builder { plugins, commands: self.commands }
    }

    /// Registers the commands the host's dispatch mechanism may route to.
    pub fn invoke_handler(self, handlers: Vec<Command>) -> (b: Builder)
        ensures
            b.plugins@ == self.plugins@,
            b.commands@ == handlers@,
    {
        Builder { plugins: self.plugins, commands: handlers }
    }

    /// Loads the packaged configuration and constructs the running
    /// application. A well-formed configuration yields an application that
    /// carries the builder's plugins and commands and whose main window is
    /// open; a malformed one yields the startup fault and no window.
    pub fn run(self, context: Context) -> (r: Result<App, StartupError>)
        ensures
            r is Ok <==> context.config_ok,
            r matches Ok(app) ==> {
                &&& app.wf()
                &&& app.plugins@ == self.plugins@
                &&& app.commands@ == self.commands@
                &&& app.host@ == Map::<u64, bool>::empty().insert(context.main_window, false)
                &&& app.host.running()
            },
            !context.config_ok ==> r == Err::<App, StartupError>(StartupError::ConstructionFailed),
    {
        if context.config_ok {
            let mut host = Host::new();
            let _fresh = host.open_window(context.main_window);
            proof {
                assert(host@.dom() =~= Set::<u64>::empty().insert(context.main_window));
            }
            Ok(App { host, plugins: self.plugins, commands: self.commands })
        } else {
            Err(StartupError::ConstructionFailed)
        }
    }
}

/// The running application: the host's window table together with the plugins
/// and commands the bootstrap attached and registered.
pub struct App {
    pub host: Host,
    pub plugins: Vec<Plugin>,
    pub commands: Vec<Command>,
}

/// The command a remote invocation's name routes to, if any.
pub open spec fn spec_lookup(name: Seq<char>) -> Option<Command> {
    if name == "close_window"@ {
        Some(Command::CloseWindow)
    } else if name == "minimize_window"@ {
        Some(Command::MinimizeWindow)
    } else {
        None
    }
}

/// Routes a remote invocation's name to a command.
pub fn lookup_command(name: &str) -> (r: Option<Command>)
    ensures
        r == spec_lookup(name@),
{
    let n = name.to_owned();
    if n == "close_window".to_owned() {
        Some(Command::CloseWindow)
    } else if n == "minimize_window".to_owned() {
        Some(Command::MinimizeWindow)
    } else {
        None
    }
}

/// Law: the two fixed names are distinct and each routes to its own command.
pub proof fn lemma_names_route()
    ensures
        spec_lookup("close_window"@) == Some(Command::CloseWindow),
        spec_lookup("minimize_window"@) == Some(Command::MinimizeWindow),
        "close_window"@ != "minimize_window"@,
{
    reveal_strlit("close_window");
    reveal_strlit("minimize_window");
    assert("close_window"@.len() != "minimize_window"@.len());
}

/// Whether a command is among the registered ones.
fn contains_command(cmds: &Vec<Command>, c: Command) -> (r: bool)
    ensures
        r == cmds@.contains(c),
{
    let n = cmds.len();
    for i in 0..n
        invariant
            n == cmds@.len(),
            forall|j: int| 0 <= j < i ==> cmds@[j] != c,
    {
        if cmds[i] == c {
            assert(cmds@[i as int] == c);
            return true;
        }
    }
    false
}

/// Whether a plugin is among the attached ones.
fn contains_plugin(plugins: &Vec<Plugin>, p: Plugin) -> (r: bool)
    ensures
        r == plugins@.contains(p),
{
    let n = plugins.len();
    for i in 0..n
        invariant
            n == plugins@.len(),
            forall|j: int| 0 <= j < i ==> plugins@[j] != p,
    {
        if plugins[i] == p {
            assert(plugins@[i as int] == p);
            return true;
        }
    }
    false
}

impl App {
    /// The application's window table has no two windows under one handle.
    pub open spec fn wf(self) -> bool {
        self.host.wf()
    }

    /// The plugin was attached during bootstrap.
    pub open spec fn has_plugin(self, p: Plugin) -> bool {
        self.plugins@.contains(p)
    }

    /// The command was registered during bootstrap.
    pub open spec fn registered(self, c: Command) -> bool {
        self.commands@.contains(c)
    }

    /// Whether the plugin was attached during bootstrap.
    pub fn plugin_attached(&self, p: Plugin) -> (r: bool)
        ensures
            r == self.has_plugin(p),
    {
        contains_plugin(&self.plugins, p)
    }

    /// Whether the command was registered during bootstrap.
    pub fn command_registered(&self, c: Command) -> (r: bool)
        ensures
            r == self.registered(c),
    {
        contains_command(&self.commands, c)
    }

    /// Dispatches one remote invocation: routes the name to a registered
    /// command and runs that command over the window the handle names. A name
    /// that reaches no registered command changes nothing; a command fault is
    /// surfaced with no recovery attached, ending the invoking task.
    pub fn invoke(&mut self, name: &str, handle: u64) -> (r: Result<(), DispatchError>)
        requires
            old(self).wf(),
        ensures
            final(self).wf(),
            final(self).plugins@ == old(self).plugins@,
            final(self).commands@ == old(self).commands@,
            ({
                let routed = spec_lookup(name@);
                &&& (routed is None ==> r == Err::<(), DispatchError>(
                    DispatchError::UnknownCommand,
                ) && final(self).host@ == old(self).host@)
                &&& (routed matches Some(c) && !old(self).registered(c) ==> r == Err::<
                    (),
                    DispatchError,
                >(DispatchError::UnknownCommand) && final(self).host@ == old(self).host@)
                &&& (routed == Some(Command::CloseWindow) && old(self).registered(
                    Command::CloseWindow,
                ) ==> {
                    &&& (r is Ok <==> old(self).host.is_open(handle))
                    &&& old(self).host.is_open(handle) ==> final(self).host@ == close_transition(
                        old(self).host@,
                        handle,
                    )
                    &&& !old(self).host.is_open(handle) ==> r == Err::<(), DispatchError>(
                        DispatchError::Command(CommandError::InvalidHandle),
                    ) && final(self).host@ == old(self).host@
                })
                &&& (routed == Some(Command::MinimizeWindow) && old(self).registered(
                    Command::MinimizeWindow,
                ) ==> {
                    &&& (r is Ok <==> old(self).host.is_open(handle))
                    &&& final(self).host@ == minimize_transition(old(self).host@, handle)
                    &&& !old(self).host.is_open(handle) ==> r == Err::<(), DispatchError>(
                        DispatchError::Command(CommandError::InvalidHandle),
                    ) && final(self).host@ == old(self).host@
                })
            }),
    {
        match lookup_command(name) {
            Some(c) => {
                if contains_command(&self.commands, c) {
                    let delegated = match c {
                        Command::CloseWindow => self.host.close_window(handle),
                        Command::MinimizeWindow => self.host.minimize_window(handle),
                    };
                    match delegated {
                        Ok(()) => Ok(()),
                        Err(e) => Err(DispatchError::Command(e)),
                    }
                } else {
                    Err(DispatchError::UnknownCommand)
                }
            },
            None => Err(DispatchError::UnknownCommand),
        }
    }
}

/// The bootstrap sequence, executed once at process start: construct the
/// builder, attach the filesystem-access plugin, attach the native-dialog
/// plugin, register the two named commands, load the packaged configuration
/// and construct the running application. On a well-formed configuration both
/// plugins are attached and both commands are registered before the run loop
/// processes any event; on a malformed one the startup fault comes back and
/// no window is ever displayed.
pub fn bootstrap(context: Context) -> (r: Result<App, StartupError>)
    ensures
        r is Ok <==> context.config_ok,
        r matches Ok(app) ==> {
            &&& app.wf()
            &&& app.has_plugin(Plugin::FsAccess)
            &&& app.has_plugin(Plugin::Dialog)
            &&& app.registered(Command::CloseWindow)
            &&& app.registered(Command::MinimizeWindow)
            &&& app.host@ == Map::<u64, bool>::empty().insert(context.main_window, false)
            &&& app.host.running()
        },
        !context.config_ok ==> r == Err::<App, StartupError>(StartupError::ConstructionFailed),
{
    let mut handlers: Vec<Command> = Vec::new();
    handlers.push(Command::CloseWindow);
    handlers.push(Command::MinimizeWindow);
    let r = Builder::default().plugin(Plugin::FsAccess).plugin(Plugin::Dialog).invoke_handler(
        handlers,
    ).run(context);
    match &r {
        Ok(app) => {
            assert(app.plugins@[0] == Plugin::FsAccess);
            assert(app.plugins@[1] == Plugin::Dialog);
            assert(app.commands@[0] == Command::CloseWindow);
            assert(app.commands@[1] == Command::MinimizeWindow);
        },
        Err(_) => {},
    }
    r
}

} // verus!

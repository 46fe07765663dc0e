use vstd::prelude::*;

use crate::strutil::{extend_strings, strings_view};

verus! {

/// How long, in milliseconds, the startup monitor waits when the
/// configuration names no timeout of its own.
pub const DEFAULT_ELEVATION_TIMEOUT_MS: u64 = 30000;

/// Why a launch did not happen.
#[derive(Debug, Clone, Copy, PartialEq, Eq, Structural)]
pub enum LaunchError {
    /// No elevation helper could be located for the requested mode.
    HelperNotFound,
    /// GUI elevation was requested where no GUI-capable helper is assumed.
    UnsupportedPlatform,
    /// Creating the process, or the shell execution, failed; carries the
    /// operating system's error code where there is one.
    LaunchFailed(Option<i32>),
    /// The path of the running executable could not be determined.
    PathResolutionFailed,
    /// A detachment step (new session, signal policy, stream redirection,
    /// creation flag) failed; carries the operating system's error code.
    DetachmentFailed(Option<i32>),
}

/// What a successful launch reports.
#[derive(Debug, Clone, Copy, PartialEq, Eq, Structural)]
pub enum LaunchOutcome {
    /// The launch waited for the process, which exited with this code.
    Completed(i32),
    /// The process was left running; no exit code is available.
    Detached,
}

/// A launch that waited completes with the exit code; one that did not is
/// detached.
pub open spec fn launch_outcome(wait_to_complete: bool, exit_code: i32) -> LaunchOutcome {
    if wait_to_complete {
        LaunchOutcome::Completed(exit_code)
    } else {
        LaunchOutcome::Detached
    }
}

/// The outcome of a launch that was carried out, given the exit code that a
/// waited-for process reported (ignored when the launch did not wait).
pub fn finish_launch(wait_to_complete: bool, exit_code: i32) -> (r: LaunchOutcome)
    ensures
        r == launch_outcome(wait_to_complete, exit_code),
{
    if wait_to_complete {
        LaunchOutcome::Completed(exit_code)
    } else {
        LaunchOutcome::Detached
    }
}

/// A description of what to run with elevated privileges, and how.
pub struct Command {
    /// The executable to run.
    pub command: String,
    /// Its arguments, handed over verbatim and in order.
    pub args: Vec<String>,
    /// GUI elevation path (consent helper, shell verb) rather than console.
    pub gui: bool,
    /// Discard cached credentials first (password-prompt helpers only).
    pub force_prompt: bool,
    /// Block until the process exits.
    pub wait_to_complete: bool,
    /// Hide the elevated process's window (Windows).
    pub hidden: bool,
    /// Cap in milliseconds on the startup monitor's wait.
    pub elevation_timeout: Option<u64>,
}

impl Command {
    /// The configuration is usable: the command is not empty.
    pub open spec fn wf(&self) -> bool {
        self.command@.len() > 0
    }

    /// The views of the arguments.
    pub open spec fn view_args(&self) -> Seq<Seq<char>> {
        strings_view(self.args@)
    }

    /// The startup monitor's timeout in milliseconds, with the default
    /// applied.
    pub open spec fn effective_timeout(&self) -> u64 {
        match self.elevation_timeout {
            Some(t) => t,
            None => DEFAULT_ELEVATION_TIMEOUT_MS,
        }
    }

    /// A configuration that runs `command` with no arguments, in console
    /// mode, waiting for it, visible, with the default timeout.
    pub fn new(command: &str) -> (r: Command)
        requires
            command@.len() > 0,
        ensures
            r.wf(),
            r.command@ == command@,
            r.view_args() == Seq::<Seq<char>>::empty(),
            !r.gui,
            !r.force_prompt,
            r.wait_to_complete,
            !r.hidden,
            r.elevation_timeout == None::<u64>,
    {
        let r = Command {
            command: command.to_string(),
            args: Vec::new(),
            gui: false,
            force_prompt: false,
            wait_to_complete: true,
            hidden: false,
            elevation_timeout: None,
        };
        proof {
            assert(strings_view(r.args@) =~= Seq::<Seq<char>>::empty());
        }
        r
    }

    /// Appends one argument.
    pub fn arg(self, arg: &str) -> (r: Command)
        ensures
            r == (Command { args: r.args, ..self }),
            r.view_args() == self.view_args().push(arg@),
    {
        let mut r = self;
        let ghost before = r.args@;
        r.args.push(arg.to_string());
        proof {
            assert(strings_view(r.args@) =~= strings_view(before).push(arg@));
        }
        r
    }

    /// Appends the arguments of `args`, in order.
    pub fn args(self, args: &Vec<String>) -> (r: Command)
        ensures
            r == (Command { args: r.args, ..self }),
            r.view_args() == self.view_args() + strings_view(args@),
    {
        let mut r = self;
        extend_strings(&mut r.args, args);
        r
    }

    /// Selects the GUI elevation path (`true`) or the console path.
    pub fn gui(self, gui: bool) -> (r: Command)
        ensures
            r == (Command { gui, ..self }),
    {
        Command { gui, ..self }
    }

    /// Asks that cached credentials be discarded before elevating.
    pub fn force_prompt(self, force_prompt: bool) -> (r: Command)
        ensures
            r == (Command { force_prompt, ..self }),
    {
        Command { force_prompt, ..self }
    }

    /// Chooses between a blocking and a non-blocking launch.
    pub fn wait_to_complete(self, wait_to_complete: bool) -> (r: Command)
        ensures
            r == (Command { wait_to_complete, ..self }),
    {
        Command { wait_to_complete, ..self }
    }

    /// Hides the elevated process's window (Windows).
    pub fn hidden(self, hidden: bool) -> (r: Command)
        ensures
            r == (Command { hidden, ..self }),
    {
        Command { hidden, ..self }
    }

    /// Caps, in milliseconds, how long the startup monitor waits; `None`
    /// restores the default.
    pub fn elevation_timeout(self, elevation_timeout: Option<u64>) -> (r: Command)
        ensures
            r == (Command { elevation_timeout, ..self }),
    {
        Command { elevation_timeout, ..self }
    }

    /// The startup monitor's timeout in milliseconds, default applied.
    pub fn timeout_ms(&self) -> (r: u64)
        ensures
            r == self.effective_timeout(),
    {
        match self.elevation_timeout {
            Some(t) => t,
            None => DEFAULT_ELEVATION_TIMEOUT_MS,
        }
    }
}

} // verus!

use vstd::prelude::*;

use crate::command::{launch_outcome, Command, LaunchError, LaunchOutcome};
use crate::strutil::{extend_strings, strings_view};

verus! {

/// An elevation helper of Unix-like systems.
#[derive(Debug, Clone, Copy, PartialEq, Eq, Structural)]
pub enum Helper {
    /// The consent-prompt helper, for the GUI path (Linux).
    Pkexec,
    /// The sudo-style password-prompt helper.
    Sudo,
    /// The doas-style password-prompt helper.
    Doas,
}

impl Helper {
    pub open spec fn spec_name(self) -> Seq<char> {
        match self {
            Helper::Pkexec => "pkexec"@,
            Helper::Sudo => "sudo"@,
            Helper::Doas => "doas"@,
        }
    }

    /// The executable name under which the helper is looked up and run.
    pub fn name(&self) -> (r: &'static str)
        ensures
            r@ == self.spec_name(),
    {
        match self {
            Helper::Pkexec => "pkexec",
            Helper::Sudo => "sudo",
            Helper::Doas => "doas",
        }
    }
}

/// How the helper process is to be run.
pub enum LaunchMode {
    /// Run it and wait for its exit code.
    Wait,
    /// Spawn it detached from the caller's session, and do not wait.
    Detach,
    /// Spawn it, then watch for `command_path` to run as root for at most
    /// `timeout_ms` milliseconds before the caller's process ends.
    Monitor { command_path: String, timeout_ms: u64 },
}

/// What to run to elevate a command on a Unix-like system.
pub struct UnixPlan {
    /// The helper to run.
    pub helper: Helper,
    /// The helper's arguments.
    pub args: Vec<String>,
    /// Grant the root user access to the X display first.
    pub grant_display: bool,
    /// Whether to wait, detach, or monitor.
    pub mode: LaunchMode,
}

impl UnixPlan {
    /// Whether the caller waits for the helper's exit code.
    pub fn waits(&self) -> (r: bool)
        ensures
            r == self.mode is Wait,
    {
        match self.mode {
            LaunchMode::Wait => true,
            _ => false,
        }
    }
}

/// The credential-invalidation flag of the sudo-style helper.
pub const INVALIDATE_FLAG: &'static str = "-k";

/// The end-of-options marker handed to the password-prompt helpers.
pub const END_OF_OPTIONS: &'static str = "--";

/// The password-prompt helper chosen from the ones present: the sudo-style
/// helper wins over the doas-style one.
pub open spec fn console_helper(sudo: bool, doas: bool) -> Option<Helper> {
    if sudo {
        Some(Helper::Sudo)
    } else if doas {
        Some(Helper::Doas)
    } else {
        None
    }
}

/// The helper selected for `cmd`, or why there is none, given where the
/// program runs and which helpers are present.
pub open spec fn helper_choice(
    cmd: Command,
    linux: bool,
    pkexec: bool,
    sudo: bool,
    doas: bool,
) -> Result<Helper, LaunchError> {
    if cmd.gui {
        if !linux {
            Err(LaunchError::UnsupportedPlatform)
        } else if !pkexec {
            Err(LaunchError::HelperNotFound)
        } else {
            Ok(Helper::Pkexec)
        }
    } else {
        match console_helper(sudo, doas) {
            Some(h) => Ok(h),
            None => Err(LaunchError::HelperNotFound),
        }
    }
}

/// The arguments handed to `helper` to run `cmd`.
pub open spec fn helper_args(
    cmd: Command,
    helper: Helper,
    display: Seq<char>,
    xauthority: Seq<char>,
) -> Seq<Seq<char>> {
    match helper {
        Helper::Pkexec => seq!["env"@, "DISPLAY="@ + display, "XAUTHORITY="@ + xauthority, cmd.command@]
            + cmd.view_args(),
        Helper::Sudo => if cmd.force_prompt {
            seq![INVALIDATE_FLAG@, END_OF_OPTIONS@, cmd.command@] + cmd.view_args()
        } else {
            seq![END_OF_OPTIONS@, cmd.command@] + cmd.view_args()
        },
        Helper::Doas => seq![END_OF_OPTIONS@, cmd.command@] + cmd.view_args(),
    }
}

/// The mode is: wait when asked to; otherwise monitor on the GUI path and
/// detach on the console path.
pub open spec fn mode_fits(mode: LaunchMode, cmd: Command) -> bool {
    match mode {
        LaunchMode::Wait => cmd.wait_to_complete,
        LaunchMode::Detach => !cmd.wait_to_complete && !cmd.gui,
        LaunchMode::Monitor { command_path, timeout_ms } => !cmd.wait_to_complete && cmd.gui
            && command_path@ == cmd.command@ && timeout_ms == cmd.effective_timeout(),
    }
}

/// `r` is what elevating `cmd` comes to, given where the program runs,
/// which helpers are present, and the display settings of the caller.
pub open spec fn plan_fits(
    r: Result<UnixPlan, LaunchError>,
    cmd: Command,
    linux: bool,
    pkexec: bool,
    sudo: bool,
    doas: bool,
    display: Seq<char>,
    xauthority: Seq<char>,
) -> bool {
    match r {
        Ok(p) => helper_choice(cmd, linux, pkexec, sudo, doas) == Ok::<Helper, LaunchError>(p.helper)
            && strings_view(p.args@) == helper_args(cmd, p.helper, display, xauthority)
            && p.grant_display == cmd.gui && mode_fits(p.mode, cmd),
        Err(e) => helper_choice(cmd, linux, pkexec, sudo, doas) == Err::<Helper, LaunchError>(e),
    }
}

/// Selects the password-prompt helper from the ones present.
pub fn select_console_helper(sudo: bool, doas: bool) -> (r: Option<Helper>)
    ensures
        r == console_helper(sudo, doas),
{
    if sudo {
        Some(Helper::Sudo)
    } else if doas {
        Some(Helper::Doas)
    } else {
        None
    }
}

/// A string made of `prefix` followed by `value`.
fn joined(prefix: &str, value: &str) -> (r: String)
    ensures
        r@ == prefix@ + value@,
{
    let mut s = prefix.to_string();
    s.append(value);
    s
}

/// The helper's argument list for `cmd`.
pub fn build_helper_args(cmd: &Command, helper: Helper, display: &str, xauthority: &str) -> (r: Vec<String>)
    ensures
        strings_view(r@) == helper_args(*cmd, helper, display@, xauthority@),
{
    let mut v: Vec<String> = Vec::new();
    match helper {
        Helper::Pkexec => {
            v.push("env".to_string());
            v.push(joined("DISPLAY=", display));
            v.push(joined("XAUTHORITY=", xauthority));
        },
        Helper::Sudo => {
            if cmd.force_prompt {
                v.push(INVALIDATE_FLAG.to_string());
            }
            v.push(END_OF_OPTIONS.to_string());
        },
        Helper::Doas => {
            v.push(END_OF_OPTIONS.to_string());
        },
    }
    v.push(cmd.command.clone());
    let ghost head = strings_view(v@);
    extend_strings(&mut v, &cmd.args);
    proof {
        assert(head =~= helper_args(*cmd, helper, display@, xauthority@).take(head.len() as int));
        assert(strings_view(v@) =~= helper_args(*cmd, helper, display@, xauthority@));
    }
    v
}

/// Plans the elevation of `cmd`, given whether the program runs on Linux,
/// which helpers were found, and the caller's `DISPLAY` and `XAUTHORITY`.
pub fn plan_unix(
    cmd: &Command,
    linux: bool,
    pkexec: bool,
    sudo: bool,
    doas: bool,
    display: &str,
    xauthority: &str,
) -> (r: Result<UnixPlan, LaunchError>)
    requires
        cmd.wf(),
    ensures
        plan_fits(r, *cmd, linux, pkexec, sudo, doas, display@, xauthority@),
{
    if cmd.gui {
        if !linux {
            return Err(LaunchError::UnsupportedPlatform);
        }
        if !pkexec {
            return Err(LaunchError::HelperNotFound);
        }
        let mode = if cmd.wait_to_complete {
            LaunchMode::Wait
        } else {
            LaunchMode::Monitor { command_path: cmd.command.clone(), timeout_ms: cmd.timeout_ms() }
        };
        let args = build_helper_args(cmd, Helper::Pkexec, display, xauthority);
        Ok(UnixPlan { helper: Helper::Pkexec, args, grant_display: true, mode })
    } else {
        match select_console_helper(sudo, doas) {
            Some(helper) => {
                let mode = if cmd.wait_to_complete {
                    LaunchMode::Wait
                } else {
                    LaunchMode::Detach
                };
                let args = build_helper_args(cmd, helper, display, xauthority);
                Ok(UnixPlan { helper, args, grant_display: false, mode })
            },
            None => Err(LaunchError::HelperNotFound),
        }
    }
}

/// Relies on `which::which`: whether an executable of that name is found on
/// `PATH`. What is installed varies, so nothing is promised of the answer.
#[verifier::external_body]
fn locate_executable(name: &str) -> (r: bool) {
    which::which(name).is_ok()
}

/// Plans the elevation of `cmd` on this system, probing `PATH` for the
/// helpers that the requested mode can use.
pub fn runas_impl(cmd: &Command, linux: bool, display: &str, xauthority: &str) -> (r: Result<
    UnixPlan,
    LaunchError,
>)
    requires
        cmd.wf(),
    ensures
        exists|pkexec: bool, sudo: bool, doas: bool|
            plan_fits(r, *cmd, linux, pkexec, sudo, doas, display@, xauthority@),
{
    let mut pkexec = false;
    let mut sudo = false;
    let mut doas = false;
    if cmd.gui {
        if linux {
            pkexec = locate_executable(Helper::Pkexec.name());
        }
    } else {
        sudo = locate_executable(Helper::Sudo.name());
        if !sudo {
            doas = locate_executable(Helper::Doas.name());
        }
    }
    let r = plan_unix(cmd, linux, pkexec, sudo, doas, display, xauthority);
    assert(plan_fits(r, *cmd, linux, pkexec, sudo, doas, display@, xauthority@));
    r
}

/// A configuration that waits is launched waiting and completes with the
/// helper's exit code, never detached; one on the console path that does
/// not wait is spawned detached, with no monitor that would end the caller.
pub proof fn lemma_launch_outcome(
    p: UnixPlan,
    cmd: Command,
    linux: bool,
    pkexec: bool,
    sudo: bool,
    doas: bool,
    display: Seq<char>,
    xauthority: Seq<char>,
    exit_code: i32,
)
    requires
        plan_fits(Ok(p), cmd, linux, pkexec, sudo, doas, display, xauthority),
    ensures
        cmd.wait_to_complete ==> p.mode is Wait && launch_outcome(p.mode is Wait, exit_code)
            == LaunchOutcome::Completed(exit_code),
        !cmd.wait_to_complete && !cmd.gui ==> p.mode is Detach && launch_outcome(
            p.mode is Wait,
            exit_code,
        ) == LaunchOutcome::Detached,
{
}

/// On the console path the sudo-style helper is chosen whenever it is
/// present, the doas-style helper only when it alone is present, and with
/// neither the plan fails with `HelperNotFound`.
pub proof fn lemma_helper_precedence(
    r: Result<UnixPlan, LaunchError>,
    cmd: Command,
    linux: bool,
    pkexec: bool,
    sudo: bool,
    doas: bool,
    display: Seq<char>,
    xauthority: Seq<char>,
)
    requires
        !cmd.gui,
        plan_fits(r, cmd, linux, pkexec, sudo, doas, display, xauthority),
    ensures
        sudo ==> r is Ok && r->Ok_0.helper == Helper::Sudo,
        !sudo && doas ==> r is Ok && r->Ok_0.helper == Helper::Doas,
        !sudo && !doas ==> r == Err::<UnixPlan, LaunchError>(LaunchError::HelperNotFound),
{
}

/// The credential-invalidation flag leads the helper's arguments exactly
/// when the sudo-style helper was chosen and a prompt was forced; the other
/// helpers never receive it.
pub proof fn lemma_force_prompt_only_for_sudo(
    p: UnixPlan,
    cmd: Command,
    linux: bool,
    pkexec: bool,
    sudo: bool,
    doas: bool,
    display: Seq<char>,
    xauthority: Seq<char>,
)
    requires
        plan_fits(Ok(p), cmd, linux, pkexec, sudo, doas, display, xauthority),
    ensures
        (p.args@.len() > 0 && p.args@[0]@ == INVALIDATE_FLAG@) <==> (p.helper == Helper::Sudo
            && cmd.force_prompt),
{
    reveal_strlit("-k");
    reveal_strlit("--");
    reveal_strlit("env");
    let v = strings_view(p.args@);
    assert(v.len() == p.args@.len());
    if p.args@.len() > 0 {
        assert(v[0] == p.args@[0]@);
        assert(INVALIDATE_FLAG@ != END_OF_OPTIONS@) by {
            assert(INVALIDATE_FLAG@[1] != END_OF_OPTIONS@[1]);
        }
        assert(INVALIDATE_FLAG@ != "env"@) by {
            assert(INVALIDATE_FLAG@[0] != "env"@[0]);
        }
    }
}

/// Tells from the effective user id whether the process is privileged: it
/// is exactly when that id is the superuser's.
pub fn is_elevated(euid: u32) -> (r: bool)
    ensures
        r == (euid == 0),
{
    euid == 0
}

} // verus!

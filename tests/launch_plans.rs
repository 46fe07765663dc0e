use run_as::command::finish_launch;
use run_as::impl_unix::{plan_unix, runas_impl, select_console_helper, Helper, LaunchMode};
use run_as::{Command, LaunchError, LaunchOutcome, DEFAULT_ELEVATION_TIMEOUT_MS};

fn strs(v: &[&str]) -> Vec<String> {
    v.iter().map(|s| s.to_string()).collect()
}

#[test]
fn command_defaults() {
    let c = Command::new("id");
    assert_eq!(c.command, "id");
    assert!(c.args.is_empty());
    assert!(!c.gui);
    assert!(!c.force_prompt);
    assert!(c.wait_to_complete);
    assert!(!c.hidden);
    assert_eq!(c.elevation_timeout, None);
    assert_eq!(c.timeout_ms(), DEFAULT_ELEVATION_TIMEOUT_MS);
}

#[test]
fn command_builders() {
    let c = Command::new("cmd")
        .arg("/k")
        .args(&strs(&["whoami", "/priv"]))
        .gui(true)
        .force_prompt(true)
        .wait_to_complete(false)
        .hidden(true)
        .elevation_timeout(Some(5000));
    assert_eq!(c.args, strs(&["/k", "whoami", "/priv"]));
    assert!(c.gui && c.force_prompt && !c.wait_to_complete && c.hidden);
    assert_eq!(c.timeout_ms(), 5000);
}

#[test]
fn console_wait_with_sudo_completes() {
    let c = Command::new("id").gui(false).wait_to_complete(true);
    let p = plan_unix(&c, true, false, true, false, "", "").unwrap();
    assert_eq!(p.helper, Helper::Sudo);
    assert_eq!(p.helper.name(), "sudo");
    assert_eq!(p.args, strs(&["--", "id"]));
    assert!(!p.grant_display);
    assert!(matches!(p.mode, LaunchMode::Wait));
    assert!(p.waits());
    assert_eq!(finish_launch(p.waits(), 0), LaunchOutcome::Completed(0));
}

#[test]
fn console_no_wait_detaches() {
    let c = Command::new("id").args(&strs(&["-u"])).wait_to_complete(false);
    let p = plan_unix(&c, true, false, false, true, "", "").unwrap();
    assert_eq!(p.helper, Helper::Doas);
    assert!(matches!(p.mode, LaunchMode::Detach));
    assert!(!p.waits());
    assert_eq!(finish_launch(p.waits(), 0), LaunchOutcome::Detached);
}

#[test]
fn sudo_wins_over_doas() {
    assert_eq!(select_console_helper(true, true), Some(Helper::Sudo));
    assert_eq!(select_console_helper(true, false), Some(Helper::Sudo));
    assert_eq!(select_console_helper(false, true), Some(Helper::Doas));
    assert_eq!(select_console_helper(false, false), None);
    let c = Command::new("ls");
    assert_eq!(plan_unix(&c, true, true, true, true, "", "").unwrap().helper, Helper::Sudo);
    assert_eq!(plan_unix(&c, true, true, false, true, "", "").unwrap().helper, Helper::Doas);
}

#[test]
fn no_console_helper_is_not_found() {
    let c = Command::new("ls");
    assert_eq!(plan_unix(&c, true, true, false, false, "", "").err(), Some(LaunchError::HelperNotFound));
}

#[test]
fn force_prompt_only_for_sudo() {
    let c = Command::new("ls").arg("-l").force_prompt(true);
    let sudo = plan_unix(&c, true, false, true, true, "", "").unwrap();
    assert_eq!(sudo.args, strs(&["-k", "--", "ls", "-l"]));
    let doas = plan_unix(&c, true, false, false, true, "", "").unwrap();
    assert_eq!(doas.args, strs(&["--", "ls", "-l"]));
    let unforced = plan_unix(&c.force_prompt(false), true, false, true, false, "", "").unwrap();
    assert_eq!(unforced.args, strs(&["--", "ls", "-l"]));
}

#[test]
fn gui_plan_uses_pkexec_with_display() {
    let c = Command::new("/usr/bin/gui-app").arg("--x").gui(true);
    let p = plan_unix(&c, true, true, false, false, ":0", "/home/u/.Xauthority").unwrap();
    assert_eq!(p.helper, Helper::Pkexec);
    assert_eq!(
        p.args,
        strs(&["env", "DISPLAY=:0", "XAUTHORITY=/home/u/.Xauthority", "/usr/bin/gui-app", "--x"])
    );
    assert!(p.grant_display);
    assert!(matches!(p.mode, LaunchMode::Wait));
}

#[test]
fn gui_no_wait_monitors() {
    let c = Command::new("/usr/bin/gui-app").gui(true).wait_to_complete(false).elevation_timeout(Some(7000));
    let p = plan_unix(&c, true, true, true, true, "", "").unwrap();
    match p.mode {
        LaunchMode::Monitor { command_path, timeout_ms } => {
            assert_eq!(command_path, "/usr/bin/gui-app");
            assert_eq!(timeout_ms, 7000);
        }
        _ => panic!("expected the monitor"),
    }
    let d = plan_unix(&c.elevation_timeout(None), true, true, false, false, "", "").unwrap();
    assert!(matches!(d.mode, LaunchMode::Monitor { timeout_ms: DEFAULT_ELEVATION_TIMEOUT_MS, .. }));
}

#[test]
fn gui_without_pkexec_is_not_found() {
    let c = Command::new("app").gui(true);
    assert_eq!(plan_unix(&c, true, false, true, true, "", "").err(), Some(LaunchError::HelperNotFound));
}

#[test]
fn gui_off_linux_is_unsupported() {
    let c = Command::new("app").gui(true);
    assert_eq!(plan_unix(&c, false, true, true, true, "", "").err(), Some(LaunchError::UnsupportedPlatform));
    assert_eq!(runas_impl(&c, false, "", "").err(), Some(LaunchError::UnsupportedPlatform));
}

#[test]
fn probing_console_helpers() {
    let c = Command::new("id");
    match runas_impl(&c, true, "", "") {
        Ok(p) => {
            assert!(p.helper == Helper::Sudo || p.helper == Helper::Doas);
            assert_eq!(&p.args[p.args.len() - 2..], &strs(&["--", "id"])[..]);
        }
        Err(e) => assert_eq!(e, LaunchError::HelperNotFound),
    }
}

#[test]
fn unix_elevation_detection() {
    assert!(run_as::impl_unix::is_elevated(0));
    assert!(!run_as::impl_unix::is_elevated(1000));
}

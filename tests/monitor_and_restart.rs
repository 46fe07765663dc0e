use run_as::command::finish_launch;
use run_as::monitor::{
    cmdline_first_arg, has_root_match, match_decision, monitor_next, path_matches, status_is_root,
    uid_line_is_root, MonitorAction, ProcEntry, POLL_INTERVAL_MS,
};
use run_as::restart_self::{restart_self, restart_self_elevated, ElevatedRestart};
use run_as::{LaunchError, LaunchOutcome};

fn strs(v: &[&str]) -> Vec<String> {
    v.iter().map(|s| s.to_string()).collect()
}

fn entry(first_arg: &str, uid_is_root: bool) -> ProcEntry {
    ProcEntry { first_arg: first_arg.to_string(), uid_is_root }
}

#[test]
fn monitor_finds_root_process() {
    let table = vec![entry("/usr/bin/bash", true), entry("/opt/app/gui", true), entry("gui", false)];
    let found = has_root_match(&table, "/opt/app/gui");
    assert!(found);
    assert_eq!(monitor_next(0, 30000, None), MonitorAction::Scan);
    assert_eq!(monitor_next(0, 30000, Some(found)), MonitorAction::Finish(true));
}

#[test]
fn monitor_times_out_without_match() {
    let table = vec![entry("/usr/bin/bash", true), entry("/opt/app/gui", false)];
    let found = has_root_match(&table, "/opt/app/gui");
    assert!(!found);
    assert_eq!(monitor_next(1000, 3000, Some(found)), MonitorAction::Sleep(POLL_INTERVAL_MS));
    assert_eq!(monitor_next(2999, 3000, None), MonitorAction::Scan);
    assert_eq!(monitor_next(3000, 3000, None), MonitorAction::Finish(false));
    assert_eq!(monitor_next(5000, 3000, None), MonitorAction::Finish(false));
}

#[test]
fn path_matching() {
    assert!(path_matches("/opt/app/gui", "/opt/app/gui"));
    assert!(path_matches("/opt//app/gui", "/opt/app/gui"));
    assert!(!path_matches("/opt/other/gui", "/opt/app/gui"));
    assert!(path_matches("gui", "/opt/app/gui"));
    assert!(path_matches("/opt/app/gui", "gui"));
    assert!(path_matches("./gui/", "gui"));
    assert!(!path_matches("gui2", "gui"));
    assert!(!path_matches("", "gui"));
    assert!(!path_matches("..", ".."));
}

#[test]
fn match_decision_on_given_values() {
    assert!(match_decision(true, true, &None, &None));
    assert!(!match_decision(true, false, &Some("a".to_string()), &Some("a".to_string())));
    assert!(match_decision(false, false, &Some("a".to_string()), &Some("a".to_string())));
    assert!(!match_decision(false, true, &Some("a".to_string()), &Some("b".to_string())));
    assert!(!match_decision(false, true, &None, &Some("b".to_string())));
}

#[test]
fn first_cmdline_argument() {
    assert_eq!(cmdline_first_arg(b"/usr/bin/app\0--x\0"), b"/usr/bin/app".to_vec());
    assert_eq!(cmdline_first_arg(b"app"), b"app".to_vec());
    assert_eq!(cmdline_first_arg(b"\0x"), Vec::<u8>::new());
    assert_eq!(cmdline_first_arg(b""), Vec::<u8>::new());
}

#[test]
fn uid_lines() {
    assert!(uid_line_is_root(b"Uid:\t0\t0\t0\t0"));
    assert!(uid_line_is_root(b"Uid: 0"));
    assert!(!uid_line_is_root(b"Uid:\t1000\t1000\t1000\t1000"));
    assert!(!uid_line_is_root(b"Uid:\t01\t0"));
    assert!(!uid_line_is_root(b"Gid:\t0\t0\t0\t0"));
    assert!(!uid_line_is_root(b"Uid:0\t5"));
    assert!(!uid_line_is_root(b"Uid:"));
}

#[test]
fn status_texts() {
    let root = b"Name:\tapp\nUmask:\t0022\nUid:\t0\t0\t0\t0\nGid:\t0\t0\t0\t0\n";
    let user = b"Name:\tapp\nUid:\t1000\t1000\t1000\t1000\nGid:\t0\t0\t0\t0\n";
    assert!(status_is_root(root));
    assert!(!status_is_root(user));
    assert!(status_is_root(b"Uid:\t0\t0\t0\t0"));
    assert!(!status_is_root(b""));
}

#[test]
fn restart_detached_with_extra_args() {
    let own = strs(&["/bin/app", "--verbose"]);
    let p = restart_self(Some("/bin/app".to_string()), &own, Some(strs(&["--child"])), false).unwrap();
    assert_eq!(p.program, "/bin/app");
    assert_eq!(p.args, strs(&["--verbose", "--child"]));
    assert!(p.detach);
    assert!(!p.wait_to_complete);
    assert_eq!(finish_launch(p.wait_to_complete, 0), LaunchOutcome::Detached);
}

#[test]
fn restart_waiting_keeps_arguments() {
    let own = strs(&["app", "a", "b"]);
    let p = restart_self(Some("/bin/app".to_string()), &own, None, true).unwrap();
    assert_eq!(p.args, strs(&["a", "b"]));
    assert!(!p.detach);
    let q = restart_self(Some("/bin/app".to_string()), &Vec::new(), None, true).unwrap();
    assert!(q.args.is_empty());
}

#[test]
fn restart_without_path_fails() {
    let own = strs(&["app"]);
    assert_eq!(restart_self(None, &own, None, true).err(), Some(LaunchError::PathResolutionFailed));
    assert_eq!(
        restart_self(Some(String::new()), &own, None, true).err(),
        Some(LaunchError::PathResolutionFailed)
    );
    assert_eq!(
        restart_self_elevated(false, None, &own, None, true, true, None).err(),
        Some(LaunchError::PathResolutionFailed)
    );
}

#[test]
fn elevated_restart_routes() {
    let own = strs(&["app", "x"]);
    match restart_self_elevated(true, Some("/bin/app".to_string()), &own, Some(strs(&["--e"])), true, false, None) {
        Ok(ElevatedRestart::Direct(p)) => {
            assert_eq!(p.args, strs(&["x", "--e"]));
            assert!(p.detach);
        }
        _ => panic!("expected a direct restart"),
    }
    match restart_self_elevated(false, Some("/bin/app".to_string()), &own, Some(strs(&["--e"])), true, true, Some(9000)) {
        Ok(ElevatedRestart::Elevate(c)) => {
            assert_eq!(c.command, "/bin/app");
            assert_eq!(c.args, strs(&["x", "--e"]));
            assert!(c.gui && c.wait_to_complete && !c.force_prompt && !c.hidden);
            assert_eq!(c.timeout_ms(), 9000);
        }
        _ => panic!("expected an elevated restart"),
    }
}

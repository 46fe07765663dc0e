use run_as::command::finish_launch;
use run_as::impl_windows::{build_params, is_elevated, runas_impl};
use run_as::{Command, LaunchOutcome};

fn strs(v: &[&str]) -> Vec<String> {
    v.iter().map(|s| s.to_string()).collect()
}

/// The C runtime's argument splitting, for checking the parameter string.
fn split(s: &str) -> Vec<String> {
    let mut out = Vec::new();
    let mut cur = String::new();
    let mut bs = 0usize;
    let mut quoted = false;
    let mut started = false;
    for c in s.chars() {
        if c == '\\' {
            bs += 1;
            started = true;
        } else if c == '"' {
            cur.push_str(&"\\".repeat(bs / 2));
            if bs % 2 == 1 {
                cur.push('"');
            } else {
                quoted = !quoted;
            }
            bs = 0;
            started = true;
        } else if (c == ' ' || c == '\t') && !quoted {
            cur.push_str(&"\\".repeat(bs));
            if started {
                out.push(std::mem::take(&mut cur));
            }
            cur.clear();
            bs = 0;
            started = false;
        } else {
            cur.push_str(&"\\".repeat(bs));
            cur.push(c);
            bs = 0;
            started = true;
        }
    }
    if started {
        cur.push_str(&"\\".repeat(bs));
        out.push(cur);
    }
    out
}

#[test]
fn plain_args_pass_as_they_are() {
    assert_eq!(build_params(&strs(&["/k", "whoami", "/priv"])), " /k whoami /priv");
    assert_eq!(build_params(&strs(&[r"C:\dir\file"])), r" C:\dir\file");
    assert_eq!(build_params(&Vec::new()), "");
}

#[test]
fn empty_arg_is_a_pair_of_quotes() {
    assert_eq!(build_params(&strs(&["", "a"])), " \"\" a");
}

#[test]
fn blanks_and_quotes_are_quoted() {
    assert_eq!(build_params(&strs(&["a b"])), " \"a b\"");
    assert_eq!(build_params(&strs(&["a\tb"])), " \"a\tb\"");
    assert_eq!(build_params(&strs(&["say \"hi\""])), r#" "say \"hi\"""#);
    assert_eq!(build_params(&strs(&[r"a b\"])), r#" "a b\\""#);
}

#[test]
fn escaped_params_split_back() {
    let cases = vec![
        strs(&["a b", "", "\tx", "q\"uote", "plain", r"end\", r"c:\x"]),
        strs(&["", ""]),
        strs(&[r#"x\"y z"#, " "]),
    ];
    for args in cases {
        assert_eq!(split(&build_params(&args)), args);
    }
}

#[test]
fn windows_plan_for_console() {
    let c = Command::new("cmd").arg("/k").arg("whoami").arg("/priv").gui(true).wait_to_complete(true);
    let p = runas_impl(&c);
    assert_eq!(p.file, "cmd");
    assert_eq!(p.params, " /k whoami /priv");
    assert!(p.show);
    assert!(p.wait_to_complete);
    assert_eq!(finish_launch(p.wait_to_complete, 3), LaunchOutcome::Completed(3));
    let h = runas_impl(&c.hidden(true).wait_to_complete(false));
    assert!(!h.show);
    assert_eq!(finish_launch(h.wait_to_complete, 0), LaunchOutcome::Detached);
}

#[test]
fn windows_elevation_fails_closed() {
    assert!(is_elevated(true, true, 1));
    assert!(!is_elevated(true, true, 0));
    assert!(!is_elevated(false, true, 1));
    assert!(!is_elevated(true, false, 1));
}

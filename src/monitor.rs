use vstd::prelude::*;

verus! {

/// Milliseconds between two scans of the process table.
pub const POLL_INTERVAL_MS: u64 = 1000;

/// Milliseconds to let pass after the elevated process was seen, before the
/// caller's process may end.
pub const SETTLE_MS: u64 = 100;

/// What the monitor's driver does next.
#[derive(Debug, Clone, Copy, PartialEq, Eq, Structural)]
pub enum MonitorAction {
    /// Scan the process table and report whether a match runs as root.
    Scan,
    /// Sleep for this many milliseconds, then ask again without a scan.
    Sleep(u64),
    /// Stop: `true` when the elevated process was seen.
    Finish(bool),
}

/// The monitor's decision, given the milliseconds elapsed since it started,
/// its timeout, and the result of the scan just made (`None` when none was
/// made since the last sleep).
pub open spec fn next_action(elapsed_ms: u64, timeout_ms: u64, scan: Option<bool>) -> MonitorAction {
    match scan {
        None => if elapsed_ms >= timeout_ms {
            MonitorAction::Finish(false)
        } else {
            MonitorAction::Scan
        },
        Some(true) => MonitorAction::Finish(true),
        Some(false) => MonitorAction::Sleep(POLL_INTERVAL_MS),
    }
}

/// One step of the startup monitor: scan while time is left, stop as soon
/// as a scan saw the elevated process, and sleep between scans.
pub fn monitor_next(elapsed_ms: u64, timeout_ms: u64, scan: Option<bool>) -> (r: MonitorAction)
    ensures
        r == next_action(elapsed_ms, timeout_ms, scan),
{
    match scan {
        None => if elapsed_ms >= timeout_ms {
            MonitorAction::Finish(false)
        } else {
            MonitorAction::Scan
        },
        Some(true) => MonitorAction::Finish(true),
        Some(false) => MonitorAction::Sleep(POLL_INTERVAL_MS),
    }
}

/// A path is absolute on Unix when it starts at the root.
pub open spec fn is_absolute(p: Seq<char>) -> bool {
    p.len() > 0 && p[0] == '/'
}

/// What `Path::eq` says of two paths (component-wise equality).
pub uninterp spec fn same_path(a: Seq<char>, b: Seq<char>) -> bool;

/// What `Path::file_name` gives for a path: its last normal component.
pub uninterp spec fn path_file_name(p: Seq<char>) -> Option<Seq<char>>;

/// Relies on `<Path as PartialEq>::eq`: compares the two paths.
#[verifier::external_body]
fn paths_equal(a: &str, b: &str) -> (r: bool)
    ensures
        r == same_path(a@, b@),
{
    std::path::Path::new(a) == std::path::Path::new(b)
}

/// Relies on `Path::file_name`: the final component of the path, if it is
/// a normal one. A component of a `&str` path is valid UTF-8.
#[verifier::external_body]
fn file_name(p: &str) -> (r: Option<String>)
    ensures
        r matches Some(n) ==> path_file_name(p@) == Some(n@),
        r is None ==> path_file_name(p@) == None::<Seq<char>>,
{
    std::path::Path::new(p).file_name().and_then(|n| n.to_str()).map(|n| n.to_string())
}

/// Whether a process whose first command-line argument is `candidate` runs
/// `command`: by path equality when both are absolute, else by file name.
pub open spec fn runs_command(candidate: Seq<char>, command: Seq<char>) -> bool {
    if is_absolute(candidate) && is_absolute(command) {
        same_path(candidate, command)
    } else {
        match (path_file_name(candidate), path_file_name(command)) {
            (Some(a), Some(b)) => a == b,
            _ => false,
        }
    }
}

fn absolute(p: &str) -> (r: bool)
    ensures
        r == is_absolute(p@),
{
    p.unicode_len() > 0 && p.get_char(0) == '/'
}

/// Decides a match from what the path functions reported: `both_absolute`,
/// the result of comparing the paths, and the two file names.
pub fn match_decision(
    both_absolute: bool,
    equal: bool,
    candidate_name: &Option<String>,
    command_name: &Option<String>,
) -> (r: bool)
    ensures
        r == if both_absolute {
            equal
        } else {
            match (candidate_name, command_name) {
                (Some(a), Some(b)) => a@ == b@,
                _ => false,
            }
        },
{
    if both_absolute {
        equal
    } else {
        match (candidate_name, command_name) {
            (Some(a), Some(b)) => a.eq(b),
            _ => false,
        }
    }
}

/// Whether the process whose first argument is `candidate` runs `command`.
pub fn path_matches(candidate: &str, command: &str) -> (r: bool)
    ensures
        r == runs_command(candidate@, command@),
{
    let both = absolute(candidate) && absolute(command);
    if both {
        let eq = paths_equal(candidate, command);
        match_decision(true, eq, &None, &None)
    } else {
        let a = file_name(candidate);
        let b = file_name(command);
        match_decision(false, false, &a, &b)
    }
}

/// One live process, as the monitor sees it.
pub struct ProcEntry {
    /// The first argument of its command line.
    pub first_arg: String,
    /// Whether its real user id is the superuser's.
    pub uid_is_root: bool,
}

/// Whether some entry of `table` runs `command` as root.
pub open spec fn table_has_root_match(table: Seq<ProcEntry>, command: Seq<char>) -> bool {
    exists|i: int|
        0 <= i < table.len() && #[trigger] runs_command(table[i].first_arg@, command)
            && table[i].uid_is_root
}

/// Scans `table` for a process that runs `command` as root.
pub fn has_root_match(table: &Vec<ProcEntry>, command: &str) -> (r: bool)
    ensures
        r == table_has_root_match(table@, command@),
{
    let mut i: usize = 0;
    while i < table.len()
        invariant
            i <= table.len(),
            forall|j: int|
                0 <= j < i ==> !(#[trigger] runs_command(table@[j].first_arg@, command@)
                    && table@[j].uid_is_root),
        decreases table.len() - i,
    {
        if table[i].uid_is_root && path_matches(table[i].first_arg.as_str(), command) {
            return true;
        }
        i = i + 1;
    }
    false
}

/// The first NUL-separated field of a process's command line: the bytes
/// before the first NUL, or all of them where there is none.
pub open spec fn first_field(cmdline: Seq<u8>, n: int) -> bool {
    0 <= n <= cmdline.len() && (forall|i: int| 0 <= i < n ==> cmdline[i] != 0u8) && (n
        == cmdline.len() || cmdline[n] == 0u8)
}

/// The first argument of a NUL-separated command line.
pub fn cmdline_first_arg(cmdline: &[u8]) -> (r: Vec<u8>)
    ensures
        r@ == cmdline@.take(r@.len() as int),
        first_field(cmdline@, r@.len() as int),
{
    let mut r: Vec<u8> = Vec::new();
    let mut i: usize = 0;
    while i < cmdline.len() && cmdline[i] != 0u8
        invariant
            i <= cmdline.len(),
            r@ == cmdline@.take(i as int),
            forall|j: int| 0 <= j < i ==> cmdline@[j] != 0u8,
        decreases cmdline.len() - i,
    {
        r.push(cmdline[i]);
        proof {
            assert(cmdline@.take(i as int + 1) =~= cmdline@.take(i as int).push(cmdline@[i as int]));
        }
        i = i + 1;
    }
    r
}

/// ASCII white space, as it separates the fields of a status line.
pub open spec fn is_space(b: u8) -> bool {
    b == 32u8 || b == 9u8 || b == 10u8 || b == 11u8 || b == 12u8 || b == 13u8
}

fn space(b: u8) -> (r: bool)
    ensures
        r == is_space(b),
{
    b == 32u8 || b == 9u8 || b == 10u8 || b == 11u8 || b == 12u8 || b == 13u8
}

/// The bytes of the label that opens the user-id line of a status file.
pub open spec fn uid_label() -> Seq<u8> {
    seq![85u8, 105u8, 100u8, 58u8]
}

/// In line `l`, the first field ends at `p`, the second starts at `q`, and
/// the second field is `0`.
pub open spec fn zero_second_field(l: Seq<u8>, p: int, q: int) -> bool {
    4 <= p < q < l.len() && (forall|i: int| 0 <= i < p ==> !is_space(#[trigger] l[i])) && (forall|
        i: int,
    |
        p <= i < q ==> is_space(#[trigger] l[i])) && l[q] == 48u8 && (q + 1 == l.len() || is_space(
        l[q + 1],
    ))
}

/// A status line that starts with the user-id label and whose second
/// white-space separated field is `0`: the real user id is the superuser's.
pub open spec fn uid_line_root(l: Seq<u8>) -> bool {
    l.len() >= 4 && l.take(4) == uid_label() && exists|p: int, q: int| #[trigger]
        zero_second_field(l, p, q)
}

/// Whether the bytes `s[a..b]` form a user-id line that names root.
fn uid_segment_is_root(s: &[u8], a: usize, b: usize) -> (r: bool)
    requires
        a <= b <= s@.len(),
    ensures
        r == uid_line_root(s@.subrange(a as int, b as int)),
{
    let ghost l = s@.subrange(a as int, b as int);
    if b - a < 4 || s[a] != 85u8 || s[a + 1] != 105u8 || s[a + 2] != 100u8 || s[a + 3] != 58u8 {
        proof {
            if l.len() >= 4 && l.take(4) == uid_label() {
                assert(l.take(4)[0] == 85u8 && l.take(4)[1] == 105u8);
                assert(l.take(4)[2] == 100u8 && l.take(4)[3] == 58u8);
            }
        }
        return false;
    }
    proof {
        assert(l.take(4) =~= uid_label());
    }
    let mut p: usize = a + 4;
    while p < b && !space(s[p])
        invariant
            a + 4 <= p <= b <= s@.len(),
            l == s@.subrange(a as int, b as int),
            forall|i: int| 0 <= i < p - a ==> !is_space(#[trigger] l[i]),
        decreases b - p,
    {
        proof {
            assert(l[p - a] == s@[p as int]);
        }
        p = p + 1;
    }
    if p == b {
        proof {
            assert forall|p2: int, q2: int| !#[trigger] zero_second_field(l, p2, q2) by {
                if zero_second_field(l, p2, q2) {
                    assert(!is_space(l[p2]));
                }
            }
        }
        return false;
    }
    let mut q: usize = p + 1;
    while q < b && space(s[q])
        invariant
            a + 4 <= p < q <= b <= s@.len(),
            l == s@.subrange(a as int, b as int),
            forall|i: int| p - a <= i < q - a ==> is_space(#[trigger] l[i]),
        decreases b - q,
    {
        proof {
            assert(l[q - a] == s@[q as int]);
        }
        q = q + 1;
    }
    proof {
        assert(is_space(l[p - a])) by {
            assert(l[p - a] == s@[p as int]);
        }
    }
    if q == b {
        proof {
            assert forall|p2: int, q2: int| !#[trigger] zero_second_field(l, p2, q2) by {
                if zero_second_field(l, p2, q2) {
                    if p2 < p - a {
                        assert(is_space(l[p2]));
                    } else if p2 > p - a {
                        assert(!is_space(l[p - a]));
                    }
                    assert(is_space(l[q2]));
                }
            }
        }
        return false;
    }
    let r = s[q] == 48u8 && (q + 1 == b || space(s[q + 1]));
    proof {
        let pp = p - a;
        let qq = q - a;
        assert(l[qq] == s@[q as int]);
        assert(!is_space(l[qq]));
        if qq + 1 < l.len() {
            assert(l[qq + 1] == s@[q + 1]);
        }
        if r {
            assert(zero_second_field(l, pp, qq));
        } else {
            assert forall|p2: int, q2: int| !#[trigger] zero_second_field(l, p2, q2) by {
                if zero_second_field(l, p2, q2) {
                    if p2 < pp {
                        assert(is_space(l[p2]));
                    } else if p2 > pp {
                        assert(!is_space(l[pp]));
                    }
                    if q2 < qq {
                        assert(is_space(l[q2]));
                    } else if q2 > qq {
                        assert(is_space(l[qq]));
                    }
                }
            }
        }
    }
    r
}

/// Whether one line of a status file names root as the real user.
pub fn uid_line_is_root(line: &[u8]) -> (r: bool)
    ensures
        r == uid_line_root(line@),
{
    let r = uid_segment_is_root(line, 0, line.len());
    proof {
        assert(line@.subrange(0, line@.len() as int) =~= line@);
    }
    r
}

/// `s[a..b]` is a line of `s`: it holds no newline and stands between
/// newlines or the ends of `s`.
pub open spec fn is_line(s: Seq<u8>, a: int, b: int) -> bool {
    0 <= a <= b <= s.len() && (a == 0 || s[a - 1] == 10u8) && (b == s.len() || s[b] == 10u8)
        && forall|i: int| a <= i < b ==> s[i] != 10u8
}

/// Whether a process status text names root as the real user.
pub open spec fn status_root(s: Seq<u8>) -> bool {
    exists|a: int, b: int| #[trigger] is_line(s, a, b) && uid_line_root(s.subrange(a, b))
}

/// Reads a process status text: whether one of its lines names root as the
/// real user.
pub fn status_is_root(status: &[u8]) -> (r: bool)
    ensures
        r == status_root(status@),
{
    let ghost s = status@;
    let mut start: usize = 0;
    let mut i: usize = 0;
    while i < status.len()
        invariant
            start <= i <= status.len(),
            s == status@,
            start == 0 || s[start - 1] == 10u8,
            forall|k: int| start <= k < i ==> s[k] != 10u8,
            forall|a: int, b: int| #[trigger] is_line(s, a, b) && b < start ==> !uid_line_root(
                s.subrange(a, b),
            ),
        decreases status.len() - i,
    {
        if status[i] == 10u8 {
            if uid_segment_is_root(status, start, i) {
                assert(is_line(s, start as int, i as int));
                return true;
            }
            proof {
                assert forall|a: int, b: int| #[trigger] is_line(s, a, b) && b < i + 1 implies !uid_line_root(
                    s.subrange(a, b),
                ) by {
                    if b >= start {
                        if b < i {
                            assert(s[b] == 10u8);
                        }
                        if a < start {
                            assert(s[start - 1] == 10u8);
                        } else if a > start {
                            assert(s[a - 1] == 10u8);
                        }
                    }
                }
            }
            start = i + 1;
        }
        i = i + 1;
    }
    if uid_segment_is_root(status, start, status.len()) {
        assert(is_line(s, start as int, s.len() as int));
        return true;
    }
    proof {
        assert forall|a: int, b: int| #[trigger] is_line(s, a, b) implies !uid_line_root(s.subrange(a, b)) by {
            if b >= start {
                if b < s.len() {
                    assert(s[b] == 10u8);
                }
                if a < start {
                    assert(s[start - 1] == 10u8);
                } else if a > start {
                    assert(s[a - 1] == 10u8);
                }
            }
        }
    }
    false
}

/// A scan that sees `command` running as root stops the monitor with
/// success at once, whatever the time; a scan that sees none never does,
/// and the monitor stops with failure exactly once the timeout has elapsed.
pub proof fn lemma_monitor_outcome(
    table: Seq<ProcEntry>,
    command: Seq<char>,
    elapsed_ms: u64,
    timeout_ms: u64,
)
    ensures
        table_has_root_match(table, command) ==> next_action(
            elapsed_ms,
            timeout_ms,
            Some(table_has_root_match(table, command)),
        ) == MonitorAction::Finish(true),
        !table_has_root_match(table, command) ==> next_action(
            elapsed_ms,
            timeout_ms,
            Some(table_has_root_match(table, command)),
        ) == MonitorAction::Sleep(POLL_INTERVAL_MS),
        next_action(elapsed_ms, timeout_ms, None) == MonitorAction::Finish(false) <==> elapsed_ms
            >= timeout_ms,
        elapsed_ms < timeout_ms ==> next_action(elapsed_ms, timeout_ms, None) == MonitorAction::Scan,
{
}

} // verus!

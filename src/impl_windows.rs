use vstd::prelude::*;

use crate::command::Command;
use crate::strutil::{push_char, strings_view};

verus! {

/// Whether an argument must be quoted: it holds a space, a tab or a quote.
pub open spec fn needs_quotes(a: Seq<char>) -> bool {
    exists|i: int| 0 <= i < a.len() && (a[i] == ' ' || a[i] == '\t' || a[i] == '"')
}

/// A character inside a quoted argument: backslashes and quotes are
/// escaped with a backslash.
pub open spec fn escape_char(c: char) -> Seq<char> {
    if c == '\\' {
        seq!['\\', '\\']
    } else if c == '"' {
        seq!['\\', '"']
    } else {
        seq![c]
    }
}

/// The escaped characters of a quoted argument.
pub open spec fn quoted_body(a: Seq<char>) -> Seq<char>
    decreases a.len(),
{
    if a.len() == 0 {
        Seq::empty()
    } else {
        quoted_body(a.drop_last()) + escape_char(a.last())
    }
}

/// One argument as it stands in the parameter string: an empty one as a
/// pair of quotes, one without blanks or quotes as it is, any other
/// quoted and escaped.
pub open spec fn escape_arg(a: Seq<char>) -> Seq<char> {
    if a.len() == 0 {
        seq!['"', '"']
    } else if !needs_quotes(a) {
        a
    } else {
        seq!['"'] + quoted_body(a) + seq!['"']
    }
}

/// The parameter string: each argument escaped, each preceded by a space.
pub open spec fn escape_params(args: Seq<Seq<char>>) -> Seq<char>
    decreases args.len(),
{
    if args.len() == 0 {
        Seq::empty()
    } else {
        escape_params(args.drop_last()) + seq![' '] + escape_arg(args.last())
    }
}

fn arg_needs_quotes(arg: &str) -> (r: bool)
    ensures
        r == needs_quotes(arg@),
{
    let n = arg.unicode_len();
    let mut i: usize = 0;
    while i < n
        invariant
            i <= n,
            n == arg@.len(),
            forall|j: int| 0 <= j < i ==> !(arg@[j] == ' ' || arg@[j] == '\t' || arg@[j] == '"'),
        decreases n - i,
    {
        let c = arg.get_char(i);
        if c == ' ' || c == '\t' || c == '"' {
            return true;
        }
        i = i + 1;
    }
    false
}

/// Appends `arg`, escaped, to `params`.
fn push_escaped_arg(params: &mut String, arg: &str)
    ensures
        final(params)@ == old(params)@ + escape_arg(arg@),
{
    let n = arg.unicode_len();
    if n == 0 {
        push_char(params, '"');
        push_char(params, '"');
        proof {
            assert(final(params)@ =~= old(params)@ + escape_arg(arg@));
        }
        return;
    }
    if !arg_needs_quotes(arg) {
        params.append(arg);
        return;
    }
    let ghost start = params@;
    push_char(params, '"');
    let mut i: usize = 0;
    while i < n
        invariant
            i <= n,
            n == arg@.len(),
            params@ == start + seq!['"'] + quoted_body(arg@.take(i as int)),
        decreases n - i,
    {
        let c = arg.get_char(i);
        if c == '\\' {
            push_char(params, '\\');
            push_char(params, '\\');
        } else if c == '"' {
            push_char(params, '\\');
            push_char(params, '"');
        } else {
            push_char(params, c);
        }
        proof {
            let t = arg@.take(i as int + 1);
            assert(t.drop_last() =~= arg@.take(i as int));
            assert(t.last() == c);
            assert(params@ =~= start + seq!['"'] + quoted_body(t));
        }
        i = i + 1;
    }
    push_char(params, '"');
    proof {
        assert(arg@.take(n as int) =~= arg@);
        assert(params@ =~= start + escape_arg(arg@));
    }
}

/// The parameter string handed to the shell's elevation verb for `args`.
pub fn build_params(args: &Vec<String>) -> (r: String)
    ensures
        r@ == escape_params(strings_view(args@)),
{
    let mut params = String::new();
    let mut i: usize = 0;
    while i < args.len()
        invariant
            i <= args.len(),
            params@ == escape_params(strings_view(args@.take(i as int))),
        decreases args.len() - i,
    {
        let ghost before = params@;
        push_char(&mut params, ' ');
        push_escaped_arg(&mut params, args[i].as_str());
        proof {
            let t = strings_view(args@.take(i as int + 1));
            assert(t.drop_last() =~= strings_view(args@.take(i as int)));
            assert(t.last() == args@[i as int]@);
            assert(params@ =~= escape_params(t));
        }
        i = i + 1;
    }
    proof {
        assert(args@.take(args@.len() as int) =~= args@);
    }
    params
}

/// The state of the C runtime's argument splitter: the arguments found,
/// the one being read, the backslashes not yet placed, whether a quoted
/// stretch is open, and whether an argument has begun.
pub type SplitState = (Seq<Seq<char>>, Seq<char>, nat, bool, bool);

/// `n` backslashes.
pub open spec fn backslashes(n: nat) -> Seq<char> {
    Seq::new(n, |i: int| '\\')
}

/// The splitter after one more character. Backslashes are literal unless
/// they precede a quote; then each pair gives one backslash, and an odd one
/// out makes the quote literal, where an even count lets the quote open or
/// close a quoted stretch. Outside such a stretch, spaces and tabs end the
/// argument.
pub open spec fn split_step(st: SplitState, c: char) -> SplitState {
    let (out, cur, bs, quoted, started) = st;
    if c == '\\' {
        (out, cur, bs + 1, quoted, true)
    } else if c == '"' {
        if bs % 2 == 0 {
            (out, cur + backslashes(bs / 2), 0, !quoted, true)
        } else {
            (out, cur + backslashes(bs / 2) + seq!['"'], 0, quoted, true)
        }
    } else if (c == ' ' || c == '\t') && !quoted {
        (if started {
            out.push(cur + backslashes(bs))
        } else {
            out
        }, Seq::empty(), 0, false, false)
    } else {
        (out, cur + backslashes(bs) + seq![c], 0, quoted, true)
    }
}

/// The splitter after the characters of `s`, in order.
pub open spec fn split_run(st: SplitState, s: Seq<char>) -> SplitState
    decreases s.len(),
{
    if s.len() == 0 {
        st
    } else {
        split_step(split_run(st, s.drop_last()), s.last())
    }
}

/// The arguments found once the input ends.
pub open spec fn split_finish(st: SplitState) -> Seq<Seq<char>> {
    if st.4 {
        st.0.push(st.1 + backslashes(st.2))
    } else {
        st.0
    }
}

/// A state between arguments, with `out` found so far.
pub open spec fn idle(out: Seq<Seq<char>>) -> SplitState {
    (out, Seq::empty(), 0, false, false)
}

/// How the C runtime splits the parameters of a command line into
/// arguments.
pub open spec fn split_args(s: Seq<char>) -> Seq<Seq<char>> {
    split_finish(split_run(idle(Seq::empty()), s))
}

/// Every backslash but a last one is followed by a backslash or a quote.
pub open spec fn backslashes_before_quotes(a: Seq<char>) -> bool {
    forall|i: int| 0 <= i < a.len() - 1 && a[i] == '\\' ==> #[trigger] a[i + 1] == '\\' || a[i + 1]
        == '"'
}

/// An argument that the escaping hands through intact: one left unquoted,
/// or one whose backslashes all lead up to a quote or to its end.
pub open spec fn escapes_faithfully(a: Seq<char>) -> bool {
    !needs_quotes(a) || backslashes_before_quotes(a)
}

/// An argument `a` has been read up to its end, after `out`.
pub open spec fn reading(st: SplitState, out: Seq<Seq<char>>, a: Seq<char>) -> bool {
    st.0 == out && st.1 + backslashes(st.2) == a && !st.3 && st.4
}

proof fn lemma_backslashes_push(n: nat)
    ensures
        backslashes(n + 1) == backslashes(n).push('\\'),
{
    assert(backslashes(n + 1) =~= backslashes(n).push('\\'));
}

proof fn lemma_run_concat(st: SplitState, x: Seq<char>, y: Seq<char>)
    ensures
        split_run(st, x + y) == split_run(split_run(st, x), y),
    decreases y.len(),
{
    if y.len() == 0 {
        assert(x + y =~= x);
    } else {
        lemma_run_concat(st, x, y.drop_last());
        assert((x + y).drop_last() =~= x + y.drop_last());
        assert((x + y).last() == y.last());
    }
}

proof fn lemma_run_one(st: SplitState, c: char)
    ensures
        split_run(st, seq![c]) == split_step(st, c),
{
    assert(seq![c].drop_last() =~= Seq::<char>::empty());
    assert(split_run(st, Seq::<char>::empty()) == st);
    assert(seq![c].last() == c);
}

proof fn lemma_run_two(st: SplitState, c: char, d: char)
    ensures
        split_run(st, seq![c, d]) == split_step(split_step(st, c), d),
{
    assert(seq![c, d].drop_last() =~= seq![c]);
    lemma_run_one(st, c);
}

/// An argument left unquoted is read as it is.
proof fn lemma_read_plain(out: Seq<Seq<char>>, a: Seq<char>)
    requires
        !needs_quotes(a),
    ensures
        ({
            let st = split_run(idle(out), a);
            st.0 == out && st.1 + backslashes(st.2) == a && !st.3 && st.4 == (a.len() > 0)
        }),
    decreases a.len(),
{
    if a.len() == 0 {
        assert(Seq::<char>::empty() + backslashes(0) =~= a);
    } else {
        let p = a.drop_last();
        let c = a.last();
        assert(!needs_quotes(p)) by {
            if needs_quotes(p) {
                let i = choose|i: int|
                    0 <= i < p.len() && (p[i] == ' ' || p[i] == '\t' || p[i] == '"');
                assert(a[i] == p[i]);
            }
        }
        lemma_read_plain(out, p);
        assert(!(c == ' ' || c == '\t' || c == '"')) by {
            assert(a[a.len() - 1] == c);
        }
        let st = split_run(idle(out), p);
        if c == '\\' {
            lemma_backslashes_push(st.2);
            assert(st.1 + backslashes(st.2 + 1) =~= p.push(c));
        } else {
            assert(st.1 + backslashes(st.2) + seq![c] + backslashes(0) =~= a);
        }
        assert(a =~= p.push(c));
    }
}

/// Reading the escaped characters of a quoted argument, after its opening
/// quote, keeps the backslashes paired and places them when the next
/// character comes.
proof fn lemma_read_quoted_body(out: Seq<Seq<char>>, a: Seq<char>)
    requires
        backslashes_before_quotes(a),
    ensures
        ({
            let st = split_run((out, Seq::empty(), 0, true, true), quoted_body(a));
            st.0 == out && st.2 % 2 == 0 && st.1 + backslashes(st.2 / 2) == a && st.3 && st.4 && (
            st.2 > 0 ==> a.len() > 0 && a.last() == '\\')
        }),
    decreases a.len(),
{
    let s0: SplitState = (out, Seq::empty(), 0, true, true);
    if a.len() == 0 {
        assert(Seq::<char>::empty() + backslashes(0) =~= a);
    } else {
        let p = a.drop_last();
        let c = a.last();
        assert(backslashes_before_quotes(p)) by {
            assert forall|i: int| 0 <= i < p.len() - 1 && p[i] == '\\' implies #[trigger] p[i + 1]
                == '\\' || p[i + 1] == '"' by {
                assert(a[i] == p[i] && a[i + 1] == p[i + 1]);
            }
        }
        lemma_read_quoted_body(out, p);
        let st = split_run(s0, quoted_body(p));
        assert(quoted_body(a) == quoted_body(p) + escape_char(c));
        lemma_run_concat(s0, quoted_body(p), escape_char(c));
        assert(a =~= p.push(c));
        if c == '\\' {
            lemma_run_two(st, '\\', '\\');
            assert(escape_char(c) == seq!['\\', '\\']);
            lemma_backslashes_push(st.2 / 2);
            assert((st.2 + 2) / 2 == st.2 / 2 + 1);
            assert(st.1 + backslashes(st.2 / 2 + 1) =~= p.push(c));
        } else if c == '"' {
            lemma_run_two(st, '\\', '"');
            assert(escape_char(c) == seq!['\\', '"']);
            assert((st.2 + 1) / 2 == st.2 / 2);
            assert(st.1 + backslashes(st.2 / 2) + seq!['"'] + backslashes(0) =~= p.push(c));
        } else {
            lemma_run_one(st, c);
            assert(escape_char(c) == seq![c]);
            if st.2 > 0 {
                assert(p.len() > 0 && p.last() == '\\');
                assert(a[p.len() - 1] == '\\');
                assert(a[p.len() - 1 + 1] == c);
            }
            assert(st.2 == 0);
            assert(st.1 + backslashes(0) + seq![c] + backslashes(0) =~= p.push(c));
            assert(st.1 + backslashes(0) =~= st.1);
        }
    }
}

/// An escaped argument, read from a state between arguments, is read back
/// as it was.
proof fn lemma_read_arg(out: Seq<Seq<char>>, a: Seq<char>)
    requires
        escapes_faithfully(a),
    ensures
        reading(split_run(idle(out), escape_arg(a)), out, a),
{
    if a.len() == 0 {
        lemma_run_two(idle(out), '"', '"');
        assert(Seq::<char>::empty() + backslashes(0) + backslashes(0) =~= a);
    } else if !needs_quotes(a) {
        lemma_read_plain(out, a);
    } else {
        let s0: SplitState = (out, Seq::empty(), 0, true, true);
        assert(split_step(idle(out), '"') =~= s0) by {
            assert(Seq::<char>::empty() + backslashes(0) =~= Seq::<char>::empty());
        }
        lemma_run_one(idle(out), '"');
        lemma_run_concat(idle(out), seq!['"'], quoted_body(a));
        lemma_run_concat(idle(out), seq!['"'] + quoted_body(a), seq!['"']);
        lemma_read_quoted_body(out, a);
        let st = split_run(s0, quoted_body(a));
        lemma_run_one(st, '"');
        assert(st.1 + backslashes(st.2 / 2) + backslashes(0) =~= a);
    }
}

/// Splitting the parameter string by the C runtime's rules gives back the
/// arguments, provided each is either left unquoted by the escaping or has
/// every backslash followed by another backslash, a quote, or its end.
pub proof fn lemma_params_round_trip(args: Seq<Seq<char>>)
    requires
        forall|i: int| 0 <= i < args.len() ==> #[trigger] escapes_faithfully(args[i]),
    ensures
        split_args(escape_params(args)) == args,
{
    if args.len() == 0 {
        assert(split_args(escape_params(args)) =~= args);
    } else {
        lemma_params_reading(args);
        let st = split_run(idle(Seq::empty()), escape_params(args));
        assert(split_finish(st) =~= args.drop_last().push(args.last()));
        assert(args.drop_last().push(args.last()) =~= args);
    }
}

proof fn lemma_params_reading(args: Seq<Seq<char>>)
    requires
        args.len() > 0,
        forall|i: int| 0 <= i < args.len() ==> #[trigger] escapes_faithfully(args[i]),
    ensures
        reading(
            split_run(idle(Seq::empty()), escape_params(args)),
            args.drop_last(),
            args.last(),
        ),
    decreases args.len(),
{
    let init = args.drop_last();
    let a = args.last();
    assert(escapes_faithfully(args[args.len() - 1]));
    let i0 = idle(Seq::<Seq<char>>::empty());
    lemma_run_concat(i0, escape_params(init) + seq![' '], escape_arg(a));
    lemma_run_concat(i0, escape_params(init), seq![' ']);
    let before = split_run(i0, escape_params(init));
    lemma_run_one(before, ' ');
    if init.len() == 0 {
        assert(split_step(before, ' ') == idle(init));
    } else {
        assert forall|i: int| 0 <= i < init.len() implies #[trigger] escapes_faithfully(init[i]) by {
            assert(init[i] == args[i]);
            assert(escapes_faithfully(args[i]));
        }
        lemma_params_reading(init);
        assert(init.drop_last().push(init.last()) =~= init);
        assert(split_step(before, ' ') == idle(init));
    }
    lemma_read_arg(init, a);
}

/// What to hand to the shell's elevation verb.
pub struct WindowsPlan {
    /// The executable to elevate.
    pub file: String,
    /// The escaped parameter string.
    pub params: String,
    /// Show the process's window.
    pub show: bool,
    /// Wait for the process and report its exit code.
    pub wait_to_complete: bool,
}

/// Plans the elevation of `cmd` through the shell's elevation verb.
pub fn runas_impl(cmd: &Command) -> (r: WindowsPlan)
    requires
        cmd.wf(),
    ensures
        r.file@ == cmd.command@,
        r.params@ == escape_params(cmd.view_args()),
        r.show == !cmd.hidden,
        r.wait_to_complete == cmd.wait_to_complete,
{
    WindowsPlan {
        file: cmd.command.clone(),
        params: build_params(&cmd.args),
        show: !cmd.hidden,
        wait_to_complete: cmd.wait_to_complete,
    }
}

/// Tells from the token queries whether the process is elevated: only when
/// the token was opened, the query succeeded, and it reported elevation;
/// any failure counts as not elevated.
pub fn is_elevated(token_opened: bool, query_succeeded: bool, token_is_elevated: u32) -> (r: bool)
    ensures
        r == (token_opened && query_succeeded && token_is_elevated != 0),
{
    token_opened && query_succeeded && token_is_elevated != 0
}

} // verus!

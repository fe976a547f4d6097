//! What the service says and passes when it starts signal-cli itself.

use vstd::prelude::*;

use crate::text::{chars_of, decimal, decimal_string, string_from_chars};

verus! {

broadcast use vstd::string::group_string_axioms;

/// Whether `c` is white space in Unicode's sense (the `White_Space` property), as
/// `char::is_whitespace` and `str::trim` take it.
pub open spec fn is_white_space(c: char) -> bool {
    ||| ('\t' <= c && c <= '\r')
    ||| c == ' '
    ||| c == '\u{85}'
    ||| c == '\u{a0}'
    ||| c == '\u{1680}'
    ||| ('\u{2000}' <= c && c <= '\u{200a}')
    ||| c == '\u{2028}'
    ||| c == '\u{2029}'
    ||| c == '\u{202f}'
    ||| c == '\u{205f}'
    ||| c == '\u{3000}'
}

/// `s` without the white space it begins with.
pub open spec fn trim_start(s: Seq<char>) -> Seq<char>
    decreases s.len(),
{
    if s.len() > 0 && is_white_space(s[0]) {
        trim_start(s.drop_first())
    } else {
        s
    }
}

/// `s` without the white space it ends with.
pub open spec fn trim_end(s: Seq<char>) -> Seq<char>
    decreases s.len(),
{
    if s.len() > 0 && is_white_space(s.last()) {
        trim_end(s.drop_last())
    } else {
        s
    }
}

/// `s` without leading and trailing white space, as `str::trim` gives it.
pub open spec fn trimmed(s: Seq<char>) -> Seq<char> {
    trim_end(trim_start(s))
}

fn white_space(c: char) -> (r: bool)
    ensures
        r == is_white_space(c),
{
    ('\t' <= c && c <= '\r') || c == ' ' || c == '\u{85}' || c == '\u{a0}' || c == '\u{1680}' || (
    '\u{2000}' <= c && c <= '\u{200a}') || c == '\u{2028}' || c == '\u{2029}' || c == '\u{202f}'
        || c == '\u{205f}' || c == '\u{3000}'
}

proof fn lemma_trim_start_step(s: Seq<char>, i: int)
    requires
        0 <= i < s.len(),
        is_white_space(s[i]),
    ensures
        trim_start(s.skip(i)) == trim_start(s.skip(i + 1)),
{
    assert(s.skip(i).drop_first() =~= s.skip(i + 1));
}

proof fn lemma_trim_end_step(s: Seq<char>, j: int)
    requires
        0 < j <= s.len(),
        is_white_space(s[j - 1]),
    ensures
        trim_end(s.take(j)) == trim_end(s.take(j - 1)),
{
    assert(s.take(j).drop_last() =~= s.take(j - 1));
}

/// The text without leading and trailing white space, see `trimmed`.
pub fn trim(s: &str) -> (r: String)
    ensures
        r@ == trimmed(s@),
{
    let v = chars_of(s);
    let n = v.len();
    let mut a: usize = 0;
    assert(v@.skip(0) =~= v@);
    while a < n && white_space(v[a])
        invariant
            a <= n,
            n == v@.len(),
            trim_start(v@) == trim_start(v@.skip(a as int)),
        decreases n - a,
    {
        proof {
            lemma_trim_start_step(v@, a as int);
        }
        a = a + 1;
    }
    let ghost rest = v@.skip(a as int);
    assert(trim_start(v@) == rest) by {
        if a < n {
            assert(rest[0] == v@[a as int]);
        }
    }
    let mut b: usize = n;
    assert(rest.take(rest.len() as int) =~= rest);
    while b > a && white_space(v[b - 1])
        invariant
            a <= b <= n,
            n == v@.len(),
            rest == v@.skip(a as int),
            trim_end(rest) == trim_end(rest.take(b - a)),
        decreases b,
    {
        proof {
            assert(rest[b - a - 1] == v@[b - 1]);
            lemma_trim_end_step(rest, b - a);
        }
        b = b - 1;
    }
    assert(trim_end(rest.take(b - a)) == rest.take(b - a)) by {
        if b > a {
            assert(rest.take(b - a).last() == v@[b - 1]);
        }
    }
    let kept: Vec<char> = {
        let mut out: Vec<char> = Vec::new();
        let mut i = a;
        while i < b
            invariant
                a <= i <= b <= n,
                n == v@.len(),
                out@ == v@.subrange(a as int, i as int),
            decreases b - i,
        {
            out.push(v[i]);
            assert(out@ =~= v@.subrange(a as int, i + 1));
            i = i + 1;
        }
        out
    };
    assert(kept@ =~= rest.take(b - a));
    string_from_chars(&kept)
}

/// The address signal-cli is started on: the given port of the loopback interface.
pub open spec fn daemon_address_text(port: u16) -> Seq<char> {
    "127.0.0.1:"@ + decimal(port as nat)
}

/// Distinct ports give distinct addresses, and the address ends with the port in decimal.
pub proof fn lemma_daemon_address(p1: u16, p2: u16)
    ensures
        (daemon_address_text(p1) == daemon_address_text(p2)) == (p1 == p2),
        daemon_address_text(p1).skip(daemon_address_text(p1).len() - decimal(p1 as nat).len())
            == decimal(p1 as nat),
{
    let a = daemon_address_text(p1);
    let b = daemon_address_text(p2);
    let head = "127.0.0.1:"@;
    if a == b {
        assert(decimal(p1 as nat) =~= a.skip(head.len() as int));
        assert(decimal(p2 as nat) =~= b.skip(head.len() as int));
        crate::spill::lemma_decimal_injective(p1 as nat, p2 as nat);
    }
    assert(a.skip(a.len() - decimal(p1 as nat).len()) =~= decimal(p1 as nat));
}

/// The address signal-cli is started on, see `daemon_address_text`.
pub fn daemon_address(port: u16) -> (r: String)
    ensures
        r@ == daemon_address_text(port),
{
    let mut out = "127.0.0.1:".to_owned();
    out.append(decimal_string(port as u64).as_str());
    out
}

/// The arguments signal-cli is started with: a JSON-RPC daemon listening on `addr`.
pub fn daemon_args(addr: &str) -> (r: Vec<String>)
    ensures
        r@.map_values(|a: String| a@) == seq!["daemon"@, "--tcp"@, addr@],
{
    let mut args: Vec<String> = Vec::new();
    args.push("daemon".to_owned());
    args.push("--tcp".to_owned());
    args.push(addr.to_owned());
    assert(args@.map_values(|a: String| a@) =~= seq!["daemon"@, "--tcp"@, addr@]);
    args
}

/// What the service says when signal-cli is not on `$PATH`.
pub const NOT_FOUND_MESSAGE: &'static str = "signal-cli not found on $PATH. Install it or use --signal-cli <addr> to connect to an existing daemon";

/// The path of signal-cli, from what `which signal-cli` printed.
pub fn signal_cli_path(which_output: &str) -> (r: String)
    ensures
        r@ == trimmed(which_output@),
{
    trim(which_output)
}

pub const STARTUP_TIMEOUT_WITH_STDERR: &'static str = "signal-cli daemon failed to start within 30s. stderr: ";

pub const STARTUP_TIMEOUT: &'static str = "signal-cli daemon failed to start within 30 seconds";

/// The text of `startup_timeout_message`.
pub open spec fn startup_timeout_text(stderr: Option<&str>) -> Seq<char> {
    match stderr {
        Some(e) => STARTUP_TIMEOUT_WITH_STDERR@ + e@,
        None => STARTUP_TIMEOUT@,
    }
}

/// What the service says when signal-cli did not start listening in time: with what
/// signal-cli wrote to its error output, where that could be read.
pub fn startup_timeout_message(stderr: Option<&str>) -> (r: String)
    ensures
        r@ == startup_timeout_text(stderr),
{
    match stderr {
        Some(e) => {
            let mut out = STARTUP_TIMEOUT_WITH_STDERR.to_owned();
            out.append(e);
            out
        },
        None => STARTUP_TIMEOUT.to_owned(),
    }
}

pub const EXITED_WITH: &'static str = "signal-cli exited with ";

pub const STDERR_SEPARATOR: &'static str = ": ";

/// The text of `early_exit_message`.
pub open spec fn early_exit_text(status: Seq<char>, stderr: Seq<char>) -> Seq<char> {
    if stderr.len() == 0 {
        EXITED_WITH@ + status
    } else {
        EXITED_WITH@ + status + STDERR_SEPARATOR@ + trimmed(stderr)
    }
}

/// What the service says when signal-cli exited before it listened: its exit status and,
/// where it wrote anything to its error output, that output without surrounding white space.
pub fn early_exit_message(status: &str, stderr: &str) -> (r: String)
    ensures
        r@ == early_exit_text(status@, stderr@),
{
    let mut out = EXITED_WITH.to_owned();
    out.append(status);
    if !stderr.is_empty() {
        out.append(STDERR_SEPARATOR);
        out.append(trim(stderr).as_str());
    }
    out
}

/// How long a spawned signal-cli may take to start listening, in seconds.
pub const STARTUP_DEADLINE_SECS: u64 = 30;

/// How long to wait between two attempts to connect to a starting signal-cli, in
/// milliseconds.
pub const RETRY_MS: u64 = 200;

/// What to do next while waiting for a spawned signal-cli to listen.
#[derive(Debug)]
pub enum StartupAction {
    /// Give up, with this message.
    Fail(String),
    /// It listens: go on.
    Ready,
    /// Wait `RETRY_MS` and look again.
    Retry,
}

/// What the start-up failures say: a timeout ends with what signal-cli wrote to its
/// error output where that could be read; an early exit names the exit status right
/// after its opening words and, where signal-cli wrote anything, ends with that output
/// without surrounding white space.
pub proof fn lemma_startup_messages(stderr: &str, status: Seq<char>, exit_stderr: Seq<char>)
    ensures
        ({
            let t = startup_timeout_text(Some(stderr));
            t.len() >= stderr@.len() && t.skip(t.len() - stderr@.len()) == stderr@
        }),
        ({
            let x = early_exit_text(status, exit_stderr);
            &&& x.len() >= EXITED_WITH@.len() + status.len()
            &&& x.subrange(EXITED_WITH@.len() as int, (EXITED_WITH@.len() + status.len()) as int) == status
            &&& exit_stderr.len() > 0 ==> x.skip(x.len() - trimmed(exit_stderr).len()) == trimmed(
                exit_stderr,
            )
        }),
{
    let t = startup_timeout_text(Some(stderr));
    assert(t.skip(t.len() - stderr@.len()) =~= stderr@);
    let x = early_exit_text(status, exit_stderr);
    assert(x.subrange(EXITED_WITH@.len() as int, (EXITED_WITH@.len() + status.len()) as int) =~= status);
    if exit_stderr.len() > 0 {
        assert(x.skip(x.len() - trimmed(exit_stderr).len()) =~= trimmed(exit_stderr));
    }
}

/// One look at a starting signal-cli. Past the deadline it has failed (with what it wrote
/// to its error output, where that could be read); before it, an exit with `exit_status`
/// fails with that status and its error output `exit_stderr`; otherwise it is ready once
/// a connection to it succeeded, and is looked at again after a pause where none did.
pub fn startup_step(
    past_deadline: bool,
    deadline_stderr: Option<&str>,
    exit_status: Option<&str>,
    exit_stderr: &str,
    connected: bool,
) -> (a: StartupAction)
    ensures
        past_deadline ==> (a matches StartupAction::Fail(m) && m@ == startup_timeout_text(
            deadline_stderr,
        )),
        !past_deadline ==> (exit_status matches Some(s) ==> (a matches StartupAction::Fail(m)
            && m@ == early_exit_text(s@, exit_stderr@))),
        (!past_deadline && exit_status is None) ==> (a is Ready <==> connected),
        (!past_deadline && exit_status is None && !connected) ==> a is Retry,
{
    if past_deadline {
        StartupAction::Fail(startup_timeout_message(deadline_stderr))
    } else {
        match exit_status {
            Some(s) => StartupAction::Fail(early_exit_message(s, exit_stderr)),
            None => if connected {
                StartupAction::Ready
            } else {
                StartupAction::Retry
            },
        }
    }
}

/// Whether one beat of the watchdog heartbeat pings systemd: only after its call
/// through the live signal-cli connection succeeded, so that a broken connection stops
/// the pings and lets systemd restart the service.
pub fn heartbeat_ping(call_succeeded: bool) -> (p: bool)
    ensures
        p == call_succeeded,
{
    call_succeeded
}

} // verus!

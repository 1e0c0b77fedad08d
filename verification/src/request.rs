//! Requests sent to the remote host over the protocol session. One request
//! shape covers both uses: running a caller-supplied clear command in the
//! target terminal, and running this executable in agent mode so the helper
//! can report the terminal's device identity back over the rendezvous port.

use vstd::prelude::*;
use vstd::string::StringExecFns;
use crate::identity::{decimal_val, digit_val, is_decimal, is_digit};

verus! {

/// A "run this command line in a terminal" request, as handed to the
/// protocol session.
pub struct TerminalRequest {
    /// The command line to execute, program first.
    pub args: Vec<String>,
    /// Working directory; empty means the host's default.
    pub cwd: String,
    /// Extra environment variables, if any.
    pub env: Option<Vec<(String, String)>>,
    /// Which flavor of terminal the host should open.
    pub kind: String,
    /// Display label for the opened terminal.
    pub title: String,
}

/// The character for the decimal digit `d`.
pub open spec fn digit_char(d: nat) -> char {
    if d == 0 {
        '0'
    } else if d == 1 {
        '1'
    } else if d == 2 {
        '2'
    } else if d == 3 {
        '3'
    } else if d == 4 {
        '4'
    } else if d == 5 {
        '5'
    } else if d == 6 {
        '6'
    } else if d == 7 {
        '7'
    } else if d == 8 {
        '8'
    } else {
        '9'
    }
}

/// The decimal digit string of `n`, most significant digit first.
pub open spec fn decimal_digits(n: nat) -> Seq<char>
    decreases n,
{
    if n < 10 {
        seq![digit_char(n)]
    } else {
        decimal_digits(n / 10).push(digit_char(n % 10))
    }
}

proof fn lemma_digit_char_val(d: nat)
    requires
        d < 10,
    ensures
        is_digit(digit_char(d)),
        digit_val(digit_char(d)) == d,
{
}

/// Law: the decimal digit string of `n` reads back as `n`. The port the
/// coordinator embeds in the agent command line is therefore exactly the
/// port the listener was bound to.
pub proof fn lemma_decimal_round_trip(n: nat)
    ensures
        is_decimal(decimal_digits(n)),
        decimal_val(decimal_digits(n)) == n,
    decreases n,
{
    if n < 10 {
        lemma_digit_char_val(n);
        let s = decimal_digits(n);
        assert(s.drop_last() =~= Seq::<char>::empty());
        assert(decimal_val(Seq::<char>::empty()) == 0);
        assert(decimal_val(s) == decimal_val(s.drop_last()) * 10 + digit_val(s.last()));
    } else {
        lemma_decimal_round_trip(n / 10);
        lemma_digit_char_val(n % 10);
        assert(decimal_digits(n).drop_last() =~= decimal_digits(n / 10));
        assert(decimal_digits(n).last() == digit_char(n % 10));
        assert(decimal_val(decimal_digits(n)) == (n / 10) * 10 + (n % 10));
        assert((n / 10) * 10 + (n % 10) == n);
        assert(forall|i: int|
            0 <= i < decimal_digits(n).len() ==> is_digit(#[trigger] decimal_digits(n)[i]));
    }
}

fn digit_str(d: u16) -> (r: &'static str)
    requires
        d < 10,
    ensures
        r@ == seq![digit_char(d as nat)],
{
    let r: &'static str = match d {
        0 => "0",
        1 => "1",
        2 => "2",
        3 => "3",
        4 => "4",
        5 => "5",
        6 => "6",
        7 => "7",
        8 => "8",
        _ => "9",
    };
    proof {
        reveal_strlit("0");
        reveal_strlit("1");
        reveal_strlit("2");
        reveal_strlit("3");
        reveal_strlit("4");
        reveal_strlit("5");
        reveal_strlit("6");
        reveal_strlit("7");
        reveal_strlit("8");
        reveal_strlit("9");
        assert(r@ =~= seq![digit_char(d as nat)]);
    }
    r
}

/// The decimal digit string of `port`.
pub fn port_decimal(port: u16) -> (r: String)
    ensures
        r@ == decimal_digits(port as nat),
    decreases port,
{
    if port < 10 {
        digit_str(port).to_owned()
    } else {
        let mut r = port_decimal(port / 10);
        r.append(digit_str(port % 10));
        proof {
            assert(r@ =~= decimal_digits(port as nat));
        }
        r
    }
}

/// Copy a command line so one acquisition can hand it to the session while
/// the caller's configuration keeps its own.
pub fn clone_strings(v: &Vec<String>) -> (r: Vec<String>)
    ensures
        r@ == v@,
{
    let mut r: Vec<String> = Vec::new();
    let mut i: usize = 0;
    while i < v.len()
        invariant
            0 <= i <= v@.len(),
            r@.len() == i,
            forall|j: int| 0 <= j < i ==> r@[j] == v@[j],
        decreases v@.len() - i,
    {
        r.push(v[i].clone());
        i += 1;
    }
    proof {
        assert(r@ =~= v@);
    }
    r
}

/// The request that runs a caller-supplied clear command in the terminal.
pub fn clear_request(terminal_kind: &str, title: &str, clear_sequence: Vec<String>) -> (r:
    TerminalRequest)
    ensures
        r.args@ == clear_sequence@,
        r.cwd@ == Seq::<char>::empty(),
        r.env is None,
        r.kind@ == terminal_kind@,
        r.title@ == title@,
{
    TerminalRequest {
        args: clear_sequence,
        cwd: String::new(),
        env: None,
        kind: terminal_kind.to_owned(),
        title: title.to_owned(),
    }
}

/// The request that launches the helper: this executable in agent mode,
/// told to connect back to the listener's port on loopback.
pub fn agent_request(terminal_kind: &str, title: &str, executable: &str, port: u16) -> (r:
    TerminalRequest)
    ensures
        r.args@.len() == 3,
        r.args@[0]@ == executable@,
        r.args@[1]@ == "terminal-agent"@,
        r.args@[2]@ == "--connect="@ + decimal_digits(port as nat),
        r.cwd@ == Seq::<char>::empty(),
        r.env is None,
        r.kind@ == terminal_kind@,
        r.title@ == title@,
{
    let mut connect: String = "--connect=".to_owned();
    connect.append(port_decimal(port).as_str());
    let mut args: Vec<String> = Vec::new();
    args.push(executable.to_owned());
    args.push("terminal-agent".to_owned());
    args.push(connect);
    TerminalRequest {
        args,
        cwd: String::new(),
        env: None,
        kind: terminal_kind.to_owned(),
        title: title.to_owned(),
    }
}

} // verus!

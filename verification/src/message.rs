//! Notification texts. Every message the monitor can produce is built here,
//! and each builder's contract gives the exact character sequence produced.

use vstd::prelude::*;
use vstd::string::StringExecFns;

verus! {

/// The decimal digit character for `d`, for `d < 10`.
pub open spec fn dec_digit_char(d: nat) -> char {
    if d == 0 {
        '0'
    } else if d == 1 {
        '1'
    } else if d == 2 {
        '2'
    } else if d == 3 {
        '3'
    } else if d == 4 {
        '4'
    } else if d == 5 {
        '5'
    } else if d == 6 {
        '6'
    } else if d == 7 {
        '7'
    } else if d == 8 {
        '8'
    } else {
        '9'
    }
}

/// The decimal representation of `n`: most significant digit first, no
/// padding, no sign.
pub open spec fn dec_str(n: nat) -> Seq<char>
    decreases n,
{
    if n < 10 {
        seq![dec_digit_char(n)]
    } else {
        dec_str(n / 10).push(dec_digit_char(n % 10))
    }
}

fn push_decimal_digit(out: &mut String, d: u64)
    requires
        d < 10,
    ensures
        final(out)@ == old(out)@ + seq![dec_digit_char(d as nat)],
{
    let s: &str = if d == 0 {
        "0"
    } else if d == 1 {
        "1"
    } else if d == 2 {
        "2"
    } else if d == 3 {
        "3"
    } else if d == 4 {
        "4"
    } else if d == 5 {
        "5"
    } else if d == 6 {
        "6"
    } else if d == 7 {
        "7"
    } else if d == 8 {
        "8"
    } else {
        "9"
    };
    proof {
        reveal_strlit("0");
        reveal_strlit("1");
        reveal_strlit("2");
        reveal_strlit("3");
        reveal_strlit("4");
        reveal_strlit("5");
        reveal_strlit("6");
        reveal_strlit("7");
        reveal_strlit("8");
        reveal_strlit("9");
        assert(s@ =~= seq![dec_digit_char(d as nat)]);
    }
    out.append(s);
}

/// Appends the decimal representation of `n` to `out`.
pub fn push_decimal(out: &mut String, n: u64)
    ensures
        final(out)@ == old(out)@ + dec_str(n as nat),
    decreases n,
{
    if n < 10 {
        push_decimal_digit(out, n);
    } else {
        let ghost pre: Seq<char> = out@;
        push_decimal(out, n / 10);
        push_decimal_digit(out, n % 10);
        proof {
            assert(out@ =~= pre + dec_str(n as nat));
        }
    }
}

/// The recovery notification text: the URL followed by `" Recovered"`.
pub open spec fn recovered_text(url: Seq<char>) -> Seq<char> {
    url + " Recovered"@
}

/// The failure notification text for a completed probe with a non-OK status.
pub open spec fn status_failure_text(
    url: Seq<char>,
    status: Seq<char>,
    failures: nat,
    successes: nat,
) -> Seq<char> {
    url + ": status "@ + status + ", failures: "@ + dec_str(failures) + ", succes: "@ + dec_str(
        successes,
    )
}

/// The failure notification text for a probe that could not complete.
pub open spec fn transport_failure_text(
    url: Seq<char>,
    error: Seq<char>,
    failures: nat,
    successes: nat,
) -> Seq<char> {
    url + ": "@ + error + ", failures: "@ + dec_str(failures) + ", succes: "@ + dec_str(successes)
}

/// Builds the recovery notification for `url`.
pub fn recovered_message(url: &str) -> (r: String)
    ensures
        r@ == recovered_text(url@),
{
    let mut s = String::from_str(url);
    s.append(" Recovered");
    s
}

/// Builds the failure notification for a non-OK status answer, embedding the
/// status text and the lifetime counters.
pub fn status_failure_message(url: &str, status: &str, failures: u64, successes: u64) -> (r: String)
    ensures
        r@ == status_failure_text(url@, status@, failures as nat, successes as nat),
{
    let mut s = String::from_str(url);
    s.append(": status ");
    s.append(status);
    s.append(", failures: ");
    push_decimal(&mut s, failures);
    s.append(", succes: ");
    push_decimal(&mut s, successes);
    s
}

/// Builds the failure notification for a transport error, embedding the error
/// description and the lifetime counters.
pub fn transport_failure_message(url: &str, error: &str, failures: u64, successes: u64) -> (r:
    String)
    ensures
        r@ == transport_failure_text(url@, error@, failures as nat, successes as nat),
{
    let mut s = String::from_str(url);
    s.append(": ");
    s.append(error);
    s.append(", failures: ");
    push_decimal(&mut s, failures);
    s.append(", succes: ");
    push_decimal(&mut s, successes);
    s
}

} // verus!

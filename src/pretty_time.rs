use vstd::prelude::*;
use vstd::string::StringExecFns;

verus! {

/// The character of a decimal digit.
pub open spec fn digit_char(d: nat) -> char
    recommends
        d < 10,
{
    if d == 0 { '0' }
    else if d == 1 { '1' }
    else if d == 2 { '2' }
    else if d == 3 { '3' }
    else if d == 4 { '4' }
    else if d == 5 { '5' }
    else if d == 6 { '6' }
    else if d == 7 { '7' }
    else if d == 8 { '8' }
    else { '9' }
}

/// Decimal notation of `n`, without leading zeros.
pub open spec fn decimal(n: nat) -> Seq<char>
    decreases n,
{
    if n < 10 {
        seq![digit_char(n)]
    } else {
        decimal(n / 10) + seq![digit_char(n % 10)]
    }
}

/// Decimal notation of `n < 100`, padded to two digits.
pub open spec fn two_digits(n: nat) -> Seq<char> {
    seq![digit_char(n / 10), digit_char(n % 10)]
}

/// How a number of seconds is shown: seconds below a minute, whole minutes
/// below an hour, and `hours:minutes` from there on.
pub open spec fn pretty_seconds_spec(total: nat) -> Seq<char> {
    if total < 60 {
        decimal(total) + seq!['s']
    } else if total < 3600 {
        decimal(total / 60) + seq!['m']
    } else {
        decimal(total / 3600) + seq![':'] + two_digits((total % 3600) / 60) + seq!['h']
    }
}

fn digit_str(d: u64) -> (r: &'static str)
    requires
        d < 10,
    ensures
        r@ == seq![digit_char(d as nat)],
{
    proof {
        reveal_strlit("0");
        reveal_strlit("1");
        reveal_strlit("2");
        reveal_strlit("3");
        reveal_strlit("4");
        reveal_strlit("5");
        reveal_strlit("6");
        reveal_strlit("7");
        reveal_strlit("8");
        reveal_strlit("9");
    }
    let r = if d == 0 { "0" }
    else if d == 1 { "1" }
    else if d == 2 { "2" }
    else if d == 3 { "3" }
    else if d == 4 { "4" }
    else if d == 5 { "5" }
    else if d == 6 { "6" }
    else if d == 7 { "7" }
    else if d == 8 { "8" }
    else { "9" };
    assert(r@ =~= seq![digit_char(d as nat)]);
    r
}

/// Appends the decimal notation of `n` to `out`.
pub fn push_decimal(out: &mut String, n: u64)
    ensures
        final(out)@ == old(out)@ + decimal(n as nat),
    decreases n,
{
    if n < 10 {
        out.append(digit_str(n));
    } else {
        push_decimal(out, n / 10);
        out.append(digit_str(n % 10));
        assert(final(out)@ =~= old(out)@ + decimal(n as nat));
    }
}

/// Formats a number of seconds for display.
pub fn pretty_seconds(total: u64) -> (r: String)
    ensures
        r@ == pretty_seconds_spec(total as nat),
{
    let mut out = String::new();
    if total < 60 {
        push_decimal(&mut out, total);
        out.append("s");
    } else if total < 3600 {
        push_decimal(&mut out, total / 60);
        out.append("m");
    } else {
        push_decimal(&mut out, total / 3600);
        out.append(":");
        let minutes = (total % 3600) / 60;
        out.append(digit_str(minutes / 10));
        out.append(digit_str(minutes % 10));
        out.append("h");
    }
    proof {
        reveal_strlit("s");
        reveal_strlit("m");
        reveal_strlit(":");
        reveal_strlit("h");
    }
    assert(out@ =~= pretty_seconds_spec(total as nat));
    out
}

/// Relies on `Duration::as_secs`: the whole seconds of a duration. Nothing is
/// claimed of the value; the formatting is specified by `pretty_seconds`.
pub assume_specification[ core::time::Duration::as_secs ](d: &core::time::Duration) -> u64;

/// Human-readable rendering of a span of time.
pub trait PrettyTime {
    fn to_pretty_time(&self) -> String;
}

impl PrettyTime for core::time::Duration {
    fn to_pretty_time(&self) -> String {
        pretty_seconds(self.as_secs())
    }
}

} // verus!

//! The request count as text: the plain number, and the number inside a
//! metrics exposition of one series.

use vstd::prelude::*;
use vstd::string::*;

verus! {

/// Everything of the metrics exposition that stands in front of the count: the
/// type line, the help line, and the name of the series.
pub const METRICS_PREFIX: &'static str =
    "# TYPE http_server_requests_total counter\n# HELP http_server_requests_total The total number of HTTP requests handled by Rocket application\nhttp_server_requests_total ";

/// The character of a decimal digit.
pub open spec fn digit_of(digit: nat) -> char {
    if digit == 0 {
        '0'
    } else if digit == 1 {
        '1'
    } else if digit == 2 {
        '2'
    } else if digit == 3 {
        '3'
    } else if digit == 4 {
        '4'
    } else if digit == 5 {
        '5'
    } else if digit == 6 {
        '6'
    } else if digit == 7 {
        '7'
    } else if digit == 8 {
        '8'
    } else {
        '9'
    }
}

/// A number in decimal, without sign or leading zeros.
pub open spec fn decimal_of(number: nat) -> Seq<char>
    decreases number,
{
    if number < 10 {
        seq![digit_of(number)]
    } else {
        decimal_of(number / 10).push(digit_of(number % 10))
    }
}

/// The metrics exposition for a count.
pub open spec fn metrics_of(count: nat) -> Seq<char> {
    METRICS_PREFIX@ + decimal_of(count)
}

fn digit_text(digit: usize) -> (text: &'static str)
    requires
        digit < 10,
    ensures
        text@ == seq![digit_of(digit as nat)],
{
    proof {
        reveal_strlit("0");
        reveal_strlit("1");
        reveal_strlit("2");
        reveal_strlit("3");
        reveal_strlit("4");
        reveal_strlit("5");
        reveal_strlit("6");
        reveal_strlit("7");
        reveal_strlit("8");
        reveal_strlit("9");
    }
    let text = if digit == 0 {
        "0"
    } else if digit == 1 {
        "1"
    } else if digit == 2 {
        "2"
    } else if digit == 3 {
        "3"
    } else if digit == 4 {
        "4"
    } else if digit == 5 {
        "5"
    } else if digit == 6 {
        "6"
    } else if digit == 7 {
        "7"
    } else if digit == 8 {
        "8"
    } else {
        "9"
    };
    assert(text@ =~= seq![digit_of(digit as nat)]);
    text
}

/// Writes a count in decimal.
pub fn count_text(count: usize) -> (text: String)
    ensures
        text@ == decimal_of(count as nat),
{
    let mut text = String::from_str(digit_text(count % 10));
    let mut rest: usize = count / 10;
    assert(count >= 10 ==> decimal_of(count as nat) =~= decimal_of(rest as nat) + text@);
    while rest > 0
        invariant
            rest > 0 ==> decimal_of(count as nat) == decimal_of(rest as nat) + text@,
            rest == 0 ==> decimal_of(count as nat) == text@,
        decreases rest,
    {
        let head = String::from_str(digit_text(rest % 10));
        let ghost before = text@;
        assert(rest >= 10 ==> decimal_of(rest as nat) + before =~= decimal_of((rest / 10) as nat)
            + (head@ + before));
        assert(rest < 10 ==> decimal_of(rest as nat) + before =~= head@ + before);
        text = head.concat(text.as_str());
        rest = rest / 10;
    }
    text
}

/// Writes the metrics exposition for a count: a type line, a help line, and
/// the series with the count as its value.
pub fn metrics_text(count: usize) -> (text: String)
    ensures
        text@ == metrics_of(count as nat),
{
    let number = count_text(count);
    String::from_str(METRICS_PREFIX).concat(number.as_str())
}

} // verus!

//! The lines that the program writes about what it did and what failed.
use vstd::prelude::*;
use crate::text;

verus! {

/// The character for a digit below ten.
pub open spec fn digit(d: nat) -> char
    recommends
        d < 10,
{
    if d == 0 {
        '0'
    } else if d == 1 {
        '1'
    } else if d == 2 {
        '2'
    } else if d == 3 {
        '3'
    } else if d == 4 {
        '4'
    } else if d == 5 {
        '5'
    } else if d == 6 {
        '6'
    } else if d == 7 {
        '7'
    } else if d == 8 {
        '8'
    } else {
        '9'
    }
}

/// A number in decimal notation, without sign or leading zeros.
pub open spec fn decimal(n: nat) -> Seq<char>
    decreases n,
{
    if n < 10 {
        seq![digit(n)]
    } else {
        decimal(n / 10).push(digit(n % 10))
    }
}

/// The line that tells how many bytes of a file were, or would be,
/// overwritten: the path in double quotes, a colon, the count, what is said
/// of the bytes, and a full stop.
pub open spec fn result_line(descriptor: Seq<char>, path: Seq<char>, len: nat) -> Seq<char> {
    "\""@ + path + "\": "@ + decimal(len) + " "@ + descriptor + ".\n"@
}

/// The line that tells which operation failed on which path, and why.
pub open spec fn error_line(message: Seq<char>, path: Seq<char>, cause: Seq<char>) -> Seq<char> {
    text::ERROR@ + " "@ + message + " \""@ + path + "\": "@ + cause + "\n"@
}

/// The line that tells why the run ended early.
pub open spec fn failure_line(cause: Seq<char>) -> Seq<char> {
    text::ERROR@ + " "@ + cause + "\n"@
}

fn digit_str(d: u64) -> (s: &'static str)
    requires
        d < 10,
    ensures
        s@ == seq![digit(d as nat)],
{
    proof {
        reveal_strlit("0");
        reveal_strlit("1");
        reveal_strlit("2");
        reveal_strlit("3");
        reveal_strlit("4");
        reveal_strlit("5");
        reveal_strlit("6");
        reveal_strlit("7");
        reveal_strlit("8");
        reveal_strlit("9");
    }
    let s: &'static str = if d == 0 {
        "0"
    } else if d == 1 {
        "1"
    } else if d == 2 {
        "2"
    } else if d == 3 {
        "3"
    } else if d == 4 {
        "4"
    } else if d == 5 {
        "5"
    } else if d == 6 {
        "6"
    } else if d == 7 {
        "7"
    } else if d == 8 {
        "8"
    } else {
        "9"
    };
    assert(s@ =~= seq![digit(d as nat)]);
    s
}

/// Writes a number in decimal notation.
pub fn format_decimal(n: u64) -> (s: String)
    ensures
        s@ == decimal(n as nat),
    decreases n,
{
    if n < 10 {
        String::from_str(digit_str(n))
    } else {
        let mut s = format_decimal(n / 10);
        let last: u64 = n % 10;
        s.append(digit_str(last));
        assert(s@ =~= decimal((n / 10) as nat).push(digit(last as nat)));
        s
    }
}

/// Builds the line that tells how many bytes of a file were, or would be,
/// overwritten.
pub fn format_result(descriptor: &str, path: &str, len: u64) -> (line: String)
    ensures
        line@ == result_line(descriptor@, path@, len as nat),
{
    let count = format_decimal(len);
    let mut line = String::from_str("\"");
    line.append(path);
    line.append("\": ");
    line.append(count.as_str());
    line.append(" ");
    line.append(descriptor);
    line.append(".\n");
    line
}

/// Builds the line that tells which operation failed on which path, and why.
pub fn format_error(message: &str, path: &str, cause: &str) -> (line: String)
    ensures
        line@ == error_line(message@, path@, cause@),
{
    let mut line = String::from_str(text::ERROR);
    line.append(" ");
    line.append(message);
    line.append(" \"");
    line.append(path);
    line.append("\": ");
    line.append(cause);
    line.append("\n");
    line
}

/// Builds the line that tells why the run ended early.
pub fn format_failure(cause: &str) -> (line: String)
    ensures
        line@ == failure_line(cause@),
{
    let mut line = String::from_str(text::ERROR);
    line.append(" ");
    line.append(cause);
    line.append("\n");
    line
}

} // verus!

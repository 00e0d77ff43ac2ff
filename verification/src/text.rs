//! Verified construction of the texts that outbound log messages carry:
//! decimal rendering of line/character numbers, of positions and ranges,
//! and the per-change log line.

use vstd::prelude::*;
use crate::types::Range;

verus! {

/// The character for one decimal digit.
pub open spec fn spec_digit_char(d: nat) -> char {
    if d == 0 {
        '0'
    } else if d == 1 {
        '1'
    } else if d == 2 {
        '2'
    } else if d == 3 {
        '3'
    } else if d == 4 {
        '4'
    } else if d == 5 {
        '5'
    } else if d == 6 {
        '6'
    } else if d == 7 {
        '7'
    } else if d == 8 {
        '8'
    } else {
        '9'
    }
}

/// The decimal digits of `n`, most significant first, with no leading
/// zero except for `n == 0` itself.
pub open spec fn spec_decimal(n: nat) -> Seq<char>
    decreases n,
{
    if n < 10 {
        seq![spec_digit_char(n)]
    } else {
        spec_decimal(n / 10).push(spec_digit_char(n % 10))
    }
}

/// A one-character string holding the digit `d`.
fn digit_string(d: u32) -> (s: String)
    requires
        d < 10,
    ensures
        s@ == seq![spec_digit_char(d as nat)],
{
    let lit: &str = if d == 0 {
        "0"
    } else if d == 1 {
        "1"
    } else if d == 2 {
        "2"
    } else if d == 3 {
        "3"
    } else if d == 4 {
        "4"
    } else if d == 5 {
        "5"
    } else if d == 6 {
        "6"
    } else if d == 7 {
        "7"
    } else if d == 8 {
        "8"
    } else {
        "9"
    };
    proof {
        reveal_strlit("0");
        reveal_strlit("1");
        reveal_strlit("2");
        reveal_strlit("3");
        reveal_strlit("4");
        reveal_strlit("5");
        reveal_strlit("6");
        reveal_strlit("7");
        reveal_strlit("8");
        reveal_strlit("9");
        assert(lit@ =~= seq![spec_digit_char(d as nat)]);
    }
    String::from_str(lit)
}

/// Renders `n` in decimal.
pub fn decimal_string(n: u32) -> (s: String)
    ensures
        s@ == spec_decimal(n as nat),
    decreases n,
{
    if n < 10 {
        digit_string(n)
    } else {
        let mut s = decimal_string(n / 10);
        let digit = digit_string(n % 10);
        s.append(digit.as_str());
        proof {
            assert(s@ =~= spec_decimal(n as nat));
        }
        s
    }
}

/// Text of a position: line and character in decimal, comma-separated.
pub open spec fn spec_position_text(line: nat, character: nat) -> Seq<char> {
    spec_decimal(line) + ","@ + spec_decimal(character)
}

/// Text of a reported range, or of its absence.
pub open spec fn spec_range_text(range: Option<Range>) -> Seq<char> {
    match range {
        Some(r) => "("@ + spec_position_text(r.start.line as nat, r.start.character as nat)
            + ")-("@ + spec_position_text(r.end.line as nat, r.end.character as nat) + ")"@,
        None => "None"@,
    }
}

/// The log line recorded for one document change: the document URI and
/// the reported range.
pub open spec fn spec_change_log_text(uri: Seq<char>, range: Option<Range>) -> Seq<char> {
    "Change in "@ + uri + ": "@ + spec_range_text(range)
}

/// Renders a reported range, or its absence.
pub fn range_text(range: &Option<Range>) -> (s: String)
    ensures
        s@ == spec_range_text(*range),
{
    match range {
        Some(r) => {
            let mut s = String::from_str("(");
            let start_line = decimal_string(r.start.line);
            let start_character = decimal_string(r.start.character);
            let end_line = decimal_string(r.end.line);
            let end_character = decimal_string(r.end.character);
            s.append(start_line.as_str());
            s.append(",");
            s.append(start_character.as_str());
            s.append(")-(");
            s.append(end_line.as_str());
            s.append(",");
            s.append(end_character.as_str());
            s.append(")");
            proof {
                assert(s@ =~= spec_range_text(*range));
            }
            s
        },
        None => String::from_str("None"),
    }
}

/// Builds the log line for one document change.
pub fn change_log_text(uri: &str, range: &Option<Range>) -> (s: String)
    ensures
        s@ == spec_change_log_text(uri@, *range),
{
    let mut s = String::from_str("Change in ");
    s.append(uri);
    s.append(": ");
    let range_part = range_text(range);
    s.append(range_part.as_str());
    proof {
        assert(s@ =~= spec_change_log_text(uri@, *range));
    }
    s
}

} // verus!

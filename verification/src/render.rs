//! Presentation of findings: the display text per kind, line numbers
//! adjusted past the stripped preamble, the rendered form of one finding,
//! and the severity tier of a total count.

use vstd::prelude::*;

use crate::check_error::{CheckError, ErrorType, LineOrRange};

verus! {

/// The number of preamble lines stripped before the first record.
pub const PREAMBLE_LINE_COUNT: usize = 16;

/// The display text for each finding kind.
pub open spec fn message_of(kind: ErrorType) -> Seq<char> {
    match kind {
        ErrorType::EpcDidNotMatch => "epc did not match expected format"@,
        ErrorType::EpcNotInOrder => "epc was not in order"@,
        ErrorType::TagRangeIncomplete => "tag range is incomplete"@,
    }
}

/// A stored line number as presented: already one-based, shifted past the
/// preamble.
pub open spec fn adjusted(line: int) -> int {
    line + PREAMBLE_LINE_COUNT
}

/// The digit character for a value below ten.
pub open spec fn dec_digit(d: int) -> char {
    if d == 0 {
        '0'
    } else if d == 1 {
        '1'
    } else if d == 2 {
        '2'
    } else if d == 3 {
        '3'
    } else if d == 4 {
        '4'
    } else if d == 5 {
        '5'
    } else if d == 6 {
        '6'
    } else if d == 7 {
        '7'
    } else if d == 8 {
        '8'
    } else {
        '9'
    }
}

/// The decimal rendering of a non-negative number, most significant digit
/// first, without leading zeros (except for zero itself).
pub open spec fn dec_str(n: int) -> Seq<char>
    decreases n,
{
    if n < 0 {
        Seq::empty()
    } else if n < 10 {
        seq![dec_digit(n)]
    } else {
        dec_str(n / 10).push(dec_digit(n % 10))
    }
}

/// The full display text of one finding: its message, then its adjusted
/// location where it has one.
pub open spec fn rendered(e: CheckError) -> Seq<char> {
    message_of(e.kind) + match e.line {
        None => Seq::<char>::empty(),
        Some(LineOrRange::Line(n)) => " (line: "@ + dec_str(adjusted(n as int)) + ")"@,
        Some(LineOrRange::Range(s, t)) => " (lines: "@ + dec_str(adjusted(s as int)) + " - "@
            + dec_str(adjusted(t as int)) + ")"@,
    }
}

fn push_digit(s: &mut String, d: usize)
    requires
        d < 10,
    ensures
        final(s)@ == old(s)@.push(dec_digit(d as int)),
{
    let ghost before = s@;
    if d == 0 {
        s.append("0");
        proof {
            reveal_strlit("0");
            assert(before + "0"@ =~= before.push('0'));
        }
    } else if d == 1 {
        s.append("1");
        proof {
            reveal_strlit("1");
            assert(before + "1"@ =~= before.push('1'));
        }
    } else if d == 2 {
        s.append("2");
        proof {
            reveal_strlit("2");
            assert(before + "2"@ =~= before.push('2'));
        }
    } else if d == 3 {
        s.append("3");
        proof {
            reveal_strlit("3");
            assert(before + "3"@ =~= before.push('3'));
        }
    } else if d == 4 {
        s.append("4");
        proof {
            reveal_strlit("4");
            assert(before + "4"@ =~= before.push('4'));
        }
    } else if d == 5 {
        s.append("5");
        proof {
            reveal_strlit("5");
            assert(before + "5"@ =~= before.push('5'));
        }
    } else if d == 6 {
        s.append("6");
        proof {
            reveal_strlit("6");
            assert(before + "6"@ =~= before.push('6'));
        }
    } else if d == 7 {
        s.append("7");
        proof {
            reveal_strlit("7");
            assert(before + "7"@ =~= before.push('7'));
        }
    } else if d == 8 {
        s.append("8");
        proof {
            reveal_strlit("8");
            assert(before + "8"@ =~= before.push('8'));
        }
    } else {
        s.append("9");
        proof {
            reveal_strlit("9");
            assert(before + "9"@ =~= before.push('9'));
        }
    }
}

/// Appends the decimal rendering of `n` to `s`.
fn append_dec(s: &mut String, n: usize)
    ensures
        final(s)@ == old(s)@ + dec_str(n as int),
    decreases n,
{
    let ghost before = s@;
    if n < 10 {
        push_digit(s, n);
        proof {
            assert(before.push(dec_digit(n as int)) =~= before + dec_str(n as int));
        }
    } else {
        append_dec(s, n / 10);
        push_digit(s, n % 10);
        proof {
            assert((before + dec_str(n as int / 10)).push(dec_digit(n as int % 10)) =~= before
                + dec_str(n as int));
        }
    }
}

/// The decimal rendering of a number, as a string.
pub fn usize_to_string(n: usize) -> (r: String)
    ensures
        r@ == dec_str(n as int),
{
    let mut s = String::new();
    append_dec(&mut s, n);
    proof {
        assert(Seq::<char>::empty() + dec_str(n as int) =~= dec_str(n as int));
    }
    s
}

impl CheckError {
    /// The display text for this finding's kind.
    pub fn message(&self) -> (r: String)
        ensures
            r@ == message_of(self.kind),
    {
        match self.kind {
            ErrorType::EpcDidNotMatch => String::from_str("epc did not match expected format"),
            ErrorType::EpcNotInOrder => String::from_str("epc was not in order"),
            ErrorType::TagRangeIncomplete => String::from_str("tag range is incomplete"),
        }
    }

    /// The full display text of this finding: its message, then, where it
    /// has a location, that location's line numbers adjusted past the
    /// preamble.
    pub fn render(&self) -> (r: String)
        requires
            match self.line {
                Some(LineOrRange::Line(n)) => n + PREAMBLE_LINE_COUNT <= usize::MAX,
                Some(LineOrRange::Range(s, t)) => s + PREAMBLE_LINE_COUNT <= usize::MAX && t
                    + PREAMBLE_LINE_COUNT <= usize::MAX,
                None => true,
            },
        ensures
            r@ == rendered(*self),
    {
        let mut out = self.message();
        match self.line {
            None => {
                proof {
                    assert(out@ + Seq::<char>::empty() =~= out@);
                }
            },
            Some(LineOrRange::Line(n)) => {
                let ghost m = out@;
                out.append(" (line: ");
                append_dec(&mut out, n + PREAMBLE_LINE_COUNT);
                out.append(")");
                proof {
                    assert(m + " (line: "@ + dec_str(adjusted(n as int)) + ")"@ =~= m + (" (line: "@
                        + dec_str(adjusted(n as int)) + ")"@));
                }
            },
            Some(LineOrRange::Range(s, t)) => {
                let ghost m = out@;
                out.append(" (lines: ");
                append_dec(&mut out, s + PREAMBLE_LINE_COUNT);
                out.append(" - ");
                append_dec(&mut out, t + PREAMBLE_LINE_COUNT);
                out.append(")");
                proof {
                    assert(m + " (lines: "@ + dec_str(adjusted(s as int)) + " - "@ + dec_str(
                        adjusted(t as int),
                    ) + ")"@ =~= m + (" (lines: "@ + dec_str(adjusted(s as int)) + " - "@ + dec_str(
                        adjusted(t as int),
                    ) + ")"@));
                }
            },
        }
        out
    }
}

/// Severity tiers of a total error count; purely presentational.
#[derive(Debug, Clone, Copy, PartialEq, Eq, Structural)]
pub enum Severity {
    Clean,
    Moderate,
    Severe,
}

/// The severity tier of a count: zero errors is the lowest tier, one to
/// nine the middle tier, ten or more the highest.
pub open spec fn severity_of(n: int) -> Severity {
    if n == 0 {
        Severity::Clean
    } else if n < 10 {
        Severity::Moderate
    } else {
        Severity::Severe
    }
}

/// The severity tier of a total error count.
pub fn severity(error_count: usize) -> (r: Severity)
    ensures
        r == severity_of(error_count as int),
{
    if error_count == 0 {
        Severity::Clean
    } else if error_count < 10 {
        Severity::Moderate
    } else {
        Severity::Severe
    }
}

} // verus!

//! The validation engine: three independent checks over the passed records
//! of a run, emitting findings in a fixed reporting order — all format
//! findings in record order, then all order findings in record order, then
//! at most one range-completeness finding.

use vstd::math::abs;
use vstd::prelude::*;

use crate::check_error::{format_error_at, order_error_between, range_error, CheckError};
use crate::line::Line;
use crate::rfid_data::{is_digit, serial_or_zero, RfidData};

verus! {

/// The number of distinct serial numbers a complete run must span.
pub const EXPECTED_TAG_COUNT: i32 = 2000;

/// What the structural pattern demands of the identifier character at
/// position `i`: nine `0`s, the literal `2`, six digits, four `0`s, four
/// digits.
pub open spec fn epc_char_ok(c: char, i: int) -> bool {
    if i < 9 {
        c == '0'
    } else if i == 9 {
        c == '2'
    } else if i < 16 {
        is_digit(c)
    } else if i < 20 {
        c == '0'
    } else {
        is_digit(c)
    }
}

/// The fixed 24-character structural pattern for EPC identifiers.
pub open spec fn epc_matches(s: Seq<char>) -> bool {
    s.len() == 24 && forall|i: int| 0 <= i < 24 ==> epc_char_ok(#[trigger] s[i], i)
}

/// The pattern, read segment by segment: an identifier matches exactly when
/// it is 24 characters of nine `0`s, the literal `2`, six digits, four `0`s
/// and four digits, in that order.
pub proof fn lemma_epc_pattern_segments(s: Seq<char>)
    ensures
        epc_matches(s) <==> (s.len() == 24 && (forall|i: int| 0 <= i < 9 ==> #[trigger] s[i] == '0')
            && s[9] == '2' && (forall|i: int| 10 <= i < 16 ==> is_digit(#[trigger] s[i])) && (
        forall|i: int| 16 <= i < 20 ==> #[trigger] s[i] == '0') && (forall|i: int|
            20 <= i < 24 ==> is_digit(#[trigger] s[i]))),
{
}

/// Whether `s` matches the structural pattern for EPC identifiers.
pub fn epc_format_ok(s: &str) -> (r: bool)
    ensures
        r == epc_matches(s@),
{
    let n = s.unicode_len();
    if n != 24 {
        return false;
    }
    let mut i: usize = 0;
    while i < 24
        invariant
            n == s@.len(),
            n == 24,
            i <= 24,
            forall|j: int| 0 <= j < i ==> epc_char_ok(#[trigger] s@[j], j),
        decreases 24 - i,
    {
        let c = s.get_char(i);
        let ok = if i < 9 {
            c == '0'
        } else if i == 9 {
            c == '2'
        } else if i < 16 {
            c as u32 >= 48 && c as u32 <= 57
        } else if i < 20 {
            c == '0'
        } else {
            c as u32 >= 48 && c as u32 <= 57
        };
        if !ok {
            return false;
        }
        i += 1;
    }
    true
}

/// Format check: a passed record's EPC identifier must match the fixed
/// structural pattern; a mismatch is reported at the record's line, and a
/// match emits nothing. The check never consults neighbouring records.
pub fn check_epc(epc_data: &str, line: usize) -> (r: Option<CheckError>)
    ensures
        epc_matches(epc_data@) ==> r is None,
        !epc_matches(epc_data@) ==> r == Some(format_error_at(line as int)),
{
    if epc_format_ok(epc_data) {
        None
    } else {
        Some(CheckError::epc_did_not_match(line))
    }
}

/// Whether two serial numbers are adjacent: they differ by exactly one, in
/// either direction.
pub open spec fn serials_adjacent(prev: int, cur: int) -> bool {
    abs(cur - prev) == 1
}

/// The serial number a datum contributes to the order and range checks.
pub open spec fn record_serial(d: RfidData) -> int {
    serial_or_zero(d.data@)
}

/// Order check: against the previously seen passed record, if any, the
/// current serial number must differ by exactly one; otherwise one finding
/// spans the two records' lines. The previous-record slot is then replaced
/// unconditionally, whatever the format check said of either record.
pub fn check_order(
    rfid_data: &RfidData,
    line: usize,
    previous: &mut Option<(usize, RfidData)>,
) -> (r: Option<CheckError>)
    ensures
        *final(previous) == Some((line, *rfid_data)),
        match *old(previous) {
            None => r is None,
            Some((prev_line, prev_data)) => {
                if serials_adjacent(record_serial(prev_data), record_serial(*rfid_data)) {
                    r is None
                } else {
                    r == Some(order_error_between(prev_line as int, line as int))
                }
            },
        },
{
    let prev = previous.take();
    *previous = Some((line, rfid_data.clone()));
    match prev {
        None => None,
        Some((prev_line, prev_data)) => {
            let cur: i16 = match rfid_data.serial_number() {
                Some(v) => v,
                None => 0,
            };
            let prev_serial: i16 = match prev_data.serial_number() {
                Some(v) => v,
                None => 0,
            };
            let diff: i16 = cur - prev_serial;
            if diff == 1 || diff == -1 {
                None
            } else {
                Some(CheckError::epc_not_in_order(prev_line..line))
            }
        },
    }
}

/// The index of the first passed record at or after `i`, if any.
pub open spec fn first_passed_from(s: Seq<Line>, i: int) -> Option<int>
    decreases s.len() - i,
{
    if i < 0 || i >= s.len() {
        None
    } else if s[i].did_pass {
        Some(i)
    } else {
        first_passed_from(s, i + 1)
    }
}

/// The index of the last passed record before `i`, if any.
pub open spec fn last_passed_before(s: Seq<Line>, i: int) -> Option<int>
    decreases i,
{
    if i <= 0 || i > s.len() {
        None
    } else if s[i - 1].did_pass {
        Some(i - 1)
    } else {
        last_passed_before(s, i - 1)
    }
}

/// The serial number of the first passed record, defaulting to zero when
/// there is none or it has no serial suffix.
pub open spec fn first_serial(s: Seq<Line>) -> int {
    match first_passed_from(s, 0) {
        Some(j) => record_serial(s[j].epc_data),
        None => 0,
    }
}

/// The serial number of the last passed record, defaulting to zero.
pub open spec fn last_serial(s: Seq<Line>) -> int {
    match last_passed_before(s, s.len() as int) {
        Some(j) => record_serial(s[j].epc_data),
        None => 0,
    }
}

/// The inclusive count of integers between the two endpoints, whichever of
/// them is larger.
pub open spec fn span_of(first: int, last: int) -> int {
    abs(last - first) as int + 1
}

/// Whether the run's serial numbers fail to span the expected tag count.
pub open spec fn range_incomplete(s: Seq<Line>) -> bool {
    span_of(first_serial(s), last_serial(s)) != EXPECTED_TAG_COUNT as int
}

fn find_first_passed(lines: &[Line]) -> (r: Option<usize>)
    ensures
        match r {
            Some(j) => first_passed_from(lines@, 0) == Some(j as int) && j < lines@.len(),
            None => first_passed_from(lines@, 0) is None,
        },
{
    let n = lines.len();
    let mut i: usize = 0;
    while i < n
        invariant
            i <= n,
            n == lines@.len(),
            first_passed_from(lines@, 0) == first_passed_from(lines@, i as int),
        decreases n - i,
    {
        if lines[i].did_pass {
            return Some(i);
        }
        i += 1;
    }
    None
}

fn find_last_passed(lines: &[Line]) -> (r: Option<usize>)
    ensures
        match r {
            Some(j) => last_passed_before(lines@, lines@.len() as int) == Some(j as int) && j
                < lines@.len(),
            None => last_passed_before(lines@, lines@.len() as int) is None,
        },
{
    let n = lines.len();
    let mut i: usize = n;
    while i > 0
        invariant
            i <= n,
            n == lines@.len(),
            last_passed_before(lines@, n as int) == last_passed_before(lines@, i as int),
        decreases i,
    {
        if lines[i - 1].did_pass {
            return Some(i - 1);
        }
        i -= 1;
    }
    None
}

/// Range-completeness check: the inclusive count of integers between the
/// first and last passed records' serial numbers (the smaller to the
/// larger) must equal the expected tag count; otherwise one finding without
/// a location is emitted. With no passed records both endpoints default to
/// zero, so the count is one and the finding always fires.
pub fn check_range(lines: &[Line]) -> (r: Option<CheckError>)
    ensures
        r == (if range_incomplete(lines@) {
            Some(range_error())
        } else {
            None::<CheckError>
        }),
{
    let first: i16 = match find_first_passed(lines) {
        Some(j) => match lines[j].epc_data.serial_number() {
            Some(v) => v,
            None => 0,
        },
        None => 0,
    };
    let last: i16 = match find_last_passed(lines) {
        Some(j) => match lines[j].epc_data.serial_number() {
            Some(v) => v,
            None => 0,
        },
        None => 0,
    };
    let diff: i32 = last as i32 - first as i32;
    let span: i32 = if diff < 0 {
        1 - diff
    } else {
        diff + 1
    };
    if span != EXPECTED_TAG_COUNT {
        Some(CheckError::tag_range_incomplete())
    } else {
        None
    }
}

/// The format-check findings over the first `i` records, in record order.
/// A finding is located at its record's one-based position.
pub open spec fn format_errors_upto(s: Seq<Line>, i: int) -> Seq<CheckError>
    decreases i,
{
    if i <= 0 {
        Seq::empty()
    } else {
        let rest = format_errors_upto(s, i - 1);
        if s[i - 1].did_pass && !epc_matches(s[i - 1].epc_data.data@) {
            rest.push(format_error_at(i))
        } else {
            rest
        }
    }
}

/// The order-check findings over the first `i` records, in record order.
/// A finding spans the one-based positions of the two offending records.
pub open spec fn order_errors_upto(s: Seq<Line>, i: int) -> Seq<CheckError>
    decreases i,
{
    if i <= 0 {
        Seq::empty()
    } else {
        let rest = order_errors_upto(s, i - 1);
        if s[i - 1].did_pass {
            match last_passed_before(s, i - 1) {
                None => rest,
                Some(j) => if serials_adjacent(
                    record_serial(s[j].epc_data),
                    record_serial(s[i - 1].epc_data),
                ) {
                    rest
                } else {
                    rest.push(order_error_between(j + 1, i))
                },
            }
        } else {
            rest
        }
    }
}

/// Every finding of a run, in reporting order: all format findings in
/// record order, then all order findings in record order, then at most one
/// range-completeness finding.
pub open spec fn validate_spec(s: Seq<Line>) -> Seq<CheckError> {
    format_errors_upto(s, s.len() as int) + order_errors_upto(s, s.len() as int) + (
    if range_incomplete(s) {
        seq![range_error()]
    } else {
        Seq::<CheckError>::empty()
    })
}

/// Runs the three checks over a run's records. Failed records are skipped
/// entirely; a record's line number is its one-based position in the record
/// sequence, so every finding with a location carries one.
pub fn validate(lines: &[Line]) -> (errors: Vec<CheckError>)
    ensures
        errors@ == validate_spec(lines@),
{
    let ghost s = lines@;
    let n = lines.len();
    let mut errors: Vec<CheckError> = Vec::new();
    let mut i: usize = 0;
    while i < n
        invariant
            i <= n,
            n == s.len(),
            s == lines@,
            errors@ == format_errors_upto(s, i as int),
        decreases n - i,
    {
        if lines[i].did_pass {
            match check_epc(lines[i].epc_data.data.as_str(), i + 1) {
                Some(e) => errors.push(e),
                None => (),
            }
        }
        i += 1;
    }
    let ghost format_part = errors@;
    let mut previous: Option<(usize, RfidData)> = None;
    let mut i: usize = 0;
    proof {
        assert(format_part + order_errors_upto(s, 0) =~= format_part);
    }
    while i < n
        invariant
            i <= n,
            n == s.len(),
            s == lines@,
            errors@ == format_part + order_errors_upto(s, i as int),
            match last_passed_before(s, i as int) {
                None => previous is None,
                Some(j) => previous == Some(((j + 1) as usize, s[j].epc_data)),
            },
        decreases n - i,
    {
        if lines[i].did_pass {
            match check_order(&lines[i].epc_data, i + 1, &mut previous) {
                Some(e) => {
                    proof {
                        assert((format_part + order_errors_upto(s, i as int)).push(e) =~= format_part
                            + order_errors_upto(s, i as int).push(e));
                    }
                    errors.push(e);
                },
                None => (),
            }
        }
        i += 1;
    }
    match check_range(lines) {
        Some(e) => {
            proof {
                assert((format_part + order_errors_upto(s, n as int)).push(e) =~= format_part
                    + order_errors_upto(s, n as int) + seq![e]);
            }
            errors.push(e);
        },
        None => {
            proof {
                assert(format_part + order_errors_upto(s, n as int) + Seq::<
                    CheckError,
                >::empty() =~= format_part + order_errors_upto(s, n as int));
            }
        },
    }
    errors
}

/// Swapping which of the two endpoints is larger changes neither the span
/// nor whether the range check fires: the absolute span is what matters.
pub proof fn lemma_span_symmetric(first: int, last: int)
    ensures
        span_of(first, last) == span_of(last, first),
        (span_of(first, last) == EXPECTED_TAG_COUNT as int) == (span_of(last, first)
            == EXPECTED_TAG_COUNT as int),
{
}

proof fn lemma_format_errors_empty(s: Seq<Line>, i: int)
    requires
        forall|k: int| 0 <= k < s.len() ==> !(#[trigger] s[k]).did_pass,
        0 <= i <= s.len(),
    ensures
        format_errors_upto(s, i) == Seq::<CheckError>::empty(),
    decreases i,
{
    if i > 0 {
        lemma_format_errors_empty(s, i - 1);
    }
}

proof fn lemma_order_errors_empty(s: Seq<Line>, i: int)
    requires
        forall|k: int| 0 <= k < s.len() ==> !(#[trigger] s[k]).did_pass,
        0 <= i <= s.len(),
    ensures
        order_errors_upto(s, i) == Seq::<CheckError>::empty(),
    decreases i,
{
    if i > 0 {
        lemma_order_errors_empty(s, i - 1);
    }
}

proof fn lemma_no_first_passed(s: Seq<Line>, i: int)
    requires
        forall|k: int| 0 <= k < s.len() ==> !(#[trigger] s[k]).did_pass,
        0 <= i <= s.len(),
    ensures
        first_passed_from(s, i) is None,
    decreases s.len() - i,
{
    if i < s.len() {
        lemma_no_first_passed(s, i + 1);
    }
}

proof fn lemma_no_last_passed(s: Seq<Line>, i: int)
    requires
        forall|k: int| 0 <= k < s.len() ==> !(#[trigger] s[k]).did_pass,
        0 <= i <= s.len(),
    ensures
        last_passed_before(s, i) is None,
    decreases i,
{
    if i > 0 {
        lemma_no_last_passed(s, i - 1);
    }
}

/// A run without passed records yields exactly one incomplete-range finding
/// and no other finding: both endpoints default to zero, so the span is one.
pub proof fn lemma_empty_run(s: Seq<Line>)
    requires
        forall|k: int| 0 <= k < s.len() ==> !(#[trigger] s[k]).did_pass,
    ensures
        validate_spec(s) == seq![range_error()],
{
    lemma_format_errors_empty(s, s.len() as int);
    lemma_order_errors_empty(s, s.len() as int);
    lemma_no_first_passed(s, 0);
    lemma_no_last_passed(s, s.len() as int);
    assert(validate_spec(s) =~= seq![range_error()]);
}

} // verus!


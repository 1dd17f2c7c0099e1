//! One RFID identifier cell: an embedded status code and the raw identifier
//! payload, decoded from a `"<code>/<identifier>"` cell string.

use vstd::prelude::*;

verus! {

/// Tag-level fault sub-kinds of the generic "tag error" status.
#[derive(Debug, Clone, Copy, PartialEq, Eq, Structural)]
pub enum TagError {
    Other,
    MemoryOverrun,
    MemoryLocked,
    InsufficientPower,
    NonSpecific,
}

/// Status codes a reader can attach to a tag datum; absence means "no error".
#[derive(Debug, Clone, Copy, PartialEq, Eq, Structural)]
pub enum ErrorCode {
    DidNotRespondToQuery,
    DidNotRespondToCommand,
    InventoryFailed,
    TagError(TagError),
}

/// A failure to decode raw log text into typed data. Such failures are
/// fatal to a run; they are not domain-validation findings.
#[derive(Debug, Clone, Copy, PartialEq, Eq, Structural)]
pub enum DecodeError {
    /// A tag cell held no `/` separator, so no identifier payload follows
    /// the status code.
    MissingData,
    /// A tag cell held more than one `/` separator: a cell is exactly two
    /// parts, a status code and an identifier.
    ExtraSeparator,
    /// The status-code part of a tag cell was not one of the known codes.
    UnknownErrorCode,
    /// The pass/fail field held neither accepted token.
    InvalidPassedToken,
    /// A raw record did not split into exactly four fields.
    WrongFieldCount,
}

/// The display text for each decode failure.
pub open spec fn decode_message_of(e: DecodeError) -> Seq<char> {
    match e {
        DecodeError::MissingData => "tag cell is missing its data"@,
        DecodeError::ExtraSeparator => "tag cell has more than two parts"@,
        DecodeError::UnknownErrorCode => "unknown tag error code"@,
        DecodeError::InvalidPassedToken => "invalid passed record"@,
        DecodeError::WrongFieldCount => "record does not have exactly four fields"@,
    }
}

impl DecodeError {
    /// The display text for this decode failure.
    pub fn message(&self) -> (r: String)
        ensures
            r@ == decode_message_of(*self),
    {
        match *self {
            DecodeError::MissingData => String::from_str("tag cell is missing its data"),
            DecodeError::ExtraSeparator => String::from_str("tag cell has more than two parts"),
            DecodeError::UnknownErrorCode => String::from_str("unknown tag error code"),
            DecodeError::InvalidPassedToken => String::from_str("invalid passed record"),
            DecodeError::WrongFieldCount => String::from_str(
                "record does not have exactly four fields",
            ),
        }
    }
}

/// One tag datum as read from a log cell.
#[derive(Debug, Default, PartialEq, Eq)]
pub struct RfidData {
    /// The decoded status code; `None` is the "no error" sentinel.
    pub error_code: Option<ErrorCode>,
    /// The raw identifier payload.
    pub data: String,
}

pub open spec fn is_digit(c: char) -> bool {
    48 <= c as int && c as int <= 57
}

pub open spec fn digit_val(c: char) -> int {
    c as int - 48
}

/// Whether `s` ends in a fixed-width 4-digit serial suffix.
pub open spec fn has_serial(s: Seq<char>) -> bool {
    s.len() >= 4 && forall|i: int| s.len() - 4 <= i < s.len() ==> is_digit(#[trigger] s[i])
}

/// The numeric value of the 4-digit serial suffix of `s`.
pub open spec fn serial_val(s: Seq<char>) -> int
    recommends
        has_serial(s),
{
    let n = s.len() as int;
    1000 * digit_val(s[n - 4]) + 100 * digit_val(s[n - 3]) + 10 * digit_val(s[n - 2]) + digit_val(
        s[n - 1],
    )
}

/// The serial number a datum contributes to the order and range checks:
/// zero where no serial number can be derived.
pub open spec fn serial_or_zero(s: Seq<char>) -> int {
    if has_serial(s) {
        serial_val(s)
    } else {
        0
    }
}

/// The index of the first `/` at or after position `i`, if any.
pub open spec fn slash_index_from(s: Seq<char>, i: int) -> Option<int>
    decreases s.len() - i,
{
    if i < 0 || i >= s.len() {
        None
    } else if s[i] == '/' {
        Some(i)
    } else {
        slash_index_from(s, i + 1)
    }
}

/// Whether a cell holds the `/` that separates status code and identifier.
pub open spec fn has_separator(s: Seq<char>) -> bool {
    slash_index_from(s, 0) is Some
}

/// The status-code part of a cell: everything before the first `/`.
pub open spec fn code_part(s: Seq<char>) -> Seq<char>
    recommends
        has_separator(s),
{
    s.subrange(0, slash_index_from(s, 0)->0)
}

/// Whether a cell has the two-part shape: exactly one `/`.
pub open spec fn single_separator(s: Seq<char>) -> bool {
    has_separator(s) && slash_index_from(s, slash_index_from(s, 0)->0 + 1) is None
}

/// The identifier part of a cell: everything after the `/`.
pub open spec fn data_part(s: Seq<char>) -> Seq<char>
    recommends
        has_separator(s),
{
    s.subrange(slash_index_from(s, 0)->0 + 1, s.len() as int)
}

/// The decoding table for status codes: `Some(code)` for a known code
/// string, `None` for an unknown one. The outer `Option` is decodability;
/// the inner one is the "no error" sentinel `"0"`.
pub open spec fn error_code_of(code: Seq<char>) -> Option<Option<ErrorCode>> {
    if code == "0"@ {
        Some(None)
    } else if code == "1"@ {
        Some(Some(ErrorCode::DidNotRespondToQuery))
    } else if code == "2"@ {
        Some(Some(ErrorCode::DidNotRespondToCommand))
    } else if code == "3"@ {
        Some(Some(ErrorCode::InventoryFailed))
    } else if code == "4"@ {
        Some(Some(ErrorCode::TagError(TagError::Other)))
    } else if code == "52"@ {
        Some(Some(ErrorCode::TagError(TagError::MemoryOverrun)))
    } else if code == "68"@ {
        Some(Some(ErrorCode::TagError(TagError::MemoryLocked)))
    } else if code == "180"@ {
        Some(Some(ErrorCode::TagError(TagError::InsufficientPower)))
    } else if code == "244"@ {
        Some(Some(ErrorCode::TagError(TagError::NonSpecific)))
    } else {
        None
    }
}

/// Whether a raw cell decodes at all: exactly two parts, with a known code.
pub open spec fn rfid_decode_ok(cell: Seq<char>) -> bool {
    single_separator(cell) && error_code_of(code_part(cell)) is Some
}

/// The decode failure a malformed cell yields: no separator, more than one
/// separator, or an unknown status code, tested in that order.
pub open spec fn rfid_decode_err(cell: Seq<char>) -> DecodeError
    recommends
        !rfid_decode_ok(cell),
{
    if !has_separator(cell) {
        DecodeError::MissingData
    } else if !single_separator(cell) {
        DecodeError::ExtraSeparator
    } else {
        DecodeError::UnknownErrorCode
    }
}

/// What a successful decode of `cell` yields.
pub open spec fn rfid_matches(cell: Seq<char>, d: RfidData) -> bool {
    &&& rfid_decode_ok(cell)
    &&& Some(d.error_code) == error_code_of(code_part(cell))
    &&& d.data@ == data_part(cell)
}

/// The index of the first `/` in `s` at or after `from`, if any.
fn find_slash(s: &str, from: usize) -> (r: Option<usize>)
    requires
        from <= s@.len(),
    ensures
        match r {
            Some(j) => slash_index_from(s@, from as int) == Some(j as int) && from <= j
                < s@.len(),
            None => slash_index_from(s@, from as int) is None,
        },
{
    let n = s.unicode_len();
    let mut i: usize = from;
    while i < n
        invariant
            from <= i <= n,
            n == s@.len(),
            slash_index_from(s@, from as int) == slash_index_from(s@, i as int),
        decreases n - i,
    {
        if s.get_char(i) == '/' {
            return Some(i);
        }
        i += 1;
    }
    None
}

/// Character-for-character string equality.
pub(crate) fn str_eq(a: &str, b: &str) -> (r: bool)
    ensures
        r == (a@ == b@),
{
    let na = a.unicode_len();
    let nb = b.unicode_len();
    if na != nb {
        return false;
    }
    let mut i: usize = 0;
    while i < na
        invariant
            i <= na,
            na == a@.len(),
            na == b@.len(),
            forall|j: int| 0 <= j < i ==> a@[j] == b@[j],
        decreases na - i,
    {
        if a.get_char(i) != b.get_char(i) {
            return false;
        }
        i += 1;
    }
    proof {
        assert(a@ =~= b@);
    }
    true
}

impl Clone for RfidData {
    fn clone(&self) -> (r: Self)
        ensures
            r == *self,
    {
        RfidData { error_code: self.error_code, data: self.data.clone() }
    }
}

impl RfidData {
    /// The serial number derived from the identifier: its last 4 characters
    /// read as a decimal number, or `None` if the identifier is shorter than
    /// 4 characters or that suffix is not purely numeric.
    pub fn serial_number(&self) -> (r: Option<i16>)
        ensures
            has_serial(self.data@) ==> (r matches Some(v) && v as int == serial_val(self.data@)),
            !has_serial(self.data@) ==> r is None,
            r matches Some(v) ==> 0 <= v <= 9999,
    {
        let s: &str = self.data.as_str();
        let n = s.unicode_len();
        if n < 4 {
            return None;
        }
        let d0 = s.get_char(n - 4) as u32;
        let d1 = s.get_char(n - 3) as u32;
        let d2 = s.get_char(n - 2) as u32;
        let d3 = s.get_char(n - 1) as u32;
        if d0 < 48 || d0 > 57 || d1 < 48 || d1 > 57 || d2 < 48 || d2 > 57 || d3 < 48 || d3 > 57 {
            return None;
        }
        let v: u32 = 1000 * (d0 - 48) + 100 * (d1 - 48) + 10 * (d2 - 48) + (d3 - 48);
        Some(v as i16)
    }

    /// Decodes one raw tag cell, which must be exactly two parts of the
    /// form `"<code>/<identifier>"`. The status code must be one of the
    /// known code strings; any other shape or code is a fatal decode
    /// failure, not a validation finding.
    pub fn decode(cell: &str) -> (r: Result<RfidData, DecodeError>)
        ensures
            r is Ok <==> rfid_decode_ok(cell@),
            match r {
                Ok(d) => rfid_matches(cell@, d),
                Err(e) => e == rfid_decode_err(cell@),
            },
    {
        let n = cell.unicode_len();
        let j = match find_slash(cell, 0) {
            Some(j) => j,
            None => {
                return Err(DecodeError::MissingData);
            },
        };
        if find_slash(cell, j + 1).is_some() {
            return Err(DecodeError::ExtraSeparator);
        }
        let code = cell.substring_char(0, j);
        let data = cell.substring_char(j + 1, n);
        let error_code: Option<ErrorCode> = if str_eq(code, "0") {
            None
        } else if str_eq(code, "1") {
            Some(ErrorCode::DidNotRespondToQuery)
        } else if str_eq(code, "2") {
            Some(ErrorCode::DidNotRespondToCommand)
        } else if str_eq(code, "3") {
            Some(ErrorCode::InventoryFailed)
        } else if str_eq(code, "4") {
            Some(ErrorCode::TagError(TagError::Other))
        } else if str_eq(code, "52") {
            Some(ErrorCode::TagError(TagError::MemoryOverrun))
        } else if str_eq(code, "68") {
            Some(ErrorCode::TagError(TagError::MemoryLocked))
        } else if str_eq(code, "180") {
            Some(ErrorCode::TagError(TagError::InsufficientPower))
        } else if str_eq(code, "244") {
            Some(ErrorCode::TagError(TagError::NonSpecific))
        } else {
            return Err(DecodeError::UnknownErrorCode);
        };
        Ok(RfidData { error_code, data: String::from_str(data) })
    }
}

} // verus!

//! One parsed log record: a timestamp, a pass/fail outcome, and the two tag
//! data cells (EPC and TID), decoded strictly from four raw fields.

use vstd::prelude::*;

use crate::rfid_data::{
    rfid_decode_err, rfid_decode_ok, rfid_matches, str_eq, DecodeError, RfidData,
};

verus! {

/// One log record. Only records with `did_pass` take part in validation.
#[derive(Debug, Clone)]
pub struct Line {
    /// The raw timestamp cell; carried, never interpreted.
    pub timestamp: String,
    /// Whether the read passed; the sole gate into the three checks.
    pub did_pass: bool,
    /// The EPC tag datum, subject of the format and order checks.
    pub epc_data: RfidData,
    /// The TID tag datum; carried, not validated.
    pub tid_data: RfidData,
}

/// Whether the pass/fail field token is one of the two accepted literals.
pub open spec fn passed_token_ok(s: Seq<char>) -> bool {
    s == "PASS"@ || s == "FAIL"@
}

/// Whether four raw fields decode into a record.
pub open spec fn line_decode_ok(fields: Seq<Seq<char>>) -> bool {
    &&& fields.len() == 4
    &&& passed_token_ok(fields[1])
    &&& rfid_decode_ok(fields[2])
    &&& rfid_decode_ok(fields[3])
}

/// The decode failure four raw fields yield: the field count, then the
/// pass/fail token, then the EPC cell, then the TID cell, in that order.
pub open spec fn line_decode_err(fields: Seq<Seq<char>>) -> DecodeError
    recommends
        !line_decode_ok(fields),
{
    if fields.len() != 4 {
        DecodeError::WrongFieldCount
    } else if !passed_token_ok(fields[1]) {
        DecodeError::InvalidPassedToken
    } else if !rfid_decode_ok(fields[2]) {
        rfid_decode_err(fields[2])
    } else {
        rfid_decode_err(fields[3])
    }
}

/// What a successful decode of four raw fields yields.
pub open spec fn line_matches(fields: Seq<Seq<char>>, l: Line) -> bool {
    &&& line_decode_ok(fields)
    &&& l.timestamp@ == fields[0]
    &&& l.did_pass == (fields[1] == "PASS"@)
    &&& rfid_matches(fields[2], l.epc_data)
    &&& rfid_matches(fields[3], l.tid_data)
}

impl Line {
    /// Decodes one raw record, already split into its tab-separated fields.
    /// Exactly four fields are accepted: timestamp, pass/fail token, EPC
    /// cell, TID cell. Any decode failure is fatal to the whole run.
    pub fn decode(fields: &Vec<String>) -> (r: Result<Line, DecodeError>)
        ensures
            r is Ok <==> line_decode_ok(fields.deep_view()),
            match r {
                Ok(l) => line_matches(fields.deep_view(), l),
                Err(e) => e == line_decode_err(fields.deep_view()),
            },
    {
        if fields.len() != 4 {
            return Err(DecodeError::WrongFieldCount);
        }
        let did_pass = if str_eq(fields[1].as_str(), "PASS") {
            true
        } else if str_eq(fields[1].as_str(), "FAIL") {
            false
        } else {
            return Err(DecodeError::InvalidPassedToken);
        };
        let epc_data = match RfidData::decode(fields[2].as_str()) {
            Ok(d) => d,
            Err(e) => {
                return Err(e);
            },
        };
        let tid_data = match RfidData::decode(fields[3].as_str()) {
            Ok(d) => d,
            Err(e) => {
                return Err(e);
            },
        };
        Ok(Line { timestamp: fields[0].clone(), did_pass, epc_data, tid_data })
    }
}

} // verus!

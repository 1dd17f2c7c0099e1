//! Validation of machine-generated RFID tag-read logs.
//!
//! A log is an ordered sequence of records, each carrying a timestamp, a
//! pass/fail outcome, and two tag identifiers (EPC and TID). The library
//! decodes raw cells into typed records and runs three independent checks
//! over the passed records: a structural format check on each EPC
//! identifier, an adjacency check on consecutive serial numbers, and a
//! completeness check on the overall serial-number span.

pub mod check_error;
pub mod checks;
pub mod line;
pub mod render;
pub mod rfid_data;

pub use check_error::{CheckError, ErrorType, LineOrRange};
pub use checks::{check_epc, check_order, check_range, validate};
pub use line::Line;
pub use rfid_data::{DecodeError, ErrorCode, RfidData, TagError};

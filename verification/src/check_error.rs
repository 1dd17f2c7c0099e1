//! The closed set of validation findings: an error kind, an optional line
//! or line-range location, and an optional underlying cause, carried for
//! display only.

use vstd::prelude::*;

verus! {

/// The closed set of validation-failure kinds.
#[derive(Debug, Clone, Copy, PartialEq, Eq, Structural)]
pub enum ErrorType {
    /// A passed record's EPC identifier failed the structural pattern.
    EpcDidNotMatch,
    /// Two consecutive passed records carried non-adjacent serial numbers.
    EpcNotInOrder,
    /// The overall span of serial numbers missed the expected tag count.
    TagRangeIncomplete,
}

/// Where a finding points: one line, or a half-open range of lines. Line
/// numbers here are one-based; a zero line number is never stored.
#[derive(Debug, Clone, Copy, PartialEq, Eq, Structural)]
pub enum LineOrRange {
    Line(usize),
    Range(usize, usize),
}

/// One validation finding.
#[derive(Debug)]
pub struct CheckError {
    pub kind: ErrorType,
    pub line: Option<LineOrRange>,
    pub source: Option<String>,
}

impl CheckError {
    /// A stored single line number is never zero.
    pub open spec fn wf(&self) -> bool {
        match self.line {
            Some(LineOrRange::Line(n)) => n > 0,
            _ => true,
        }
    }

    pub fn new(kind: ErrorType) -> (r: Self)
        ensures
            r.kind == kind,
            r.line is None,
            r.source is None,
            r.wf(),
    {
        Self { kind, line: None, source: None }
    }

    /// Attaches `line` as the location; a zero line number is rejected and
    /// leaves the finding without a location.
    pub fn with_line(kind: ErrorType, line: usize) -> (r: Self)
        ensures
            r.kind == kind,
            r.line == (if line > 0 {
                Some(LineOrRange::Line(line))
            } else {
                None::<LineOrRange>
            }),
            r.source is None,
            r.wf(),
    {
        let loc = if line > 0 {
            Some(LineOrRange::Line(line))
        } else {
            None
        };
        Self { kind, line: loc, source: None }
    }

    pub fn with_range(kind: ErrorType, range: core::ops::Range<usize>) -> (r: Self)
        ensures
            r.kind == kind,
            r.line == Some(LineOrRange::Range(range.start, range.end)),
            r.source is None,
            r.wf(),
    {
        Self { kind, line: Some(LineOrRange::Range(range.start, range.end)), source: None }
    }

    pub fn with_source(kind: ErrorType, source: String) -> (r: Self)
        ensures
            r.kind == kind,
            r.line is None,
            r.source == Some(source),
            r.wf(),
    {
        Self { kind, line: None, source: Some(source) }
    }

    pub fn with_line_and_source(kind: ErrorType, line: usize, source: String) -> (r: Self)
        ensures
            r.kind == kind,
            r.line == (if line > 0 {
                Some(LineOrRange::Line(line))
            } else {
                None::<LineOrRange>
            }),
            r.source == Some(source),
            r.wf(),
    {
        let loc = if line > 0 {
            Some(LineOrRange::Line(line))
        } else {
            None
        };
        Self { kind, line: loc, source: Some(source) }
    }

    pub fn epc_did_not_match(line: usize) -> (r: Self)
        ensures
            r == format_error_at(line as int),
    {
        Self::with_line(ErrorType::EpcDidNotMatch, line)
    }

    pub fn epc_not_in_order(range: core::ops::Range<usize>) -> (r: Self)
        ensures
            r == order_error_between(range.start as int, range.end as int),
    {
        Self::with_range(ErrorType::EpcNotInOrder, range)
    }

    pub fn tag_range_incomplete() -> (r: Self)
        ensures
            r == range_error(),
    {
        Self::new(ErrorType::TagRangeIncomplete)
    }

    pub fn kind(&self) -> (r: ErrorType)
        ensures
            r == self.kind,
    {
        self.kind
    }

    pub fn line_or_range(&self) -> (r: Option<LineOrRange>)
        ensures
            r == self.line,
    {
        self.line
    }

    /// The single line number, where the location is a single line.
    pub fn line(&self) -> (r: Option<usize>)
        ensures
            r == (match self.line {
                Some(LineOrRange::Line(n)) => Some(n),
                _ => None::<usize>,
            }),
    {
        if let Some(LineOrRange::Line(n)) = self.line {
            Some(n)
        } else {
            None
        }
    }

    /// The line range, where the location is a range.
    pub fn range(&self) -> (r: Option<core::ops::Range<usize>>)
        ensures
            match self.line {
                Some(LineOrRange::Range(s, e)) => r matches Some(rg) && rg.start == s && rg.end
                    == e,
                _ => r is None,
            },
    {
        if let Some(LineOrRange::Range(s, e)) = self.line {
            Some(s..e)
        } else {
            None
        }
    }

    pub fn into_source(self) -> (r: Option<String>)
        ensures
            r == self.source,
    {
        self.source
    }

    pub fn into_parts(self) -> (r: (ErrorType, Option<String>))
        ensures
            r.0 == self.kind,
            r.1 == self.source,
    {
        (self.kind, self.source)
    }
}

/// The finding the format check emits for the record at `line`.
pub open spec fn format_error_at(line: int) -> CheckError {
    CheckError {
        kind: ErrorType::EpcDidNotMatch,
        line: if line > 0 {
            Some(LineOrRange::Line(line as usize))
        } else {
            None
        },
        source: None,
    }
}

/// The finding the order check emits for the pair at `prev_line` and `line`.
pub open spec fn order_error_between(prev_line: int, line: int) -> CheckError {
    CheckError {
        kind: ErrorType::EpcNotInOrder,
        line: Some(LineOrRange::Range(prev_line as usize, line as usize)),
        source: None,
    }
}

/// The finding the range-completeness check emits; it carries no location.
pub open spec fn range_error() -> CheckError {
    CheckError { kind: ErrorType::TagRangeIncomplete, line: None, source: None }
}

} // verus!

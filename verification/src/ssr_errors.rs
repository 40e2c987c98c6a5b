//! The ways in which a report run can fail.

use vstd::prelude::*;

verus! {

/// Why a run was abandoned. Every error ends the run: nothing is retried and
/// no partial report is produced.
#[derive(Debug, Clone, Copy, PartialEq, Eq, Structural)]
pub enum SsrError {
    /// The year and month do not name a month of the calendar, or the month
    /// after it is beyond the calendar.
    YearMonthConversion,
    /// The sensor selected by name is not a numeric sensor.
    NonNumericSensorUsed,
    /// The file that the report should be written to is already there.
    OutputFileExists,
    /// A response lacks a required field, or holds it with the wrong type.
    MalformedResponse,
    /// A request was not answered, or was answered with an error.
    TransportFailure,
    /// The run was ended before it had finished.
    Unfinished,
}

impl SsrError {
    /// What the error says to the user.
    pub open spec fn text(self) -> Seq<char> {
        match self {
            SsrError::YearMonthConversion => "Could not convert provided year and month"@,
            SsrError::NonNumericSensorUsed => "Invalid sensor type. Only numeric sensors are supported"@,
            SsrError::OutputFileExists => "Output file already exists."@,
            SsrError::MalformedResponse => "Malformed response. A required field is missing or has the wrong type"@,
            SsrError::TransportFailure => "Request failed. The run was abandoned"@,
            SsrError::Unfinished => "The run has not finished"@,
        }
    }

    /// The message of the error.
    pub fn message(&self) -> (message: String)
        ensures
            message@ == self.text(),
    {
        match self {
            SsrError::YearMonthConversion => "Could not convert provided year and month".to_owned(),
            SsrError::NonNumericSensorUsed => "Invalid sensor type. Only numeric sensors are supported".to_owned(),
            SsrError::OutputFileExists => "Output file already exists.".to_owned(),
            SsrError::MalformedResponse => "Malformed response. A required field is missing or has the wrong type".to_owned(),
            SsrError::TransportFailure => "Request failed. The run was abandoned".to_owned(),
            SsrError::Unfinished => "The run has not finished".to_owned(),
        }
    }
}

} // verus!

use vstd::prelude::*;

verus! {

#[verifier::external_type_specification]
#[verifier::external_body]
pub struct ExIoError(std::io::Error);

/// Errors of the protocol.
#[derive(Debug)]
pub enum Error {
    /// An unknown memo type was encountered while parsing a report.
    UnknownMemoType(u8),
    /// Reports cannot include the temporary contact number with index 0.
    InvalidReportIndex,
    /// The input ended before a complete value could be read, or the
    /// underlying byte stream failed.
    Io(std::io::Error),
    /// An oversized memo field was supplied when creating a report.
    OversizeMemo(usize),
    /// A report failed the source integrity check.
    ReportVerificationFailed,
}

/// Relies on `std::io::Error::from(ErrorKind::UnexpectedEof)`: the error that a
/// reader reports when its input ends before a value is complete.
#[verifier::external_body]
pub(crate) fn unexpected_eof() -> std::io::Error {
    std::io::Error::from(std::io::ErrorKind::UnexpectedEof)
}

} // verus!

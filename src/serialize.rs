//! The wire formats of reports, signed reports and keys.
use crate::bytes::{
    append_bytes, append_le16, copy_range, from_le16, le16, read_32_bytes, read_64_bytes,
    read_le16,
};
use crate::error::{unexpected_eof, Error};
use crate::keys::{KeyModel, ReportAuthorizationKey, TemporaryContactKey};
use crate::report::{MemoType, Report, ReportModel, SignedReport, SignedReportModel};
use vstd::prelude::*;

verus! {

/// The byte that stands for a memo type on the wire.
pub open spec fn memo_type_byte(t: MemoType) -> u8 {
    match t {
        MemoType::CoEpiV1 => 0,
        MemoType::CovidWatchV1 => 1,
        MemoType::Reserved => 0xff,
    }
}

/// The canonical encoding of a report: `rvk`, the key bytes, `j_1` and `j_2`
/// little-endian, the memo type byte, the memo length byte, the memo.
pub open spec fn report_bytes(m: ReportModel) -> Seq<u8> {
    m.rvk + m.tck_bytes + le16(m.j_1) + le16(m.j_2) + seq![
        memo_type_byte(m.memo_type),
        m.memo_data.len() as u8,
    ] + m.memo_data
}

/// The memo type that the byte `b` stands for, if any. The reserved type is
/// never read.
pub open spec fn memo_type_of_byte(b: u8) -> Option<MemoType> {
    if b == 0 {
        Some(MemoType::CoEpiV1)
    } else if b == 1 {
        Some(MemoType::CovidWatchV1)
    } else {
        None
    }
}

/// The outcome of reading a value from the start of a byte string.
pub enum Parse<T> {
    /// The bytes end before the value is complete.
    Truncated,
    /// The memo type byte stands for no known memo type.
    UnknownMemoType(u8),
    /// The first disclosed index is 0.
    InvalidIndex,
    /// The value read.
    Parsed(T),
}

/// Whether the result `r` of a reader is the outcome `p`.
pub open spec fn result_matches<T: View>(r: Result<T, Error>, p: Parse<T::V>) -> bool {
    match p {
        Parse::Truncated => r matches Err(Error::Io(_)),
        Parse::UnknownMemoType(t) => r matches Err(Error::UnknownMemoType(u)) && u == t,
        Parse::InvalidIndex => r matches Err(Error::InvalidReportIndex),
        Parse::Parsed(m) => r matches Ok(v) && v@ == m,
    }
}

/// The length of the encoded report at the start of `b`, once its memo length
/// byte is there.
pub open spec fn encoded_report_len(b: Seq<u8>) -> int {
    70 + b[69]
}

/// Reading a report from the start of `b`; bytes after it are left alone.
pub open spec fn parse_report(b: Seq<u8>) -> Parse<ReportModel> {
    if b.len() < 69 {
        Parse::Truncated
    } else if memo_type_of_byte(b[68]) is None {
        Parse::UnknownMemoType(b[68])
    } else if b.len() < 70 || b.len() < encoded_report_len(b) {
        Parse::Truncated
    } else if from_le16(b[64], b[65]) == 0 {
        Parse::InvalidIndex
    } else {
        Parse::Parsed(
            ReportModel {
                rvk: b.subrange(0, 32),
                tck_bytes: b.subrange(32, 64),
                j_1: from_le16(b[64], b[65]),
                j_2: from_le16(b[66], b[67]),
                memo_type: memo_type_of_byte(b[68])->Some_0,
                memo_data: b.subrange(70, encoded_report_len(b)),
            },
        )
    }
}

/// Reading a signed report from the start of `b`: a report, then 64 bytes of
/// signature.
pub open spec fn parse_signed_report(b: Seq<u8>) -> Parse<SignedReportModel> {
    match parse_report(b) {
        Parse::Parsed(m) => {
            let n = encoded_report_len(b);
            if b.len() < n + 64 {
                Parse::Truncated
            } else {
                Parse::Parsed(SignedReportModel { report: m, sig: b.subrange(n, n + 64) })
            }
        },
        Parse::Truncated => Parse::Truncated,
        Parse::UnknownMemoType(t) => Parse::UnknownMemoType(t),
        Parse::InvalidIndex => Parse::InvalidIndex,
    }
}

/// The encoding of a signed report: the report, then the signature.
pub open spec fn signed_report_bytes(s: SignedReportModel) -> Seq<u8> {
    report_bytes(s.report) + s.sig
}

/// The encoding of a temporary contact key: the index little-endian, `rvk`,
/// the key bytes.
pub open spec fn key_bytes(k: KeyModel) -> Seq<u8> {
    le16(k.index as u16) + k.rvk + k.bytes
}

/// Reading a temporary contact key from the start of `b`, if it is long
/// enough.
pub open spec fn parse_key(b: Seq<u8>) -> Option<KeyModel> {
    if b.len() < 66 {
        None
    } else {
        Some(
            KeyModel {
                index: from_le16(b[0], b[1]) as nat,
                rvk: b.subrange(2, 34),
                bytes: b.subrange(34, 66),
            },
        )
    }
}

/// The memo type that the byte `b` stands for, if any.
fn memo_type_from_byte(b: u8) -> (r: Option<MemoType>)
    ensures
        r == memo_type_of_byte(b),
{
    if b == 0 {
        Some(MemoType::CoEpiV1)
    } else if b == 1 {
        Some(MemoType::CovidWatchV1)
    } else {
        None
    }
}

impl MemoType {
    /// The byte that stands for this memo type on the wire.
    pub(crate) fn to_byte(self) -> (r: u8)
        ensures
            r == memo_type_byte(self),
    {
        match self {
            MemoType::CoEpiV1 => 0,
            MemoType::CovidWatchV1 => 1,
            MemoType::Reserved => 0xff,
        }
    }
}

impl Report {
    /// Append the canonical encoding of the report to `out`.
    pub fn write(&self, out: &mut Vec<u8>)
        ensures
            final(out)@ == old(out)@ + report_bytes(self@),
    {
        proof {
            use_type_invariant(self);
        }
        append_bytes(out, self.rvk.as_slice());
        append_bytes(out, self.tck_bytes.as_slice());
        append_le16(out, self.j_1);
        append_le16(out, self.j_2);
        out.push(self.memo_type.to_byte());
        out.push(self.memo_data.len() as u8);
        append_bytes(out, self.memo_data.as_slice());
        assert(out@ =~= old(out)@ + report_bytes(self@));
    }

    /// Try to read a `Report` from the start of `bytes`.
    pub fn read(bytes: &[u8]) -> (r: Result<Report, Error>)
        ensures
            result_matches(r, parse_report(bytes@)),
    {
        let len = bytes.len();
        if len < 69 {
            return Err(Error::Io(unexpected_eof()));
        }
        let memo_type = match memo_type_from_byte(bytes[68]) {
            Some(t) => t,
            None => return Err(Error::UnknownMemoType(bytes[68])),
        };
        if len < 70 || len - 70 < bytes[69] as usize {
            return Err(Error::Io(unexpected_eof()));
        }
        let j_1 = read_le16(bytes, 64);
        if j_1 == 0 {
            return Err(Error::InvalidReportIndex);
        }
        let end = 70 + bytes[69] as usize;
        let report = Report {
            rvk: read_32_bytes(bytes, 0),
            tck_bytes: read_32_bytes(bytes, 32),
            j_1,
            j_2: read_le16(bytes, 66),
            memo_type,
            memo_data: copy_range(bytes, 70, end),
        };
        Ok(report)
    }
}

impl SignedReport {
    /// Try to read a `SignedReport` from the start of `bytes`.
    pub fn read(bytes: &[u8]) -> (r: Result<SignedReport, Error>)
        ensures
            result_matches(r, parse_signed_report(bytes@)),
    {
        let report = match Report::read(bytes) {
            Ok(report) => report,
            Err(e) => return Err(e),
        };
        let n = 70 + bytes[69] as usize;
        if bytes.len() - n < 64 {
            return Err(Error::Io(unexpected_eof()));
        }
        let sig = read_64_bytes(bytes, n);
        Ok(SignedReport { report, sig })
    }

    /// Append the encoding of the signed report to `out`.
    pub fn write(&self, out: &mut Vec<u8>)
        ensures
            final(out)@ == old(out)@ + signed_report_bytes(self@),
    {
        self.report.write(out);
        append_bytes(out, self.sig.as_slice());
        assert(out@ =~= old(out)@ + signed_report_bytes(self@));
    }
}

impl ReportAuthorizationKey {
    /// Try to read a `ReportAuthorizationKey`: its 32 raw bytes at the start
    /// of `bytes`.
    pub fn read(bytes: &[u8]) -> (r: Result<ReportAuthorizationKey, std::io::Error>)
        ensures
            bytes@.len() < 32 ==> r is Err,
            bytes@.len() >= 32 ==> (r matches Ok(k) && k@ == bytes@.subrange(0, 32)),
    {
        if bytes.len() < 32 {
            return Err(unexpected_eof());
        }
        Ok(ReportAuthorizationKey { rak: read_32_bytes(bytes, 0) })
    }

    /// Append the 32 raw bytes of the key to `out`.
    pub fn write(&self, out: &mut Vec<u8>)
        ensures
            final(out)@ == old(out)@ + self@,
    {
        append_bytes(out, self.rak.as_slice());
    }
}

impl TemporaryContactKey {
    /// Try to read a `TemporaryContactKey` from the start of `bytes`.
    pub fn read(bytes: &[u8]) -> (r: Result<TemporaryContactKey, std::io::Error>)
        ensures
            parse_key(bytes@) is None ==> r is Err,
            parse_key(bytes@) matches Some(m) ==> (r matches Ok(k) && k@ == m),
    {
        if bytes.len() < 66 {
            return Err(unexpected_eof());
        }
        Ok(
            TemporaryContactKey {
                index: read_le16(bytes, 0),
                rvk: read_32_bytes(bytes, 2),
                tck_bytes: read_32_bytes(bytes, 34),
            },
        )
    }

    /// Append the encoding of the key to `out`.
    pub fn write(&self, out: &mut Vec<u8>)
        ensures
            final(out)@ == old(out)@ + key_bytes(self@),
    {
        append_le16(out, self.index);
        append_bytes(out, self.rvk.as_slice());
        append_bytes(out, self.tck_bytes.as_slice());
        assert(out@ =~= old(out)@ + key_bytes(self@));
    }
}

} // verus!

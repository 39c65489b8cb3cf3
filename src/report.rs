//! Reports of potential exposure: construction, signing, verification and
//! recomputation of the disclosed temporary contact numbers.
use crate::bytes::copy_range;
use crate::crypto::{sign, signature_accepted, signature_of, verification_key_of, verify_signature};
use crate::error::Error;
use crate::keys::{
    advance, advance_n, chain_key, key_tcn, lemma_advance_n_shift, lemma_chain_step, KeyModel,
    ReportAuthorizationKey, TemporaryContactKey, TemporaryContactNumber,
};
use crate::serialize::report_bytes;
use vstd::prelude::*;

verus! {

/// Describes the intended type of the contents of a memo field.
#[derive(Copy, Clone, Debug, Eq, PartialEq, Structural)]
pub enum MemoType {
    /// The CoEpi symptom self-report format, version 1 (byte 0).
    CoEpiV1,
    /// The CovidWatch test data format, version 1 (byte 1).
    CovidWatchV1,
    /// Reserved for future use (byte 0xff); never accepted when parsing.
    Reserved,
}

/// A report as a mathematical value.
pub struct ReportModel {
    pub rvk: Seq<u8>,
    pub tck_bytes: Seq<u8>,
    pub j_1: u16,
    pub j_2: u16,
    pub memo_type: MemoType,
    pub memo_data: Seq<u8>,
}

/// The invariant of every report: the key fields hold 32 bytes, the first
/// disclosed index is at least 1 and the memo holds at most 255 bytes.
pub open spec fn report_wf(m: ReportModel) -> bool {
    &&& m.rvk.len() == 32
    &&& m.tck_bytes.len() == 32
    &&& m.j_1 >= 1
    &&& m.memo_data.len() <= 255
}

/// A report of potential exposure.
#[derive(Debug)]
pub struct Report {
    pub(crate) rvk: [u8; 32],
    pub(crate) tck_bytes: [u8; 32],
    pub(crate) j_1: u16,
    pub(crate) j_2: u16,
    pub(crate) memo_type: MemoType,
    pub(crate) memo_data: Vec<u8>,
}

impl View for Report {
    type V = ReportModel;

    open(crate) spec fn view(&self) -> ReportModel {
        ReportModel {
            rvk: self.rvk@,
            tck_bytes: self.tck_bytes@,
            j_1: self.j_1,
            j_2: self.j_2,
            memo_type: self.memo_type,
            memo_data: self.memo_data@,
        }
    }
}

/// A signed report as a mathematical value.
pub struct SignedReportModel {
    pub report: ReportModel,
    pub sig: Seq<u8>,
}

/// A signed exposure report, whose source integrity can be verified to
/// produce a `Report`.
#[derive(Clone, Debug)]
pub struct SignedReport {
    pub(crate) report: Report,
    pub(crate) sig: [u8; 64],
}

impl View for SignedReport {
    type V = SignedReportModel;

    open(crate) spec fn view(&self) -> SignedReportModel {
        SignedReportModel { report: self.report@, sig: self.sig@ }
    }
}

/// The key at index `j_1` of the report's chain, the key of its first
/// disclosed number.
pub open spec fn report_start_key(m: ReportModel) -> KeyModel {
    advance(KeyModel { index: (m.j_1 - 1) as nat, rvk: m.rvk, bytes: m.tck_bytes })
}

/// The numbers the report discloses: those at indices `j_1 .. j_2`, none
/// when `j_2 <= j_1`.
pub open spec fn report_tcns(m: ReportModel) -> Seq<Seq<u8>> {
    let n: nat = if m.j_1 < m.j_2 { (m.j_2 - m.j_1) as nat } else { 0 };
    Seq::new(n, |k: int| key_tcn(advance_n(report_start_key(m), k as nat)))
}

/// The first disclosed index of a report asked for with `j_1`: index 0 is
/// never disclosed, so it is raised to 1.
pub open spec fn first_index(j_1: u16) -> u16 {
    if j_1 == 0 {
        1
    } else {
        j_1
    }
}

/// The report that the authorization key `rak` makes for these arguments.
pub open spec fn report_of(
    rak: Seq<u8>,
    memo_type: MemoType,
    memo_data: Seq<u8>,
    j_1: u16,
    j_2: u16,
) -> ReportModel {
    ReportModel {
        rvk: verification_key_of(rak),
        tck_bytes: chain_key(rak, (first_index(j_1) - 1) as nat).bytes,
        j_1: first_index(j_1),
        j_2,
        memo_type,
        memo_data,
    }
}

/// The signed report that `rak` makes for these arguments: the report and
/// the signature by `rak` on its encoding.
pub open spec fn signed_report_of(
    rak: Seq<u8>,
    memo_type: MemoType,
    memo_data: Seq<u8>,
    j_1: u16,
    j_2: u16,
) -> SignedReportModel {
    let report = report_of(rak, memo_type, memo_data, j_1, j_2);
    SignedReportModel { report, sig: signature_of(rak, report_bytes(report)) }
}

/// Whether the signature of `s` is valid on the encoding of its report under
/// the report's verification key.
pub open spec fn signature_valid(s: SignedReportModel) -> bool {
    signature_accepted(s.report.rvk, s.sig, report_bytes(s.report))
}

/// The numbers still to come from a report, produced one at a time.
pub struct TemporaryContactNumbers {
    pub(crate) key: TemporaryContactKey,
    pub(crate) end: u16,
}

impl TemporaryContactNumbers {
    /// The numbers this stream has still to produce, in order.
    pub open(crate) spec fn pending(&self) -> Seq<Seq<u8>> {
        let n: nat = if self.key@.index < self.end {
            (self.end - self.key@.index) as nat
        } else {
            0
        };
        Seq::new(n, |k: int| key_tcn(advance_n(self.key@, k as nat)))
    }

    /// Produce the next number, or `None` once all are produced.
    pub fn next(&mut self) -> (r: Option<TemporaryContactNumber>)
        ensures
            old(self).pending().len() == 0 ==> r is None && final(self).pending()
                == old(self).pending(),
            old(self).pending().len() > 0 ==> r is Some && r->Some_0@ == old(self).pending()[0]
                && final(self).pending() == old(self).pending().drop_first(),
    {
        if self.key.index < self.end {
            let ghost before = self.pending();
            let tcn = self.key.temporary_contact_number();
            self.key = self.key.ratchet().unwrap();
            proof {
                assert forall|k: int| 0 <= k < self.pending().len() implies self.pending()[k]
                    == before[k + 1] by {
                    lemma_advance_n_shift(old(self).key@, k as nat);
                }
                assert(self.pending() =~= before.drop_first());
            }
            Some(tcn)
        } else {
            None
        }
    }
}

impl Report {
    #[verifier::type_invariant]
    pub(crate) open spec fn inv(&self) -> bool {
        report_wf(self@)
    }

    /// Get the type of the memo field.
    pub fn memo_type(&self) -> (r: MemoType)
        ensures
            r == self@.memo_type,
    {
        self.memo_type
    }

    /// Get the memo data.
    pub fn memo_data(&self) -> (r: &[u8])
        ensures
            r@ == self@.memo_data,
    {
        self.memo_data.as_slice()
    }

    /// The numbers disclosed by the report, produced one at a time.
    ///
    /// Only the numbers at indices `j_1 .. j_2` are produced, but anyone who
    /// holds the report can compute every number from index `j_1` on.
    pub fn temporary_contact_numbers(&self) -> (r: TemporaryContactNumbers)
        ensures
            r.pending() == report_tcns(self@),
    {
        proof {
            use_type_invariant(self);
        }
        let before = TemporaryContactKey {
            index: self.j_1 - 1,
            rvk: self.rvk,
            tck_bytes: self.tck_bytes,
        };
        let key = before.ratchet().unwrap();
        let r = TemporaryContactNumbers { key, end: self.j_2 };
        assert(r.pending() =~= report_tcns(self@));
        r
    }
}

impl Clone for Report {
    fn clone(&self) -> (r: Report)
        ensures
            r@ == self@,
    {
        proof {
            use_type_invariant(self);
        }
        let memo_data = copy_range(self.memo_data.as_slice(), 0, self.memo_data.len());
        assert(memo_data@ =~= self.memo_data@);
        Report {
            rvk: self.rvk,
            tck_bytes: self.tck_bytes,
            j_1: self.j_1,
            j_2: self.j_2,
            memo_type: self.memo_type,
            memo_data,
        }
    }
}

impl ReportAuthorizationKey {
    /// Create a report of potential exposure.
    ///
    /// - `memo_type`, `memo_data`: the type and data of the report's memo
    ///   field; the data must be at most 255 bytes long.
    /// - `j_1`: the ratchet index of the first temporary contact number in the
    ///   report; 0 is raised to 1.
    /// - `j_2`: the ratchet index one past the last number others should check.
    ///
    /// Creating a report reveals *all* temporary contact numbers from `j_1`
    /// on, not just those up to `j_2`. Reports are unlinkable from each other
    /// only up to the memo field.
    pub fn create_report(
        &self,
        memo_type: MemoType,
        memo_data: Vec<u8>,
        j_1: u16,
        j_2: u16,
    ) -> (r: Result<SignedReport, Error>)
        ensures
            memo_data@.len() > 255 ==> (r matches Err(Error::OversizeMemo(n)) && n
                == memo_data@.len()),
            memo_data@.len() <= 255 ==> (r matches Ok(s) && s@ == signed_report_of(
                self@,
                memo_type,
                memo_data@,
                j_1,
                j_2,
            )),
    {
        if memo_data.len() > 255 {
            return Err(Error::OversizeMemo(memo_data.len()));
        }
        let j_1 = if j_1 == 0 {
            1
        } else {
            j_1
        };
        // Recompute the key at index j_1 - 1 from the seed key at index 0.
        let mut tck = self.seed_key();
        let mut i: u16 = 0;
        while i < j_1 - 1
            invariant
                1 <= j_1,
                i <= j_1 - 1,
                tck@ == chain_key(self@, i as nat),
            decreases j_1 - 1 - i,
        {
            proof {
                lemma_chain_step(self@, i as nat);
            }
            tck = tck.ratchet().unwrap();
            i = i + 1;
        }
        let report = Report {
            rvk: tck.rvk,
            tck_bytes: tck.tck_bytes,
            j_1,
            j_2,
            memo_type,
            memo_data,
        };
        let mut report_bytes: Vec<u8> = Vec::new();
        report.write(&mut report_bytes);
        let sig = sign(&self.rak, report_bytes.as_slice());
        Ok(SignedReport { report, sig })
    }
}

impl SignedReport {
    /// Verify the source integrity of this report, producing `Ok(Report)` if
    /// successful.
    ///
    /// The report is encoded anew, so the signature covers exactly the
    /// report's fields.
    pub fn verify(self) -> (r: Result<Report, Error>)
        ensures
            signature_valid(self@) ==> (r matches Ok(report) && report@ == self@.report),
            !signature_valid(self@) ==> r matches Err(Error::ReportVerificationFailed),
    {
        let mut report_bytes: Vec<u8> = Vec::new();
        self.report.write(&mut report_bytes);
        if verify_signature(&self.report.rvk, &self.sig, report_bytes.as_slice()) {
            Ok(self.report)
        } else {
            Err(Error::ReportVerificationFailed)
        }
    }
}

} // verus!

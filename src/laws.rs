//! Properties that relate several operations of the protocol.
use crate::bytes::{le16, lemma_le16_round_trip};
use crate::crypto::{signature_accepted, signature_of, verification_key_of};
use crate::keys::{advance_n, chain_key, chain_tcn, key_tcn, lemma_chain_step, KeyModel};
use crate::report::{
    first_index, report_of, report_start_key, report_tcns, report_wf, signature_valid,
    signed_report_of, MemoType, ReportModel, SignedReportModel,
};
use crate::serialize::{
    encoded_report_len, key_bytes, memo_type_byte, memo_type_of_byte, parse_key, parse_report,
    parse_signed_report, report_bytes, signed_report_bytes, Parse,
};
use vstd::prelude::*;

verus! {

/// Ratcheting `n` times from the key at index `i` of a chain gives the key at
/// index `i + n` of the same chain.
pub proof fn lemma_chain_advance(rak: Seq<u8>, i: nat, n: nat)
    ensures
        advance_n(chain_key(rak, i), n) == chain_key(rak, i + n),
    decreases n,
{
    if n > 0 {
        lemma_chain_advance(rak, i, (n - 1) as nat);
        lemma_chain_step(rak, (i + n - 1) as nat);
    }
}

/// The ratchet is deterministic: the key reached from the initial key of
/// `rak` by `n` ratchet steps, and the number it yields, depend on `rak` alone;
/// they are the key and the number at index `n + 1` of the chain of `rak`.
pub proof fn lemma_ratchet_determinism(rak: Seq<u8>, n: nat)
    ensures
        advance_n(chain_key(rak, 1), n) == chain_key(rak, n + 1),
        key_tcn(advance_n(chain_key(rak, 1), n)) == chain_tcn(rak, n + 1),
{
    lemma_chain_advance(rak, 1, n);
}

/// Reading the encoding of a well-formed report, whatever follows it, gives
/// the report back. The reserved memo type is left out: it is never read.
pub proof fn lemma_report_round_trip(m: ReportModel, rest: Seq<u8>)
    requires
        report_wf(m),
        m.memo_type != MemoType::Reserved,
    ensures
        parse_report(report_bytes(m) + rest) == Parse::Parsed(m),
{
    let b = report_bytes(m) + rest;
    lemma_le16_round_trip(m.j_1, 0, 0);
    lemma_le16_round_trip(m.j_2, 0, 0);
    assert(b[64] == le16(m.j_1)[0] && b[65] == le16(m.j_1)[1]);
    assert(b[66] == le16(m.j_2)[0] && b[67] == le16(m.j_2)[1]);
    assert(b[68] == memo_type_byte(m.memo_type));
    assert(b[69] == m.memo_data.len() as u8);
    assert(encoded_report_len(b) == 70 + m.memo_data.len());
    assert(memo_type_of_byte(b[68]) == Some(m.memo_type));
    assert(b.subrange(0, 32) =~= m.rvk);
    assert(b.subrange(32, 64) =~= m.tck_bytes);
    assert(b.subrange(70, encoded_report_len(b)) =~= m.memo_data);
}

/// Reading the encoding of a signed report with a well-formed report and a
/// 64-byte signature, whatever follows it, gives the signed report back,
/// signature included.
pub proof fn lemma_signed_report_round_trip(s: SignedReportModel, rest: Seq<u8>)
    requires
        report_wf(s.report),
        s.report.memo_type != MemoType::Reserved,
        s.sig.len() == 64,
    ensures
        parse_signed_report(signed_report_bytes(s) + rest) == Parse::Parsed(s),
{
    let b = signed_report_bytes(s) + rest;
    assert(b =~= report_bytes(s.report) + (s.sig + rest));
    lemma_report_round_trip(s.report, s.sig + rest);
    let n = encoded_report_len(b);
    assert(n == report_bytes(s.report).len());
    assert(b.subrange(n, n + 64) =~= s.sig);
}

/// Reading an authorization key back from its 32 raw bytes, whatever follows
/// them, gives the same 32 bytes.
pub proof fn lemma_authorization_key_round_trip(rak: Seq<u8>, rest: Seq<u8>)
    requires
        rak.len() == 32,
    ensures
        (rak + rest).len() >= 32,
        (rak + rest).subrange(0, 32) == rak,
{
    assert((rak + rest).subrange(0, 32) =~= rak);
}

/// Reading the encoding of a temporary contact key, whatever follows it,
/// gives the key back.
pub proof fn lemma_key_round_trip(k: KeyModel, rest: Seq<u8>)
    requires
        k.index <= 65535,
        k.rvk.len() == 32,
        k.bytes.len() == 32,
    ensures
        parse_key(key_bytes(k) + rest) == Some(k),
{
    let b = key_bytes(k) + rest;
    lemma_le16_round_trip(k.index as u16, 0, 0);
    assert(b[0] == le16(k.index as u16)[0] && b[1] == le16(k.index as u16)[1]);
    assert(b.subrange(2, 34) =~= k.rvk);
    assert(b.subrange(34, 66) =~= k.bytes);
}

/// A report made by `rak` verifies whenever Ed25519 accepts the signature
/// that `rak` makes on the report's encoding under the verification key of
/// `rak`: the report carries that key, and the signature is made on the very
/// encoding that verification computes.
pub proof fn lemma_sign_then_verify(
    rak: Seq<u8>,
    memo_type: MemoType,
    memo_data: Seq<u8>,
    j_1: u16,
    j_2: u16,
)
    requires
        ({
            let msg = report_bytes(report_of(rak, memo_type, memo_data, j_1, j_2));
            signature_accepted(verification_key_of(rak), signature_of(rak, msg), msg)
        }),
    ensures
        signature_valid(signed_report_of(rak, memo_type, memo_data, j_1, j_2)),
        signed_report_of(rak, memo_type, memo_data, j_1, j_2).report == report_of(
            rak,
            memo_type,
            memo_data,
            j_1,
            j_2,
        ),
{
}

/// The numbers disclosed by a report that `rak` made are the numbers of the
/// chain of `rak` at indices `j_1 .. j_2`, with `j_1` raised to 1 if it was 0.
pub proof fn lemma_reconstruction_fidelity(
    rak: Seq<u8>,
    memo_type: MemoType,
    memo_data: Seq<u8>,
    j_1: u16,
    j_2: u16,
)
    ensures
        ({
            let first = first_index(j_1);
            let n: nat = if first < j_2 { (j_2 - first) as nat } else { 0 };
            report_tcns(report_of(rak, memo_type, memo_data, j_1, j_2)) == Seq::new(
                n,
                |k: int| chain_tcn(rak, (first + k) as nat),
            )
        }),
{
    let m = report_of(rak, memo_type, memo_data, j_1, j_2);
    let first = first_index(j_1);
    lemma_chain_step(rak, (first - 1) as nat);
    assert(report_start_key(m) == chain_key(rak, first as nat));
    let n: nat = if first < j_2 { (j_2 - first) as nat } else { 0 };
    assert forall|k: int| 0 <= k < n implies report_tcns(m)[k] == chain_tcn(
        rak,
        (first + k) as nat,
    ) by {
        lemma_chain_advance(rak, first as nat, k as nat);
    }
    assert(report_tcns(m) =~= Seq::new(n, |k: int| chain_tcn(rak, (first + k) as nat)));
}

/// Reading rejects a report whose memo type byte is neither 0 nor 1 with
/// that byte, and a complete report whose first disclosed index is 0 as an
/// invalid index.
pub proof fn lemma_parse_rejects(b: Seq<u8>)
    requires
        b.len() >= 69,
    ensures
        b[68] != 0 && b[68] != 1 ==> parse_report(b) == Parse::<ReportModel>::UnknownMemoType(
            b[68],
        ),
        (b[68] == 0 || b[68] == 1) && b.len() >= 70 + b[69] && b[64] == 0 && b[65] == 0
            ==> parse_report(b) == Parse::<ReportModel>::InvalidIndex,
{
}

} // verus!

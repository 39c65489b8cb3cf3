use sha2::Digest;
use tcn::{
    Error, MemoType, Report, ReportAuthorizationKey, SignedReport, TemporaryContactKey,
    TemporaryContactNumber, TemporaryContactNumbers,
};

fn collect(mut numbers: TemporaryContactNumbers) -> Vec<TemporaryContactNumber> {
    let mut out = Vec::new();
    while let Some(tcn) = numbers.next() {
        out.push(tcn);
    }
    out
}

fn fixed_rak(byte: u8) -> ReportAuthorizationKey {
    ReportAuthorizationKey::read(&[byte; 32]).expect("32 bytes are a key")
}

fn chain(rak: &ReportAuthorizationKey, n: usize) -> Vec<TemporaryContactNumber> {
    let mut tck = rak.initial_temporary_contact_key();
    let mut out = Vec::new();
    for _ in 0..n {
        out.push(tck.temporary_contact_number());
        tck = tck.ratchet().unwrap();
    }
    out
}

fn key_bytes(index: u16, rvk: &[u8], bytes: &[u8]) -> Vec<u8> {
    let mut out = index.to_le_bytes().to_vec();
    out.extend_from_slice(rvk);
    out.extend_from_slice(bytes);
    out
}

fn report_bytes(j_1: u16, j_2: u16, memo_type: u8, memo: &[u8]) -> Vec<u8> {
    let mut out = vec![7u8; 64];
    out.extend_from_slice(&j_1.to_le_bytes());
    out.extend_from_slice(&j_2.to_le_bytes());
    out.push(memo_type);
    out.push(memo.len() as u8);
    out.extend_from_slice(memo);
    out
}

#[test]
fn ratchet_is_deterministic() {
    let a = fixed_rak(3);
    let b = fixed_rak(3);
    assert_eq!(chain(&a, 50), chain(&b, 50));
    let c = fixed_rak(4);
    assert_ne!(chain(&a, 5), chain(&c, 5));
}

#[test]
fn numbers_follow_the_hash_chain() {
    let rak = fixed_rak(9);
    let mut rak_bytes = Vec::new();
    rak.write(&mut rak_bytes);
    let sk = ed25519_zebra::SecretKey::from([9u8; 32]);
    let rvk: [u8; 32] = ed25519_zebra::PublicKeyBytes::from(&sk).into();

    let mut seed_preimage = b"H_TCK".to_vec();
    seed_preimage.extend_from_slice(&rak_bytes);
    let tck_0 = sha2::Sha256::digest(&seed_preimage);
    let mut step_preimage = b"H_TCK".to_vec();
    step_preimage.extend_from_slice(&rvk);
    step_preimage.extend_from_slice(&tck_0);
    let tck_1 = sha2::Sha256::digest(&step_preimage);

    let tck = rak.initial_temporary_contact_key();
    let mut written = Vec::new();
    tck.write(&mut written);
    assert_eq!(written, key_bytes(1, &rvk, &tck_1));

    let mut tcn_preimage = b"H_TCN".to_vec();
    tcn_preimage.extend_from_slice(&1u16.to_le_bytes());
    tcn_preimage.extend_from_slice(&tck_1);
    let tcn_1 = sha2::Sha256::digest(&tcn_preimage);
    assert_eq!(&tck.temporary_contact_number().0[..], &tcn_1[..16]);
}

#[test]
fn ratchet_stops_at_the_last_index() {
    let last = TemporaryContactKey::read(&key_bytes(u16::MAX, &[1; 32], &[2; 32])).unwrap();
    assert_eq!(last.index(), u16::MAX);
    assert!(last.ratchet().is_none());

    let before = TemporaryContactKey::read(&key_bytes(u16::MAX - 1, &[1; 32], &[2; 32])).unwrap();
    let next = before.ratchet().expect("one step is left");
    assert_eq!(next.index(), u16::MAX);
}

#[test]
fn reconstruction_matches_the_chain() {
    let rak = fixed_rak(5);
    let tcns = chain(&rak, 100);
    let report = rak
        .create_report(MemoType::CoEpiV1, b"symptom data".to_vec(), 20, 100)
        .unwrap()
        .verify()
        .unwrap();
    let recomputed = collect(report.temporary_contact_numbers());
    assert_eq!(recomputed.len(), 80);
    assert_eq!(&recomputed[..], &tcns[19..99]);
}

#[test]
fn first_index_zero_is_raised_to_one() {
    let rak = fixed_rak(6);
    let report = rak
        .create_report(MemoType::CovidWatchV1, Vec::new(), 0, 3)
        .unwrap()
        .verify()
        .unwrap();
    assert_eq!(collect(report.temporary_contact_numbers()), chain(&rak, 2));
}

#[test]
fn reversed_range_discloses_nothing() {
    let rak = fixed_rak(6);
    let report = rak
        .create_report(MemoType::CoEpiV1, Vec::new(), 10, 4)
        .unwrap()
        .verify()
        .unwrap();
    assert!(collect(report.temporary_contact_numbers()).is_empty());
}

#[test]
fn last_index_report_does_not_overflow() {
    let rak = fixed_rak(8);
    let mut tck = rak.initial_temporary_contact_key();
    while tck.index() < u16::MAX - 1 {
        tck = tck.ratchet().unwrap();
    }
    let expected = tck.temporary_contact_number();
    let report = rak
        .create_report(MemoType::CoEpiV1, b"x".to_vec(), u16::MAX - 1, u16::MAX)
        .unwrap()
        .verify()
        .unwrap();
    assert_eq!(collect(report.temporary_contact_numbers()), vec![expected]);
}

#[test]
fn report_wire_layout() {
    let rak = fixed_rak(2);
    let signed = rak
        .create_report(MemoType::CovidWatchV1, b"abc".to_vec(), 0x0102, 0x0304)
        .unwrap();
    let mut bytes = Vec::new();
    signed.write(&mut bytes);
    assert_eq!(bytes.len(), 70 + 3 + 64);
    let sk = ed25519_zebra::SecretKey::from([2u8; 32]);
    let rvk: [u8; 32] = ed25519_zebra::PublicKeyBytes::from(&sk).into();
    assert_eq!(&bytes[0..32], &rvk[..]);
    assert_eq!(&bytes[64..70], &[0x02, 0x01, 0x04, 0x03, 1, 3]);
    assert_eq!(&bytes[70..73], b"abc");
    let sig: [u8; 64] = sk.sign(&bytes[..73]).into();
    assert_eq!(&bytes[73..], &sig[..]);
}

#[test]
fn report_round_trip_keeps_every_field() {
    let rak = fixed_rak(1);
    for (memo_type, memo) in [
        (MemoType::CoEpiV1, Vec::new()),
        (MemoType::CovidWatchV1, vec![0xaa; 255]),
    ] {
        let report = rak
            .create_report(memo_type, memo.clone(), 7, 9)
            .unwrap()
            .verify()
            .unwrap();
        let mut bytes = Vec::new();
        report.write(&mut bytes);
        bytes.extend_from_slice(b"trailing");
        let back = Report::read(&bytes).unwrap();
        assert_eq!(back.memo_type(), memo_type);
        assert_eq!(back.memo_data(), &memo[..]);
        let mut again = Vec::new();
        back.write(&mut again);
        assert_eq!(&again[..], &bytes[..bytes.len() - 8]);
    }
}

#[test]
fn signed_report_round_trip_then_verify() {
    let rak = fixed_rak(12);
    let signed = rak
        .create_report(MemoType::CoEpiV1, b"memo".to_vec(), 3, 6)
        .unwrap();
    let mut bytes = Vec::new();
    signed.write(&mut bytes);
    let back = SignedReport::read(&bytes).unwrap();
    let mut again = Vec::new();
    back.write(&mut again);
    assert_eq!(bytes, again);
    let report = back.verify().unwrap();
    assert_eq!(collect(report.temporary_contact_numbers()), chain(&rak, 5)[2..5].to_vec());
}

#[test]
fn authorization_key_round_trip() {
    let bytes: Vec<u8> = (0u8..32).collect();
    let rak = ReportAuthorizationKey::read(&bytes).unwrap();
    let mut out = Vec::new();
    rak.write(&mut out);
    assert_eq!(out, bytes);
    assert!(ReportAuthorizationKey::read(&bytes[..31]).is_err());
}

#[test]
fn oversize_memo_is_refused() {
    let rak = fixed_rak(1);
    let r = rak.create_report(MemoType::CoEpiV1, vec![0; 256], 1, 2);
    assert!(matches!(r, Err(Error::OversizeMemo(256))));
    assert!(rak.create_report(MemoType::CoEpiV1, vec![0; 255], 1, 2).is_ok());
}

#[test]
fn parse_rejects_index_zero() {
    let r = Report::read(&report_bytes(0, 5, 0, b"m"));
    assert!(matches!(r, Err(Error::InvalidReportIndex)));
    assert!(Report::read(&report_bytes(1, 5, 0, b"m")).is_ok());
}

#[test]
fn parse_rejects_unknown_memo_type() {
    for t in [2u8, 0x7f, 0xff] {
        let r = Report::read(&report_bytes(1, 5, t, b"m"));
        assert!(matches!(r, Err(Error::UnknownMemoType(u)) if u == t));
    }
}

#[test]
fn reserved_memo_type_is_written_but_not_read() {
    let rak = fixed_rak(1);
    let signed = rak.create_report(MemoType::Reserved, Vec::new(), 1, 2).unwrap();
    let mut bytes = Vec::new();
    signed.write(&mut bytes);
    assert_eq!(bytes[68], 0xff);
    assert!(matches!(SignedReport::read(&bytes), Err(Error::UnknownMemoType(0xff))));
}

#[test]
fn truncated_input_is_an_io_error() {
    let full = report_bytes(1, 5, 0, b"memo");
    for len in [0, 40, 68, 69, 70, full.len() - 1] {
        assert!(matches!(Report::read(&full[..len]), Err(Error::Io(_))), "{}", len);
    }
    let mut signed = full.clone();
    signed.extend_from_slice(&[0; 63]);
    assert!(matches!(SignedReport::read(&signed), Err(Error::Io(_))));
    assert!(TemporaryContactKey::read(&[0; 65]).is_err());
}

#[test]
fn wrong_signature_fails_verification() {
    let rak = fixed_rak(1);
    let other = fixed_rak(2);
    let mut bytes = Vec::new();
    rak.create_report(MemoType::CoEpiV1, b"m".to_vec(), 1, 2)
        .unwrap()
        .write(&mut bytes);
    let mut foreign = Vec::new();
    other
        .create_report(MemoType::CoEpiV1, b"m".to_vec(), 1, 2)
        .unwrap()
        .write(&mut foreign);
    let n = bytes.len();
    bytes[n - 64..].copy_from_slice(&foreign[n - 64..]);
    let r = SignedReport::read(&bytes).unwrap().verify();
    assert!(matches!(r, Err(Error::ReportVerificationFailed)));

    // A verification key that is no point encoding is refused too.
    let mut zero_key = bytes.clone();
    zero_key[..32].copy_from_slice(&[0; 32]);
    let r = SignedReport::read(&zero_key).unwrap().verify();
    assert!(matches!(r, Err(Error::ReportVerificationFailed)));
}

#[test]
fn flipping_any_report_bit_breaks_verification() {
    let rak = fixed_rak(21);
    let mut bytes = Vec::new();
    rak.create_report(MemoType::CoEpiV1, b"symptom data".to_vec(), 4, 9)
        .unwrap()
        .write(&mut bytes);
    let report_len = bytes.len() - 64;
    for byte in 0..report_len {
        for bit in 0..8 {
            let mut tampered = bytes.clone();
            tampered[byte] ^= 1 << bit;
            if let Ok(signed) = SignedReport::read(&tampered) {
                assert!(signed.verify().is_err(), "byte {} bit {}", byte, bit);
            }
        }
    }
}

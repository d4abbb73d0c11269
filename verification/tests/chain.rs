use spire_agent::bytes::{contains_subslice, same_bytes};
use spire_agent::chain::{
    certificate_basic_constraints, certificate_is_ca, classify_chain, count_chain,
    format_utc_time, parse_cert_chain, parse_x509_time, render_chain, role_text, CertExtension,
    ChainCounts, ChainError, ChainRole, ParsedCertificate, BASIC_CONSTRAINTS_OID,
    DER_INPUT_LIMIT, UTC_PATTERN,
};
use spire_agent::text::{decimal_string, same_text, signed_decimal_string, trim};

fn certificate(is_ca: rcgen::IsCa, not_before: i64, not_after: i64) -> Vec<u8> {
    let mut params = rcgen::CertificateParams::default();
    params.is_ca = is_ca;
    params.not_before = time::OffsetDateTime::from_unix_timestamp(not_before).unwrap();
    params.not_after = time::OffsetDateTime::from_unix_timestamp(not_after).unwrap();
    let key = rcgen::KeyPair::generate().unwrap();
    params.self_signed(&key).unwrap().der().to_vec()
}

fn three_certificates() -> Vec<u8> {
    let mut buffer = certificate(rcgen::IsCa::ExplicitNoCa, 1_714_564_800, 1_714_568_400);
    buffer.extend_from_slice(&certificate(rcgen::IsCa::NoCa, 1_700_000_000, 1_800_000_000));
    buffer.extend_from_slice(&certificate(
        rcgen::IsCa::Ca(rcgen::BasicConstraints::Unconstrained),
        0,
        2_524_608_000,
    ));
    buffer
}

#[test]
fn classification_of_leaf_intermediate_and_authority() {
    let certs = parse_cert_chain(&three_certificates()).unwrap();
    assert_eq!(certs.len(), 3);
    assert_eq!(count_chain(&certs), ChainCounts { intermediate: 1, ca: 1 });
    assert_eq!(
        classify_chain(&certs),
        vec![ChainRole::Leaf, ChainRole::Intermediate(1), ChainRole::Ca(1)]
    );
    assert_eq!(certificate_basic_constraints(&certs[0]), Some(false));
    assert_eq!(certificate_basic_constraints(&certs[1]), None);
    assert_eq!(certificate_basic_constraints(&certs[2]), Some(true));
    assert!(!certificate_is_ca(&certs[0]));
    assert!(!certificate_is_ca(&certs[1]));
    assert!(certificate_is_ca(&certs[2]));
}

#[test]
fn validity_is_read_in_seconds() {
    let certs = parse_cert_chain(&three_certificates()).unwrap();
    assert_eq!(certs[0].not_before, 1_714_564_800);
    assert_eq!(certs[0].not_after, 1_714_568_400);
    assert_eq!(certs[1].not_before, 1_700_000_000);
    assert_eq!(certs[1].not_after, 1_800_000_000);
    assert_eq!(certs[2].not_before, 0);
    assert_eq!(certs[2].not_after, 2_524_608_000);
}

#[test]
fn report_of_a_chain() {
    let certs = parse_cert_chain(&three_certificates()).unwrap();
    assert_eq!(
        render_chain(&certs).unwrap(),
        vec![
            "SVID Valid After:\t2024-05-01 12:00:00 +0000 UTC",
            "SVID Valid Until:\t2024-05-01 13:00:00 +0000 UTC",
            "Intermediate #1 Valid After:\t2023-11-14 22:13:20 +0000 UTC",
            "Intermediate #1 Valid Until:\t2027-01-15 08:00:00 +0000 UTC",
            "CA #1 Valid After:\t1970-01-01 00:00:00 +0000 UTC",
            "CA #1 Valid Until:\t2050-01-01 00:00:00 +0000 UTC",
        ]
    );
    assert_eq!(render_chain(&Vec::new()).unwrap(), Vec::<String>::new());
}

#[test]
fn numbering_runs_by_kind() {
    let mut buffer = certificate(rcgen::IsCa::ExplicitNoCa, 0, 10);
    for is_ca in [true, false, true, true, false] {
        let kind = if is_ca {
            rcgen::IsCa::Ca(rcgen::BasicConstraints::Constrained(0))
        } else {
            rcgen::IsCa::ExplicitNoCa
        };
        buffer.extend_from_slice(&certificate(kind, 0, 10));
    }
    let certs = parse_cert_chain(&buffer).unwrap();
    assert_eq!(
        classify_chain(&certs),
        vec![
            ChainRole::Leaf,
            ChainRole::Ca(1),
            ChainRole::Intermediate(1),
            ChainRole::Ca(2),
            ChainRole::Ca(3),
            ChainRole::Intermediate(2),
        ]
    );
    assert_eq!(count_chain(&certs), ChainCounts { intermediate: 2, ca: 3 });
}

#[test]
fn a_leading_authority_is_still_the_leaf() {
    let buffer = certificate(rcgen::IsCa::Ca(rcgen::BasicConstraints::Unconstrained), 0, 10);
    let certs = parse_cert_chain(&buffer).unwrap();
    assert_eq!(classify_chain(&certs), vec![ChainRole::Leaf]);
    assert_eq!(count_chain(&certs), ChainCounts { intermediate: 0, ca: 0 });
}

#[test]
fn empty_buffer_is_the_empty_chain() {
    let certs = parse_cert_chain(&[]).unwrap();
    assert!(certs.is_empty());
    assert_eq!(classify_chain(&certs), Vec::<ChainRole>::new());
    assert_eq!(count_chain(&certs), ChainCounts { intermediate: 0, ca: 0 });
}

#[test]
fn malformed_buffers_are_refused() {
    assert_eq!(parse_cert_chain(&[0x30]).err(), Some(ChainError::Certificate));
    assert_eq!(parse_cert_chain(&[0x30, 0x00]).err(), Some(ChainError::Certificate));
    assert_eq!(parse_cert_chain(b"not a certificate").err(), Some(ChainError::Certificate));
    let mut trailing = three_certificates();
    trailing.push(0);
    assert_eq!(parse_cert_chain(&trailing).err(), Some(ChainError::Certificate));
    let mut cut = three_certificates();
    cut.pop();
    assert_eq!(parse_cert_chain(&cut).err(), Some(ChainError::Certificate));
}

#[test]
fn overlong_buffer_is_refused_before_decoding() {
    let buffer = vec![0u8; DER_INPUT_LIMIT + 1];
    assert_eq!(parse_cert_chain(&buffer).err(), Some(ChainError::ReaderCreation));
}

#[test]
fn chain_errors_have_their_own_words() {
    assert_eq!(ChainError::ReaderCreation.message(), "failed to create DER reader");
    assert_eq!(ChainError::Certificate.message(), "failed to parse certificate");
    assert_eq!(ChainError::TimeFormat.message(), "failed to format time");
}

#[test]
fn first_basic_constraints_extension_decides() {
    let ca_true = vec![0x30, 0x03, 0x01, 0x01, 0xff];
    let ca_false = vec![0x30, 0x00];
    let other = CertExtension { oid: "2.5.29.15".to_string(), value: ca_true.clone() };
    let no = CertExtension { oid: BASIC_CONSTRAINTS_OID.to_string(), value: ca_false };
    let yes = CertExtension { oid: "2.5.29.19".to_string(), value: ca_true };
    let broken = CertExtension { oid: "2.5.29.19".to_string(), value: vec![0x01] };
    let cert = |extensions| ParsedCertificate { not_before: 0, not_after: 0, extensions };
    assert_eq!(certificate_basic_constraints(&cert(None)), None);
    assert_eq!(certificate_basic_constraints(&cert(Some(vec![]))), None);
    let list = vec![other, no, yes];
    assert_eq!(certificate_basic_constraints(&cert(Some(list))), Some(false));
    let yes = CertExtension { oid: "2.5.29.19".to_string(), value: vec![0x30, 0x03, 0x01, 0x01, 0xff] };
    let no = CertExtension { oid: "2.5.29.19".to_string(), value: vec![0x30, 0x00] };
    assert!(certificate_is_ca(&cert(Some(vec![yes, no]))));
    let yes = CertExtension { oid: "2.5.29.19".to_string(), value: vec![0x30, 0x03, 0x01, 0x01, 0xff] };
    assert_eq!(certificate_basic_constraints(&cert(Some(vec![broken, yes]))), None);
}

#[test]
fn instants_in_the_display_form() {
    assert_eq!(UTC_PATTERN, "%Y-%m-%d %H:%M:%S +0000 UTC");
    assert_eq!(format_utc_time(0).unwrap(), "1970-01-01 00:00:00 +0000 UTC");
    assert_eq!(format_utc_time(1_714_564_800).unwrap(), "2024-05-01 12:00:00 +0000 UTC");
    assert_eq!(format_utc_time(-1).unwrap(), "1969-12-31 23:59:59 +0000 UTC");
    assert_eq!(format_utc_time(253_402_300_799).unwrap(), "9999-12-31 23:59:59 +0000 UTC");
    assert_eq!(format_utc_time(i64::MAX).unwrap(), "1970-01-01 00:00:00 +0000 UTC");
    assert_eq!(format_utc_time(i64::MIN).unwrap(), "1970-01-01 00:00:00 +0000 UTC");
}

#[test]
fn certificate_times_as_timestamps() {
    assert_eq!(parse_x509_time(0), 0);
    assert_eq!(parse_x509_time(1_714_564_800), 1_714_564_800);
    assert_eq!(parse_x509_time(i64::MAX as u64), i64::MAX);
    assert_eq!(parse_x509_time(i64::MAX as u64 + 1), i64::MIN);
    assert_eq!(parse_x509_time(u64::MAX), -1);
}

#[test]
fn role_names() {
    assert_eq!(role_text(ChainRole::Leaf), "SVID");
    assert_eq!(role_text(ChainRole::Ca(1)), "CA #1");
    assert_eq!(role_text(ChainRole::Ca(12)), "CA #12");
    assert_eq!(role_text(ChainRole::Intermediate(3)), "Intermediate #3");
}

#[test]
fn decimal_numerals() {
    assert_eq!(decimal_string(0), "0");
    assert_eq!(decimal_string(7), "7");
    assert_eq!(decimal_string(10), "10");
    assert_eq!(decimal_string(1_234_567_890), "1234567890");
    assert_eq!(decimal_string(u64::MAX), "18446744073709551615");
    assert_eq!(signed_decimal_string(0), "0");
    assert_eq!(signed_decimal_string(-1), "-1");
    assert_eq!(signed_decimal_string(42), "42");
    assert_eq!(signed_decimal_string(i64::MAX), "9223372036854775807");
    assert_eq!(signed_decimal_string(i64::MIN), "-9223372036854775808");
}

#[test]
fn text_helpers() {
    assert!(same_text("", ""));
    assert!(same_text("häh", "häh"));
    assert!(!same_text("a", "b"));
    assert!(!same_text("a", "ab"));
    assert_eq!(trim("  a b \t\n"), "a b");
    assert_eq!(trim("\u{2003}x\u{85}"), "x");
    assert_eq!(trim(" \u{200b} "), "\u{200b}");
    assert_eq!(trim(""), "");
    assert_eq!(trim(" \r\n "), "");
    assert_eq!(trim("x"), "x");
}

#[test]
fn byte_search() {
    assert!(contains_subslice(b"hello world", b"lo w"));
    assert!(contains_subslice(b"hello", b"hello"));
    assert!(contains_subslice(b"hello", b"o"));
    assert!(contains_subslice(b"hello", b""));
    assert!(contains_subslice(b"", b""));
    assert!(!contains_subslice(b"", b"a"));
    assert!(!contains_subslice(b"hello", b"hellos"));
    assert!(!contains_subslice(b"aaab", b"aab "));
    assert!(contains_subslice(b"aaab", b"aab"));
    assert!(same_bytes(b"abc", b"abc"));
    assert!(same_bytes(b"", b""));
    assert!(!same_bytes(b"abc", b"abd"));
    assert!(!same_bytes(b"abc", b"ab"));
}

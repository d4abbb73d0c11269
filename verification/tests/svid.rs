use base64::Engine;
use p256::ecdsa::signature::Verifier;

use spire_agent::bytes::contains_subslice;
use spire_agent::chain::{
    certificate_basic_constraints, certificate_is_ca, count_chain, parse_cert_chain,
};
use spire_agent::encoding::encode_json_segment;
use spire_agent::profile::{
    leaf_profile, root_ca_profile, spiffe_id, spire_server_ca_profile, trust_domain_uri, CaKind,
    ExtendedKeyUsage, KeyUsage, EARLIEST_INSTANT, LATEST_INSTANT,
};
use spire_agent::jwt::{jwks_compact, json_strings, jwt_header, jwt_payload};
use spire_agent::svid::{
    assemble_x509_svid, generate_root_ca, SvidConfig, SvidError, SvidGenerator,
    DEFAULT_TRUST_DOMAIN, DEFAULT_TTL_SECONDS, DEFAULT_WORKLOAD_PATH, JWT_KID,
};

fn decode_segment(segment: &str) -> serde_json::Value {
    let bytes = base64::engine::general_purpose::URL_SAFE_NO_PAD
        .decode(segment)
        .expect("segment decode");
    serde_json::from_slice(&bytes).expect("segment json")
}

fn custom_config(trust_domain: &str, workload_path: &str, ttl_seconds: u32) -> SvidConfig {
    SvidConfig {
        trust_domain: trust_domain.to_string(),
        workload_path: workload_path.to_string(),
        ttl_seconds,
    }
}

#[test]
fn test_generate_svid() {
    let config = SvidConfig::default();
    let generator = SvidGenerator::new(config).unwrap();
    let svid = generator.generate_svid().unwrap();

    assert_eq!(
        svid.spiffe_id,
        "spiffe://spiffe-helper.local/ns/httpbin/sa/httpbin"
    );
    assert!(!svid.x509_svid.is_empty());
    assert!(!svid.x509_svid_key.is_empty());
    assert!(!svid.bundle.is_empty());
}

#[test]
fn test_svid_can_be_parsed_by_spiffe_crate() {
    let config = SvidConfig::default();
    let generator = SvidGenerator::new(config).unwrap();
    let svid = generator.generate_svid().unwrap();

    // Try to parse with spiffe crate - this is what the client does
    let result = spiffe::svid::x509::X509Svid::parse_from_der(&svid.x509_svid, &svid.x509_svid_key);

    match &result {
        Ok(parsed) => {
            println!("Parsed SPIFFE ID: {}", parsed.spiffe_id());
        }
        Err(e) => {
            println!("Parse error: {:?}", e);
        }
    }

    assert!(result.is_ok(), "Failed to parse SVID: {:?}", result.err());
}

#[test]
fn test_default_config_values() {
    let config = SvidConfig::default();
    assert_eq!(config.trust_domain, DEFAULT_TRUST_DOMAIN);
    assert_eq!(config.workload_path, DEFAULT_WORKLOAD_PATH);
    assert_eq!(config.ttl_seconds, DEFAULT_TTL_SECONDS);
}

#[test]
fn default_config_literal_values() {
    let config = SvidConfig::default();
    assert_eq!(config.trust_domain, "spiffe-helper.local");
    assert_eq!(config.workload_path, "/ns/httpbin/sa/httpbin");
    assert_eq!(config.ttl_seconds, 120);
}

#[test]
fn test_custom_config() {
    let config = SvidConfig {
        trust_domain: "test.domain".to_string(),
        workload_path: "/my/service".to_string(),
        ttl_seconds: 60,
    };
    let generator = SvidGenerator::new(config).unwrap();
    let svid = generator.generate_svid().unwrap();

    assert_eq!(svid.spiffe_id, "spiffe://test.domain/my/service");
}

#[test]
fn test_generate_jwt_svid_defaults_to_workload_spiffe_id() {
    let generator = SvidGenerator::new(SvidConfig::default()).unwrap();
    let audience = vec!["my-service".to_string()];
    let jwt_svid = generator.generate_jwt_svid(&audience, None).unwrap();

    let segments: Vec<&str> = jwt_svid.svid.split('.').collect();
    assert_eq!(segments.len(), 3);
    assert_eq!(jwt_svid.spiffe_id, generator.workload_spiffe_id());

    let header = decode_segment(segments[0]);
    assert_eq!(header["alg"], "ES256");
    assert_eq!(header["kid"], "spire-agent-mock-jwt");
    assert_eq!(header["typ"], "JWT");

    let claims = decode_segment(segments[1]);
    let aud: Vec<String> = claims["aud"]
        .as_array()
        .expect("aud array")
        .iter()
        .map(|v| v.as_str().expect("aud text").to_string())
        .collect();
    assert_eq!(aud, audience);
    assert_eq!(claims["sub"], generator.workload_spiffe_id());
    assert!(claims["exp"].as_i64().unwrap() > claims["iat"].as_i64().unwrap());
}

#[test]
fn test_generate_jwt_bundle_contains_single_key() {
    let generator = SvidGenerator::new(SvidConfig::default()).unwrap();
    let bundle = generator.jwt_bundle().unwrap();

    let value: serde_json::Value = serde_json::from_slice(&bundle).expect("bundle json");
    let keys = value
        .get("keys")
        .and_then(serde_json::Value::as_array)
        .expect("keys array");
    assert_eq!(keys.len(), 1);
    assert_eq!(keys[0]["kty"], "EC");
    assert_eq!(keys[0]["kid"], "spire-agent-mock-jwt");
    assert_eq!(keys[0]["crv"], "P-256");
}

#[test]
fn issued_spiffe_id_is_trust_domain_and_path() {
    for (domain, path) in [("example.org", "/workload"), ("a.b", ""), ("td", "/x/y/z")] {
        let generator = SvidGenerator::new(custom_config(domain, path, 30)).unwrap();
        let svid = generator.generate_svid().unwrap();
        assert_eq!(svid.spiffe_id, format!("spiffe://{domain}{path}"));
        assert_eq!(generator.workload_spiffe_id(), format!("spiffe://{domain}{path}"));
        assert_eq!(generator.trust_domain(), domain);
        assert_eq!(svid.hint, "");
    }
}

#[test]
fn issued_leaf_declares_itself_end_entity() {
    let generator = SvidGenerator::new(SvidConfig::default()).unwrap();
    for _ in 0..3 {
        let svid = generator.generate_svid().unwrap();
        let certs = parse_cert_chain(&svid.x509_svid).unwrap();
        assert_eq!(certs.len(), 2);
        assert_eq!(certificate_basic_constraints(&certs[0]), Some(false));
        assert!(!certificate_is_ca(&certs[0]));
        assert_eq!(certificate_basic_constraints(&certs[1]), Some(true));
        let counts = count_chain(&certs);
        assert_eq!(counts.ca, 1);
        assert_eq!(counts.intermediate, 0);
    }
}

#[test]
fn issued_leaf_is_valid_for_the_ttl() {
    let generator = SvidGenerator::new(custom_config("example.org", "/w", 45)).unwrap();
    let svid = generator.generate_svid().unwrap();
    let certs = parse_cert_chain(&svid.x509_svid).unwrap();
    assert_eq!(certs[0].not_after - certs[0].not_before, 45);
    assert_eq!(certs[1].not_after - certs[1].not_before, 365 * 86_400);
    let root = parse_cert_chain(&svid.bundle).unwrap();
    assert_eq!(root.len(), 1);
    assert_eq!(root[0].not_after - root[0].not_before, 3650 * 86_400);
    assert_eq!(certificate_basic_constraints(&root[0]), Some(true));
}

#[test]
fn issued_chain_leaves_the_root_out() {
    let generator = SvidGenerator::new(SvidConfig::default()).unwrap();
    let bundle = generator.bundle();
    for _ in 0..3 {
        let svid = generator.generate_svid().unwrap();
        assert_eq!(svid.bundle, bundle);
        assert!(!contains_subslice(&svid.x509_svid, &bundle));
    }
}

#[test]
fn every_issuance_has_a_fresh_key() {
    let generator = SvidGenerator::new(SvidConfig::default()).unwrap();
    let first = generator.generate_svid().unwrap();
    let second = generator.generate_svid().unwrap();
    assert_ne!(first.x509_svid_key, second.x509_svid_key);
    assert_ne!(first.x509_svid, second.x509_svid);
    assert_eq!(first.bundle, second.bundle);
}

#[test]
fn issue_jwt_for_svc_without_subject() {
    let generator = SvidGenerator::new(SvidConfig::default()).unwrap();
    let audience = vec!["svc".to_string()];
    let svid = generator.generate_jwt_svid(&audience, None).unwrap();
    let segments: Vec<&str> = svid.svid.split('.').collect();
    assert_eq!(segments.len(), 3);
    let claims = decode_segment(segments[1]);
    assert_eq!(claims["sub"], "spiffe://spiffe-helper.local/ns/httpbin/sa/httpbin");
    assert_eq!(
        claims["exp"].as_i64().unwrap() - claims["iat"].as_i64().unwrap(),
        120
    );
    assert_eq!(claims["aud"], serde_json::Value::from(vec!["svc"]));
}

#[test]
fn jwt_issued_at_a_given_moment() {
    let generator = SvidGenerator::new(custom_config("example.org", "/w", 300)).unwrap();
    let audience = vec!["a".to_string(), "b \"quoted\"".to_string()];
    let svid = generator
        .generate_jwt_svid_at(&audience, Some("spiffe://example.org/other"), 1_700_000_000)
        .unwrap();
    assert_eq!(svid.spiffe_id, "spiffe://example.org/other");
    assert_eq!(svid.hint, "");
    let segments: Vec<&str> = svid.svid.split('.').collect();
    assert_eq!(segments.len(), 3);
    let header = base64::engine::general_purpose::URL_SAFE_NO_PAD
        .decode(segments[0])
        .unwrap();
    assert_eq!(
        String::from_utf8(header).unwrap(),
        "{\"alg\":\"ES256\",\"kid\":\"spire-agent-mock-jwt\",\"typ\":\"JWT\"}"
    );
    let payload = base64::engine::general_purpose::URL_SAFE_NO_PAD
        .decode(segments[1])
        .unwrap();
    assert_eq!(
        String::from_utf8(payload).unwrap(),
        "{\"aud\":[\"a\",\"b \\\"quoted\\\"\"],\"exp\":1700000300,\"iat\":1700000000,\"sub\":\"spiffe://example.org/other\"}"
    );
    let again = generator
        .generate_jwt_svid_at(&audience, Some("spiffe://example.org/other"), 1_700_000_000)
        .unwrap();
    assert_eq!(again.svid, svid.svid);
}

#[test]
fn jwt_empty_subject_means_the_workload() {
    let generator = SvidGenerator::new(custom_config("example.org", "/w", 300)).unwrap();
    let audience = vec!["a".to_string()];
    let svid = generator.generate_jwt_svid_at(&audience, Some(""), 10).unwrap();
    assert_eq!(svid.spiffe_id, "spiffe://example.org/w");
    let claims = decode_segment(svid.svid.split('.').nth(1).unwrap());
    assert_eq!(claims["sub"], "spiffe://example.org/w");
    assert_eq!(claims["iat"], 10);
    assert_eq!(claims["exp"], 310);
}

#[test]
fn jwt_before_the_epoch() {
    let generator = SvidGenerator::new(custom_config("example.org", "/w", 5)).unwrap();
    let audience = vec!["a".to_string()];
    let svid = generator.generate_jwt_svid_at(&audience, None, -100).unwrap();
    let claims = decode_segment(svid.svid.split('.').nth(1).unwrap());
    assert_eq!(claims["iat"], -100);
    assert_eq!(claims["exp"], -95);
}

#[test]
fn jwt_without_audience_is_refused() {
    let generator = SvidGenerator::new(SvidConfig::default()).unwrap();
    let none: Vec<String> = Vec::new();
    assert_eq!(
        generator.generate_jwt_svid(&none, None).err(),
        Some(SvidError::EmptyAudience)
    );
    assert_eq!(
        generator.generate_jwt_svid_at(&none, Some("spiffe://x/y"), 0).err(),
        Some(SvidError::EmptyAudience)
    );
}

#[test]
fn jwt_expiry_beyond_the_clock_is_refused() {
    let generator = SvidGenerator::new(SvidConfig::default()).unwrap();
    let audience = vec!["a".to_string()];
    assert_eq!(
        generator.generate_jwt_svid_at(&audience, None, i64::MAX - 119).err(),
        Some(SvidError::ValidityOutOfRange)
    );
    assert!(generator.generate_jwt_svid_at(&audience, None, i64::MAX - 120).is_ok());
}

#[test]
fn jwt_signature_verifies_under_the_published_key() {
    let generator = SvidGenerator::new(SvidConfig::default()).unwrap();
    let audience = vec!["svc".to_string()];
    let svid = generator.generate_jwt_svid(&audience, None).unwrap();
    let segments: Vec<&str> = svid.svid.split('.').collect();
    let signing_input = format!("{}.{}", segments[0], segments[1]);
    let signature_bytes = base64::engine::general_purpose::URL_SAFE_NO_PAD
        .decode(segments[2])
        .unwrap();
    assert_eq!(signature_bytes.len(), 64);
    let signature = p256::ecdsa::Signature::from_slice(&signature_bytes).unwrap();

    let bundle: serde_json::Value = serde_json::from_slice(&generator.jwt_bundle().unwrap()).unwrap();
    let key = &bundle["keys"][0];
    assert_eq!(key["kid"], decode_segment(segments[0])["kid"]);
    let x = base64::engine::general_purpose::URL_SAFE_NO_PAD
        .decode(key["x"].as_str().unwrap())
        .unwrap();
    let y = base64::engine::general_purpose::URL_SAFE_NO_PAD
        .decode(key["y"].as_str().unwrap())
        .unwrap();
    assert_eq!(x.len(), 32);
    assert_eq!(y.len(), 32);
    let point = p256::EncodedPoint::from_affine_coordinates(
        p256::FieldBytes::from_slice(&x),
        p256::FieldBytes::from_slice(&y),
        false,
    );
    let verifying_key = p256::ecdsa::VerifyingKey::from_encoded_point(&point).unwrap();
    assert!(verifying_key.verify(signing_input.as_bytes(), &signature).is_ok());
    assert!(verifying_key.verify(b"something else", &signature).is_err());
}

#[test]
fn jwt_bundle_is_stable_and_indented() {
    let generator = SvidGenerator::new(SvidConfig::default()).unwrap();
    let first = generator.jwt_bundle().unwrap();
    let second = generator.jwt_bundle().unwrap();
    assert_eq!(first, second);
    let text = String::from_utf8(first).unwrap();
    assert!(text.starts_with("{\n  \"keys\": [\n    {\n"));
    assert!(text.contains("\n      \"crv\": \"P-256\""));
    let value: serde_json::Value = serde_json::from_str(&text).unwrap();
    let key = value["keys"][0].as_object().unwrap();
    let mut names: Vec<&str> = key.keys().map(|k| k.as_str()).collect();
    names.sort();
    assert_eq!(names, vec!["crv", "kid", "kty", "x", "y"]);
}

#[test]
fn trust_bundle_is_the_root_alone() {
    let generator = SvidGenerator::new(SvidConfig::default()).unwrap();
    let bundle = generator.bundle();
    assert_eq!(bundle, generator.bundle());
    let certs = parse_cert_chain(&bundle).unwrap();
    assert_eq!(certs.len(), 1);
    assert!(certificate_is_ca(&certs[0]));
}

#[test]
fn non_ascii_trust_domain_is_refused() {
    let made = SvidGenerator::new(custom_config("exämple.org", "/w", 10));
    assert_eq!(made.err(), Some(SvidError::InvalidIdentifier));
    assert_eq!(
        generate_root_ca("exämple.org").err(),
        Some(SvidError::InvalidIdentifier)
    );
}

#[test]
fn non_ascii_path_fails_x509_but_not_jwt() {
    let generator = SvidGenerator::new(custom_config("example.org", "/wörk", 10)).unwrap();
    assert_eq!(generator.generate_svid().err(), Some(SvidError::InvalidIdentifier));
    let audience = vec!["a".to_string()];
    let jwt = generator.generate_jwt_svid(&audience, None).unwrap();
    assert_eq!(jwt.spiffe_id, "spiffe://example.org/wörk");
}

#[test]
fn assemble_refuses_a_root_inside_the_chain() {
    let generator = SvidGenerator::new(SvidConfig::default()).unwrap();
    let svid = generator.generate_svid().unwrap();
    let root = generator.bundle();
    let result = assemble_x509_svid(
        "spiffe://x/y".to_string(),
        svid.x509_svid.clone(),
        svid.x509_svid_key.clone(),
        &root,
        &root,
    );
    assert_eq!(result.err(), Some(SvidError::RootInChain));
    let empty_root: Vec<u8> = Vec::new();
    let result = assemble_x509_svid(
        "spiffe://x/y".to_string(),
        svid.x509_svid.clone(),
        svid.x509_svid_key.clone(),
        &Vec::new(),
        &empty_root,
    );
    assert_eq!(result.err(), Some(SvidError::RootInChain));
}

#[test]
fn assemble_refuses_what_is_no_chain() {
    let generator = SvidGenerator::new(SvidConfig::default()).unwrap();
    let root = generator.bundle();
    let result = assemble_x509_svid(
        "spiffe://x/y".to_string(),
        vec![1, 2, 3],
        vec![4],
        &vec![5, 6],
        &root,
    );
    assert_eq!(result.err(), Some(SvidError::MalformedChain));
}

#[test]
fn assemble_refuses_a_leaf_that_is_an_authority() {
    let first = SvidGenerator::new(SvidConfig::default()).unwrap();
    let second = SvidGenerator::new(SvidConfig::default()).unwrap();
    let result = assemble_x509_svid(
        "spiffe://x/y".to_string(),
        first.bundle(),
        vec![4],
        &Vec::new(),
        &second.bundle(),
    );
    assert_eq!(result.err(), Some(SvidError::LeafNotEndEntity));
    let nothing = assemble_x509_svid(
        "spiffe://x/y".to_string(),
        Vec::new(),
        vec![4],
        &Vec::new(),
        &second.bundle(),
    );
    assert_eq!(nothing.err(), Some(SvidError::LeafNotEndEntity));
}

#[test]
fn assemble_puts_leaf_before_intermediate() {
    let generator = SvidGenerator::new(SvidConfig::default()).unwrap();
    let svid = generator.generate_svid().unwrap();
    let certs_len = parse_cert_chain(&svid.x509_svid).unwrap().len();
    assert_eq!(certs_len, 2);
    let other = SvidGenerator::new(SvidConfig::default()).unwrap();
    let leaf_only = other.generate_svid().unwrap();
    let rebuilt = assemble_x509_svid(
        "spiffe://x/y".to_string(),
        leaf_only.x509_svid.clone(),
        vec![9, 9],
        &Vec::new(),
        &generator.bundle(),
    )
    .unwrap();
    assert_eq!(rebuilt.spiffe_id, "spiffe://x/y");
    assert_eq!(rebuilt.x509_svid, leaf_only.x509_svid);
    assert_eq!(rebuilt.x509_svid_key, vec![9, 9]);
    assert_eq!(rebuilt.bundle, generator.bundle());
    assert_eq!(rebuilt.hint, "");
}

#[test]
fn profiles_of_the_hierarchy() {
    let root = root_ca_profile("example.org", 1_000).unwrap();
    assert_eq!(root.common_name, "example.org Root CA");
    assert_eq!(root.organization, "example.org");
    assert_eq!(root.ca, CaKind::Unconstrained);
    assert_eq!(root.key_usages, vec![KeyUsage::KeyCertSign, KeyUsage::CrlSign]);
    assert!(root.extended_key_usages.is_empty());
    assert_eq!(root.not_before, 1_000);
    assert_eq!(root.not_after, 1_000 + 3650 * 86_400);
    assert_eq!(root.uri_san, "spiffe://example.org");

    let server = spire_server_ca_profile("example.org", 1_000).unwrap();
    assert_eq!(server.common_name, "example.org SPIRE Server CA");
    assert_eq!(server.ca, CaKind::Constrained(0));
    assert_eq!(server.key_usages, vec![KeyUsage::KeyCertSign, KeyUsage::CrlSign]);
    assert_eq!(server.not_after, 1_000 + 365 * 86_400);
    assert_eq!(server.uri_san, "spiffe://example.org");
    assert!(server.not_after < root.not_after);

    let leaf = leaf_profile("spiffe://example.org/w", "example.org", 120, 1_000).unwrap();
    assert_eq!(leaf.common_name, "spiffe://example.org/w");
    assert_eq!(leaf.organization, "example.org");
    assert_eq!(leaf.ca, CaKind::ExplicitNoCa);
    assert_eq!(
        leaf.key_usages,
        vec![KeyUsage::DigitalSignature, KeyUsage::KeyEncipherment]
    );
    assert_eq!(
        leaf.extended_key_usages,
        vec![ExtendedKeyUsage::ServerAuth, ExtendedKeyUsage::ClientAuth]
    );
    assert_eq!(leaf.not_before, 1_000);
    assert_eq!(leaf.not_after, 1_120);
    assert_eq!(leaf.uri_san, "spiffe://example.org/w");
}

#[test]
fn profiles_stay_within_the_encodable_range() {
    assert!(root_ca_profile("td", LATEST_INSTANT).is_none());
    assert!(root_ca_profile("td", LATEST_INSTANT - 3650 * 86_400).is_some());
    assert!(root_ca_profile("td", LATEST_INSTANT - 3650 * 86_400 + 1).is_none());
    assert!(root_ca_profile("td", EARLIEST_INSTANT).is_some());
    assert!(root_ca_profile("td", EARLIEST_INSTANT - 1).is_none());
    assert!(spire_server_ca_profile("td", LATEST_INSTANT - 365 * 86_400).is_some());
    assert!(spire_server_ca_profile("td", LATEST_INSTANT - 365 * 86_400 + 1).is_none());
    assert!(leaf_profile("id", "td", 0, LATEST_INSTANT).is_some());
    assert!(leaf_profile("id", "td", 1, LATEST_INSTANT).is_none());
    assert!(leaf_profile("id", "td", u32::MAX, i64::MAX).is_none());
    assert!(leaf_profile("id", "td", u32::MAX, i64::MIN).is_none());
}

#[test]
fn identifiers() {
    assert_eq!(trust_domain_uri("example.org"), "spiffe://example.org");
    assert_eq!(spiffe_id("example.org", "/a/b"), "spiffe://example.org/a/b");
    assert_eq!(spiffe_id("", ""), "spiffe://");
    assert_eq!(JWT_KID, "spire-agent-mock-jwt");
}

#[test]
fn jwt_texts() {
    assert_eq!(
        jwt_header("k\"1").unwrap(),
        "{\"alg\":\"ES256\",\"kid\":\"k\\\"1\",\"typ\":\"JWT\"}"
    );
    assert_eq!(json_strings(&[]).unwrap(), "");
    assert_eq!(json_strings(&["a".to_string()]).unwrap(), "\"a\"");
    assert_eq!(
        json_strings(&["a".to_string(), "b\n".to_string(), "".to_string()]).unwrap(),
        "\"a\",\"b\\n\",\"\""
    );
    assert_eq!(
        jwt_payload(&["x".to_string()], 7, -3, "s").unwrap(),
        "{\"aud\":[\"x\"],\"exp\":7,\"iat\":-3,\"sub\":\"s\"}"
    );
    assert_eq!(
        jwks_compact("kid", &[1, 2, 3], &[255]).unwrap(),
        "{\"keys\":[{\"crv\":\"P-256\",\"kid\":\"kid\",\"kty\":\"EC\",\"x\":\"AQID\",\"y\":\"_w\"}]}"
    );
    assert_eq!(encode_json_segment("{}").unwrap(), "e30");
    assert_eq!(encode_json_segment("{\"a\":\"ü?\"}").unwrap(), "eyJhIjoiw7w_In0");
}

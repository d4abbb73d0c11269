use spire_agent::auth::{
    security_header, verify_security_header, AuthError, SECURITY_HEADER_KEY, SECURITY_HEADER_VALUE,
};

fn values(copies: &[&[u8]]) -> Vec<Vec<u8>> {
    copies.iter().map(|c| c.to_vec()).collect()
}

#[test]
fn no_header_is_missing() {
    assert_eq!(verify_security_header(&values(&[])), Err(AuthError::Missing));
}

#[test]
fn two_headers_are_duplicated() {
    assert_eq!(
        verify_security_header(&values(&[b"true", b"true"])),
        Err(AuthError::Duplicated)
    );
    assert_eq!(
        verify_security_header(&values(&[b"true", b"false"])),
        Err(AuthError::Duplicated)
    );
    assert_eq!(
        verify_security_header(&values(&[b"x", b"y", b"z"])),
        Err(AuthError::Duplicated)
    );
}

#[test]
fn one_wrong_header_is_invalid() {
    for wrong in [&b"false"[..], b"", b"True", b"true ", b" true", b"tru", b"\xfftrue"] {
        assert_eq!(verify_security_header(&values(&[wrong])), Err(AuthError::Invalid));
    }
}

#[test]
fn one_right_header_is_admitted() {
    assert_eq!(verify_security_header(&values(&[b"true"])), Ok(()));
}

#[test]
fn what_the_client_attaches_is_admitted() {
    let (key, value) = security_header();
    assert_eq!(key, "workload.spiffe.io");
    assert_eq!(value, "true");
    assert_eq!(key, SECURITY_HEADER_KEY);
    assert_eq!(value, SECURITY_HEADER_VALUE);
    assert_eq!(verify_security_header(&vec![value.as_bytes().to_vec()]), Ok(()));
}

#[test]
fn rejections_have_their_own_words() {
    assert_eq!(AuthError::Missing.message(), "security header missing from request");
    assert_eq!(AuthError::Duplicated.message(), "security header duplicated in request");
    assert_eq!(AuthError::Invalid.message(), "security header invalid");
}

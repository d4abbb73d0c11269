//! Admission to the Workload API: every call must carry the security
//! header exactly once, with the expected value.

use vstd::prelude::*;
use vstd::string::*;
use vstd::utf8::encode_utf8;
use crate::bytes::same_bytes;

verus! {

/// The name of the security header.
pub const SECURITY_HEADER_KEY: &'static str = "workload.spiffe.io";

/// The value that the security header must have.
pub const SECURITY_HEADER_VALUE: &'static str = "true";

/// Why a call is turned away.
#[derive(Clone, Copy, Debug, PartialEq, Eq, Structural)]
pub enum AuthError {
    /// The call carries no security header.
    Missing,
    /// The call carries the security header more than once.
    Duplicated,
    /// The call carries the security header once, with another value.
    Invalid,
}

impl AuthError {
    /// The words in which the call is turned away.
    pub fn message(&self) -> (text: String)
        ensures
            text@ == match *self {
                AuthError::Missing => "security header missing from request"@,
                AuthError::Duplicated => "security header duplicated in request"@,
                AuthError::Invalid => "security header invalid"@,
            },
    {
        match self {
            AuthError::Missing => String::from_str("security header missing from request"),
            AuthError::Duplicated => String::from_str("security header duplicated in request"),
            AuthError::Invalid => String::from_str("security header invalid"),
        }
    }
}

/// The bytes of the expected header value.
pub open spec fn expected_value() -> Seq<u8> {
    encode_utf8(SECURITY_HEADER_VALUE@)
}

/// The verdict on a call, given the values that its metadata holds under
/// the security header's name, one for each copy of the header.
///
/// No copy is "missing", more than one is "duplicated" whatever the copies
/// hold, and a single copy is "invalid" unless it is the expected value.
pub open spec fn admission(values: Seq<Seq<u8>>) -> Result<(), AuthError> {
    if values.len() == 0 {
        Err(AuthError::Missing)
    } else if values.len() > 1 {
        Err(AuthError::Duplicated)
    } else if values[0] != expected_value() {
        Err(AuthError::Invalid)
    } else {
        Ok(())
    }
}

/// The views of a list of header values.
pub open spec fn values_view(values: Seq<Vec<u8>>) -> Seq<Seq<u8>> {
    values.map_values(|v: Vec<u8>| v@)
}

/// Decides whether a call is admitted, given the values that its metadata
/// holds under `SECURITY_HEADER_KEY`.
pub fn verify_security_header(values: &Vec<Vec<u8>>) -> (verdict: Result<(), AuthError>)
    ensures
        verdict == admission(values_view(values@)),
{
    if values.len() == 0 {
        return Err(AuthError::Missing);
    }
    if values.len() > 1 {
        return Err(AuthError::Duplicated);
    }
    assert(values_view(values@)[0] == values@[0]@);
    if !same_bytes(values[0].as_slice(), SECURITY_HEADER_VALUE.as_bytes()) {
        return Err(AuthError::Invalid);
    }
    Ok(())
}

/// The header that a client attaches to every call: its name and its value.
pub fn security_header() -> (header: (&'static str, &'static str))
    ensures
        header.0@ == SECURITY_HEADER_KEY@,
        header.1@ == SECURITY_HEADER_VALUE@,
{
    (SECURITY_HEADER_KEY, SECURITY_HEADER_VALUE)
}

/// A call is admitted exactly when it carries one copy of the header and
/// that copy is the expected value; each way of failing has its own error.
pub proof fn lemma_admission(values: Seq<Seq<u8>>)
    ensures
        admission(values) is Ok <==> values == seq![expected_value()],
        admission(values) == Err::<(), AuthError>(AuthError::Missing) <==> values.len() == 0,
        admission(values) == Err::<(), AuthError>(AuthError::Duplicated) <==> values.len() >= 2,
        admission(values) == Err::<(), AuthError>(AuthError::Invalid) <==> values.len() == 1
            && values[0] != expected_value(),
{
    if values.len() == 1 && values[0] == expected_value() {
        assert(values =~= seq![expected_value()]);
    }
}

/// What a client attaches is what the server admits.
pub proof fn lemma_client_header_admitted()
    ensures
        admission(seq![encode_utf8(SECURITY_HEADER_VALUE@)]) == Ok::<(), AuthError>(()),
{
}

} // verus!

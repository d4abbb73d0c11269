//! The identity authority: a root, a signing authority below it and a JWT
//! key, made once and then used to issue X.509 and JWT SVIDs for one
//! configured workload.

use vstd::prelude::*;
use vstd::string::*;
use vstd::utf8::is_ascii_chars;
use crate::bytes::{contains_subslice, occurs_in};
use crate::chain::{
    certificate_basic_constraints, certificate_views, is_explicit_end_entity, parse_cert_chain,
    parsed_chain,
};
use crate::clock::unix_now;
use crate::encoding::{base64url_encode, encode_json_segment, fits_base64, json_pretty};
use crate::jwt::{
    audience_view, es256_point, es256_sign, generate_es256_key, issued_jwt, jwks_compact,
    jwks_document, jwt_header, jwt_payload, jwt_result_view, requested_view, JwtSvid,
};
use crate::profile::{
    encodable, leaf_profile, root_ca_profile, spiffe_id, spiffe_id_text, spire_server_ca_profile,
    CaKind, CertProfile, ExtendedKeyUsage, KeyUsage,
};
use crate::text::{lemma_occurrences_absent, lemma_occurrences_concat, occurrences};

verus! {

/// The trust domain of the default configuration.
pub const DEFAULT_TRUST_DOMAIN: &'static str = "spiffe-helper.local";

/// The workload path of the default configuration.
pub const DEFAULT_WORKLOAD_PATH: &'static str = "/ns/httpbin/sa/httpbin";

/// The lifetime of an SVID under the default configuration, in seconds.
pub const DEFAULT_TTL_SECONDS: u32 = 120;

/// Which workload an authority issues for, and for how long.
pub struct SvidConfig {
    pub trust_domain: String,
    pub workload_path: String,
    pub ttl_seconds: u32,
}

/// What an `SvidConfig` holds.
pub struct SvidConfigView {
    pub trust_domain: Seq<char>,
    pub workload_path: Seq<char>,
    pub ttl_seconds: nat,
}

impl View for SvidConfig {
    type V = SvidConfigView;

    open spec fn view(&self) -> SvidConfigView {
        SvidConfigView {
            trust_domain: self.trust_domain@,
            workload_path: self.workload_path@,
            ttl_seconds: self.ttl_seconds as nat,
        }
    }
}

impl SvidConfig {
    /// What the default configuration holds.
    pub open spec fn default_view() -> SvidConfigView {
        SvidConfigView {
            trust_domain: DEFAULT_TRUST_DOMAIN@,
            workload_path: DEFAULT_WORKLOAD_PATH@,
            ttl_seconds: DEFAULT_TTL_SECONDS as nat,
        }
    }
}

impl Default for SvidConfig {
    fn default() -> (config: Self)
        ensures
            config@ == SvidConfig::default_view(),
    {
        SvidConfig {
            trust_domain: String::from_str(DEFAULT_TRUST_DOMAIN),
            workload_path: String::from_str(DEFAULT_WORKLOAD_PATH),
            ttl_seconds: DEFAULT_TTL_SECONDS,
        }
    }
}

/// An X.509 SVID as the Workload API hands it out.
pub struct X509Svid {
    pub spiffe_id: String,
    /// The certificate chain: concatenated DER, leaf first, root left out.
    pub x509_svid: Vec<u8>,
    /// The private key of the leaf, PKCS#8 in DER.
    pub x509_svid_key: Vec<u8>,
    /// The trust bundle: the root certificate in DER.
    pub bundle: Vec<u8>,
    pub hint: String,
}

/// What an `X509Svid` holds.
pub struct X509SvidView {
    pub spiffe_id: Seq<char>,
    pub x509_svid: Seq<u8>,
    pub x509_svid_key: Seq<u8>,
    pub bundle: Seq<u8>,
    pub hint: Seq<char>,
}

impl View for X509Svid {
    type V = X509SvidView;

    open spec fn view(&self) -> X509SvidView {
        X509SvidView {
            spiffe_id: self.spiffe_id@,
            x509_svid: self.x509_svid@,
            x509_svid_key: self.x509_svid_key@,
            bundle: self.bundle@,
            hint: self.hint@,
        }
    }
}

/// Why the authority could not be made or could not issue.
#[derive(Clone, Copy, Debug, PartialEq, Eq, Structural)]
pub enum SvidError {
    /// A name that goes into a certificate holds a character outside ASCII.
    InvalidIdentifier,
    /// The validity window leaves the range of instants that can be encoded.
    ValidityOutOfRange,
    /// No key pair could be generated.
    KeyGeneration,
    /// The certificate could not be encoded or signed.
    Certificate,
    /// The root certificate turned up inside the chain.
    RootInChain,
    /// The issued chain does not read back as a chain of certificates.
    MalformedChain,
    /// The issued leaf does not declare itself an end entity.
    LeafNotEndEntity,
    /// A JWT SVID was asked for without an audience.
    EmptyAudience,
    /// A JSON text could not be written.
    Encoding,
    /// A text is too long to be base64-encoded on this machine.
    TooLong,
    /// The signing key did not yield a signature.
    Signature,
    /// The signing key did not yield its public point.
    PublicKey,
}

/// `rcgen::CertificateParams`, carried from one call to the next; nothing
/// is known of what it holds.
#[verifier::external_type_specification]
#[verifier::external_body]
pub struct ExCertificateParams(rcgen::CertificateParams);

/// `rcgen::KeyPair`, carried from one call to the next; nothing is known of
/// what it holds.
#[verifier::external_type_specification]
#[verifier::external_body]
pub struct ExKeyPair(rcgen::KeyPair);

/// `rcgen::Issuer`, carried from one call to the next; nothing is known of
/// what it holds.
#[verifier::external_type_specification]
#[verifier::external_body]
#[verifier::reject_recursive_types(S)]
pub struct ExIssuer<'a, S>(rcgen::Issuer<'a, S>);

/// `rcgen::Error`; every value of it is turned into an `SvidError`.
#[verifier::external_type_specification]
#[verifier::external_body]
pub struct ExRcgenError(rcgen::Error);

/// `time::error::ComponentRange`; every value of it is turned into
/// `SvidError::ValidityOutOfRange`.
#[verifier::external_type_specification]
#[verifier::external_body]
pub struct ExComponentRange(time::error::ComponentRange);

/// `rcgen::CertificateParams::default`.
#[verifier::external_body]
fn default_params() -> rcgen::CertificateParams {
    rcgen::CertificateParams::default()
}

/// Replaces the subject of `params` by a fresh `rcgen::DistinguishedName`
/// with a common name and an organization, pushed in that order.
#[verifier::external_body]
fn set_subject(params: &mut rcgen::CertificateParams, common_name: &str, organization: &str) {
    let mut name = rcgen::DistinguishedName::new();
    name.push(rcgen::DnType::CommonName, common_name);
    name.push(rcgen::DnType::OrganizationName, organization);
    params.distinguished_name = name;
}

/// Sets `is_ca` of `params` to the `rcgen::IsCa` that stands for `ca`.
#[verifier::external_body]
fn set_ca(params: &mut rcgen::CertificateParams, ca: CaKind) {
    params.is_ca = match ca {
        CaKind::Unconstrained => rcgen::IsCa::Ca(rcgen::BasicConstraints::Unconstrained),
        CaKind::Constrained(depth) => rcgen::IsCa::Ca(rcgen::BasicConstraints::Constrained(depth)),
        CaKind::ExplicitNoCa => rcgen::IsCa::ExplicitNoCa,
    };
}

/// Sets `key_usages` of `params`, each purpose as its
/// `rcgen::KeyUsagePurpose`, in the order given.
#[verifier::external_body]
fn set_key_usages(params: &mut rcgen::CertificateParams, usages: &Vec<KeyUsage>) {
    params.key_usages = usages.iter().map(|usage| match usage {
        KeyUsage::DigitalSignature => rcgen::KeyUsagePurpose::DigitalSignature,
        KeyUsage::KeyEncipherment => rcgen::KeyUsagePurpose::KeyEncipherment,
        KeyUsage::KeyCertSign => rcgen::KeyUsagePurpose::KeyCertSign,
        KeyUsage::CrlSign => rcgen::KeyUsagePurpose::CrlSign,
    }).collect();
}

/// Sets `extended_key_usages` of `params`, each purpose as its
/// `rcgen::ExtendedKeyUsagePurpose`, in the order given.
#[verifier::external_body]
fn set_extended_key_usages(params: &mut rcgen::CertificateParams, usages: &Vec<ExtendedKeyUsage>) {
    params.extended_key_usages = usages.iter().map(|usage| match usage {
        ExtendedKeyUsage::ServerAuth => rcgen::ExtendedKeyUsagePurpose::ServerAuth,
        ExtendedKeyUsage::ClientAuth => rcgen::ExtendedKeyUsagePurpose::ClientAuth,
    }).collect();
}

/// Sets the validity window of `params` from two Unix timestamps, each
/// through `time::OffsetDateTime::from_unix_timestamp`.
///
/// When `params` is signed later, the encoder panics on an instant before
/// year 0 or after year 9999. Validity reaches `params` only through this
/// function, and `requires` keeps those instants out.
#[verifier::external_body]
fn set_validity(params: &mut rcgen::CertificateParams, not_before: i64, not_after: i64) -> Result<
    (),
    time::error::ComponentRange,
>
    requires
        encodable(not_before as int),
        encodable(not_after as int),
{
    params.not_before = time::OffsetDateTime::from_unix_timestamp(not_before)?;
    params.not_after = time::OffsetDateTime::from_unix_timestamp(not_after)?;
    Ok(())
}

/// Makes `uri` the one subject alternative name of `params`, as an
/// `rcgen::SanType::URI`. The conversion of the text into an
/// `rcgen::string::Ia5String` fails exactly on a character outside ASCII.
#[verifier::external_body]
fn set_uri_name(params: &mut rcgen::CertificateParams, uri: &str) -> (done: Result<
    (),
    rcgen::Error,
>)
    ensures
        done is Ok <==> is_ascii_chars(uri@),
{
    let name = rcgen::string::Ia5String::try_from(uri)?;
    params.subject_alt_names = vec![rcgen::SanType::URI(name)];
    Ok(())
}

/// `rcgen::KeyPair::generate`: a fresh random key pair.
#[verifier::external_body]
fn generate_key_pair() -> Result<rcgen::KeyPair, rcgen::Error> {
    rcgen::KeyPair::generate()
}

/// `rcgen::KeyPair::serialize_der`: the key pair as PKCS#8 in DER.
#[verifier::external_body]
fn serialize_key_der(key: &rcgen::KeyPair) -> Vec<u8> {
    key.serialize_der()
}

/// `rcgen::CertificateParams::self_signed`, with the certificate handed
/// out as DER.
#[verifier::external_body]
fn self_signed(params: &rcgen::CertificateParams, key: &rcgen::KeyPair) -> Result<
    Vec<u8>,
    rcgen::Error,
> {
    params.self_signed(key).map(|certificate| certificate.der().to_vec())
}

/// `rcgen::CertificateParams::signed_by`, with the certificate handed out
/// as DER.
#[verifier::external_body]
fn signed_by(
    params: &rcgen::CertificateParams,
    subject_key: &rcgen::KeyPair,
    issuer: &rcgen::Issuer<'static, rcgen::KeyPair>,
) -> Result<Vec<u8>, rcgen::Error> {
    params.signed_by(subject_key, issuer).map(|certificate| certificate.der().to_vec())
}

/// `rcgen::Issuer::new`: an issuer that owns its parameters and its key.
#[verifier::external_body]
fn new_issuer(params: rcgen::CertificateParams, key: rcgen::KeyPair) -> rcgen::Issuer<
    'static,
    rcgen::KeyPair,
> {
    rcgen::Issuer::new(params, key)
}

/// Turns a profile into certificate parameters.
fn build_params(profile: &CertProfile) -> (built: Result<rcgen::CertificateParams, SvidError>)
    requires
        encodable(profile@.not_before),
        encodable(profile@.not_after),
    ensures
        built matches Err(e) ==> e == SvidError::InvalidIdentifier || e
            == SvidError::ValidityOutOfRange,
        (built matches Err(e) && e == SvidError::InvalidIdentifier) <==> !is_ascii_chars(
            profile@.uri_san,
        ),
{
    let mut params = default_params();
    set_subject(&mut params, profile.common_name.as_str(), profile.organization.as_str());
    set_ca(&mut params, profile.ca);
    set_key_usages(&mut params, &profile.key_usages);
    set_extended_key_usages(&mut params, &profile.extended_key_usages);
    match set_uri_name(&mut params, profile.uri_san.as_str()) {
        Ok(()) => {},
        Err(_) => {
            return Err(SvidError::InvalidIdentifier);
        },
    }
    match set_validity(&mut params, profile.not_before, profile.not_after) {
        Ok(()) => {},
        Err(_) => {
            return Err(SvidError::ValidityOutOfRange);
        },
    }
    Ok(params)
}

/// What putting an issued leaf together with the authority's certificates
/// gives: the chain is the leaf followed by the intermediate, the bundle is
/// the root, and the result is handed out only if the root is nowhere in
/// the chain, the chain reads back as certificates, and its first
/// certificate declares itself an end entity.
pub open spec fn assembled_svid(
    spiffe_id: Seq<char>,
    leaf_der: Seq<u8>,
    key_der: Seq<u8>,
    intermediate_der: Seq<u8>,
    root_der: Seq<u8>,
) -> Result<X509SvidView, SvidError> {
    let chain = leaf_der + intermediate_der;
    if occurs_in(root_der, chain) {
        Err(SvidError::RootInChain)
    } else {
        match parsed_chain(chain) {
            Err(_) => Err(SvidError::MalformedChain),
            Ok(certs) => if certs.len() == 0 || !is_explicit_end_entity(certs[0]) {
                Err(SvidError::LeafNotEndEntity)
            } else {
                Ok(
                    X509SvidView {
                        spiffe_id,
                        x509_svid: chain,
                        x509_svid_key: key_der,
                        bundle: root_der,
                        hint: Seq::empty(),
                    },
                )
            },
        }
    }
}

/// The view of an issuance.
pub open spec fn x509_result_view(result: Result<X509Svid, SvidError>) -> Result<
    X509SvidView,
    SvidError,
> {
    match result {
        Ok(svid) => Ok(svid@),
        Err(e) => Err(e),
    }
}

/// Puts an issued leaf together with the authority's certificates, and
/// hands the SVID out only if it keeps the rules of the Workload API: the
/// root stays out of the chain, and the leaf declares itself an end entity.
pub fn assemble_x509_svid(
    spiffe_id: String,
    leaf_der: Vec<u8>,
    key_der: Vec<u8>,
    intermediate_der: &Vec<u8>,
    root_der: &Vec<u8>,
) -> (svid: Result<X509Svid, SvidError>)
    ensures
        x509_result_view(svid) == assembled_svid(
            spiffe_id@,
            leaf_der@,
            key_der@,
            intermediate_der@,
            root_der@,
        ),
{
    let mut chain = leaf_der;
    chain.extend_from_slice(intermediate_der.as_slice());
    assert(chain@ == leaf_der@ + intermediate_der@);
    if contains_subslice(chain.as_slice(), root_der.as_slice()) {
        return Err(SvidError::RootInChain);
    }
    let certs = match parse_cert_chain(chain.as_slice()) {
        Ok(certs) => certs,
        Err(_) => {
            return Err(SvidError::MalformedChain);
        },
    };
    if certs.len() == 0 {
        return Err(SvidError::LeafNotEndEntity);
    }
    assert(certificate_views(certs@)[0] == certs@[0]@);
    match certificate_basic_constraints(&certs[0]) {
        Some(false) => {},
        _ => {
            return Err(SvidError::LeafNotEndEntity);
        },
    }
    Ok(
        X509Svid {
            spiffe_id,
            x509_svid: chain,
            x509_svid_key: key_der,
            bundle: root_der.clone(),
            hint: String::new(),
        },
    )
}

/// An SVID that `assemble_x509_svid` hands out keeps the root out of its
/// chain, carries the root as its bundle, and has a chain that begins with
/// a certificate whose basic-constraints extension is present and does not
/// assert `cA`.
pub proof fn lemma_assembled_svid(
    spiffe_id: Seq<char>,
    leaf_der: Seq<u8>,
    key_der: Seq<u8>,
    intermediate_der: Seq<u8>,
    root_der: Seq<u8>,
)
    ensures
        assembled_svid(spiffe_id, leaf_der, key_der, intermediate_der, root_der) matches Ok(svid)
            ==> well_formed_svid(svid) && svid.bundle == root_der && svid.spiffe_id == spiffe_id,
{
}

/// What holds of every X.509 SVID that the authority hands out: the bundle
/// is nowhere in the chain, and the chain reads back as certificates of
/// which the first declares itself an end entity.
pub open spec fn well_formed_svid(svid: X509SvidView) -> bool {
    &&& !occurs_in(svid.bundle, svid.x509_svid)
    &&& parsed_chain(svid.x509_svid) matches Ok(certs)
    &&& certs.len() > 0
    &&& is_explicit_end_entity(certs[0])
}

/// The key identifier under which the JWT key is published.
pub const JWT_KID: &'static str = "spire-agent-mock-jwt";

/// Whether an error is one that making an authority certificate can end in.
pub open spec fn is_authority_error(e: SvidError) -> bool {
    ||| e == SvidError::InvalidIdentifier
    ||| e == SvidError::ValidityOutOfRange
    ||| e == SvidError::KeyGeneration
    ||| e == SvidError::Certificate
}

/// The URI of a trust domain is ASCII exactly when the trust domain is.
pub proof fn lemma_uri_ascii(trust_domain: Seq<char>)
    ensures
        is_ascii_chars(crate::profile::trust_domain_uri_text(trust_domain)) <==> is_ascii_chars(
            trust_domain,
        ),
{
    reveal_strlit("spiffe://");
    vstd::utf8::is_ascii_chars_concat("spiffe://"@ + trust_domain, "spiffe://"@, trust_domain);
}

/// Makes the root authority of a trust domain: a fresh key pair and a
/// self-signed certificate in DER, valid from now.
///
/// The trust domain must be ASCII, since it goes into the certificate as a
/// URI; which of the other errors comes, if any, is up to the clock, the
/// key generator and the encoder.
pub fn generate_root_ca(trust_domain: &str) -> (made: Result<
    (rcgen::Issuer<'static, rcgen::KeyPair>, Vec<u8>),
    SvidError,
>)
    ensures
        (made matches Err(e) && e == SvidError::InvalidIdentifier) <==> !is_ascii_chars(
            trust_domain@,
        ),
        made matches Err(e) ==> is_authority_error(e),
{
    if !trust_domain.is_ascii() {
        return Err(SvidError::InvalidIdentifier);
    }
    let profile = match root_ca_profile(trust_domain, unix_now()) {
        Some(profile) => profile,
        None => {
            return Err(SvidError::ValidityOutOfRange);
        },
    };
    proof {
        lemma_uri_ascii(trust_domain@);
    }
    let params = match build_params(&profile) {
        Ok(params) => params,
        Err(e) => {
            return Err(e);
        },
    };
    let key_pair = match generate_key_pair() {
        Ok(key_pair) => key_pair,
        Err(_) => {
            return Err(SvidError::KeyGeneration);
        },
    };
    let ca_cert_der = match self_signed(&params, &key_pair) {
        Ok(der) => der,
        Err(_) => {
            return Err(SvidError::Certificate);
        },
    };
    Ok((new_issuer(params, key_pair), ca_cert_der))
}

/// Makes the signing authority below the root: a fresh key pair and a
/// certificate in DER signed by the root, valid from now.
///
/// The trust domain must be ASCII, since it goes into the certificate as a
/// URI; which of the other errors comes, if any, is up to the clock, the
/// key generator and the encoder.
pub fn generate_spire_server_ca(
    trust_domain: &str,
    root_issuer: &rcgen::Issuer<'static, rcgen::KeyPair>,
) -> (made: Result<(rcgen::Issuer<'static, rcgen::KeyPair>, Vec<u8>), SvidError>)
    ensures
        (made matches Err(e) && e == SvidError::InvalidIdentifier) <==> !is_ascii_chars(
            trust_domain@,
        ),
        made matches Err(e) ==> is_authority_error(e),
{
    if !trust_domain.is_ascii() {
        return Err(SvidError::InvalidIdentifier);
    }
    let profile = match spire_server_ca_profile(trust_domain, unix_now()) {
        Some(profile) => profile,
        None => {
            return Err(SvidError::ValidityOutOfRange);
        },
    };
    proof {
        lemma_uri_ascii(trust_domain@);
    }
    let params = match build_params(&profile) {
        Ok(params) => params,
        Err(e) => {
            return Err(e);
        },
    };
    let key_pair = match generate_key_pair() {
        Ok(key_pair) => key_pair,
        Err(_) => {
            return Err(SvidError::KeyGeneration);
        },
    };
    let spire_server_cert_der = match signed_by(&params, &key_pair, root_issuer) {
        Ok(der) => der,
        Err(_) => {
            return Err(SvidError::Certificate);
        },
    };
    Ok((new_issuer(params, key_pair), spire_server_cert_der))
}

/// The authority for one workload identity.
///
/// Its certificates and keys are made once, by `new`, and never change.
pub struct SvidGenerator {
    config: SvidConfig,
    root_cert_der: Vec<u8>,
    spire_server_issuer: rcgen::Issuer<'static, rcgen::KeyPair>,
    spire_server_cert_der: Vec<u8>,
    jwt_signing_key: Vec<u8>,
    jwt_kid: String,
}

impl SvidGenerator {
    /// The configuration that the authority was made with.
    pub closed spec fn config(&self) -> SvidConfigView {
        self.config@
    }

    /// The root certificate, in DER.
    pub closed spec fn root_der(&self) -> Seq<u8> {
        self.root_cert_der@
    }

    /// The certificate of the signing authority below the root, in DER.
    pub closed spec fn intermediate_der(&self) -> Seq<u8> {
        self.spire_server_cert_der@
    }

    /// The secret scalar of the JWT signing key.
    pub closed spec fn jwt_key(&self) -> Seq<u8> {
        self.jwt_signing_key@
    }

    /// The identifier under which the JWT key is published.
    pub closed spec fn kid(&self) -> Seq<char> {
        self.jwt_kid@
    }

    /// The SPIFFE ID of the workload that the authority issues for.
    pub open spec fn spec_workload_spiffe_id(&self) -> Seq<char> {
        spiffe_id_text(self.config().trust_domain, self.config().workload_path)
    }

    /// Makes an authority: a root, a signing authority below it and a JWT
    /// key, all fresh.
    ///
    /// The trust domain must be ASCII; which of the other errors comes, if
    /// any, is up to the clock, the key generator and the encoder.
    pub fn new(config: SvidConfig) -> (made: Result<SvidGenerator, SvidError>)
        ensures
            (made matches Err(e) && e == SvidError::InvalidIdentifier) <==> !is_ascii_chars(
                config@.trust_domain,
            ),
            made matches Err(e) ==> is_authority_error(e),
            made matches Ok(generator) ==> generator.config() == config@ && generator.kid()
                == JWT_KID@,
    {
        let (root_issuer, root_cert_der) = match generate_root_ca(config.trust_domain.as_str()) {
            Ok(made) => made,
            Err(e) => {
                return Err(e);
            },
        };
        let (spire_server_issuer, spire_server_cert_der) = match generate_spire_server_ca(
            config.trust_domain.as_str(),
            &root_issuer,
        ) {
            Ok(made) => made,
            Err(e) => {
                return Err(e);
            },
        };
        let jwt_signing_key = generate_es256_key();
        Ok(
            SvidGenerator {
                config,
                root_cert_der,
                spire_server_issuer,
                spire_server_cert_der,
                jwt_signing_key,
                jwt_kid: String::from_str(JWT_KID),
            },
        )
    }

    /// Issues a fresh X.509 SVID: a new key pair and a leaf certificate
    /// signed by the signing authority, valid from now for the configured
    /// TTL, followed in the chain by that authority's certificate.
    ///
    /// Whatever the clock, the key generator and the encoder do, an SVID
    /// that is handed out is `assembled_svid` of some leaf and key and of
    /// this authority's certificates, for the configured workload.
    pub fn generate_svid(&self) -> (svid: Result<X509Svid, SvidError>)
        ensures
            (svid matches Err(e) && e == SvidError::InvalidIdentifier) <==> !is_ascii_chars(
                self.spec_workload_spiffe_id(),
            ),
            svid matches Ok(s) ==> s@.spiffe_id == self.spec_workload_spiffe_id() && s@.bundle
                == self.root_der() && s@.hint == Seq::<char>::empty() && well_formed_svid(s@),
            svid matches Ok(s) ==> exists|leaf: Seq<u8>, key: Seq<u8>|
                #[trigger] assembled_svid(
                    self.spec_workload_spiffe_id(),
                    leaf,
                    key,
                    self.intermediate_der(),
                    self.root_der(),
                ) == Ok::<X509SvidView, SvidError>(s@),
    {
        let workload_id = spiffe_id(
            self.config.trust_domain.as_str(),
            self.config.workload_path.as_str(),
        );
        if !workload_id.as_str().is_ascii() {
            return Err(SvidError::InvalidIdentifier);
        }
        let profile = match leaf_profile(
            workload_id.as_str(),
            self.config.trust_domain.as_str(),
            self.config.ttl_seconds,
            unix_now(),
        ) {
            Some(profile) => profile,
            None => {
                return Err(SvidError::ValidityOutOfRange);
            },
        };
        let params = match build_params(&profile) {
            Ok(params) => params,
            Err(e) => {
                return Err(e);
            },
        };
        let key_pair = match generate_key_pair() {
            Ok(key_pair) => key_pair,
            Err(_) => {
                return Err(SvidError::KeyGeneration);
            },
        };
        let leaf_der = match signed_by(&params, &key_pair, &self.spire_server_issuer) {
            Ok(der) => der,
            Err(_) => {
                return Err(SvidError::Certificate);
            },
        };
        let key_der = serialize_key_der(&key_pair);
        let ghost leaf = leaf_der@;
        let ghost key = key_der@;
        let svid = assemble_x509_svid(
            workload_id,
            leaf_der,
            key_der,
            &self.spire_server_cert_der,
            &self.root_cert_der,
        );
        proof {
            let id = self.spec_workload_spiffe_id();
            lemma_assembled_svid(id, leaf, key, self.intermediate_der(), self.root_der());
            if svid is Ok {
                assert(assembled_svid(id, leaf, key, self.intermediate_der(), self.root_der())
                    == Ok::<X509SvidView, SvidError>(svid->Ok_0@));
            }
        }
        svid
    }

    /// The trust domain that the authority issues for.
    pub fn trust_domain(&self) -> (domain: &str)
        ensures
            domain@ == self.config().trust_domain,
    {
        self.config.trust_domain.as_str()
    }

    /// The SPIFFE ID of the workload that the authority issues for.
    pub fn workload_spiffe_id(&self) -> (id: String)
        ensures
            id@ == self.spec_workload_spiffe_id(),
    {
        spiffe_id(self.config.trust_domain.as_str(), self.config.workload_path.as_str())
    }

    /// The trust bundle: the root certificate and nothing else.
    pub fn bundle(&self) -> (der: Vec<u8>)
        ensures
            der@ == self.root_der(),
    {
        self.root_cert_der.clone()
    }
}

impl SvidGenerator {
    /// Issues a JWT SVID as of `now`, given in seconds since the epoch.
    pub fn generate_jwt_svid_at(&self, audience: &[String], spiffe_id: Option<&str>, now: i64) -> (svid:
        Result<JwtSvid, SvidError>)
        ensures
            jwt_result_view(svid) == issued_jwt(
                self.jwt_key(),
                self.kid(),
                self.spec_workload_spiffe_id(),
                self.config().ttl_seconds as int,
                audience_view(audience@),
                requested_view(spiffe_id),
                now as int,
            ),
            svid matches Ok(s) ==> occurrences(s@.svid, '.') == 2,
    {
        let subject = match spiffe_id {
            Some(id) => if id.unicode_len() == 0 {
                self.workload_spiffe_id()
            } else {
                String::from_str(id)
            },
            None => self.workload_spiffe_id(),
        };
        if audience.len() == 0 {
            return Err(SvidError::EmptyAudience);
        }
        assert(audience_view(audience@).len() == audience@.len());
        if now > i64::MAX - (self.config.ttl_seconds as i64) {
            return Err(SvidError::ValidityOutOfRange);
        }
        let expires_at = now + (self.config.ttl_seconds as i64);
        let header = jwt_header(self.jwt_kid.as_str());
        let payload = jwt_payload(audience, expires_at, now, subject.as_str());
        let (header, payload) = match (header, payload) {
            (Some(header), Some(payload)) => (header, payload),
            _ => {
                return Err(SvidError::Encoding);
            },
        };
        let encoded_header = encode_json_segment(header.as_str());
        let encoded_payload = encode_json_segment(payload.as_str());
        let (encoded_header, encoded_payload) = match (encoded_header, encoded_payload) {
            (Some(encoded_header), Some(encoded_payload)) => (encoded_header, encoded_payload),
            _ => {
                return Err(SvidError::TooLong);
            },
        };
        let mut signing_input = encoded_header;
        signing_input.append(".");
        signing_input.append(encoded_payload.as_str());
        let ghost first = encoded_header@;
        let ghost second = encoded_payload@;
        let signature = match es256_sign(
            self.jwt_signing_key.as_slice(),
            signing_input.as_str().as_bytes(),
        ) {
            Some(signature) => signature,
            None => {
                return Err(SvidError::Signature);
            },
        };
        if !fits_base64(signature.as_slice()) {
            return Err(SvidError::TooLong);
        }
        let encoded_signature = base64url_encode(signature.as_slice());
        let mut token = signing_input;
        token.append(".");
        token.append(encoded_signature.as_str());
        proof {
            reveal_strlit(".");
            let dot = "."@;
            assert(dot =~= seq!['.']);
            assert(occurrences(dot, '.') == 1) by {
                reveal_with_fuel(occurrences, 3);
                assert(dot.drop_last() =~= Seq::<char>::empty());
            }
            lemma_occurrences_absent(first, '.');
            lemma_occurrences_absent(second, '.');
            lemma_occurrences_absent(encoded_signature@, '.');
            lemma_occurrences_concat(first, dot, '.');
            lemma_occurrences_concat(first + dot, second, '.');
            lemma_occurrences_concat(first + dot + second, dot, '.');
            lemma_occurrences_concat(first + dot + second + dot, encoded_signature@, '.');
        }
        Ok(JwtSvid { spiffe_id: subject, svid: token, hint: String::new() })
    }

    /// Issues a JWT SVID as of now.
    ///
    /// Whatever the clock shows, the result is `issued_jwt` at some moment
    /// that a clock can show. An empty audience, and nothing else, is
    /// refused as such.
    pub fn generate_jwt_svid(&self, audience: &[String], spiffe_id: Option<&str>) -> (svid: Result<
        JwtSvid,
        SvidError,
    >)
        ensures
            exists|now: int|
                i64::MIN <= now <= i64::MAX && jwt_result_view(svid) == #[trigger] issued_jwt(
                    self.jwt_key(),
                    self.kid(),
                    self.spec_workload_spiffe_id(),
                    self.config().ttl_seconds as int,
                    audience_view(audience@),
                    requested_view(spiffe_id),
                    now,
                ),
            (svid matches Err(e) && e == SvidError::EmptyAudience) <==> audience@.len() == 0,
            svid matches Ok(s) ==> occurrences(s@.svid, '.') == 2,
    {
        let now = unix_now();
        self.generate_jwt_svid_at(audience, spiffe_id, now)
    }

    /// The key set under which tokens of this authority verify: one
    /// elliptic-curve key on P-256, published under the authority's `kid`.
    pub fn jwt_bundle(&self) -> (document: Result<Vec<u8>, SvidError>)
        ensures
            match jwks_document(self.jwt_key(), self.kid()) {
                Ok(bytes) => document matches Ok(d) && d@ == bytes,
                Err(e) => document == Err::<Vec<u8>, SvidError>(e),
            },
    {
        let (x, y) = match es256_point(self.jwt_signing_key.as_slice()) {
            Some(point) => point,
            None => {
                return Err(SvidError::PublicKey);
            },
        };
        if !fits_base64(x.as_slice()) || !fits_base64(y.as_slice()) {
            return Err(SvidError::TooLong);
        }
        let compact = match jwks_compact(self.jwt_kid.as_str(), x.as_slice(), y.as_slice()) {
            Some(compact) => compact,
            None => {
                return Err(SvidError::Encoding);
            },
        };
        match json_pretty(compact.as_str().as_bytes()) {
            Ok(pretty) => Ok(pretty.as_str().as_bytes_vec()),
            Err(_) => Err(SvidError::Encoding),
        }
    }
}

} // verus!

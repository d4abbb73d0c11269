//! Certificate profiles: what each kind of certificate in the two-level
//! hierarchy carries. A profile is plain data; turning it into a signed
//! certificate is the issuer's business.

use vstd::prelude::*;
use vstd::string::*;

verus! {

/// The basic-constraints policy of a certificate.
#[derive(Clone, Copy, Debug, PartialEq, Eq, Structural)]
pub enum CaKind {
    /// An authority that may have authorities below it.
    Unconstrained,
    /// An authority with at most this many authorities below it.
    Constrained(u8),
    /// No authority, and the certificate says so in an extension.
    ExplicitNoCa,
}

/// A purpose in the key-usage extension.
#[derive(Clone, Copy, Debug, PartialEq, Eq, Structural)]
pub enum KeyUsage {
    DigitalSignature,
    KeyEncipherment,
    KeyCertSign,
    CrlSign,
}

/// A purpose in the extended-key-usage extension.
#[derive(Clone, Copy, Debug, PartialEq, Eq, Structural)]
pub enum ExtendedKeyUsage {
    ServerAuth,
    ClientAuth,
}

/// What a certificate is to carry.
pub struct CertProfile {
    pub common_name: String,
    pub organization: String,
    pub ca: CaKind,
    pub key_usages: Vec<KeyUsage>,
    pub extended_key_usages: Vec<ExtendedKeyUsage>,
    /// Start of validity, in seconds since the Unix epoch.
    pub not_before: i64,
    /// End of validity, in seconds since the Unix epoch.
    pub not_after: i64,
    /// The one subject alternative name, a URI.
    pub uri_san: String,
}

/// What a `CertProfile` holds.
pub struct ProfileView {
    pub common_name: Seq<char>,
    pub organization: Seq<char>,
    pub ca: CaKind,
    pub key_usages: Seq<KeyUsage>,
    pub extended_key_usages: Seq<ExtendedKeyUsage>,
    pub not_before: int,
    pub not_after: int,
    pub uri_san: Seq<char>,
}

impl View for CertProfile {
    type V = ProfileView;

    open spec fn view(&self) -> ProfileView {
        ProfileView {
            common_name: self.common_name@,
            organization: self.organization@,
            ca: self.ca,
            key_usages: self.key_usages@,
            extended_key_usages: self.extended_key_usages@,
            not_before: self.not_before as int,
            not_after: self.not_after as int,
            uri_san: self.uri_san@,
        }
    }
}

/// Seconds in a day.
pub const SECONDS_PER_DAY: i64 = 86_400;

/// How long a root authority is valid, in days.
pub const ROOT_CA_VALIDITY_DAYS: i64 = 3650;

/// How long the signing authority below the root is valid, in days.
pub const SPIRE_SERVER_CA_VALIDITY_DAYS: i64 = 365;

/// The first second of year 0, the earliest instant a certificate encodes.
pub const EARLIEST_INSTANT: i64 = -62_167_219_200;

/// The last second of year 9999, the latest instant a certificate encodes.
pub const LATEST_INSTANT: i64 = 253_402_300_799;

/// Whether a certificate can carry the instant `t`.
pub open spec fn encodable(t: int) -> bool {
    EARLIEST_INSTANT <= t <= LATEST_INSTANT
}

/// The URI that names a trust domain.
pub open spec fn trust_domain_uri_text(trust_domain: Seq<char>) -> Seq<char> {
    "spiffe://"@ + trust_domain
}

/// The SPIFFE ID of the workload at `path` in a trust domain.
pub open spec fn spiffe_id_text(trust_domain: Seq<char>, path: Seq<char>) -> Seq<char> {
    "spiffe://"@ + trust_domain + path
}

/// The profile of a root authority issued at `now`.
pub open spec fn root_ca_profile_of(trust_domain: Seq<char>, now: int) -> ProfileView {
    ProfileView {
        common_name: trust_domain + " Root CA"@,
        organization: trust_domain,
        ca: CaKind::Unconstrained,
        key_usages: seq![KeyUsage::KeyCertSign, KeyUsage::CrlSign],
        extended_key_usages: Seq::empty(),
        not_before: now,
        not_after: now + ROOT_CA_VALIDITY_DAYS * SECONDS_PER_DAY,
        uri_san: trust_domain_uri_text(trust_domain),
    }
}

/// The profile of the signing authority below the root, issued at `now`.
pub open spec fn spire_server_ca_profile_of(trust_domain: Seq<char>, now: int) -> ProfileView {
    ProfileView {
        common_name: trust_domain + " SPIRE Server CA"@,
        organization: trust_domain,
        ca: CaKind::Constrained(0),
        key_usages: seq![KeyUsage::KeyCertSign, KeyUsage::CrlSign],
        extended_key_usages: Seq::empty(),
        not_before: now,
        not_after: now + SPIRE_SERVER_CA_VALIDITY_DAYS * SECONDS_PER_DAY,
        uri_san: trust_domain_uri_text(trust_domain),
    }
}

/// The profile of a workload certificate issued at `now` for `ttl_seconds`.
pub open spec fn leaf_profile_of(
    spiffe_id: Seq<char>,
    trust_domain: Seq<char>,
    ttl_seconds: int,
    now: int,
) -> ProfileView {
    ProfileView {
        common_name: spiffe_id,
        organization: trust_domain,
        ca: CaKind::ExplicitNoCa,
        key_usages: seq![KeyUsage::DigitalSignature, KeyUsage::KeyEncipherment],
        extended_key_usages: seq![ExtendedKeyUsage::ServerAuth, ExtendedKeyUsage::ClientAuth],
        not_before: now,
        not_after: now + ttl_seconds,
        uri_san: spiffe_id,
    }
}

/// Names a trust domain as a URI.
pub fn trust_domain_uri(trust_domain: &str) -> (uri: String)
    ensures
        uri@ == trust_domain_uri_text(trust_domain@),
{
    let mut uri = String::from_str("spiffe://");
    uri.append(trust_domain);
    uri
}

/// Names the workload at `path` in a trust domain.
pub fn spiffe_id(trust_domain: &str, path: &str) -> (id: String)
    ensures
        id@ == spiffe_id_text(trust_domain@, path@),
{
    let mut id = String::from_str("spiffe://");
    id.append(trust_domain);
    id.append(path);
    id
}

/// The end of a validity window that starts at `now` and lasts `length`
/// seconds, where both ends are instants that a certificate can carry.
pub fn window_end(now: i64, length: i64) -> (end: Option<i64>)
    requires
        0 <= length <= u32::MAX,
    ensures
        match end {
            Some(t) => t == now + length && encodable(now as int) && encodable(now + length),
            None => !(encodable(now as int) && encodable(now + length)),
        },
{
    if now < EARLIEST_INSTANT || now > LATEST_INSTANT {
        return None;
    }
    let end = now + length;
    if end > LATEST_INSTANT {
        None
    } else {
        Some(end)
    }
}

/// The profile of a root authority for `trust_domain`, valid from `now`.
/// `None` where the window leaves the range that certificates encode.
pub fn root_ca_profile(trust_domain: &str, now: i64) -> (profile: Option<CertProfile>)
    ensures
        match profile {
            Some(p) => p@ == root_ca_profile_of(trust_domain@, now as int) && encodable(
                p@.not_before,
            ) && encodable(p@.not_after),
            None => !(encodable(now as int) && encodable(
                now + ROOT_CA_VALIDITY_DAYS * SECONDS_PER_DAY,
            )),
        },
{
    let not_after = match window_end(now, ROOT_CA_VALIDITY_DAYS * SECONDS_PER_DAY) {
        Some(t) => t,
        None => {
            return None;
        },
    };
    let mut common_name = String::from_str(trust_domain);
    common_name.append(" Root CA");
    let mut key_usages: Vec<KeyUsage> = Vec::new();
    key_usages.push(KeyUsage::KeyCertSign);
    key_usages.push(KeyUsage::CrlSign);
    let profile = CertProfile {
        common_name,
        organization: String::from_str(trust_domain),
        ca: CaKind::Unconstrained,
        key_usages,
        extended_key_usages: Vec::new(),
        not_before: now,
        not_after,
        uri_san: trust_domain_uri(trust_domain),
    };
    assert(profile@.key_usages =~= seq![KeyUsage::KeyCertSign, KeyUsage::CrlSign]);
    assert(profile@.extended_key_usages =~= Seq::empty());
    Some(profile)
}

/// The profile of the signing authority below the root, valid from `now`.
/// `None` where the window leaves the range that certificates encode.
pub fn spire_server_ca_profile(trust_domain: &str, now: i64) -> (profile: Option<CertProfile>)
    ensures
        match profile {
            Some(p) => p@ == spire_server_ca_profile_of(trust_domain@, now as int) && encodable(
                p@.not_before,
            ) && encodable(p@.not_after),
            None => !(encodable(now as int) && encodable(
                now + SPIRE_SERVER_CA_VALIDITY_DAYS * SECONDS_PER_DAY,
            )),
        },
{
    let not_after = match window_end(now, SPIRE_SERVER_CA_VALIDITY_DAYS * SECONDS_PER_DAY) {
        Some(t) => t,
        None => {
            return None;
        },
    };
    let mut common_name = String::from_str(trust_domain);
    common_name.append(" SPIRE Server CA");
    let mut key_usages: Vec<KeyUsage> = Vec::new();
    key_usages.push(KeyUsage::KeyCertSign);
    key_usages.push(KeyUsage::CrlSign);
    let profile = CertProfile {
        common_name,
        organization: String::from_str(trust_domain),
        ca: CaKind::Constrained(0),
        key_usages,
        extended_key_usages: Vec::new(),
        not_before: now,
        not_after,
        uri_san: trust_domain_uri(trust_domain),
    };
    assert(profile@.key_usages =~= seq![KeyUsage::KeyCertSign, KeyUsage::CrlSign]);
    assert(profile@.extended_key_usages =~= Seq::empty());
    Some(profile)
}

/// The profile of a workload certificate for `spiffe_id`, valid from `now`
/// for `ttl_seconds`. `None` where the window leaves the range that
/// certificates encode.
pub fn leaf_profile(spiffe_id: &str, trust_domain: &str, ttl_seconds: u32, now: i64) -> (profile:
    Option<CertProfile>)
    ensures
        match profile {
            Some(p) => p@ == leaf_profile_of(
                spiffe_id@,
                trust_domain@,
                ttl_seconds as int,
                now as int,
            ) && encodable(p@.not_before) && encodable(p@.not_after),
            None => !(encodable(now as int) && encodable(now + ttl_seconds)),
        },
{
    let not_after = match window_end(now, ttl_seconds as i64) {
        Some(t) => t,
        None => {
            return None;
        },
    };
    let mut key_usages: Vec<KeyUsage> = Vec::new();
    key_usages.push(KeyUsage::DigitalSignature);
    key_usages.push(KeyUsage::KeyEncipherment);
    let mut extended_key_usages: Vec<ExtendedKeyUsage> = Vec::new();
    extended_key_usages.push(ExtendedKeyUsage::ServerAuth);
    extended_key_usages.push(ExtendedKeyUsage::ClientAuth);
    let profile = CertProfile {
        common_name: String::from_str(spiffe_id),
        organization: String::from_str(trust_domain),
        ca: CaKind::ExplicitNoCa,
        key_usages,
        extended_key_usages,
        not_before: now,
        not_after,
        uri_san: String::from_str(spiffe_id),
    };
    assert(profile@.key_usages =~= seq![KeyUsage::DigitalSignature, KeyUsage::KeyEncipherment]);
    assert(profile@.extended_key_usages =~= seq![
        ExtendedKeyUsage::ServerAuth,
        ExtendedKeyUsage::ClientAuth,
    ]);
    Some(profile)
}

/// Whether a profile is that of an authority.
pub open spec fn is_authority(profile: ProfileView) -> bool {
    profile.ca != CaKind::ExplicitNoCa
}

/// A workload certificate is never an authority and always says so, has
/// the purposes of a TLS peer, names its SPIFFE ID as its only alternative
/// name, and is valid from the moment of issuance for exactly its TTL.
pub proof fn lemma_leaf_profile(
    spiffe_id: Seq<char>,
    trust_domain: Seq<char>,
    ttl_seconds: int,
    now: int,
)
    ensures
        ({
            let p = leaf_profile_of(spiffe_id, trust_domain, ttl_seconds, now);
            &&& p.ca == CaKind::ExplicitNoCa
            &&& !is_authority(p)
            &&& p.key_usages == seq![KeyUsage::DigitalSignature, KeyUsage::KeyEncipherment]
            &&& p.extended_key_usages == seq![
                ExtendedKeyUsage::ServerAuth,
                ExtendedKeyUsage::ClientAuth,
            ]
            &&& p.uri_san == spiffe_id
            &&& p.not_before == now
            &&& p.not_after - p.not_before == ttl_seconds
        }),
{
}

/// Both authorities of a trust domain may sign certificates and revocation
/// lists and name the trust domain as their alternative name. The root is
/// unconstrained; the authority below it may have none below itself, and
/// issued at the same moment it expires before the root does.
pub proof fn lemma_authority_profiles(trust_domain: Seq<char>, now: int)
    ensures
        ({
            let root = root_ca_profile_of(trust_domain, now);
            let server = spire_server_ca_profile_of(trust_domain, now);
            &&& is_authority(root)
            &&& is_authority(server)
            &&& root.ca == CaKind::Unconstrained
            &&& server.ca == CaKind::Constrained(0)
            &&& root.key_usages == seq![KeyUsage::KeyCertSign, KeyUsage::CrlSign]
            &&& server.key_usages == root.key_usages
            &&& root.uri_san == trust_domain_uri_text(trust_domain)
            &&& server.uri_san == root.uri_san
            &&& root.not_before == now
            &&& server.not_before == now
            &&& server.not_after < root.not_after
        }),
{
}

} // verus!

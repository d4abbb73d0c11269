//! Certificate chains as a client sees them: a buffer of concatenated DER
//! certificates is taken apart, the certificates after the leaf are told
//! apart as authorities and intermediates, and validity windows are rendered.

use std::fmt::Write;
use vstd::prelude::*;
use vstd::string::*;
use crate::text::{decimal_digits, decimal_string, same_text};

verus! {

/// One extension of a certificate: the dotted form of its identifier and
/// the bytes of its value.
pub struct CertExtension {
    pub oid: String,
    pub value: Vec<u8>,
}

/// What a `CertExtension` holds.
pub struct ExtensionView {
    pub oid: Seq<char>,
    pub value: Seq<u8>,
}

impl View for CertExtension {
    type V = ExtensionView;

    open spec fn view(&self) -> ExtensionView {
        ExtensionView { oid: self.oid@, value: self.value@ }
    }
}

/// What the chain logic reads of one certificate: the validity window in
/// seconds since the Unix epoch, and the extensions in the order in which
/// the certificate lists them (`None` where it has no extension block).
pub struct ParsedCertificate {
    pub not_before: u64,
    pub not_after: u64,
    pub extensions: Option<Vec<CertExtension>>,
}

/// What a `ParsedCertificate` holds.
pub struct CertificateView {
    pub not_before: nat,
    pub not_after: nat,
    pub extensions: Option<Seq<ExtensionView>>,
}

impl View for ParsedCertificate {
    type V = CertificateView;

    open spec fn view(&self) -> CertificateView {
        CertificateView {
            not_before: self.not_before as nat,
            not_after: self.not_after as nat,
            extensions: match self.extensions {
                Some(list) => Some(list@.map_values(|e: CertExtension| e@)),
                None => None,
            },
        }
    }
}

/// The views of a run of certificates.
pub open spec fn certificate_views(certs: Seq<ParsedCertificate>) -> Seq<CertificateView> {
    certs.map_values(|c: ParsedCertificate| c@)
}

/// Why a chain could not be read or rendered.
#[derive(Clone, Copy, Debug, PartialEq, Eq, Structural)]
pub enum ChainError {
    /// The buffer is longer than a DER reader takes.
    ReaderCreation,
    /// The bytes at some certificate boundary are no certificate.
    Certificate,
    /// An instant could not be written in the display form.
    TimeFormat,
}

impl ChainError {
    /// The words in which the failure is reported.
    pub fn message(&self) -> (text: String)
        ensures
            text@ == match *self {
                ChainError::ReaderCreation => "failed to create DER reader"@,
                ChainError::Certificate => "failed to parse certificate"@,
                ChainError::TimeFormat => "failed to format time"@,
            },
    {
        match self {
            ChainError::ReaderCreation => String::from_str("failed to create DER reader"),
            ChainError::Certificate => String::from_str("failed to parse certificate"),
            ChainError::TimeFormat => String::from_str("failed to format time"),
        }
    }
}

/// The longest buffer, in bytes, that a DER reader can be made for.
pub const DER_INPUT_LIMIT: usize = 0xfff_ffff;

/// What decoding one X.509 certificate from the start of `bytes` yields:
/// the certificate and the number of bytes that its encoding takes, or
/// `None` where `bytes` does not begin with a certificate.
pub uninterp spec fn der_certificate(bytes: Seq<u8>) -> Option<(CertificateView, int)>;

/// What decoding `bytes` as the value of a basic-constraints extension
/// yields: its `cA` flag, or `None` where the bytes are no such value.
pub uninterp spec fn der_basic_constraints(bytes: Seq<u8>) -> Option<bool>;

/// The text in which `pattern`, a strftime pattern, renders the instant
/// `secs` seconds after the Unix epoch in UTC; the epoch itself where the
/// calendar does not reach `secs`; `None` where the pattern is malformed.
pub uninterp spec fn formatted_utc(secs: int, pattern: Seq<char>) -> Option<Seq<char>>;

/// Whether `der::SliceReader::new` accepts the buffer. It refuses exactly
/// the buffers whose length exceeds `der::Length::MAX`, which is
/// `DER_INPUT_LIMIT`.
#[verifier::external_body]
fn der_reader_accepts(input: &[u8]) -> (accepted: bool)
    ensures
        accepted == (input@.len() <= DER_INPUT_LIMIT),
{
    der::SliceReader::new(input).is_ok()
}

/// Decodes one `x509_cert::Certificate` with a `der::SliceReader` over
/// `input[start..]` and hands out its validity window, its extensions and
/// the reader's position after it.
///
/// The result is `der_certificate` of those bytes. A certificate is a DER
/// sequence, so a successful decode has consumed at least its header and
/// at most the bytes that were there.
#[verifier::external_body]
fn decode_certificate(input: &[u8], start: usize) -> (decoded: Option<(ParsedCertificate, usize)>)
    requires
        start <= input@.len(),
    ensures
        match der_certificate(input@.skip(start as int)) {
            Some((cert, used)) => decoded matches Some((c, n)) && c@ == cert && n == used && 0
                < used <= input@.len() - start,
            None => decoded is None,
        },
{
    let mut reader = der::SliceReader::new(&input[start..]).ok()?;
    let cert: x509_cert::Certificate = der::Reader::decode(&mut reader).ok()?;
    let tbs = cert.tbs_certificate;
    let extensions = tbs.extensions.map(|list| {
        list.into_iter().map(|e| CertExtension {
            oid: e.extn_id.to_string(),
            value: e.extn_value.into_bytes(),
        }).collect()
    });
    let used = usize::try_from(der::Reader::position(&reader)).ok()?;
    let not_before = tbs.validity.not_before.to_unix_duration().as_secs();
    let not_after = tbs.validity.not_after.to_unix_duration().as_secs();
    Some((ParsedCertificate { not_before, not_after, extensions }, used))
}

/// Decodes an `x509_cert::ext::pkix::BasicConstraints` from the bytes of an
/// extension value and hands out its `ca` field. The result is
/// `der_basic_constraints` of the bytes.
#[verifier::external_body]
fn decode_basic_constraints(value: &[u8]) -> (ca: Option<bool>)
    ensures
        ca == der_basic_constraints(value@),
{
    let decoded: Result<x509_cert::ext::pkix::BasicConstraints, der::Error> = der::Decode::from_der(
        value,
    );
    decoded.ok().map(|constraints| constraints.ca)
}

/// The dotted form of `const_oid::db::rfc5280::ID_CE_BASIC_CONSTRAINTS`,
/// which that crate defines as 2.5.29.19.
#[verifier::external_body]
fn basic_constraints_oid() -> (oid: String)
    ensures
        oid@ == BASIC_CONSTRAINTS_OID@,
{
    const_oid::db::rfc5280::ID_CE_BASIC_CONSTRAINTS.to_string()
}

/// Renders an instant with `chrono`: `DateTime::from_timestamp(secs, 0)`,
/// the epoch where that is out of range, formatted by `pattern`. The
/// result is `formatted_utc` of the two arguments.
#[verifier::external_body]
fn utc_text(secs: i64, pattern: &str) -> (text: Option<String>)
    ensures
        match formatted_utc(secs as int, pattern@) {
            Some(t) => text matches Some(s) && s@ == t,
            None => text is None,
        },
{
    let instant = chrono::DateTime::from_timestamp(secs, 0).unwrap_or_default();
    let mut text = String::new();
    write!(text, "{}", instant.format(pattern)).ok()?;
    Some(text)
}

/// The identifier of the basic-constraints extension.
pub const BASIC_CONSTRAINTS_OID: &'static str = "2.5.29.19";

/// The form in which instants are shown.
pub const UTC_PATTERN: &'static str = "%Y-%m-%d %H:%M:%S +0000 UTC";

/// The certificates that a buffer of concatenated DER certificates holds,
/// in order: one certificate is decoded from the front, and the rest of the
/// buffer holds the rest of the chain. `None` where some certificate
/// boundary is followed by bytes that are no certificate.
pub open spec fn chain_certificates(bytes: Seq<u8>) -> Option<Seq<CertificateView>>
    decreases bytes.len(),
{
    if bytes.len() == 0 {
        Some(Seq::empty())
    } else {
        match der_certificate(bytes) {
            Some((cert, used)) => if 0 < used <= bytes.len() {
                match chain_certificates(bytes.skip(used)) {
                    Some(rest) => Some(seq![cert] + rest),
                    None => None,
                }
            } else {
                None
            },
            None => None,
        }
    }
}

/// What reading a chain gives: the certificates, or the reason for none.
pub open spec fn parsed_chain(bytes: Seq<u8>) -> Result<Seq<CertificateView>, ChainError> {
    if bytes.len() > DER_INPUT_LIMIT {
        Err(ChainError::ReaderCreation)
    } else {
        match chain_certificates(bytes) {
            Some(certs) => Ok(certs),
            None => Err(ChainError::Certificate),
        }
    }
}

/// A chain that ends in `tail`, with `done` put before it.
pub open spec fn chain_after(done: Seq<CertificateView>, tail: Option<Seq<CertificateView>>)
    -> Option<Seq<CertificateView>> {
    match tail {
        Some(rest) => Some(done + rest),
        None => None,
    }
}

/// Takes a buffer of concatenated DER certificates apart.
///
/// Certificates are decoded one after another until the buffer is used up;
/// the empty buffer is the empty chain.
pub fn parse_cert_chain(der_bytes: &[u8]) -> (chain: Result<Vec<ParsedCertificate>, ChainError>)
    ensures
        match parsed_chain(der_bytes@) {
            Ok(certs) => chain matches Ok(list) && certificate_views(list@) == certs,
            Err(e) => chain == Err::<Vec<ParsedCertificate>, ChainError>(e),
        },
{
    if !der_reader_accepts(der_bytes) {
        return Err(ChainError::ReaderCreation);
    }
    let mut certs: Vec<ParsedCertificate> = Vec::new();
    let mut position: usize = 0;
    let n = der_bytes.len();
    proof {
        assert(der_bytes@.skip(0) =~= der_bytes@);
        assert(certificate_views(certs@) =~= Seq::empty());
        if let Some(all) = chain_certificates(der_bytes@) {
            assert(Seq::<CertificateView>::empty() + all =~= all);
        }
    }
    while position < n
        invariant
            n == der_bytes@.len(),
            n <= DER_INPUT_LIMIT,
            position <= n,
            chain_certificates(der_bytes@) == chain_after(
                certificate_views(certs@),
                chain_certificates(der_bytes@.skip(position as int)),
            ),
        decreases n - position,
    {
        let ghost before = certificate_views(certs@);
        let ghost rest = der_bytes@.skip(position as int);
        match decode_certificate(der_bytes, position) {
            Some((cert, used)) => {
                proof {
                    assert(rest.skip(used as int) =~= der_bytes@.skip(position + used));
                    let tail = chain_certificates(rest.skip(used as int));
                    assert(certificate_views(certs@.push(cert)) =~= before + seq![cert@]);
                    if tail is Some {
                        assert(before + (seq![cert@] + tail.unwrap()) =~= (before + seq![cert@])
                            + tail.unwrap());
                    }
                }
                certs.push(cert);
                position = position + used;
            },
            None => {
                assert(chain_certificates(rest) is None);
                return Err(ChainError::Certificate);
            },
        }
    }
    proof {
        assert(certificate_views(certs@) + Seq::<CertificateView>::empty() =~= certificate_views(
            certs@,
        ));
    }
    Ok(certs)
}

/// The first extension of `exts` whose identifier is `oid`.
pub open spec fn first_extension(exts: Seq<ExtensionView>, oid: Seq<char>) -> Option<
    ExtensionView,
>
    decreases exts.len(),
{
    if exts.len() == 0 {
        None
    } else if exts[0].oid == oid {
        Some(exts[0])
    } else {
        first_extension(exts.drop_first(), oid)
    }
}

/// The `cA` flag that a certificate asserts: that of its first
/// basic-constraints extension, where it has one and the value decodes.
pub open spec fn basic_constraints(cert: CertificateView) -> Option<bool> {
    match cert.extensions {
        Some(exts) => match first_extension(exts, BASIC_CONSTRAINTS_OID@) {
            Some(ext) => der_basic_constraints(ext.value),
            None => None,
        },
        None => None,
    }
}

/// Whether a certificate is an authority: it carries a basic-constraints
/// extension that asserts `cA`.
pub open spec fn is_ca(cert: CertificateView) -> bool {
    basic_constraints(cert) == Some(true)
}

/// Whether a certificate is an end entity by declaration: it carries a
/// basic-constraints extension, and the extension does not assert `cA`.
pub open spec fn is_explicit_end_entity(cert: CertificateView) -> bool {
    basic_constraints(cert) == Some(false)
}

/// Reads the `cA` flag of a certificate's basic-constraints extension.
pub fn certificate_basic_constraints(cert: &ParsedCertificate) -> (ca: Option<bool>)
    ensures
        ca == basic_constraints(cert@),
{
    let exts = match &cert.extensions {
        Some(exts) => exts,
        None => {
            return None;
        },
    };
    let oid = basic_constraints_oid();
    let ghost all = cert@.extensions.unwrap();
    let mut i: usize = 0;
    assert(all.skip(0) =~= all);
    while i < exts.len()
        invariant
            i <= exts@.len(),
            all == exts@.map_values(|e: CertExtension| e@),
            cert@.extensions == Some(all),
            oid@ == BASIC_CONSTRAINTS_OID@,
            first_extension(all, BASIC_CONSTRAINTS_OID@) == first_extension(
                all.skip(i as int),
                BASIC_CONSTRAINTS_OID@,
            ),
        decreases exts@.len() - i,
    {
        let ext = &exts[i];
        assert(all.skip(i as int)[0] == ext@);
        if same_text(ext.oid.as_str(), oid.as_str()) {
            assert(first_extension(all.skip(i as int), BASIC_CONSTRAINTS_OID@) == Some(ext@));
            return decode_basic_constraints(ext.value.as_slice());
        }
        assert(all.skip(i as int).drop_first() =~= all.skip(i as int + 1));
        i += 1;
    }
    None
}

/// Whether a certificate is an authority.
pub fn certificate_is_ca(cert: &ParsedCertificate) -> (ca: bool)
    ensures
        ca == is_ca(cert@),
{
    match certificate_basic_constraints(cert) {
        Some(flag) => flag,
        None => false,
    }
}

/// The place of a certificate in a chain. Authorities and intermediates
/// are numbered from 1, each kind by itself, in chain order.
#[derive(Clone, Copy, Debug, PartialEq, Eq, Structural)]
pub enum ChainRole {
    Leaf,
    Ca(usize),
    Intermediate(usize),
}

/// How many of `certs` are authorities.
pub open spec fn authorities_in(certs: Seq<CertificateView>) -> nat
    decreases certs.len(),
{
    if certs.len() == 0 {
        0
    } else {
        authorities_in(certs.drop_last()) + if is_ca(certs.last()) {
            1nat
        } else {
            0nat
        }
    }
}

/// The role of the certificate at index `i` of a chain: index 0 is the
/// leaf; a later certificate is an authority if it asserts `cA` and an
/// intermediate otherwise, and its number is one more than the count of
/// certificates of its kind between the leaf and itself.
pub open spec fn role_at(certs: Seq<CertificateView>, i: int) -> ChainRole
    recommends
        0 <= i < certs.len(),
{
    if i == 0 {
        ChainRole::Leaf
    } else {
        let earlier = certs.subrange(1, i);
        if is_ca(certs[i]) {
            ChainRole::Ca((authorities_in(earlier) + 1) as usize)
        } else {
            ChainRole::Intermediate((earlier.len() - authorities_in(earlier) + 1) as usize)
        }
    }
}

/// Gives each certificate of a chain its role.
pub fn classify_chain(certs: &Vec<ParsedCertificate>) -> (roles: Vec<ChainRole>)
    ensures
        roles@.len() == certs@.len(),
        forall|i: int|
            0 <= i < certs@.len() ==> roles@[i] == #[trigger] role_at(certificate_views(certs@), i),
{
    let mut roles: Vec<ChainRole> = Vec::new();
    if certs.len() == 0 {
        return roles;
    }
    roles.push(ChainRole::Leaf);
    let ghost views = certificate_views(certs@);
    let mut authorities: usize = 0;
    let mut intermediates: usize = 0;
    let mut i: usize = 1;
    while i < certs.len()
        invariant
            1 <= i <= certs@.len(),
            views == certificate_views(certs@),
            roles@.len() == i,
            authorities == authorities_in(views.subrange(1, i as int)),
            authorities + intermediates == i - 1,
            forall|k: int| 0 <= k < i ==> roles@[k] == #[trigger] role_at(views, k),
        decreases certs@.len() - i,
    {
        proof {
            assert(views.subrange(1, i as int + 1).drop_last() =~= views.subrange(1, i as int));
            assert(views.subrange(1, i as int + 1).last() == views[i as int]);
        }
        let role = if certificate_is_ca(&certs[i]) {
            authorities += 1;
            ChainRole::Ca(authorities)
        } else {
            intermediates += 1;
            ChainRole::Intermediate(intermediates)
        };
        roles.push(role);
        i += 1;
    }
    roles
}

/// The certificates of a chain that come after its leaf.
pub open spec fn followers(certs: Seq<CertificateView>) -> Seq<CertificateView> {
    if certs.len() == 0 {
        certs
    } else {
        certs.skip(1)
    }
}

/// How many certificates of each kind follow the leaf of a chain.
#[derive(Clone, Copy, Debug, PartialEq, Eq, Structural)]
pub struct ChainCounts {
    pub intermediate: usize,
    pub ca: usize,
}

/// Counts the authorities and the intermediates that follow the leaf.
pub fn count_chain(certs: &Vec<ParsedCertificate>) -> (counts: ChainCounts)
    ensures
        counts.ca == authorities_in(followers(certificate_views(certs@))),
        counts.ca + counts.intermediate == followers(certificate_views(certs@)).len(),
{
    let ghost views = certificate_views(certs@);
    let mut counts = ChainCounts { intermediate: 0, ca: 0 };
    if certs.len() == 0 {
        return counts;
    }
    let mut i: usize = 1;
    assert(views.subrange(1, 1) =~= Seq::empty());
    while i < certs.len()
        invariant
            1 <= i <= certs@.len(),
            views == certificate_views(certs@),
            counts.ca == authorities_in(views.subrange(1, i as int)),
            counts.ca + counts.intermediate == i - 1,
        decreases certs@.len() - i,
    {
        proof {
            assert(views.subrange(1, i as int + 1).drop_last() =~= views.subrange(1, i as int));
            assert(views.subrange(1, i as int + 1).last() == views[i as int]);
        }
        if certificate_is_ca(&certs[i]) {
            counts.ca += 1;
        } else {
            counts.intermediate += 1;
        }
        i += 1;
    }
    assert(views.subrange(1, i as int) =~= views.skip(1));
    counts
}

/// The signed reading of a count of seconds: counts above the largest
/// signed 64-bit number wrap around to negative ones.
pub open spec fn unix_timestamp(secs: nat) -> int {
    if secs <= i64::MAX {
        secs as int
    } else {
        secs - 0x1_0000_0000_0000_0000
    }
}

/// Reads a certificate time, given in seconds since the epoch, as a signed
/// timestamp.
pub fn parse_x509_time(secs: u64) -> (timestamp: i64)
    ensures
        timestamp == unix_timestamp(secs as nat),
{
    if secs <= 0x7fff_ffff_ffff_ffff {
        secs as i64
    } else {
        let low: u64 = secs - 0x8000_0000_0000_0000;
        (low as i64) + i64::MIN
    }
}

/// The views of a list of texts.
pub open spec fn text_views(lines: Seq<String>) -> Seq<Seq<char>> {
    lines.map_values(|s: String| s@)
}

/// Renders an instant in the fixed UTC form, as in
/// `2024-05-01 12:00:00 +0000 UTC`.
pub fn format_utc_time(timestamp: i64) -> (text: Option<String>)
    ensures
        match formatted_utc(timestamp as int, UTC_PATTERN@) {
            Some(t) => text matches Some(s) && s@ == t,
            None => text is None,
        },
{
    utc_text(timestamp, UTC_PATTERN)
}

/// How a role is named in a report.
pub open spec fn role_label(role: ChainRole) -> Seq<char> {
    match role {
        ChainRole::Leaf => "SVID"@,
        ChainRole::Ca(n) => "CA #"@ + decimal_digits(n as nat),
        ChainRole::Intermediate(n) => "Intermediate #"@ + decimal_digits(n as nat),
    }
}

/// The two report lines of one certificate: when its validity starts and
/// when it ends.
pub open spec fn validity_lines(role: ChainRole, cert: CertificateView) -> Option<
    Seq<Seq<char>>,
> {
    match (
        formatted_utc(unix_timestamp(cert.not_before), UTC_PATTERN@),
        formatted_utc(unix_timestamp(cert.not_after), UTC_PATTERN@),
    ) {
        (Some(after), Some(until)) => Some(
            seq![
                role_label(role) + " Valid After:\t"@ + after,
                role_label(role) + " Valid Until:\t"@ + until,
            ],
        ),
        _ => None,
    }
}

/// The report lines of the first `k` certificates of a chain.
pub open spec fn chain_lines_upto(certs: Seq<CertificateView>, k: nat) -> Option<Seq<Seq<char>>>
    decreases k,
{
    if k == 0 {
        Some(Seq::empty())
    } else {
        match (
            chain_lines_upto(certs, (k - 1) as nat),
            validity_lines(role_at(certs, k - 1), certs[k - 1]),
        ) {
            (Some(before), Some(lines)) => Some(before + lines),
            _ => None,
        }
    }
}

/// The report lines of a whole chain.
pub open spec fn chain_lines(certs: Seq<CertificateView>) -> Option<Seq<Seq<char>>> {
    chain_lines_upto(certs, certs.len())
}

/// Names a role as the report does.
pub fn role_text(role: ChainRole) -> (label: String)
    ensures
        label@ == role_label(role),
{
    match role {
        ChainRole::Leaf => String::from_str("SVID"),
        ChainRole::Ca(n) => {
            let mut label = String::from_str("CA #");
            let number = decimal_string(n as u64);
            label.append(number.as_str());
            label
        },
        ChainRole::Intermediate(n) => {
            let mut label = String::from_str("Intermediate #");
            let number = decimal_string(n as u64);
            label.append(number.as_str());
            label
        },
    }
}

/// Renders the validity window of each certificate of a chain, two lines
/// per certificate, in chain order.
pub fn render_chain(certs: &Vec<ParsedCertificate>) -> (report: Result<Vec<String>, ChainError>)
    ensures
        match chain_lines(certificate_views(certs@)) {
            Some(lines) => report matches Ok(list) && text_views(list@) == lines,
            None => report == Err::<Vec<String>, ChainError>(ChainError::TimeFormat),
        },
{
    let roles = classify_chain(certs);
    let ghost views = certificate_views(certs@);
    let mut lines: Vec<String> = Vec::new();
    let mut i: usize = 0;
    assert(text_views(lines@) =~= Seq::empty());
    while i < certs.len()
        invariant
            i <= certs@.len(),
            roles@.len() == certs@.len(),
            views == certificate_views(certs@),
            forall|k: int| 0 <= k < certs@.len() ==> roles@[k] == #[trigger] role_at(views, k),
            chain_lines_upto(views, i as nat) == Some(text_views(lines@)),
        decreases certs@.len() - i,
    {
        let cert = &certs[i];
        let role = roles[i];
        assert(role == role_at(views, i as int));
        assert(views[i as int] == cert@);
        let after = format_utc_time(parse_x509_time(cert.not_before));
        let until = format_utc_time(parse_x509_time(cert.not_after));
        match (after, until) {
            (Some(after), Some(until)) => {
                let mut first = role_text(role);
                first.append(" Valid After:\t");
                first.append(after.as_str());
                let mut second = role_text(role);
                second.append(" Valid Until:\t");
                second.append(until.as_str());
                proof {
                    let old_lines = text_views(lines@);
                    assert(text_views(lines@.push(first).push(second)) =~= old_lines
                        + seq![first@, second@]);
                }
                lines.push(first);
                lines.push(second);
            },
            _ => {
                proof {
                    lemma_lines_fail_later(views, i as nat + 1, views.len());
                }
                return Err(ChainError::TimeFormat);
            },
        }
        i += 1;
    }
    Ok(lines)
}

/// Once a prefix of a chain cannot be rendered, no longer prefix can.
proof fn lemma_lines_fail_later(certs: Seq<CertificateView>, k: nat, n: nat)
    requires
        k <= n,
        chain_lines_upto(certs, k) is None,
    ensures
        chain_lines_upto(certs, n) is None,
    decreases n - k,
{
    if k < n {
        lemma_lines_fail_later(certs, k + 1, n);
    }
}

} // verus!

//! What a client shows of the answers it fetched: the chain report of an
//! X.509 fetch, and the pretty and JSON forms of a JWT fetch.

use vstd::prelude::*;
use vstd::string::*;
use crate::bundles::{bundle_views, distinct_domains, BundleSet};
use crate::chain::{
    chain_lines, parse_cert_chain, parsed_chain, render_chain, text_views, ChainError,
};
use crate::encoding::{
    base64_encode, base64_fits, base64_text, fits_base64, json_pretty, json_pretty_text,
    json_string, json_string_text, JsonFailure,
};
use crate::jwt::{JwtSvid, JwtSvidView};
use crate::svid::{X509Svid, X509SvidView};
use crate::text::{decimal_digits, decimal_string, same_text};

verus! {

/// Why an answer could not be shown.
#[derive(Clone, Copy, Debug, PartialEq, Eq, Structural)]
pub enum ReportError {
    /// A certificate chain could not be read or rendered.
    Chain(ChainError),
    /// A JWT bundle is no JSON document, or could not be laid out.
    Bundle(JsonFailure),
    /// A text could not be written as JSON.
    Encoding,
    /// A bundle is too long to be base64-encoded on this machine.
    TooLong,
    /// The output format is neither `pretty` nor `json`.
    UnsupportedOutput,
}

/// The lines that `item` gives for the indices below `k`, in order; the
/// first error where some index gives none.
pub open spec fn gathered<E>(item: spec_fn(int) -> Result<Seq<Seq<char>>, E>, k: nat) -> Result<
    Seq<Seq<char>>,
    E,
>
    decreases k,
{
    if k == 0 {
        Ok(Seq::empty())
    } else {
        match gathered(item, (k - 1) as nat) {
            Err(e) => Err(e),
            Ok(before) => match item(k - 1) {
                Err(e) => Err(e),
                Ok(lines) => Ok(before + lines),
            },
        }
    }
}

/// The first error stays the error however far the gathering goes.
pub proof fn lemma_gathered_error<E>(
    item: spec_fn(int) -> Result<Seq<Seq<char>>, E>,
    k: nat,
    n: nat,
)
    requires
        k <= n,
        gathered(item, k) is Err,
    ensures
        gathered(item, n) == gathered(item, k),
    decreases n - k,
{
    if k < n {
        lemma_gathered_error(item, k + 1, n);
    }
}

/// The texts that `item` gives for the indices below `k`, separated by
/// commas; `None` where some index gives none.
pub open spec fn joined(item: spec_fn(int) -> Option<Seq<char>>, k: nat) -> Option<Seq<char>>
    decreases k,
{
    if k == 0 {
        Some(Seq::empty())
    } else {
        match (joined(item, (k - 1) as nat), item(k - 1)) {
            (Some(before), Some(text)) => Some(
                if k == 1 {
                    text
                } else {
                    before + ","@ + text
                },
            ),
            _ => None,
        }
    }
}

/// Once a text is missing, the join is missing however far it goes.
pub proof fn lemma_joined_none(item: spec_fn(int) -> Option<Seq<char>>, k: nat, n: nat)
    requires
        k <= n,
        joined(item, k) is None,
    ensures
        joined(item, n) is None,
    decreases n - k,
{
    if k < n {
        lemma_joined_none(item, k + 1, n);
    }
}

/// The report of one X.509 SVID: its SPIFFE ID, then the validity of each
/// certificate of its chain.
pub open spec fn x509_svid_lines(svid: X509SvidView) -> Result<Seq<Seq<char>>, ReportError> {
    match parsed_chain(svid.x509_svid) {
        Err(e) => Err(ReportError::Chain(e)),
        Ok(certs) => match chain_lines(certs) {
            Some(lines) => Ok(seq!["SPIFFE ID:\t\t"@ + svid.spiffe_id] + lines),
            None => Err(ReportError::Chain(ChainError::TimeFormat)),
        },
    }
}

/// The views of a list of X.509 SVIDs.
pub open spec fn x509_svid_views(svids: Seq<X509Svid>) -> Seq<X509SvidView> {
    svids.map_values(|s: X509Svid| s@)
}

/// The report of an X.509 fetch: how many SVIDs came and after how many
/// milliseconds, an empty line, and the report of each SVID. Nothing is
/// shown if any chain cannot be shown.
pub open spec fn x509_response_lines(svids: Seq<X509SvidView>, elapsed_millis: Seq<char>) -> Result<
    Seq<Seq<char>>,
    ReportError,
> {
    match gathered(|i: int| x509_svid_lines(svids[i]), svids.len()) {
        Ok(lines) => Ok(
            seq![
                "Received "@ + decimal_digits(svids.len()) + " svid after "@ + elapsed_millis
                    + "ms"@,
                Seq::empty(),
            ] + lines,
        ),
        Err(e) => Err(e),
    }
}

/// Reports one X.509 SVID.
pub fn render_x509_svid(svid: &X509Svid) -> (report: Result<Vec<String>, ReportError>)
    ensures
        match x509_svid_lines(svid@) {
            Ok(lines) => report matches Ok(list) && text_views(list@) == lines,
            Err(e) => report == Err::<Vec<String>, ReportError>(e),
        },
{
    let certs = match parse_cert_chain(svid.x509_svid.as_slice()) {
        Ok(certs) => certs,
        Err(e) => {
            return Err(ReportError::Chain(e));
        },
    };
    let mut chain = match render_chain(&certs) {
        Ok(lines) => lines,
        Err(e) => {
            return Err(ReportError::Chain(e));
        },
    };
    let mut first = String::from_str("SPIFFE ID:\t\t");
    first.append(svid.spiffe_id.as_str());
    let mut lines: Vec<String> = Vec::new();
    lines.push(first);
    let ghost head = text_views(lines@);
    let ghost tail = text_views(chain@);
    assert(head =~= seq!["SPIFFE ID:\t\t"@ + svid@.spiffe_id]);
    lines.append(&mut chain);
    assert(text_views(lines@) =~= head + tail);
    Ok(lines)
}

/// Reports an X.509 fetch. `elapsed_millis` is the time that the fetch
/// took, already written out.
pub fn render_x509_response(svids: &Vec<X509Svid>, elapsed_millis: &str) -> (report: Result<
    Vec<String>,
    ReportError,
>)
    ensures
        match x509_response_lines(x509_svid_views(svids@), elapsed_millis@) {
            Ok(lines) => report matches Ok(list) && text_views(list@) == lines,
            Err(e) => report == Err::<Vec<String>, ReportError>(e),
        },
{
    let ghost views = x509_svid_views(svids@);
    let ghost item = |i: int| x509_svid_lines(views[i]);
    let mut header = String::from_str("Received ");
    header.append(decimal_string(svids.len() as u64).as_str());
    header.append(" svid after ");
    header.append(elapsed_millis);
    header.append("ms");
    let mut lines: Vec<String> = Vec::new();
    lines.push(header);
    lines.push(String::new());
    let ghost head = text_views(lines@);
    assert(head =~= seq![
        "Received "@ + decimal_digits(views.len()) + " svid after "@ + elapsed_millis@ + "ms"@,
        Seq::empty(),
    ]);
    let mut i: usize = 0;
    assert(text_views(lines@) =~= head + Seq::empty());
    while i < svids.len()
        invariant
            i <= svids@.len(),
            views == x509_svid_views(svids@),
            item == (|i: int| x509_svid_lines(views[i])),
            gathered(item, i as nat) matches Ok(done) && text_views(lines@) == head + done,
        decreases svids@.len() - i,
    {
        assert(views[i as int] == svids@[i as int]@);
        let ghost done = gathered(item, i as nat)->Ok_0;
        match render_x509_svid(&svids[i]) {
            Ok(more) => {
                let mut more = more;
                let ghost added = text_views(more@);
                let ghost before = text_views(lines@);
                lines.append(&mut more);
                assert(text_views(lines@) =~= before + added);
                assert(head + (done + added) =~= (head + done) + added);
            },
            Err(e) => {
                proof {
                    assert(gathered(item, i as nat + 1) == Err::<Seq<Seq<char>>, ReportError>(e));
                    lemma_gathered_error(item, i as nat + 1, views.len());
                }
                return Err(e);
            },
        }
        i += 1;
    }
    Ok(lines)
}

/// The words in which a bundle that cannot be shown is reported.
pub fn json_failure_message(failure: JsonFailure) -> (text: String)
    ensures
        text@ == match failure {
            JsonFailure::Parse => "failed to parse jwt bundle"@,
            JsonFailure::Format => "failed to format jwt bundle"@,
        },
{
    match failure {
        JsonFailure::Parse => String::from_str("failed to parse jwt bundle"),
        JsonFailure::Format => String::from_str("failed to format jwt bundle"),
    }
}

/// Lays a JWT bundle out with indentation.
pub fn format_bundle_pretty(bundle: &[u8]) -> (text: Result<String, JsonFailure>)
    ensures
        match json_pretty_text(bundle@) {
            Ok(t) => text matches Ok(s) && s@ == t,
            Err(e) => text == Err::<String, JsonFailure>(e),
        },
{
    json_pretty(bundle)
}

/// The views of a list of JWT SVIDs.
pub open spec fn jwt_svid_views(svids: Seq<JwtSvid>) -> Seq<JwtSvidView> {
    svids.map_values(|s: JwtSvid| s@)
}

/// The two lines that show a token.
pub open spec fn token_lines(svid: JwtSvidView) -> Result<Seq<Seq<char>>, ReportError> {
    Ok(seq!["token("@ + svid.spiffe_id + "):"@, "\t\t"@ + svid.svid])
}

/// The two lines that show a bundle.
pub open spec fn bundle_lines(bundle: (Seq<char>, Seq<u8>)) -> Result<
    Seq<Seq<char>>,
    ReportError,
> {
    match json_pretty_text(bundle.1) {
        Ok(pretty) => Ok(seq!["bundle("@ + bundle.0 + "):"@, "\t\t"@ + pretty]),
        Err(e) => Err(ReportError::Bundle(e)),
    }
}

/// The pretty form of a JWT fetch: each token, then each bundle, in the
/// order given.
pub open spec fn jwt_pretty_lines(
    svids: Seq<JwtSvidView>,
    bundles: Seq<(Seq<char>, Seq<u8>)>,
) -> Result<Seq<Seq<char>>, ReportError> {
    match (
        gathered(|i: int| token_lines(svids[i]), svids.len()),
        gathered(|i: int| bundle_lines(bundles[i]), bundles.len()),
    ) {
        (Ok(tokens), Ok(rest)) => Ok(tokens + rest),
        (Err(e), _) => Err(e),
        (_, Err(e)) => Err(e),
    }
}

/// Shows a JWT fetch in the pretty form.
pub fn render_jwt_pretty(svids: &Vec<JwtSvid>, bundles: &BundleSet) -> (report: Result<
    Vec<String>,
    ReportError,
>)
    ensures
        distinct_domains(bundles@),
        match jwt_pretty_lines(jwt_svid_views(svids@), bundles@) {
            Ok(lines) => report matches Ok(list) && text_views(list@) == lines,
            Err(e) => report == Err::<Vec<String>, ReportError>(e),
        },
{
    let entries = bundles.entries();
    let ghost tokens = jwt_svid_views(svids@);
    let ghost token_item = |i: int| token_lines(tokens[i]);
    let mut lines: Vec<String> = Vec::new();
    let mut i: usize = 0;
    assert(text_views(lines@) =~= Seq::empty());
    while i < svids.len()
        invariant
            i <= svids@.len(),
            tokens == jwt_svid_views(svids@),
            token_item == (|i: int| token_lines(tokens[i])),
            distinct_domains(bundles@),
            gathered(token_item, i as nat) == Ok::<Seq<Seq<char>>, ReportError>(
                text_views(lines@),
            ),
        decreases svids@.len() - i,
    {
        let svid = &svids[i];
        assert(tokens[i as int] == svid@);
        let mut first = String::from_str("token(");
        first.append(svid.spiffe_id.as_str());
        first.append("):");
        let mut second = String::from_str("\t\t");
        second.append(svid.svid.as_str());
        let ghost before = text_views(lines@);
        lines.push(first);
        lines.push(second);
        assert(text_views(lines@) =~= before + seq![first@, second@]);
        i += 1;
    }
    let ghost shown = text_views(lines@);
    let ghost views = bundles@;
    let ghost item = |i: int| bundle_lines(views[i]);
    let mut j: usize = 0;
    assert(text_views(lines@) =~= shown + Seq::empty());
    while j < entries.len()
        invariant
            j <= entries@.len(),
            views == bundle_views(entries@),
            views == bundles@,
            distinct_domains(bundles@),
            item == (|i: int| bundle_lines(views[i])),
            tokens == jwt_svid_views(svids@),
            token_item == (|i: int| token_lines(tokens[i])),
            gathered(token_item, tokens.len()) == Ok::<Seq<Seq<char>>, ReportError>(shown),
            gathered(item, j as nat) matches Ok(done) && text_views(lines@) == shown + done,
        decreases entries@.len() - j,
    {
        let bundle = &entries[j];
        assert(views[j as int] == (bundle.0@, bundle.1@));
        let ghost done = gathered(item, j as nat)->Ok_0;
        match format_bundle_pretty(bundle.1.as_slice()) {
            Ok(pretty) => {
                let mut first = String::from_str("bundle(");
                first.append(bundle.0.as_str());
                first.append("):");
                let mut second = String::from_str("\t\t");
                second.append(pretty.as_str());
                let ghost before = text_views(lines@);
                lines.push(first);
                lines.push(second);
                assert(text_views(lines@) =~= before + seq![first@, second@]);
                assert(shown + (done + seq![first@, second@]) =~= (shown + done)
                    + seq![first@, second@]);
            },
            Err(e) => {
                proof {
                    assert(gathered(item, j as nat + 1) == Err::<Seq<Seq<char>>, ReportError>(
                        ReportError::Bundle(e),
                    ));
                    lemma_gathered_error(item, j as nat + 1, views.len());
                }
                return Err(ReportError::Bundle(e));
            },
        }
        j += 1;
    }
    Ok(lines)
}

/// One token as a JSON object: hint, SPIFFE ID and token, in that order.
pub open spec fn token_json(svid: JwtSvidView) -> Option<Seq<char>> {
    match (
        json_string_text(svid.hint),
        json_string_text(svid.spiffe_id),
        json_string_text(svid.svid),
    ) {
        (Some(hint), Some(id), Some(token)) => Some(
            "{\"hint\":"@ + hint + ",\"spiffe_id\":"@ + id + ",\"svid\":"@ + token + "}"@,
        ),
        _ => None,
    }
}

/// One bundle as a member of a JSON object: the trust domain, a colon and
/// the standard base64 text of the bundle. Members are written for a list
/// in which no trust domain occurs twice, so no member name is repeated.
pub open spec fn bundle_json(bundle: (Seq<char>, Seq<u8>)) -> Option<Seq<char>> {
    match (json_string_text(bundle.0), json_string_text(base64_text(bundle.1))) {
        (Some(name), Some(text)) => Some(name + ":"@ + text),
        _ => None,
    }
}

/// Whether every bundle can be base64-encoded on this machine.
pub open spec fn bundles_fit(bundles: Seq<(Seq<char>, Seq<u8>)>) -> bool {
    forall|i: int| 0 <= i < bundles.len() ==> base64_fits((#[trigger] bundles[i]).1.len())
}

/// The JSON form of a JWT fetch: an array of two objects, one with the
/// tokens and one with the bundles by trust domain, each in the order
/// given, on one line.
pub open spec fn jwt_json_text(
    svids: Seq<JwtSvidView>,
    bundles: Seq<(Seq<char>, Seq<u8>)>,
) -> Result<Seq<char>, ReportError> {
    if !bundles_fit(bundles) {
        Err(ReportError::TooLong)
    } else {
        match (
            joined(|i: int| token_json(svids[i]), svids.len()),
            joined(|i: int| bundle_json(bundles[i]), bundles.len()),
        ) {
            (Some(tokens), Some(members)) => Ok(
                "[{\"svids\":["@ + tokens + "]},{\"bundles\":{"@ + members + "}}]"@,
            ),
            _ => Err(ReportError::Encoding),
        }
    }
}

/// Writes one token as a JSON object.
fn write_token_json(svid: &JwtSvid) -> (text: Option<String>)
    ensures
        match token_json(svid@) {
            Some(t) => text matches Some(s) && s@ == t,
            None => text is None,
        },
{
    let hint = json_string(svid.hint.as_str());
    let id = json_string(svid.spiffe_id.as_str());
    let token = json_string(svid.svid.as_str());
    match (hint, id, token) {
        (Some(hint), Some(id), Some(token)) => {
            let mut text = String::from_str("{\"hint\":");
            text.append(hint.as_str());
            text.append(",\"spiffe_id\":");
            text.append(id.as_str());
            text.append(",\"svid\":");
            text.append(token.as_str());
            text.append("}");
            Some(text)
        },
        _ => None,
    }
}

/// Writes one bundle as a member of a JSON object.
fn write_bundle_json(name: &str, bundle: &[u8]) -> (text: Option<String>)
    requires
        base64_fits(bundle@.len()),
    ensures
        match bundle_json((name@, bundle@)) {
            Some(t) => text matches Some(s) && s@ == t,
            None => text is None,
        },
{
    let key = json_string(name);
    let encoded = base64_encode(bundle);
    let value = json_string(encoded.as_str());
    match (key, value) {
        (Some(key), Some(value)) => {
            let mut text = key;
            text.append(":");
            text.append(value.as_str());
            Some(text)
        },
        _ => None,
    }
}

/// Whether every bundle can be base64-encoded on this machine.
fn all_bundles_fit(bundles: &Vec<(String, Vec<u8>)>) -> (fit: bool)
    ensures
        fit == bundles_fit(bundle_views(bundles@)),
{
    let ghost views = bundle_views(bundles@);
    let mut i: usize = 0;
    while i < bundles.len()
        invariant
            i <= bundles@.len(),
            views == bundle_views(bundles@),
            forall|k: int| 0 <= k < i ==> base64_fits((#[trigger] views[k]).1.len()),
        decreases bundles@.len() - i,
    {
        assert(views[i as int].1 == bundles@[i as int].1@);
        if !fits_base64(bundles[i].1.as_slice()) {
            return false;
        }
        i += 1;
    }
    true
}

/// Shows a JWT fetch in the JSON form.
pub fn render_jwt_json(svids: &Vec<JwtSvid>, bundles: &BundleSet) -> (report: Result<
    String,
    ReportError,
>)
    ensures
        distinct_domains(bundles@),
        match jwt_json_text(jwt_svid_views(svids@), bundles@) {
            Ok(text) => report matches Ok(s) && s@ == text,
            Err(e) => report == Err::<String, ReportError>(e),
        },
{
    let entries = bundles.entries();
    if !all_bundles_fit(entries) {
        return Err(ReportError::TooLong);
    }
    let ghost tokens = jwt_svid_views(svids@);
    let ghost token_item = |i: int| token_json(tokens[i]);
    let ghost views = bundles@;
    let ghost item = |i: int| bundle_json(views[i]);
    let mut text = String::from_str("[{\"svids\":[");
    let ghost open = text@;
    let mut i: usize = 0;
    assert(text@ =~= open + Seq::empty());
    while i < svids.len()
        invariant
            i <= svids@.len(),
            tokens == jwt_svid_views(svids@),
            token_item == (|i: int| token_json(tokens[i])),
            views == bundle_views(entries@),
            views == bundles@,
            distinct_domains(bundles@),
            bundles_fit(views),
            joined(token_item, i as nat) matches Some(done) && text@ == open + done,
        decreases svids@.len() - i,
    {
        assert(tokens[i as int] == svids@[i as int]@);
        let ghost done = joined(token_item, i as nat)->Some_0;
        match write_token_json(&svids[i]) {
            Some(token) => {
                if i > 0 {
                    text.append(",");
                }
                text.append(token.as_str());
                proof {
                    reveal_strlit(",");
                    if i == 0 {
                        assert(done =~= Seq::empty());
                        assert(text@ =~= open + token@);
                    } else {
                        assert(text@ =~= open + (done + ","@ + token@));
                    }
                }
            },
            None => {
                proof {
                    assert(joined(token_item, i as nat + 1) is None);
                    lemma_joined_none(token_item, i as nat + 1, tokens.len());
                }
                return Err(ReportError::Encoding);
            },
        }
        i += 1;
    }
    let ghost token_text = joined(token_item, tokens.len())->Some_0;
    text.append("]},{\"bundles\":{");
    let ghost middle = text@;
    let mut j: usize = 0;
    assert(text@ =~= middle + Seq::empty());
    while j < entries.len()
        invariant
            j <= entries@.len(),
            views == bundle_views(entries@),
            views == bundles@,
            distinct_domains(bundles@),
            bundles_fit(views),
            item == (|i: int| bundle_json(views[i])),
            tokens == jwt_svid_views(svids@),
            token_item == (|i: int| token_json(tokens[i])),
            joined(token_item, tokens.len()) == Some(token_text),
            middle == "[{\"svids\":["@ + token_text + "]},{\"bundles\":{"@,
            joined(item, j as nat) matches Some(done) && text@ == middle + done,
        decreases entries@.len() - j,
    {
        let bundle = &entries[j];
        assert(views[j as int] == (bundle.0@, bundle.1@));
        let ghost done = joined(item, j as nat)->Some_0;
        match write_bundle_json(bundle.0.as_str(), bundle.1.as_slice()) {
            Some(member) => {
                if j > 0 {
                    text.append(",");
                }
                text.append(member.as_str());
                proof {
                    reveal_strlit(",");
                    if j == 0 {
                        assert(done =~= Seq::empty());
                        assert(text@ =~= middle + member@);
                    } else {
                        assert(text@ =~= middle + (done + ","@ + member@));
                    }
                }
            },
            None => {
                proof {
                    assert(joined(item, j as nat + 1) is None);
                    lemma_joined_none(item, j as nat + 1, views.len());
                }
                return Err(ReportError::Encoding);
            },
        }
        j += 1;
    }
    text.append("}}]");
    Ok(text)
}

/// What a JWT fetch shows under an output format: under `pretty` the
/// pretty lines, under `json` the one JSON line; no other format is known.
pub open spec fn jwt_report(
    output: Seq<char>,
    svids: Seq<JwtSvidView>,
    bundles: Seq<(Seq<char>, Seq<u8>)>,
) -> Result<Seq<Seq<char>>, ReportError> {
    if output == "pretty"@ {
        jwt_pretty_lines(svids, bundles)
    } else if output == "json"@ {
        match jwt_json_text(svids, bundles) {
            Ok(text) => Ok(seq![text]),
            Err(e) => Err(e),
        }
    } else {
        Err(ReportError::UnsupportedOutput)
    }
}

/// Shows a JWT fetch in the output format asked for.
pub fn render_jwt(output: &str, svids: &Vec<JwtSvid>, bundles: &BundleSet) -> (report: Result<
    Vec<String>,
    ReportError,
>)
    ensures
        distinct_domains(bundles@),
        match jwt_report(output@, jwt_svid_views(svids@), bundles@) {
            Ok(lines) => report matches Ok(list) && text_views(list@) == lines,
            Err(e) => report == Err::<Vec<String>, ReportError>(e),
        },
{
    let _ = bundles.len();
    if same_text(output, "pretty") {
        render_jwt_pretty(svids, bundles)
    } else if same_text(output, "json") {
        match render_jwt_json(svids, bundles) {
            Ok(text) => {
                let mut lines: Vec<String> = Vec::new();
                lines.push(text);
                assert(text_views(lines@) =~= seq![text@]);
                Ok(lines)
            },
            Err(e) => Err(e),
        }
    } else {
        Err(ReportError::UnsupportedOutput)
    }
}

/// The words in which an unknown output format is refused.
pub fn unsupported_output_message(output: &str) -> (text: String)
    ensures
        text@ == "unsupported output format: "@ + output@,
{
    let mut text = String::from_str("unsupported output format: ");
    text.append(output);
    text
}

} // verus!

//! The serving side of the Workload API: what each method answers, and the
//! life of a call from admission through the pushes of a stream to its end.

use vstd::prelude::*;
use vstd::string::*;
use crate::auth::{admission, values_view, verify_security_header, AuthError};
use crate::duration::TimeSpan;
use crate::profile::{trust_domain_uri, trust_domain_uri_text};
use crate::bundles::BundleSet;
use crate::jwt::{audience_view, issued_jwt, JwtSvid, JwtSvidView};
use crate::svid::{
    assembled_svid, well_formed_svid, SvidConfig, SvidError, SvidGenerator, X509Svid, X509SvidView,
};

verus! {

/// The answer to a fetch of X.509 SVIDs.
pub struct X509SvidResponse {
    pub svids: Vec<X509Svid>,
    pub crl: Vec<Vec<u8>>,
    /// Bundles of other trust domains, by trust domain.
    pub federated_bundles: BundleSet,
}

/// The answer to a fetch of X.509 bundles.
pub struct X509BundlesResponse {
    pub crl: Vec<Vec<u8>>,
    /// Bundles by the URI of their trust domain.
    pub bundles: BundleSet,
}

/// The answer to a fetch of JWT SVIDs.
pub struct JwtSvidResponse {
    pub svids: Vec<JwtSvid>,
}

/// Wraps one SVID for the wire: no revocation list, no federated bundle.
pub fn x509_svid_response(svid: X509Svid) -> (response: X509SvidResponse)
    ensures
        response.svids@ == seq![svid],
        response.crl@.len() == 0,
        response.federated_bundles@.len() == 0,
{
    let mut svids: Vec<X509Svid> = Vec::new();
    svids.push(svid);
    X509SvidResponse { svids, crl: Vec::new(), federated_bundles: BundleSet::new() }
}

/// Wraps the bundle of one trust domain for the wire, under the URI of the
/// trust domain and without a revocation list.
pub fn x509_bundles_response(trust_domain: &str, bundle: Vec<u8>) -> (response:
    X509BundlesResponse)
    ensures
        response.crl@.len() == 0,
        response.bundles@ == seq![(trust_domain_uri_text(trust_domain@), bundle@)],
{
    X509BundlesResponse {
        crl: Vec::new(),
        bundles: BundleSet::single(trust_domain_uri(trust_domain), bundle),
    }
}

/// Wraps one JWT SVID for the wire.
pub fn jwt_svid_response(svid: JwtSvid) -> (response: JwtSvidResponse)
    ensures
        response.svids@ == seq![svid],
{
    let mut svids: Vec<JwtSvid> = Vec::new();
    svids.push(svid);
    JwtSvidResponse { svids }
}

/// Whether `svid` is what the authority hands out for some freshly issued
/// leaf and key: the leaf put together with the authority's certificates,
/// for the authority's workload.
pub open spec fn issued_by(generator: SvidGenerator, svid: X509SvidView) -> bool {
    exists|leaf: Seq<u8>, key: Seq<u8>|
        #[trigger] assembled_svid(
            generator.spec_workload_spiffe_id(),
            leaf,
            key,
            generator.intermediate_der(),
            generator.root_der(),
        ) == Ok::<X509SvidView, SvidError>(svid)
}

/// Issues an X.509 SVID and wraps it for the wire.
///
/// The fetch fails exactly as the issuance does: with `InvalidIdentifier`
/// where the workload's SPIFFE ID is not ASCII, and else as the clock, the
/// key generator and the encoder decide. An answer holds the one SVID that
/// was issued, and nothing else.
pub fn fetch_x509_svid(generator: &SvidGenerator) -> (response: Result<
    X509SvidResponse,
    SvidError,
>)
    ensures
        response matches Ok(r) ==> r.svids@.len() == 1 && r.crl@.len() == 0
            && r.federated_bundles@.len() == 0 && r.svids@[0]@.spiffe_id
            == generator.spec_workload_spiffe_id() && r.svids@[0]@.bundle == generator.root_der()
            && r.svids@[0]@.hint == Seq::<char>::empty() && well_formed_svid(r.svids@[0]@)
            && issued_by(*generator, r.svids@[0]@),
        (response matches Err(e) && e == SvidError::InvalidIdentifier)
            <==> !vstd::utf8::is_ascii_chars(generator.spec_workload_spiffe_id()),
{
    match generator.generate_svid() {
        Ok(svid) => Ok(x509_svid_response(svid)),
        Err(e) => Err(e),
    }
}

/// Wraps the authority's trust bundle for the wire. The bundle is the
/// same at every push.
pub fn fetch_x509_bundles(generator: &SvidGenerator) -> (response: X509BundlesResponse)
    ensures
        response.crl@.len() == 0,
        response.bundles@ == seq![
            (trust_domain_uri_text(generator.config().trust_domain), generator.root_der()),
        ],
{
    x509_bundles_response(generator.trust_domain(), generator.bundle())
}

/// What an answer to a JWT fetch amounts to: the one SVID that it holds,
/// or the error.
pub open spec fn jwt_answer_view(response: Result<JwtSvidResponse, SvidError>) -> Result<
    JwtSvidView,
    SvidError,
> {
    match response {
        Ok(r) => Ok(r.svids@[0]@),
        Err(e) => Err(e),
    }
}

/// Issues a JWT SVID and wraps it for the wire. An empty subject stands
/// for none, so that the token is for the authority's workload.
///
/// Whatever the clock shows, the answer is what the authority issues at
/// some moment for this audience and subject: one SVID, or the error of
/// the issuance. An empty audience, and nothing else, is refused as such.
pub fn fetch_jwt_svid(generator: &SvidGenerator, audience: &[String], spiffe_id: &str) -> (response:
    Result<JwtSvidResponse, SvidError>)
    ensures
        response matches Ok(r) ==> r.svids@.len() == 1,
        exists|now: int|
            i64::MIN <= now <= i64::MAX && jwt_answer_view(response) == #[trigger] issued_jwt(
                generator.jwt_key(),
                generator.kid(),
                generator.spec_workload_spiffe_id(),
                generator.config().ttl_seconds as int,
                audience_view(audience@),
                Some(spiffe_id@),
                now,
            ),
        (response matches Err(e) && e == SvidError::EmptyAudience) <==> audience@.len() == 0,
{
    match generator.generate_jwt_svid(audience, Some(spiffe_id)) {
        Ok(svid) => Ok(jwt_svid_response(svid)),
        Err(e) => Err(e),
    }
}

/// The methods of the Workload API.
#[derive(Clone, Copy, Debug, PartialEq, Eq, Structural)]
pub enum RpcMethod {
    FetchX509Svid,
    FetchX509Bundles,
    FetchJwtSvid,
    FetchJwtBundles,
    ValidateJwtSvid,
}

/// How a method answers.
#[derive(Clone, Copy, Debug, PartialEq, Eq, Structural)]
pub enum MethodKind {
    /// The server pushes an answer at once and again after every rotation
    /// interval, until the call ends.
    Stream,
    /// The server answers once.
    Unary,
    /// The server does not offer the method.
    Unimplemented,
}

/// How each method answers.
pub open spec fn method_kind_of(method: RpcMethod) -> MethodKind {
    match method {
        RpcMethod::FetchX509Svid => MethodKind::Stream,
        RpcMethod::FetchX509Bundles => MethodKind::Stream,
        RpcMethod::FetchJwtSvid => MethodKind::Unary,
        RpcMethod::FetchJwtBundles => MethodKind::Unimplemented,
        RpcMethod::ValidateJwtSvid => MethodKind::Unimplemented,
    }
}

/// How a method answers.
pub fn method_kind(method: RpcMethod) -> (kind: MethodKind)
    ensures
        kind == method_kind_of(method),
{
    match method {
        RpcMethod::FetchX509Svid => MethodKind::Stream,
        RpcMethod::FetchX509Bundles => MethodKind::Stream,
        RpcMethod::FetchJwtSvid => MethodKind::Unary,
        RpcMethod::FetchJwtBundles => MethodKind::Unimplemented,
        RpcMethod::ValidateJwtSvid => MethodKind::Unimplemented,
    }
}

/// The words with which a method that is not offered is refused.
pub fn not_implemented_message() -> (text: &'static str)
    ensures
        text@ == "not implemented"@,
{
    "not implemented"
}

/// Where a call stands.
#[derive(Clone, Copy, Debug, PartialEq, Eq, Structural)]
pub enum CallState {
    /// The call has arrived; its metadata has not been looked at.
    Unauthenticated,
    /// The call is admitted; the method has not begun.
    Authenticated,
    /// An answer is being made and sent.
    Streaming,
    /// The last answer is out; the next is due after the rotation interval.
    Idle,
    /// The call is over.
    Closed,
}

/// What happens to a call.
pub enum CallEvent {
    /// The metadata has arrived; these are the values under the security
    /// header's name, one for each copy.
    Metadata(Vec<Vec<u8>>),
    /// The method begins.
    Begin,
    /// The answer has been handed to the transport.
    Sent,
    /// The rotation interval has passed.
    Woke,
    /// The peer has gone or the call was cancelled.
    Cancelled,
}

/// What a `CallEvent` holds.
pub enum CallEventView {
    Metadata(Seq<Seq<u8>>),
    Begin,
    Sent,
    Woke,
    Cancelled,
}

impl View for CallEvent {
    type V = CallEventView;

    open spec fn view(&self) -> CallEventView {
        match *self {
            CallEvent::Metadata(values) => CallEventView::Metadata(values_view(values@)),
            CallEvent::Begin => CallEventView::Begin,
            CallEvent::Sent => CallEventView::Sent,
            CallEvent::Woke => CallEventView::Woke,
            CallEvent::Cancelled => CallEventView::Cancelled,
        }
    }
}

/// What the server is to do next for a call.
#[derive(Clone, Copy, Debug, PartialEq, Eq, Structural)]
pub enum CallAction {
    /// Go on to the method.
    Admit,
    /// Turn the call away with this error.
    Reject(AuthError),
    /// Refuse the method as not implemented.
    Refuse,
    /// Make an answer and send it.
    Push,
    /// Make the one answer, send it and end the call.
    Respond,
    /// Wait for the rotation interval.
    Sleep(TimeSpan),
    /// Release what the call holds.
    Stop,
    /// Nothing: the event does not concern the call as it stands.
    Ignore,
}

/// The life of a call: admission first, then the method; a stream pushes
/// at once and after every rotation interval until the call is cancelled.
pub open spec fn call_step(
    method: RpcMethod,
    rotation_interval: TimeSpan,
    state: CallState,
    event: CallEventView,
) -> (CallState, CallAction) {
    match (state, event) {
        (CallState::Closed, _) => (CallState::Closed, CallAction::Ignore),
        (_, CallEventView::Cancelled) => (CallState::Closed, CallAction::Stop),
        (CallState::Unauthenticated, CallEventView::Metadata(values)) => match admission(values) {
            Ok(()) => (CallState::Authenticated, CallAction::Admit),
            Err(e) => (CallState::Closed, CallAction::Reject(e)),
        },
        (CallState::Authenticated, CallEventView::Begin) => match method_kind_of(method) {
            MethodKind::Stream => (CallState::Streaming, CallAction::Push),
            MethodKind::Unary => (CallState::Closed, CallAction::Respond),
            MethodKind::Unimplemented => (CallState::Closed, CallAction::Refuse),
        },
        (CallState::Streaming, CallEventView::Sent) => (
            CallState::Idle,
            CallAction::Sleep(rotation_interval),
        ),
        (CallState::Idle, CallEventView::Woke) => (CallState::Streaming, CallAction::Push),
        _ => (state, CallAction::Ignore),
    }
}

/// Decides what the server does next for a call.
pub fn next_call_step(
    method: RpcMethod,
    rotation_interval: TimeSpan,
    state: CallState,
    event: &CallEvent,
) -> (next: (CallState, CallAction))
    ensures
        next == call_step(method, rotation_interval, state, event@),
{
    match state {
        CallState::Closed => {
            return (CallState::Closed, CallAction::Ignore);
        },
        _ => {},
    }
    match event {
        CallEvent::Cancelled => (CallState::Closed, CallAction::Stop),
        CallEvent::Metadata(values) => match state {
            CallState::Unauthenticated => match verify_security_header(values) {
                Ok(()) => (CallState::Authenticated, CallAction::Admit),
                Err(e) => (CallState::Closed, CallAction::Reject(e)),
            },
            _ => (state, CallAction::Ignore),
        },
        CallEvent::Begin => match state {
            CallState::Authenticated => match method_kind(method) {
                MethodKind::Stream => (CallState::Streaming, CallAction::Push),
                MethodKind::Unary => (CallState::Closed, CallAction::Respond),
                MethodKind::Unimplemented => (CallState::Closed, CallAction::Refuse),
            },
            _ => (state, CallAction::Ignore),
        },
        CallEvent::Sent => match state {
            CallState::Streaming => (CallState::Idle, CallAction::Sleep(rotation_interval)),
            _ => (state, CallAction::Ignore),
        },
        CallEvent::Woke => match state {
            CallState::Idle => (CallState::Streaming, CallAction::Push),
            _ => (state, CallAction::Ignore),
        },
    }
}

/// Where a call stands after a run of events, from its arrival on.
pub open spec fn call_state_after(
    method: RpcMethod,
    rotation_interval: TimeSpan,
    events: Seq<CallEventView>,
) -> CallState
    decreases events.len(),
{
    if events.len() == 0 {
        CallState::Unauthenticated
    } else {
        call_step(
            method,
            rotation_interval,
            call_state_after(method, rotation_interval, events.drop_last()),
            events.last(),
        ).0
    }
}

/// Whether some event of a run brought metadata that is admitted.
pub open spec fn was_admitted(events: Seq<CallEventView>) -> bool {
    exists|i: int|
        0 <= i < events.len() && (#[trigger] events[i] matches CallEventView::Metadata(values)
            && admission(values) is Ok)
}

/// No call gets past admission without the security header: whatever the
/// events, a call that stands admitted, streaming or idle has shown
/// metadata that is admitted, and only a call to a streaming method ever
/// streams or idles.
pub proof fn lemma_no_service_without_admission(
    method: RpcMethod,
    rotation_interval: TimeSpan,
    events: Seq<CallEventView>,
)
    ensures
        ({
            let state = call_state_after(method, rotation_interval, events);
            &&& (state == CallState::Authenticated || state == CallState::Streaming || state
                == CallState::Idle) ==> was_admitted(events)
            &&& (state == CallState::Streaming || state == CallState::Idle) ==> method_kind_of(
                method,
            ) == MethodKind::Stream
        }),
    decreases events.len(),
{
    if events.len() > 0 {
        let before = events.drop_last();
        lemma_no_service_without_admission(method, rotation_interval, before);
        let state = call_state_after(method, rotation_interval, events);
        if state == CallState::Authenticated || state == CallState::Streaming || state
            == CallState::Idle {
            if was_admitted(before) {
                let i = choose|i: int|
                    0 <= i < before.len() && (#[trigger] before[i] matches CallEventView::Metadata(
                        values,
                    ) && admission(values) is Ok);
                assert(events[i] == before[i]);
            } else {
                assert(events[events.len() - 1] == events.last());
            }
        }
    }
}

/// A call that is over stays over, and asks for nothing more.
pub proof fn lemma_closed_is_final(
    method: RpcMethod,
    rotation_interval: TimeSpan,
    event: CallEventView,
)
    ensures
        call_step(method, rotation_interval, CallState::Closed, event) == (
            CallState::Closed,
            CallAction::Ignore,
        ),
{
}

/// Pushes of a stream are paced by the rotation interval: a push is asked
/// for only when the method begins and when the interval has passed, and
/// after each answer the server is told to wait for exactly the interval.
pub proof fn lemma_push_cadence(
    method: RpcMethod,
    rotation_interval: TimeSpan,
    state: CallState,
    event: CallEventView,
)
    ensures
        ({
            let (next, action) = call_step(method, rotation_interval, state, event);
            &&& action == CallAction::Push ==> next == CallState::Streaming && ((state
                == CallState::Authenticated && event == CallEventView::Begin) || (state
                == CallState::Idle && event == CallEventView::Woke))
            &&& (state == CallState::Streaming && event == CallEventView::Sent) ==> next
                == CallState::Idle && action == CallAction::Sleep(rotation_interval)
            &&& action is Sleep ==> state == CallState::Streaming && action == CallAction::Sleep(
                rotation_interval,
            )
        }),
{
}

/// The socket that the server listens on unless another is named.
pub const DEFAULT_SOCKET_PATH: &'static str = "/tmp/agent.sock";

/// The rotation interval unless another is given, in seconds.
pub const DEFAULT_ROTATION_SECONDS: u64 = 30;

/// The service behind the Workload API: an authority for the default
/// workload, and the interval at which streams push.
pub struct MockWorkloadApi {
    svid_generator: SvidGenerator,
    rotation_interval: TimeSpan,
}

impl MockWorkloadApi {
    /// The authority that the service issues from.
    pub closed spec fn generator(&self) -> SvidGenerator {
        self.svid_generator
    }

    /// The interval at which streams push.
    pub closed spec fn interval(&self) -> TimeSpan {
        self.rotation_interval
    }

    /// Makes the service, with a fresh authority for the default workload.
    /// It fails only where the authority cannot be made.
    pub fn with_rotation_interval(rotation_interval: TimeSpan) -> (service: Result<
        MockWorkloadApi,
        SvidError,
    >)
        ensures
            service matches Ok(s) ==> s.interval() == rotation_interval && s.generator().config()
                == SvidConfig::default_view(),
            service matches Err(e) ==> crate::svid::is_authority_error(e),
    {
        let config = SvidConfig::default();
        match SvidGenerator::new(config) {
            Ok(svid_generator) => Ok(MockWorkloadApi { svid_generator, rotation_interval }),
            Err(e) => Err(e),
        }
    }

    /// The interval at which streams push.
    pub fn rotation_interval(&self) -> (interval: TimeSpan)
        ensures
            interval == self.interval(),
    {
        self.rotation_interval
    }

    /// One push of the X.509 SVID stream: a fresh SVID of the service's
    /// authority, wrapped for the wire.
    ///
    /// The push fails with `InvalidIdentifier` exactly where the workload's
    /// SPIFFE ID is not ASCII, and else as the clock, the key generator and
    /// the encoder decide. An answer holds one SVID and nothing else: the
    /// SVID is for the authority's workload, carries the root as its bundle
    /// and no hint, and is a freshly issued leaf put together with the
    /// authority's certificates, so the root is nowhere in its chain and
    /// its leaf declares itself an end entity.
    pub fn fetch_x509svid(&self) -> (response: Result<X509SvidResponse, SvidError>)
        ensures
            response matches Ok(r) ==> r.svids@.len() == 1 && r.crl@.len() == 0
                && r.federated_bundles@.len() == 0 && r.svids@[0]@.spiffe_id
                == self.generator().spec_workload_spiffe_id() && r.svids@[0]@.bundle
                == self.generator().root_der() && r.svids@[0]@.hint == Seq::<char>::empty()
                && well_formed_svid(r.svids@[0]@) && issued_by(self.generator(), r.svids@[0]@),
            (response matches Err(e) && e == SvidError::InvalidIdentifier)
                <==> !vstd::utf8::is_ascii_chars(self.generator().spec_workload_spiffe_id()),
    {
        fetch_x509_svid(&self.svid_generator)
    }

    /// One push of the X.509 bundle stream.
    pub fn fetch_x509_bundles(&self) -> (response: X509BundlesResponse)
        ensures
            response.crl@.len() == 0,
            response.bundles@ == seq![
                (
                    trust_domain_uri_text(self.generator().config().trust_domain),
                    self.generator().root_der(),
                ),
            ],
    {
        fetch_x509_bundles(&self.svid_generator)
    }

    /// The answer to a fetch of a JWT SVID. An empty subject stands for
    /// none, so that the token is for the authority's workload.
    ///
    /// Whatever the clock shows, the answer is what the service's
    /// authority issues at some moment for this audience and subject: one
    /// SVID, or the error of the issuance. An empty audience, and nothing
    /// else, is refused as such.
    pub fn fetch_jwtsvid(&self, audience: &[String], spiffe_id: &str) -> (response: Result<
        JwtSvidResponse,
        SvidError,
    >)
        ensures
            response matches Ok(r) ==> r.svids@.len() == 1,
            exists|now: int|
                i64::MIN <= now <= i64::MAX && jwt_answer_view(response) == #[trigger] issued_jwt(
                    self.generator().jwt_key(),
                    self.generator().kid(),
                    self.generator().spec_workload_spiffe_id(),
                    self.generator().config().ttl_seconds as int,
                    audience_view(audience@),
                    Some(spiffe_id@),
                    now,
                ),
            (response matches Err(e) && e == SvidError::EmptyAudience) <==> audience@.len() == 0,
    {
        assert(self.generator() == self.svid_generator);
        fetch_jwt_svid(&self.svid_generator, audience, spiffe_id)
    }

    /// Decides what the server does next for a call to `method`.
    pub fn next_step(&self, method: RpcMethod, state: CallState, event: &CallEvent) -> (next: (
        CallState,
        CallAction,
    ))
        ensures
            next == call_step(method, self.interval(), state, event@),
    {
        next_call_step(method, self.rotation_interval, state, event)
    }
}

} // verus!

//! The fetching side of the Workload API: which calls a fetch makes, how
//! each runs through connecting, calling and receiving under its timeouts,
//! and how a liveness probe is built from the same steps.

use vstd::prelude::*;
use vstd::string::*;
use crate::server::{method_kind, method_kind_of, MethodKind, RpcMethod};

verus! {

/// Why a fetch failed. Each stage of a fetch fails in its own way, and a
/// timeout at one stage is told apart from a timeout at another.
#[derive(Clone, Copy, Debug, PartialEq, Eq, Structural)]
pub enum FetchError {
    /// The audience of a JWT fetch is empty; nothing was sent.
    MissingAudience,
    /// The transport did not accept a connection in time.
    ConnectTimedOut,
    /// The transport refused the connection.
    ConnectFailed,
    /// The call was not taken up in time.
    CallTimedOut(RpcMethod),
    /// The call was answered with an error.
    CallFailed(RpcMethod),
    /// No message came in time.
    MessageTimedOut(RpcMethod),
    /// The stream broke before a message came.
    MessageFailed(RpcMethod),
    /// The stream ended without a message, or the answer holds no SVID.
    EmptyResponse(RpcMethod),
}

/// The stage of a fetch.
#[derive(Clone, Copy, Debug, PartialEq, Eq, Structural)]
pub enum FetchStage {
    /// Before anything is sent.
    Request,
    Connect,
    Call,
    Message,
}

/// The stage at which an error arises.
pub open spec fn stage_of(error: FetchError) -> FetchStage {
    match error {
        FetchError::MissingAudience => FetchStage::Request,
        FetchError::ConnectTimedOut => FetchStage::Connect,
        FetchError::ConnectFailed => FetchStage::Connect,
        FetchError::CallTimedOut(_) => FetchStage::Call,
        FetchError::CallFailed(_) => FetchStage::Call,
        FetchError::MessageTimedOut(_) => FetchStage::Message,
        FetchError::MessageFailed(_) => FetchStage::Message,
        FetchError::EmptyResponse(method) => match method_kind_of(method) {
            MethodKind::Unary => FetchStage::Call,
            _ => FetchStage::Message,
        },
    }
}

/// Whether an error is a timeout.
pub open spec fn is_timeout(error: FetchError) -> bool {
    error == FetchError::ConnectTimedOut || error is CallTimedOut || error is MessageTimedOut
}

/// What is being fetched, in the words of an error message.
pub open spec fn subject_text(method: RpcMethod) -> Seq<char> {
    match method {
        RpcMethod::FetchX509Svid => "x509 svid"@,
        RpcMethod::FetchX509Bundles => "x509 bundles"@,
        RpcMethod::FetchJwtSvid => "jwt svid"@,
        RpcMethod::FetchJwtBundles => "jwt bundles"@,
        RpcMethod::ValidateJwtSvid => "jwt svid validation"@,
    }
}

/// The words in which an error is reported.
pub open spec fn error_text(error: FetchError) -> Seq<char> {
    match error {
        FetchError::MissingAudience => "audience must be specified"@,
        FetchError::ConnectTimedOut => "timed out connecting to socket"@,
        FetchError::ConnectFailed => "failed to connect to socket"@,
        FetchError::CallTimedOut(_) => "request timed out"@,
        FetchError::CallFailed(method) => "failed to fetch "@ + subject_text(method),
        FetchError::MessageTimedOut(_) => "timed out waiting for response"@,
        FetchError::MessageFailed(_) => "failed to receive message"@,
        FetchError::EmptyResponse(_) => "empty response from server"@,
    }
}

impl FetchError {
    /// The stage at which the error arose.
    pub fn stage(&self) -> (stage: FetchStage)
        ensures
            stage == stage_of(*self),
    {
        match self {
            FetchError::MissingAudience => FetchStage::Request,
            FetchError::ConnectTimedOut => FetchStage::Connect,
            FetchError::ConnectFailed => FetchStage::Connect,
            FetchError::CallTimedOut(_) => FetchStage::Call,
            FetchError::CallFailed(_) => FetchStage::Call,
            FetchError::MessageTimedOut(_) => FetchStage::Message,
            FetchError::MessageFailed(_) => FetchStage::Message,
            FetchError::EmptyResponse(method) => match method_kind(*method) {
                MethodKind::Unary => FetchStage::Call,
                _ => FetchStage::Message,
            },
        }
    }

    /// The words in which the error is reported.
    pub fn message(&self) -> (text: String)
        ensures
            text@ == error_text(*self),
    {
        match self {
            FetchError::MissingAudience => String::from_str("audience must be specified"),
            FetchError::ConnectTimedOut => String::from_str("timed out connecting to socket"),
            FetchError::ConnectFailed => String::from_str("failed to connect to socket"),
            FetchError::CallTimedOut(_) => String::from_str("request timed out"),
            FetchError::CallFailed(method) => {
                let mut text = String::from_str("failed to fetch ");
                text.append(
                    match method {
                        RpcMethod::FetchX509Svid => "x509 svid",
                        RpcMethod::FetchX509Bundles => "x509 bundles",
                        RpcMethod::FetchJwtSvid => "jwt svid",
                        RpcMethod::FetchJwtBundles => "jwt bundles",
                        RpcMethod::ValidateJwtSvid => "jwt svid validation",
                    },
                );
                text
            },
            FetchError::MessageTimedOut(_) => String::from_str("timed out waiting for response"),
            FetchError::MessageFailed(_) => String::from_str("failed to receive message"),
            FetchError::EmptyResponse(_) => String::from_str("empty response from server"),
        }
    }
}

/// What a client fetches.
#[derive(Clone, Copy, Debug, PartialEq, Eq, Structural)]
pub enum FetchKind {
    X509,
    Jwt,
}

/// The calls that a fetch makes, in order, over one connection.
pub open spec fn calls_of(kind: FetchKind) -> Seq<RpcMethod> {
    match kind {
        FetchKind::X509 => seq![RpcMethod::FetchX509Svid],
        FetchKind::Jwt => seq![RpcMethod::FetchJwtSvid, RpcMethod::FetchJwtBundles],
    }
}

/// The calls that a fetch makes, in order, over one connection.
pub fn fetch_calls(kind: FetchKind) -> (calls: Vec<RpcMethod>)
    ensures
        calls@ == calls_of(kind),
{
    let mut calls: Vec<RpcMethod> = Vec::new();
    match kind {
        FetchKind::X509 => {
            calls.push(RpcMethod::FetchX509Svid);
        },
        FetchKind::Jwt => {
            calls.push(RpcMethod::FetchJwtSvid);
            calls.push(RpcMethod::FetchJwtBundles);
        },
    }
    assert(calls@ =~= calls_of(kind));
    calls
}

/// Whether a JWT fetch may go out: it must name at least one audience.
pub fn validate_audience(audience: &[String]) -> (verdict: Result<(), FetchError>)
    ensures
        verdict == if audience@.len() == 0 {
            Err::<(), FetchError>(FetchError::MissingAudience)
        } else {
            Ok::<(), FetchError>(())
        },
{
    if audience.len() == 0 {
        Err(FetchError::MissingAudience)
    } else {
        Ok(())
    }
}

/// Where a fetch stands.
#[derive(Clone, Copy, Debug, PartialEq, Eq, Structural)]
pub enum FetchState {
    /// Nothing has been sent yet.
    Idle,
    /// A connection is being made.
    Connecting,
    /// The call with this index has been sent and not yet taken up.
    Calling(usize),
    /// The stream of the call with this index is open; no message yet.
    Receiving(usize),
    /// All calls are answered.
    Done,
    /// The fetch has failed.
    Failed(FetchError),
}

/// What happens during a fetch.
#[derive(Clone, Copy, Debug, PartialEq, Eq, Structural)]
pub enum FetchEvent {
    /// The fetch is asked for, with this many audiences.
    Start(usize),
    /// The step that was waited for has succeeded: the connection stands,
    /// or the stream of a call is open.
    Ready,
    /// An answer has come that holds this many SVIDs or bundles: the
    /// answer of a unary call, or a message of a stream.
    Answer(usize),
    /// The stream has ended.
    Ended,
    /// The step that was waited for has failed.
    Failed,
    /// The timeout of the step that was waited for has passed.
    TimedOut,
}

/// What the client is to do next.
#[derive(Clone, Copy, Debug, PartialEq, Eq, Structural)]
pub enum FetchAction {
    /// Connect to the endpoint, under the timeout.
    Connect,
    /// Send this call with the security header, under the timeout.
    Call(RpcMethod),
    /// Wait for the first message of the stream, under the timeout.
    Receive(RpcMethod),
    /// Hand the answers back; streams are let go.
    Deliver,
    /// Report the error.
    Fail(FetchError),
    /// Nothing: the event does not concern the fetch as it stands.
    Ignore,
}

/// What follows the answer to the call with index `i`: the next call, or
/// the end of the fetch.
pub open spec fn after_answer(calls: Seq<RpcMethod>, i: int) -> (FetchState, FetchAction) {
    if i + 1 < calls.len() {
        (FetchState::Calling((i + 1) as usize), FetchAction::Call(calls[i + 1]))
    } else {
        (FetchState::Done, FetchAction::Deliver)
    }
}

/// The course of a fetch.
///
/// A JWT fetch without audience fails before anything is sent. Otherwise
/// the client connects and makes its calls one after another. A unary call
/// is over with its answer, which must hold an SVID; a streaming call is
/// over with the first message of its stream. Each wait has its own
/// timeout and its own errors.
pub open spec fn fetch_step(kind: FetchKind, state: FetchState, event: FetchEvent) -> (
    FetchState,
    FetchAction,
) {
    let calls = calls_of(kind);
    match (state, event) {
        (FetchState::Idle, FetchEvent::Start(audiences)) => if kind == FetchKind::Jwt && audiences
            == 0 {
            (
                FetchState::Failed(FetchError::MissingAudience),
                FetchAction::Fail(FetchError::MissingAudience),
            )
        } else {
            (FetchState::Connecting, FetchAction::Connect)
        },
        (FetchState::Connecting, FetchEvent::Ready) => (
            FetchState::Calling(0),
            FetchAction::Call(calls[0]),
        ),
        (FetchState::Connecting, FetchEvent::Failed) => (
            FetchState::Failed(FetchError::ConnectFailed),
            FetchAction::Fail(FetchError::ConnectFailed),
        ),
        (FetchState::Connecting, FetchEvent::TimedOut) => (
            FetchState::Failed(FetchError::ConnectTimedOut),
            FetchAction::Fail(FetchError::ConnectTimedOut),
        ),
        (FetchState::Calling(i), _) => if i >= calls.len() {
            (state, FetchAction::Ignore)
        } else {
            let method = calls[i as int];
            match event {
                FetchEvent::Ready => if method_kind_of(method) == MethodKind::Unary {
                    (state, FetchAction::Ignore)
                } else {
                    (FetchState::Receiving(i), FetchAction::Receive(method))
                },
                FetchEvent::Answer(items) => if method_kind_of(method) != MethodKind::Unary {
                    (state, FetchAction::Ignore)
                } else if items == 0 {
                    (
                        FetchState::Failed(FetchError::EmptyResponse(method)),
                        FetchAction::Fail(FetchError::EmptyResponse(method)),
                    )
                } else {
                    after_answer(calls, i as int)
                },
                FetchEvent::Failed => (
                    FetchState::Failed(FetchError::CallFailed(method)),
                    FetchAction::Fail(FetchError::CallFailed(method)),
                ),
                FetchEvent::TimedOut => (
                    FetchState::Failed(FetchError::CallTimedOut(method)),
                    FetchAction::Fail(FetchError::CallTimedOut(method)),
                ),
                _ => (state, FetchAction::Ignore),
            }
        },
        (FetchState::Receiving(i), _) => if i >= calls.len() || method_kind_of(calls[i as int])
            == MethodKind::Unary {
            (state, FetchAction::Ignore)
        } else {
            let method = calls[i as int];
            match event {
                FetchEvent::Answer(_) => after_answer(calls, i as int),
                FetchEvent::Ended => (
                    FetchState::Failed(FetchError::EmptyResponse(method)),
                    FetchAction::Fail(FetchError::EmptyResponse(method)),
                ),
                FetchEvent::Failed => (
                    FetchState::Failed(FetchError::MessageFailed(method)),
                    FetchAction::Fail(FetchError::MessageFailed(method)),
                ),
                FetchEvent::TimedOut => (
                    FetchState::Failed(FetchError::MessageTimedOut(method)),
                    FetchAction::Fail(FetchError::MessageTimedOut(method)),
                ),
                _ => (state, FetchAction::Ignore),
            }
        },
        _ => (state, FetchAction::Ignore),
    }
}

/// Ends a fetch in an error.
fn fail(error: FetchError) -> (next: (FetchState, FetchAction))
    ensures
        next == (FetchState::Failed(error), FetchAction::Fail(error)),
{
    (FetchState::Failed(error), FetchAction::Fail(error))
}

/// Goes on after the answer to the call with index `i`.
fn advance(calls: &Vec<RpcMethod>, i: usize) -> (next: (FetchState, FetchAction))
    requires
        i < calls@.len(),
    ensures
        next == after_answer(calls@, i as int),
{
    let n = calls.len();
    if i + 1 < n {
        (FetchState::Calling(i + 1), FetchAction::Call(calls[i + 1]))
    } else {
        (FetchState::Done, FetchAction::Deliver)
    }
}

/// Decides what the client does next.
pub fn next_fetch_step(kind: FetchKind, state: FetchState, event: FetchEvent) -> (next: (
    FetchState,
    FetchAction,
))
    ensures
        next == fetch_step(kind, state, event),
{
    let calls = fetch_calls(kind);
    match state {
        FetchState::Idle => match event {
            FetchEvent::Start(audiences) => {
                let jwt = match kind {
                    FetchKind::Jwt => true,
                    FetchKind::X509 => false,
                };
                if jwt && audiences == 0 {
                    fail(FetchError::MissingAudience)
                } else {
                    (FetchState::Connecting, FetchAction::Connect)
                }
            },
            _ => (state, FetchAction::Ignore),
        },
        FetchState::Connecting => match event {
            FetchEvent::Ready => (FetchState::Calling(0), FetchAction::Call(calls[0])),
            FetchEvent::Failed => fail(FetchError::ConnectFailed),
            FetchEvent::TimedOut => fail(FetchError::ConnectTimedOut),
            _ => (state, FetchAction::Ignore),
        },
        FetchState::Calling(i) => {
            if i >= calls.len() {
                return (state, FetchAction::Ignore);
            }
            let method = calls[i];
            let unary = match method_kind(method) {
                MethodKind::Unary => true,
                _ => false,
            };
            match event {
                FetchEvent::Ready => if unary {
                    (state, FetchAction::Ignore)
                } else {
                    (FetchState::Receiving(i), FetchAction::Receive(method))
                },
                FetchEvent::Answer(items) => if !unary {
                    (state, FetchAction::Ignore)
                } else if items == 0 {
                    fail(FetchError::EmptyResponse(method))
                } else {
                    advance(&calls, i)
                },
                FetchEvent::Failed => fail(FetchError::CallFailed(method)),
                FetchEvent::TimedOut => fail(FetchError::CallTimedOut(method)),
                _ => (state, FetchAction::Ignore),
            }
        },
        FetchState::Receiving(i) => {
            if i >= calls.len() {
                return (state, FetchAction::Ignore);
            }
            let method = calls[i];
            match method_kind(method) {
                MethodKind::Unary => {
                    return (state, FetchAction::Ignore);
                },
                _ => {},
            }
            match event {
                FetchEvent::Answer(_) => advance(&calls, i),
                FetchEvent::Ended => fail(FetchError::EmptyResponse(method)),
                FetchEvent::Failed => fail(FetchError::MessageFailed(method)),
                FetchEvent::TimedOut => fail(FetchError::MessageTimedOut(method)),
                _ => (state, FetchAction::Ignore),
            }
        },
        _ => (state, FetchAction::Ignore),
    }
}

/// Where a fetch stands after a run of events.
pub open spec fn fetch_state_after(kind: FetchKind, events: Seq<FetchEvent>) -> FetchState
    decreases events.len(),
{
    if events.len() == 0 {
        FetchState::Idle
    } else {
        fetch_step(kind, fetch_state_after(kind, events.drop_last()), events.last()).0
    }
}

/// A JWT fetch without audience is refused before any action that reaches
/// the network: its first step fails, and nothing that follows revives it.
pub proof fn lemma_missing_audience_sends_nothing(event: FetchEvent)
    ensures
        fetch_step(FetchKind::Jwt, FetchState::Idle, FetchEvent::Start(0)) == (
            FetchState::Failed(FetchError::MissingAudience),
            FetchAction::Fail(FetchError::MissingAudience),
        ),
        fetch_step(FetchKind::Jwt, FetchState::Failed(FetchError::MissingAudience), event) == (
            FetchState::Failed(FetchError::MissingAudience),
            FetchAction::Ignore,
        ),
{
}

/// Timeouts are told apart by stage: the three waits of a fetch time out
/// into three different errors, each at the stage of its wait.
pub proof fn lemma_timeouts_distinguishable(kind: FetchKind, i: usize)
    requires
        i < calls_of(kind).len(),
        method_kind_of(calls_of(kind)[i as int]) == MethodKind::Stream,
    ensures
        ({
            let connect = fetch_step(kind, FetchState::Connecting, FetchEvent::TimedOut).0;
            let call = fetch_step(kind, FetchState::Calling(i), FetchEvent::TimedOut).0;
            let message = fetch_step(kind, FetchState::Receiving(i), FetchEvent::TimedOut).0;
            &&& connect matches FetchState::Failed(a) && stage_of(a) == FetchStage::Connect
                && is_timeout(a)
            &&& call matches FetchState::Failed(b) && stage_of(b) == FetchStage::Call && is_timeout(
                b,
            )
            &&& message matches FetchState::Failed(c) && stage_of(c) == FetchStage::Message
                && is_timeout(c)
            &&& connect != call && call != message && connect != message
        }),
{
}

/// An error names the stage at which the fetch stood when it failed.
pub proof fn lemma_error_stage(kind: FetchKind, state: FetchState, event: FetchEvent)
    ensures
        fetch_step(kind, state, event).1 matches FetchAction::Fail(error) ==> {
            &&& fetch_step(kind, state, event).0 == FetchState::Failed(error)
            &&& state == FetchState::Idle ==> stage_of(error) == FetchStage::Request
            &&& state == FetchState::Connecting ==> stage_of(error) == FetchStage::Connect
            &&& state is Calling ==> stage_of(error) == FetchStage::Call
            &&& state is Receiving ==> stage_of(error) == FetchStage::Message
        },
{
}

/// A fetch that is done or has failed stays as it is.
pub proof fn lemma_fetch_end_is_final(kind: FetchKind, state: FetchState, event: FetchEvent)
    requires
        state == FetchState::Done || state is Failed,
    ensures
        fetch_step(kind, state, event) == (state, FetchAction::Ignore),
{
}

/// The first message of a stream is enough: with it the call is over, and
/// the fetch goes on to its next call or is done.
pub proof fn lemma_first_message_suffices(kind: FetchKind, i: usize, items: usize)
    requires
        i < calls_of(kind).len(),
        method_kind_of(calls_of(kind)[i as int]) == MethodKind::Stream,
    ensures
        fetch_step(kind, FetchState::Receiving(i), FetchEvent::Answer(items)) == after_answer(
            calls_of(kind),
            i as int,
        ),
        !(fetch_step(kind, FetchState::Receiving(i), FetchEvent::Answer(items)).0 is Receiving),
{
}

/// Why a liveness probe failed.
#[derive(Clone, Copy, Debug, PartialEq, Eq, Structural)]
pub enum HealthError {
    /// The transport did not accept a connection in time.
    ProbeTimedOut,
    /// The transport refused the connection.
    ProbeFailed,
    /// The transport accepted a connection, but no SVID could be fetched.
    Fetch(FetchError),
}

/// The words in which a failed probe is reported.
pub open spec fn health_error_text(error: HealthError) -> Seq<char> {
    match error {
        HealthError::ProbeTimedOut => "request timed out"@,
        HealthError::ProbeFailed => "health check request failed"@,
        HealthError::Fetch(e) => error_text(e),
    }
}

impl HealthError {
    /// The words in which the failed probe is reported.
    pub fn message(&self) -> (text: String)
        ensures
            text@ == health_error_text(*self),
    {
        match self {
            HealthError::ProbeTimedOut => String::from_str("request timed out"),
            HealthError::ProbeFailed => String::from_str("health check request failed"),
            HealthError::Fetch(e) => e.message(),
        }
    }
}

/// Where a liveness probe stands.
#[derive(Clone, Copy, Debug, PartialEq, Eq, Structural)]
pub enum HealthState {
    /// The endpoint is being connected to.
    Probing,
    /// The endpoint is reachable; an X.509 SVID is being fetched.
    Fetching(FetchState),
    Healthy,
    Unhealthy(HealthError),
}

/// What the prober is to do next.
#[derive(Clone, Copy, Debug, PartialEq, Eq, Structural)]
pub enum HealthAction {
    /// Go on with the fetch of an X.509 SVID.
    Fetch(FetchAction),
    /// Report success; the process ends with status 0.
    Succeed,
    /// Report the error; the process ends with status 1.
    Fail(HealthError),
    /// Nothing: the event does not concern the probe as it stands.
    Ignore,
}

/// The course of a liveness probe.
///
/// A shallow probe is over once a connection stands. A deep probe goes on
/// to fetch an X.509 SVID over a connection of its own; whatever fails, at
/// either stage, fails the probe.
pub open spec fn health_step(shallow: bool, state: HealthState, event: FetchEvent) -> (
    HealthState,
    HealthAction,
) {
    match state {
        HealthState::Probing => match event {
            FetchEvent::Ready => if shallow {
                (HealthState::Healthy, HealthAction::Succeed)
            } else {
                (
                    HealthState::Fetching(FetchState::Connecting),
                    HealthAction::Fetch(FetchAction::Connect),
                )
            },
            FetchEvent::Failed => (
                HealthState::Unhealthy(HealthError::ProbeFailed),
                HealthAction::Fail(HealthError::ProbeFailed),
            ),
            FetchEvent::TimedOut => (
                HealthState::Unhealthy(HealthError::ProbeTimedOut),
                HealthAction::Fail(HealthError::ProbeTimedOut),
            ),
            _ => (state, HealthAction::Ignore),
        },
        HealthState::Fetching(fetch) => {
            let (next, action) = fetch_step(FetchKind::X509, fetch, event);
            match action {
                FetchAction::Deliver => (HealthState::Healthy, HealthAction::Succeed),
                FetchAction::Fail(e) => (
                    HealthState::Unhealthy(HealthError::Fetch(e)),
                    HealthAction::Fail(HealthError::Fetch(e)),
                ),
                FetchAction::Ignore => (state, HealthAction::Ignore),
                _ => (HealthState::Fetching(next), HealthAction::Fetch(action)),
            }
        },
        _ => (state, HealthAction::Ignore),
    }
}

/// Decides what the prober does next.
pub fn next_health_step(shallow: bool, state: HealthState, event: FetchEvent) -> (next: (
    HealthState,
    HealthAction,
))
    ensures
        next == health_step(shallow, state, event),
{
    match state {
        HealthState::Probing => match event {
            FetchEvent::Ready => if shallow {
                (HealthState::Healthy, HealthAction::Succeed)
            } else {
                (
                    HealthState::Fetching(FetchState::Connecting),
                    HealthAction::Fetch(FetchAction::Connect),
                )
            },
            FetchEvent::Failed => (
                HealthState::Unhealthy(HealthError::ProbeFailed),
                HealthAction::Fail(HealthError::ProbeFailed),
            ),
            FetchEvent::TimedOut => (
                HealthState::Unhealthy(HealthError::ProbeTimedOut),
                HealthAction::Fail(HealthError::ProbeTimedOut),
            ),
            _ => (state, HealthAction::Ignore),
        },
        HealthState::Fetching(fetch) => {
            let (next, action) = next_fetch_step(FetchKind::X509, fetch, event);
            match action {
                FetchAction::Deliver => (HealthState::Healthy, HealthAction::Succeed),
                FetchAction::Fail(e) => (
                    HealthState::Unhealthy(HealthError::Fetch(e)),
                    HealthAction::Fail(HealthError::Fetch(e)),
                ),
                FetchAction::Ignore => (state, HealthAction::Ignore),
                _ => (HealthState::Fetching(next), HealthAction::Fetch(action)),
            }
        },
        _ => (state, HealthAction::Ignore),
    }
}

/// The status with which the process ends after a probe or a fetch.
pub fn exit_status(succeeded: bool) -> (status: i32)
    ensures
        status == if succeeded {
            0i32
        } else {
            1i32
        },
{
    if succeeded {
        0
    } else {
        1
    }
}

/// No failure is played down: a probe reports success only from a standing
/// connection (shallow) or a delivered SVID (deep), and a failure while
/// connecting is reported as such, whether deeper steps were to follow or
/// not.
pub proof fn lemma_probe_failures_are_fatal(shallow: bool, state: HealthState, event: FetchEvent)
    ensures
        ({
            let (next, action) = health_step(shallow, state, event);
            &&& action == HealthAction::Succeed ==> next == HealthState::Healthy && ((shallow
                && state == HealthState::Probing && event == FetchEvent::Ready) || (state matches HealthState::Fetching(
                fetch,
            ) && fetch_step(FetchKind::X509, fetch, event).1 == FetchAction::Deliver))
            &&& next == HealthState::Healthy ==> action == HealthAction::Succeed || state
                == HealthState::Healthy
            &&& (state == HealthState::Probing && event == FetchEvent::Failed) ==> action
                == HealthAction::Fail(HealthError::ProbeFailed)
            &&& (state == HealthState::Probing && event == FetchEvent::TimedOut) ==> action
                == HealthAction::Fail(HealthError::ProbeTimedOut)
            &&& state matches HealthState::Fetching(fetch) ==> (fetch_step(
                FetchKind::X509,
                fetch,
                event,
            ).1 matches FetchAction::Fail(e) ==> action == HealthAction::Fail(
                HealthError::Fetch(e),
            ))
        }),
{
}

/// The lines that a probe prints when the connection stands.
pub open spec fn probed_lines(shallow: bool, verbose: bool) -> Seq<Seq<char>> {
    (if verbose {
        seq!["Workload API health check: ok"@]
    } else {
        Seq::empty()
    }) + (if shallow {
        healthy_lines(verbose)
    } else if verbose {
        seq!["Workload API X509-SVID check: starting"@]
    } else {
        Seq::empty()
    })
}

/// The lines that a deep probe prints when the SVID has been fetched.
pub open spec fn fetched_lines(verbose: bool) -> Seq<Seq<char>> {
    (if verbose {
        seq!["Workload API X509-SVID check: ok"@]
    } else {
        Seq::empty()
    }) + healthy_lines(verbose)
}

/// The lines with which a probe reports success.
pub open spec fn healthy_lines(verbose: bool) -> Seq<Seq<char>> {
    (if verbose {
        seq!["Agent health: ok"@]
    } else {
        Seq::empty()
    }) + seq!["Agent is healthy."@]
}

/// The lines with which a probe reports success.
fn lines_of_success(verbose: bool, lines: &mut Vec<String>)
    ensures
        crate::chain::text_views(final(lines)@) == crate::chain::text_views(old(lines)@)
            + healthy_lines(verbose),
{
    let ghost before = crate::chain::text_views(lines@);
    if verbose {
        lines.push(String::from_str("Agent health: ok"));
    }
    lines.push(String::from_str("Agent is healthy."));
    assert(crate::chain::text_views(lines@) =~= before + healthy_lines(verbose));
}

/// What a probe prints when the connection stands: under `verbose` a note
/// of that, then the report of success (shallow) or a note that the fetch
/// begins (deep).
pub fn lines_after_probe(shallow: bool, verbose: bool) -> (lines: Vec<String>)
    ensures
        crate::chain::text_views(lines@) == probed_lines(shallow, verbose),
{
    let mut lines: Vec<String> = Vec::new();
    if verbose {
        lines.push(String::from_str("Workload API health check: ok"));
    }
    let ghost first = crate::chain::text_views(lines@);
    assert(first =~= if verbose {
        seq!["Workload API health check: ok"@]
    } else {
        Seq::empty()
    });
    if shallow {
        lines_of_success(verbose, &mut lines);
    } else if verbose {
        lines.push(String::from_str("Workload API X509-SVID check: starting"));
        assert(crate::chain::text_views(lines@) =~= first
            + seq!["Workload API X509-SVID check: starting"@]);
    } else {
        assert(crate::chain::text_views(lines@) =~= first + Seq::empty());
    }
    lines
}

/// What a deep probe prints when the SVID has been fetched: under
/// `verbose` a note of that, then the report of success.
pub fn lines_after_fetch(verbose: bool) -> (lines: Vec<String>)
    ensures
        crate::chain::text_views(lines@) == fetched_lines(verbose),
{
    let mut lines: Vec<String> = Vec::new();
    if verbose {
        lines.push(String::from_str("Workload API X509-SVID check: ok"));
    }
    assert(crate::chain::text_views(lines@) =~= if verbose {
        seq!["Workload API X509-SVID check: ok"@]
    } else {
        Seq::empty()
    });
    lines_of_success(verbose, &mut lines);
    lines
}

} // verus!

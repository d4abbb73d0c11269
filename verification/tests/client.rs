use spire_agent::client::{
    exit_status, fetch_calls, lines_after_fetch, lines_after_probe, next_fetch_step,
    next_health_step, validate_audience, FetchAction, FetchError, FetchEvent, FetchKind,
    FetchStage, FetchState, HealthAction, HealthError, HealthState,
};
use spire_agent::duration::{parse_duration, TimeSpan};
use spire_agent::server::{
    fetch_x509_svid, next_call_step, CallAction, CallEvent, CallState, RpcMethod,
};
use spire_agent::auth::security_header;
use spire_agent::svid::{SvidConfig, SvidGenerator};

fn run(kind: FetchKind, events: &[FetchEvent]) -> (FetchState, Vec<FetchAction>) {
    let mut state = FetchState::Idle;
    let mut actions = Vec::new();
    for event in events {
        let (next, action) = next_fetch_step(kind, state, *event);
        state = next;
        actions.push(action);
    }
    (state, actions)
}

#[test]
fn x509_fetch_takes_the_first_message() {
    let (state, actions) = run(
        FetchKind::X509,
        &[
            FetchEvent::Start(0),
            FetchEvent::Ready,
            FetchEvent::Ready,
            FetchEvent::Answer(1),
            FetchEvent::Answer(1),
        ],
    );
    assert_eq!(state, FetchState::Done);
    assert_eq!(
        actions,
        vec![
            FetchAction::Connect,
            FetchAction::Call(RpcMethod::FetchX509Svid),
            FetchAction::Receive(RpcMethod::FetchX509Svid),
            FetchAction::Deliver,
            FetchAction::Ignore,
        ]
    );
}

#[test]
fn x509_fetch_accepts_a_message_without_svids() {
    let (state, _) = run(
        FetchKind::X509,
        &[FetchEvent::Start(0), FetchEvent::Ready, FetchEvent::Ready, FetchEvent::Answer(0)],
    );
    assert_eq!(state, FetchState::Done);
}

#[test]
fn jwt_fetch_makes_two_calls() {
    assert_eq!(
        fetch_calls(FetchKind::Jwt),
        vec![RpcMethod::FetchJwtSvid, RpcMethod::FetchJwtBundles]
    );
    assert_eq!(fetch_calls(FetchKind::X509), vec![RpcMethod::FetchX509Svid]);
    let (state, actions) = run(
        FetchKind::Jwt,
        &[
            FetchEvent::Start(2),
            FetchEvent::Ready,
            FetchEvent::Answer(1),
            FetchEvent::Ready,
            FetchEvent::Answer(1),
        ],
    );
    assert_eq!(state, FetchState::Done);
    assert_eq!(
        actions,
        vec![
            FetchAction::Connect,
            FetchAction::Call(RpcMethod::FetchJwtSvid),
            FetchAction::Call(RpcMethod::FetchJwtBundles),
            FetchAction::Receive(RpcMethod::FetchJwtBundles),
            FetchAction::Deliver,
        ]
    );
}

#[test]
fn jwt_fetch_without_audience_sends_nothing() {
    let (state, actions) = run(
        FetchKind::Jwt,
        &[FetchEvent::Start(0), FetchEvent::Ready, FetchEvent::Answer(1)],
    );
    assert_eq!(state, FetchState::Failed(FetchError::MissingAudience));
    assert_eq!(
        actions,
        vec![
            FetchAction::Fail(FetchError::MissingAudience),
            FetchAction::Ignore,
            FetchAction::Ignore,
        ]
    );
    assert_eq!(validate_audience(&[]), Err(FetchError::MissingAudience));
    assert_eq!(validate_audience(&["a".to_string()]), Ok(()));
    assert_eq!(FetchError::MissingAudience.stage(), FetchStage::Request);
    assert_eq!(FetchError::MissingAudience.message(), "audience must be specified");
}

#[test]
fn jwt_answer_without_svid_is_an_empty_response() {
    let (state, actions) = run(
        FetchKind::Jwt,
        &[FetchEvent::Start(1), FetchEvent::Ready, FetchEvent::Answer(0)],
    );
    let error = FetchError::EmptyResponse(RpcMethod::FetchJwtSvid);
    assert_eq!(state, FetchState::Failed(error));
    assert_eq!(actions[2], FetchAction::Fail(error));
    assert_eq!(error.message(), "empty response from server");
    assert_eq!(error.stage(), FetchStage::Call);
}

#[test]
fn each_wait_has_its_own_timeout() {
    let method = RpcMethod::FetchX509Svid;
    let connect = run(FetchKind::X509, &[FetchEvent::Start(0), FetchEvent::TimedOut]).0;
    let call = run(
        FetchKind::X509,
        &[FetchEvent::Start(0), FetchEvent::Ready, FetchEvent::TimedOut],
    )
    .0;
    let message = run(
        FetchKind::X509,
        &[FetchEvent::Start(0), FetchEvent::Ready, FetchEvent::Ready, FetchEvent::TimedOut],
    )
    .0;
    assert_eq!(connect, FetchState::Failed(FetchError::ConnectTimedOut));
    assert_eq!(call, FetchState::Failed(FetchError::CallTimedOut(method)));
    assert_eq!(message, FetchState::Failed(FetchError::MessageTimedOut(method)));
    assert_eq!(FetchError::ConnectTimedOut.message(), "timed out connecting to socket");
    assert_eq!(FetchError::CallTimedOut(method).message(), "request timed out");
    assert_eq!(
        FetchError::MessageTimedOut(method).message(),
        "timed out waiting for response"
    );
    assert_eq!(FetchError::ConnectTimedOut.stage(), FetchStage::Connect);
    assert_eq!(FetchError::CallTimedOut(method).stage(), FetchStage::Call);
    assert_eq!(FetchError::MessageTimedOut(method).stage(), FetchStage::Message);
}

#[test]
fn each_stage_fails_in_its_own_words() {
    let connect = run(FetchKind::X509, &[FetchEvent::Start(0), FetchEvent::Failed]).0;
    assert_eq!(connect, FetchState::Failed(FetchError::ConnectFailed));
    assert_eq!(FetchError::ConnectFailed.message(), "failed to connect to socket");
    let call = run(
        FetchKind::X509,
        &[FetchEvent::Start(0), FetchEvent::Ready, FetchEvent::Failed],
    )
    .0;
    assert_eq!(call, FetchState::Failed(FetchError::CallFailed(RpcMethod::FetchX509Svid)));
    let message = run(
        FetchKind::X509,
        &[FetchEvent::Start(0), FetchEvent::Ready, FetchEvent::Ready, FetchEvent::Failed],
    )
    .0;
    assert_eq!(
        message,
        FetchState::Failed(FetchError::MessageFailed(RpcMethod::FetchX509Svid))
    );
    let ended = run(
        FetchKind::X509,
        &[FetchEvent::Start(0), FetchEvent::Ready, FetchEvent::Ready, FetchEvent::Ended],
    )
    .0;
    assert_eq!(
        ended,
        FetchState::Failed(FetchError::EmptyResponse(RpcMethod::FetchX509Svid))
    );
    assert_eq!(
        FetchError::EmptyResponse(RpcMethod::FetchX509Svid).stage(),
        FetchStage::Message
    );
    assert_eq!(
        FetchError::CallFailed(RpcMethod::FetchX509Svid).message(),
        "failed to fetch x509 svid"
    );
    assert_eq!(
        FetchError::CallFailed(RpcMethod::FetchJwtSvid).message(),
        "failed to fetch jwt svid"
    );
    assert_eq!(
        FetchError::CallFailed(RpcMethod::FetchJwtBundles).message(),
        "failed to fetch jwt bundles"
    );
    assert_eq!(
        FetchError::CallFailed(RpcMethod::FetchX509Bundles).message(),
        "failed to fetch x509 bundles"
    );
    assert_eq!(
        FetchError::CallFailed(RpcMethod::ValidateJwtSvid).message(),
        "failed to fetch jwt svid validation"
    );
    assert_eq!(
        FetchError::MessageFailed(RpcMethod::FetchX509Svid).message(),
        "failed to receive message"
    );
}

#[test]
fn jwt_bundle_call_that_is_refused_fails_the_fetch() {
    let (state, _) = run(
        FetchKind::Jwt,
        &[FetchEvent::Start(1), FetchEvent::Ready, FetchEvent::Answer(1), FetchEvent::Failed],
    );
    assert_eq!(
        state,
        FetchState::Failed(FetchError::CallFailed(RpcMethod::FetchJwtBundles))
    );
}

#[test]
fn fetch_over_a_served_stream_in_memory() {
    let generator = SvidGenerator::new(SvidConfig::default()).unwrap();
    let rotation = TimeSpan::from_secs(1);
    let timeout = parse_duration("1s").unwrap();
    assert!(timeout.as_secs() >= rotation.as_secs());

    let mut fetch = FetchState::Idle;
    let mut call = CallState::Unauthenticated;
    let mut delivered = None;

    let (next, action) = next_fetch_step(FetchKind::X509, fetch, FetchEvent::Start(0));
    assert_eq!(action, FetchAction::Connect);
    fetch = next;
    let (next, action) = next_fetch_step(FetchKind::X509, fetch, FetchEvent::Ready);
    assert_eq!(action, FetchAction::Call(RpcMethod::FetchX509Svid));
    fetch = next;

    let (_, value) = security_header();
    let metadata = CallEvent::Metadata(vec![value.as_bytes().to_vec()]);
    let (next, action) = next_call_step(RpcMethod::FetchX509Svid, rotation, call, &metadata);
    assert_eq!(action, CallAction::Admit);
    call = next;
    let (next, action) = next_call_step(RpcMethod::FetchX509Svid, rotation, call, &CallEvent::Begin);
    assert_eq!(action, CallAction::Push);
    call = next;

    let (next, action) = next_fetch_step(FetchKind::X509, fetch, FetchEvent::Ready);
    assert_eq!(action, FetchAction::Receive(RpcMethod::FetchX509Svid));
    fetch = next;

    if action == FetchAction::Receive(RpcMethod::FetchX509Svid) {
        let response = fetch_x509_svid(&generator).unwrap();
        let (next, sleep) = next_call_step(RpcMethod::FetchX509Svid, rotation, call, &CallEvent::Sent);
        assert_eq!(sleep, CallAction::Sleep(rotation));
        call = next;
        let (next, action) =
            next_fetch_step(FetchKind::X509, fetch, FetchEvent::Answer(response.svids.len()));
        assert_eq!(action, FetchAction::Deliver);
        fetch = next;
        delivered = Some(response);
    }

    assert_eq!(fetch, FetchState::Done);
    assert_eq!(call, CallState::Idle);
    let response = delivered.unwrap();
    assert_eq!(response.svids.len(), 1);
    assert_eq!(
        response.svids[0].spiffe_id,
        "spiffe://spiffe-helper.local/ns/httpbin/sa/httpbin"
    );

    let (call, action) = next_call_step(RpcMethod::FetchX509Svid, rotation, call, &CallEvent::Cancelled);
    assert_eq!(action, CallAction::Stop);
    assert_eq!(call, CallState::Closed);
}

#[test]
fn deep_probe_of_an_unreachable_socket_fails_at_the_connection() {
    let (state, action) = next_health_step(false, HealthState::Probing, FetchEvent::Failed);
    assert_eq!(state, HealthState::Unhealthy(HealthError::ProbeFailed));
    assert_eq!(action, HealthAction::Fail(HealthError::ProbeFailed));
    assert_eq!(HealthError::ProbeFailed.message(), "health check request failed");
    assert_eq!(exit_status(false), 1);
    let (state, action) = next_health_step(false, state, FetchEvent::Ready);
    assert_eq!(state, HealthState::Unhealthy(HealthError::ProbeFailed));
    assert_eq!(action, HealthAction::Ignore);

    let (state, action) = next_health_step(false, HealthState::Probing, FetchEvent::TimedOut);
    assert_eq!(state, HealthState::Unhealthy(HealthError::ProbeTimedOut));
    assert_eq!(action, HealthAction::Fail(HealthError::ProbeTimedOut));
    assert_eq!(HealthError::ProbeTimedOut.message(), "request timed out");
}

#[test]
fn shallow_probe_needs_only_a_connection() {
    let (state, action) = next_health_step(true, HealthState::Probing, FetchEvent::Ready);
    assert_eq!(state, HealthState::Healthy);
    assert_eq!(action, HealthAction::Succeed);
    assert_eq!(exit_status(true), 0);
    let (state, action) = next_health_step(true, HealthState::Probing, FetchEvent::Failed);
    assert_eq!(state, HealthState::Unhealthy(HealthError::ProbeFailed));
    assert_eq!(action, HealthAction::Fail(HealthError::ProbeFailed));
}

#[test]
fn deep_probe_fetches_an_svid() {
    let mut state = HealthState::Probing;
    let mut actions = Vec::new();
    for event in [FetchEvent::Ready, FetchEvent::Ready, FetchEvent::Ready, FetchEvent::Answer(1)] {
        let (next, action) = next_health_step(false, state, event);
        state = next;
        actions.push(action);
    }
    assert_eq!(state, HealthState::Healthy);
    assert_eq!(
        actions,
        vec![
            HealthAction::Fetch(FetchAction::Connect),
            HealthAction::Fetch(FetchAction::Call(RpcMethod::FetchX509Svid)),
            HealthAction::Fetch(FetchAction::Receive(RpcMethod::FetchX509Svid)),
            HealthAction::Succeed,
        ]
    );
}

#[test]
fn deep_probe_fails_with_the_fetch() {
    let mut state = HealthState::Probing;
    for event in [FetchEvent::Ready, FetchEvent::Ready, FetchEvent::Ready] {
        state = next_health_step(false, state, event).0;
    }
    let (state, action) = next_health_step(false, state, FetchEvent::TimedOut);
    let error = HealthError::Fetch(FetchError::MessageTimedOut(RpcMethod::FetchX509Svid));
    assert_eq!(state, HealthState::Unhealthy(error));
    assert_eq!(action, HealthAction::Fail(error));
    assert_eq!(error.message(), "timed out waiting for response");

    let connecting = HealthState::Fetching(FetchState::Connecting);
    let (state, action) = next_health_step(false, connecting, FetchEvent::Failed);
    assert_eq!(state, HealthState::Unhealthy(HealthError::Fetch(FetchError::ConnectFailed)));
    assert_eq!(action, HealthAction::Fail(HealthError::Fetch(FetchError::ConnectFailed)));
    let (state, action) = next_health_step(false, connecting, FetchEvent::Ended);
    assert_eq!(state, connecting);
    assert_eq!(action, HealthAction::Ignore);
}

#[test]
fn lines_of_a_probe() {
    assert_eq!(lines_after_probe(true, false), vec!["Agent is healthy."]);
    assert_eq!(
        lines_after_probe(true, true),
        vec!["Workload API health check: ok", "Agent health: ok", "Agent is healthy."]
    );
    assert_eq!(lines_after_probe(false, false), Vec::<String>::new());
    assert_eq!(
        lines_after_probe(false, true),
        vec!["Workload API health check: ok", "Workload API X509-SVID check: starting"]
    );
    assert_eq!(lines_after_fetch(false), vec!["Agent is healthy."]);
    assert_eq!(
        lines_after_fetch(true),
        vec!["Workload API X509-SVID check: ok", "Agent health: ok", "Agent is healthy."]
    );
}

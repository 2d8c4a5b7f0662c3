use homely_bridge::auth::{authenticate, AuthToken, Credential};
use homely_bridge::errors::BridgeError;
use homely_bridge::locations::{get_locations, select_primary, Location};
use homely_bridge::pipeline::{
    next_action, pipeline_step, start_pipeline, PipelineAction, PipelineEvent, PipelineState,
};
use homely_bridge::probe::route_request;
use homely_bridge::signal::FailureSignal;
use homely_bridge::state::{get_state, state_url};
use homely_bridge::stream::{bearer_header_value, bytes_hex, event_summary, prepare_stream, Event};
use homely_bridge::supervisor::{exit_is_clean, race_outcome, Completion, UnitId, UnitOutcome};

fn token(s: &str) -> AuthToken {
    AuthToken { access_token: s.to_string() }
}

fn location(id: &str) -> Location {
    Location { location_id: id.to_string(), name: None }
}

#[test]
fn authenticate_returns_the_mock_token() {
    let r = authenticate(200, "{\"access_token\":\"tok1\"}");
    match r {
        Ok(t) => assert_eq!(t.access_token, "tok1"),
        Err(_) => panic!("expected a token"),
    }
}

#[test]
fn authenticate_reads_the_field_not_the_body() {
    let r = authenticate(201, "{\"other\":\"x\",\"access_token\":\"abc xyz\"}");
    match r {
        Ok(t) => assert_eq!(t.access_token, "abc xyz"),
        Err(_) => panic!("expected a token"),
    }
}

#[test]
fn authenticate_fails_on_non_success_status() {
    let r = authenticate(401, "{\"access_token\":\"tok1\"}");
    match r {
        Err(BridgeError::AuthError(_)) => {}
        _ => panic!("expected AuthError"),
    }
}

#[test]
fn authenticate_fails_on_malformed_body() {
    let r = authenticate(200, "not json at all");
    match r {
        Err(BridgeError::AuthError(_)) => {}
        _ => panic!("expected AuthError"),
    }
    let r = authenticate(200, "{\"token\":\"tok1\"}");
    match r {
        Err(BridgeError::AuthError(_)) => {}
        _ => panic!("expected AuthError"),
    }
}

#[test]
fn locations_preserve_server_order() {
    let body = "[{\"locationId\":\"a\",\"name\":\"Home\"},{\"locationId\":\"b\"},{\"locationId\":\"c\"}]";
    let ls = get_locations(200, body).expect("expected a listing");
    assert_eq!(ls.len(), 3);
    assert_eq!(ls[0].location_id, "a");
    assert_eq!(ls[0].name.as_deref(), Some("Home"));
    assert_eq!(ls[1].location_id, "b");
    assert_eq!(ls[1].name, None);
    assert_eq!(ls[2].location_id, "c");
}

#[test]
fn primary_selection_is_deterministic() {
    let body = "[{\"locationId\":\"first\"},{\"locationId\":\"second\"}]";
    let one = get_locations(200, body).expect("expected a listing");
    let two = get_locations(200, body).expect("expected a listing");
    assert_eq!(select_primary(&one).location_id, "first");
    assert_eq!(select_primary(&two).location_id, "first");
}

#[test]
fn locations_fail_on_transport_or_decode_failure() {
    match get_locations(500, "[]") {
        Err(BridgeError::ApiError(_)) => {}
        _ => panic!("expected ApiError"),
    }
    match get_locations(200, "[{\"name\":\"no id\"}]") {
        Err(BridgeError::ApiError(_)) => {}
        _ => panic!("expected ApiError"),
    }
}

#[test]
fn state_snapshot_carries_the_document() {
    let s = get_state(200, "{\"ok\":true}").expect("expected a snapshot");
    assert_eq!(s.document, "{\"ok\":true}");
    match get_state(200, "{broken") {
        Err(BridgeError::ApiError(_)) => {}
        _ => panic!("expected ApiError"),
    }
    match get_state(404, "{\"ok\":true}") {
        Err(BridgeError::ApiError(_)) => {}
        _ => panic!("expected ApiError"),
    }
}

#[test]
fn state_url_appends_the_location_id() {
    assert_eq!(
        state_url("loc1"),
        "https://sdk.iotiliti.cloud/homely/home/loc1"
    );
}

#[test]
fn stream_config_scopes_and_authenticates_the_connection() {
    let c = prepare_stream(&token("tok1"), &location("loc1")).expect("expected a config");
    assert_eq!(c.url, "https://sdk.iotiliti.cloud/?locationId=loc1");
    assert_eq!(c.auth_header_value, "Bearer tok1");
}

#[test]
fn socket_url_percent_encodes_the_query_value() {
    let c = prepare_stream(&token("t"), &location("a b&c")).expect("expected a config");
    assert_eq!(c.url, "https://sdk.iotiliti.cloud/?locationId=a+b%26c");
}

#[test]
fn bearer_header_holds_the_token() {
    assert_eq!(bearer_header_value(&token("xyz")), "Bearer xyz");
}

#[test]
fn one_failure_wakes_the_waiter_and_reports_once() {
    let mut signal = FailureSignal::new();
    assert!(signal.should_keep_waiting());
    signal.record_failure("boom".to_string());
    assert!(!signal.should_keep_waiting());
    match signal.stream_verdict() {
        Err(BridgeError::StreamError(m)) => assert_eq!(m, "boom"),
        _ => panic!("expected StreamError"),
    }
}

#[test]
fn repeated_failures_are_idempotent_first_wins() {
    let mut signal = FailureSignal::new();
    signal.record_failure("first".to_string());
    signal.record_failure("second".to_string());
    assert!(!signal.should_keep_waiting());
    match signal.stream_verdict() {
        Err(BridgeError::StreamError(m)) => assert_eq!(m, "first"),
        _ => panic!("expected StreamError"),
    }
}

#[test]
fn no_failure_means_the_waiter_keeps_waiting() {
    let signal = FailureSignal::new();
    // A bounded stand-in for "the waiter re-checks after every wakeup": the
    // loop condition stays true however many times it is consulted.
    for _ in 0..100 {
        assert!(signal.should_keep_waiting());
    }
}

#[test]
fn event_summaries_classify_text_and_binary() {
    let text = Event::Text("door opened".to_string());
    assert_eq!(event_summary(&text), "Received: door opened");
    let binary = Event::Binary(vec![0x12, 0xab, 0x00, 0xff]);
    assert_eq!(event_summary(&binary), "Received bytes: 12ab00ff");
}

#[test]
fn hex_rendering_is_two_digits_per_byte() {
    assert_eq!(bytes_hex(&vec![]), "");
    assert_eq!(bytes_hex(&vec![0]), "00");
    assert_eq!(bytes_hex(&vec![9, 10, 15, 16, 255]), "090a0f10ff");
}

#[test]
fn healthz_answers_200_whatever_the_headers() {
    let no_headers: Vec<(String, String)> = vec![];
    let odd_headers = vec![
        ("X-Forwarded-For".to_string(), "10.0.0.1".to_string()),
        ("Accept".to_string(), "*/*".to_string()),
    ];
    for headers in [&no_headers, &odd_headers] {
        match route_request("/healthz", headers) {
            Some((status, body)) => {
                assert_eq!(status, 200);
                assert_eq!(body, "I'm alive!");
            }
            None => panic!("expected the liveness response"),
        }
    }
    assert!(route_request("/other", &no_headers).is_none());
}

#[test]
fn healthz_answers_before_authentication_completes() {
    // The route consults nothing of the pipeline: it answers the same while
    // the pipeline still awaits its very first response.
    let s = start_pipeline(Credential {
        username: "user".to_string(),
        password: "pw1".to_string(),
    });
    assert!(matches!(next_action(&s), PipelineAction::PostAuth));
    let headers: Vec<(String, String)> = vec![];
    match route_request("/healthz", &headers) {
        Some((status, body)) => {
            assert_eq!(status, 200);
            assert_eq!(body, "I'm alive!");
        }
        None => panic!("expected the liveness response"),
    }
}

fn completion(unit: UnitId, outcome: UnitOutcome) -> Completion {
    Completion { unit, outcome }
}

#[test]
fn first_exit_wins_whatever_it_was() {
    // Unit A settles first with an error: that is the supervisor's outcome,
    // regardless of the other units.
    let settled = vec![
        completion(
            UnitId::Pipeline,
            UnitOutcome::Failure(BridgeError::StreamError("boom".to_string())),
        ),
        completion(UnitId::InterruptListener, UnitOutcome::Success),
    ];
    let first = race_outcome(&settled).expect("expected an outcome");
    assert!(matches!(first.unit, UnitId::Pipeline));
    assert!(!exit_is_clean(first));

    // Unit A settles first cleanly: a clean exit, even though another unit
    // failed a moment later.
    let settled = vec![
        completion(UnitId::InterruptListener, UnitOutcome::Success),
        completion(
            UnitId::LivenessServer,
            UnitOutcome::Failure(BridgeError::BindError("address in use".to_string())),
        ),
    ];
    let first = race_outcome(&settled).expect("expected an outcome");
    assert!(matches!(first.unit, UnitId::InterruptListener));
    assert!(exit_is_clean(first));

    // Nothing settled yet: the race has no outcome and the process runs on.
    assert!(race_outcome(&vec![]).is_none());
}

#[test]
fn end_to_end_stream_failure_is_the_final_result() {
    let s = start_pipeline(Credential {
        username: "user".to_string(),
        password: "pw1".to_string(),
    });
    assert!(matches!(next_action(&s), PipelineAction::PostAuth));

    let s = pipeline_step(
        s,
        PipelineEvent::AuthResponse {
            status: 200,
            body: "{\"access_token\":\"tok1\"}".to_string(),
        },
    );
    match &s {
        PipelineState::NeedLocations { token } => assert_eq!(token.access_token, "tok1"),
        _ => panic!("expected to need locations"),
    }
    assert!(matches!(next_action(&s), PipelineAction::GetLocations));

    let s = pipeline_step(
        s,
        PipelineEvent::LocationsResponse {
            status: 200,
            body: "[{\"locationId\":\"loc1\"}]".to_string(),
        },
    );
    match &s {
        PipelineState::NeedState { locations, .. } => {
            assert_eq!(locations.len(), 1);
            assert_eq!(locations[0].location_id, "loc1");
        }
        _ => panic!("expected to need state"),
    }
    assert!(matches!(next_action(&s), PipelineAction::GetState));

    let s = pipeline_step(
        s,
        PipelineEvent::StateResponse { status: 200, body: "{\"ok\":true}".to_string() },
    );
    match &s {
        PipelineState::NeedStream { location, snapshot, .. } => {
            assert_eq!(location.location_id, "loc1");
            assert_eq!(snapshot.document, "{\"ok\":true}");
        }
        _ => panic!("expected to be ready to stream"),
    }
    assert!(matches!(next_action(&s), PipelineAction::OpenStream));

    let s = pipeline_step(s, PipelineEvent::StreamFailed { message: "boom".to_string() });
    let result = match s {
        PipelineState::Complete { result } => result,
        _ => panic!("expected the pipeline to be over"),
    };
    let err = match result {
        Err(e) => e,
        Ok(()) => panic!("expected a stream failure"),
    };
    match &err {
        BridgeError::StreamError(m) => assert_eq!(m, "boom"),
        _ => panic!("expected StreamError"),
    }

    // No interrupt and no bind error occurred first, so the pipeline's
    // completion is the supervisor's final result.
    let settled = vec![completion(UnitId::Pipeline, UnitOutcome::Failure(err))];
    let first = race_outcome(&settled).expect("expected an outcome");
    assert!(matches!(first.unit, UnitId::Pipeline));
    assert!(!exit_is_clean(first));
    match &first.outcome {
        UnitOutcome::Failure(BridgeError::StreamError(m)) => assert_eq!(m, "boom"),
        _ => panic!("expected the stream failure to win the race"),
    }
}

#[test]
fn pipeline_stops_on_auth_failure() {
    let s = start_pipeline(Credential {
        username: "user".to_string(),
        password: "pw1".to_string(),
    });
    let s = pipeline_step(
        s,
        PipelineEvent::AuthResponse { status: 403, body: "{}".to_string() },
    );
    match s {
        PipelineState::Complete { result: Err(BridgeError::AuthError(_)) } => {}
        _ => panic!("expected AuthError to end the pipeline"),
    }
}

#[test]
fn pipeline_stops_on_listing_failure() {
    let s = start_pipeline(Credential {
        username: "user".to_string(),
        password: "pw1".to_string(),
    });
    let s = pipeline_step(
        s,
        PipelineEvent::AuthResponse {
            status: 200,
            body: "{\"access_token\":\"tok1\"}".to_string(),
        },
    );
    let s = pipeline_step(
        s,
        PipelineEvent::LocationsResponse { status: 200, body: "not a list".to_string() },
    );
    match s {
        PipelineState::Complete { result: Err(BridgeError::ApiError(_)) } => {}
        _ => panic!("expected ApiError to end the pipeline"),
    }
}

#[test]
fn error_messages_are_readable() {
    let e = BridgeError::BindError("cannot bind".to_string());
    assert_eq!(e.message(), "cannot bind");
}

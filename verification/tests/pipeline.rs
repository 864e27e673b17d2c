use swaptun::error::{AppError, ErrorKind, TransportFailure};
use swaptun::models::ErrorNotification;
use swaptun::pipeline_laws::{copy_event, replay};
use swaptun::response::{decode_login_response, session_token, StoredToken};
use swaptun::services::UserService;
use swaptun::dto::{CreateUserRequest, ResetPasswordRequest};
use swaptun::transport::{
    classify_failure, classify_response, handle_response, BackendClient, Event, Expect, Method,
    Next, PipelineState, Platform, Reply, Step,
};

fn client() -> BackendClient {
    BackendClient::new(Platform::Other, false, None)
}

fn network_notice() -> Option<ErrorNotification> {
    Some(ErrorNotification::NetworkError { message: "No internet connection".to_string() })
}

fn server_notice() -> Option<ErrorNotification> {
    Some(ErrorNotification::ServerError { message: "Server error".to_string() })
}

#[test]
fn base_url_is_localhost_in_release() {
    let c = BackendClient::new(Platform::Ios, false, Some("10.0.0.2".to_string()));
    assert_eq!(c.base_url(), "http://localhost:8000/api");
}

#[test]
fn base_url_on_ios_in_debug() {
    let c = BackendClient::new(Platform::Ios, true, None);
    assert_eq!(c.base_url(), "http://192.168.50.54:8000/api");
}

#[test]
fn base_url_on_android_in_debug() {
    let c = BackendClient::new(Platform::Android, true, Some("10.0.0.2".to_string()));
    assert_eq!(c.base_url(), "http://10.0.0.2:8000/api");
    let d = BackendClient::new(Platform::Android, true, None);
    assert_eq!(d.base_url(), "http://localhost:8000/api");
}

#[test]
fn base_url_on_desktop_in_debug() {
    let c = BackendClient::new(Platform::Other, true, Some("10.0.0.2".to_string()));
    assert_eq!(c.base_url(), "http://localhost:8000/api");
}

#[test]
fn request_builders() {
    let c = client();
    let get = c.get("users/friends");
    assert_eq!(get.method, Method::Get);
    assert_eq!(get.url, "http://localhost:8000/api/users/friends");
    assert_eq!(get.body, None);
    assert_eq!(get.expect, Expect::Json);
    assert!(!get.has_json_content_type());

    let post = c.post("register", "{}".to_string());
    assert_eq!(post.method, Method::Post);
    assert_eq!(post.url, "http://localhost:8000/api/register");
    assert_eq!(post.body, Some("{}".to_string()));
    assert_eq!(post.expect, Expect::Status);
    assert!(post.has_json_content_type());

    let post_json = c.post_with_return("auth/login", "{}".to_string());
    assert_eq!(post_json.method, Method::Post);
    assert_eq!(post_json.expect, Expect::Json);

    let get_body = c.get_with_body("playlists", "{\"origin\":null}".to_string());
    assert_eq!(get_body.method, Method::Get);
    assert_eq!(get_body.body, Some("{\"origin\":null}".to_string()));
    assert_eq!(get_body.expect, Expect::Json);

    let delete = c.delete("spotify/disconnect");
    assert_eq!(delete.method, Method::Delete);
    assert_eq!(delete.url, "http://localhost:8000/api/spotify/disconnect");
    assert_eq!(delete.body, None);
    assert_eq!(delete.expect, Expect::Status);
}

#[test]
fn a_request_starts_with_a_probe() {
    let (state, step) = BackendClient::begin();
    assert_eq!(state, PipelineState::Probing { failures: 0 });
    assert_eq!(step, Step { notice: None, next: Next::Probe { wait_seconds: 0 } });
}

#[test]
fn login_then_authenticated_fetch() {
    let login = decode_login_response(
        "{\"token\":\"abc\",\"user_id\":1,\"username\":\"u\",\"role\":\"user\"}",
    )
    .unwrap();
    assert_eq!(login.token, "abc");
    assert_eq!(login.user_id, 1);
    assert_eq!(login.username, "u");
    assert_eq!(login.role, "user");

    let users = UserService::new(Platform::Other, false, None);
    let mut c = users.backend_client;
    let users = UserService::new(Platform::Other, false, None);
    let request = users.get_friends();
    assert_eq!(request.method, Method::Get);
    assert_eq!(request.url, "http://localhost:8000/api/users/friends");

    let (state, _) = BackendClient::begin();
    let session = session_token(StoredToken::Text(login.token));
    let (state, step) = c.send_request(state, Event::ProbeOk { session });
    assert_eq!(state, PipelineState::Dispatched);
    assert_eq!(
        step,
        Step { notice: None, next: Next::Send { authorization: Some("Bearer abc".to_string()), timeout_seconds: 10 } }
    );
}

#[test]
fn password_reset_with_override() {
    let mut users = UserService::new(Platform::Other, false, None);
    let request = users.reset_password(
        "RESET-XYZ".to_string(),
        ResetPasswordRequest { new_password: "P@ssword12".to_string() },
    );
    assert_eq!(request.method, Method::Post);
    assert_eq!(request.url, "http://localhost:8000/api/users/reset-password");
    assert_eq!(request.body, Some("{\"new_password\":\"P@ssword12\"}".to_string()));
    assert!(users.backend_client.has_temporary_token());

    let (state, _) = BackendClient::begin();
    let (state, step) = users
        .backend_client
        .send_request(state, Event::ProbeOk { session: Some("stored".to_string()) });
    assert_eq!(state, PipelineState::Dispatched);
    assert_eq!(
        step.next,
        Next::Send { authorization: Some("Bearer RESET-XYZ".to_string()), timeout_seconds: 10 }
    );
    assert!(!users.backend_client.has_temporary_token());

    let follow_up = users.get_friends();
    assert_eq!(follow_up.url, "http://localhost:8000/api/users/friends");
    let (state, _) = BackendClient::begin();
    let (_, step) = users
        .backend_client
        .send_request(state, Event::ProbeOk { session: Some("stored".to_string()) });
    assert_eq!(step.next, Next::Send { authorization: Some("Bearer stored".to_string()), timeout_seconds: 10 });

    let (state, _) = BackendClient::begin();
    let (_, step) = users.backend_client.send_request(state, Event::ProbeOk { session: None });
    assert_eq!(step.next, Next::Send { authorization: None, timeout_seconds: 10 });
}

#[test]
fn a_new_override_replaces_the_armed_one() {
    let mut c = client();
    c.set_temporary_token("first".to_string());
    c.set_temporary_token("second".to_string());
    let header = c.add_authorization_header(Some("stored".to_string()));
    assert_eq!(header, Some("Bearer second".to_string()));
    assert!(!c.has_temporary_token());
    assert_eq!(c.add_authorization_header(None), None);
}

#[test]
fn validation_prevents_network() {
    let users = UserService::new(Platform::Other, false, None);
    let outcome = users.register(CreateUserRequest {
        username: "a b".to_string(),
        password: "Passw0rd!Long".to_string(),
        first_name: "Alice".to_string(),
        last_name: "Smith".to_string(),
        email: "alice@example.com".to_string(),
    });
    assert_eq!(
        outcome,
        Err(AppError::Validation("Username cannot contain spaces".to_string()))
    );
}

#[test]
fn backend_error_surfacing() {
    let mut c = client();
    let (state, _) = BackendClient::begin();
    let (state, _) = c.send_request(state, Event::ProbeOk { session: None });
    let (state, step) =
        c.send_request(state, Event::Response { status: 409, body: "user exists".to_string() });
    assert_eq!(state, PipelineState::Finished);
    assert_eq!(step.notice, server_notice());
    assert_eq!(step.next, Next::Finish(Err(AppError::Backend("user exists".to_string()))));
    let (state, step) =
        c.send_request(state, Event::Response { status: 409, body: "user exists".to_string() });
    assert_eq!(state, PipelineState::Finished);
    assert_eq!(step, Step { notice: None, next: Next::Idle });
}

#[test]
fn success_passes_through() {
    let step = classify_response(201, "{\"ok\":true}".to_string());
    assert_eq!(
        step,
        Step {
            notice: None,
            next: Next::Finish(Ok(Reply { status: 201, body: "{\"ok\":true}".to_string() })),
        }
    );
}

#[test]
fn server_errors_are_internal() {
    let step = classify_response(500, "boom".to_string());
    assert_eq!(step.notice, server_notice());
    assert_eq!(step.next, Next::Finish(Err(AppError::Internal("boom".to_string()))));
    let redirect = classify_response(302, "moved".to_string());
    assert_eq!(redirect.next, Next::Finish(Err(AppError::Internal("moved".to_string()))));
}

#[test]
fn an_empty_error_body_gets_a_message() {
    let step = classify_response(404, String::new());
    assert_eq!(step.next, Next::Finish(Err(AppError::Backend("Server error: 404".to_string()))));
    let step = classify_response(503, String::new());
    assert_eq!(step.next, Next::Finish(Err(AppError::Internal("Server error: 503".to_string()))));
}

#[test]
fn status_boundaries() {
    assert!(matches!(classify_response(200, String::new()).next, Next::Finish(Ok(_))));
    assert!(matches!(classify_response(299, String::new()).next, Next::Finish(Ok(_))));
    assert!(matches!(
        classify_response(199, "x".to_string()).next,
        Next::Finish(Err(AppError::Internal(_)))
    ));
    assert!(matches!(
        classify_response(300, "x".to_string()).next,
        Next::Finish(Err(AppError::Internal(_)))
    ));
    assert!(matches!(
        classify_response(400, "x".to_string()).next,
        Next::Finish(Err(AppError::Backend(_)))
    ));
    assert!(matches!(
        classify_response(499, "x".to_string()).next,
        Next::Finish(Err(AppError::Backend(_)))
    ));
}

#[test]
fn transport_failures_are_network_errors() {
    assert_eq!(
        classify_failure(TransportFailure::Timeout),
        Step {
            notice: None,
            next: Next::Finish(Err(AppError::Network("Request timeout".to_string()))),
        }
    );
    assert_eq!(
        classify_failure(TransportFailure::Connect).next,
        Next::Finish(Err(AppError::Network("Connection refused".to_string())))
    );
    assert_eq!(
        classify_failure(TransportFailure::Other("dns failure".to_string())).next,
        Next::Finish(Err(AppError::Network("dns failure".to_string())))
    );
    let mut c = client();
    let (state, step) =
        c.send_request(PipelineState::Dispatched, Event::Failed(TransportFailure::Timeout));
    assert_eq!(state, PipelineState::Finished);
    assert_eq!(step.next, Next::Finish(Err(AppError::Network("Request timeout".to_string()))));
}

#[test]
fn one_network_notice_then_recovery() {
    let mut c = client();
    c.set_temporary_token("T".to_string());
    let (mut state, _) = BackendClient::begin();
    let mut notices = 0;
    for i in 0..29u32 {
        let (next_state, step) = c.send_request(state, Event::ProbeFailed);
        if step.notice.is_some() {
            assert_eq!(i, 0);
            assert_eq!(step.notice, network_notice());
            notices += 1;
        }
        assert_eq!(step.next, Next::Probe { wait_seconds: 2 });
        assert_eq!(next_state, PipelineState::Probing { failures: i + 1 });
        state = next_state;
    }
    assert_eq!(notices, 1);
    assert!(c.has_temporary_token());
    let (state, step) = c.send_request(state, Event::ProbeOk { session: None });
    assert_eq!(state, PipelineState::Dispatched);
    assert_eq!(step.next, Next::Send { authorization: Some("Bearer T".to_string()), timeout_seconds: 10 });
    assert!(!c.has_temporary_token());
}

#[test]
fn thirty_failed_probes_give_up() {
    let mut c = client();
    c.set_temporary_token("T".to_string());
    let (mut state, _) = BackendClient::begin();
    let mut notices = 0;
    let mut last = None;
    for _ in 0..30 {
        let (next_state, step) = c.send_request(state, Event::ProbeFailed);
        if step.notice.is_some() {
            notices += 1;
        }
        state = next_state;
        last = Some(step.next);
    }
    assert_eq!(notices, 1);
    assert_eq!(state, PipelineState::Finished);
    assert_eq!(
        last,
        Some(Next::Finish(Err(AppError::Network(
            "No internet connection after maximum retries".to_string()
        ))))
    );
    assert!(c.has_temporary_token());
    let (state, step) = c.send_request(state, Event::ProbeFailed);
    assert_eq!(state, PipelineState::Finished);
    assert_eq!(step, Step { notice: None, next: Next::Idle });
}

#[test]
fn check_connectivity_counts_failures() {
    let (state, step) = BackendClient::check_connectivity(0);
    assert_eq!(state, PipelineState::Probing { failures: 1 });
    assert_eq!(step.notice, network_notice());
    let (state, step) = BackendClient::check_connectivity(28);
    assert_eq!(state, PipelineState::Probing { failures: 29 });
    assert_eq!(step.notice, None);
    let (state, _) = BackendClient::check_connectivity(29);
    assert_eq!(state, PipelineState::Finished);
    let (state, _) = BackendClient::check_connectivity(u32::MAX);
    assert_eq!(state, PipelineState::Finished);
}

#[test]
fn events_out_of_turn_are_ignored() {
    let mut c = client();
    let (state, step) = c.send_request(
        PipelineState::Probing { failures: 0 },
        Event::Response { status: 200, body: String::new() },
    );
    assert_eq!(state, PipelineState::Probing { failures: 0 });
    assert_eq!(step.next, Next::Idle);
    let (state, step) = c.send_request(PipelineState::Dispatched, Event::ProbeFailed);
    assert_eq!(state, PipelineState::Dispatched);
    assert_eq!(step.next, Next::Idle);
}

#[test]
fn a_request_is_sent_once() {
    let mut c = client();
    let (mut state, _) = BackendClient::begin();
    let events = vec![
        Event::ProbeFailed,
        Event::ProbeOk { session: Some("s".to_string()) },
        Event::ProbeOk { session: Some("s".to_string()) },
        Event::Response { status: 400, body: "bad".to_string() },
        Event::Response { status: 400, body: "bad".to_string() },
        Event::ProbeOk { session: Some("s".to_string()) },
    ];
    let mut sends = 0;
    let mut server_notices = 0;
    for event in events {
        let (next_state, step) = c.send_request(state, event);
        if matches!(step.next, Next::Send { .. }) {
            sends += 1;
        }
        if matches!(step.notice, Some(ErrorNotification::ServerError { .. })) {
            server_notices += 1;
        }
        state = next_state;
    }
    assert_eq!(sends, 1);
    assert_eq!(server_notices, 1);
}

#[test]
fn decode_failures_are_internal() {
    let ok: Result<u8, AppError> = handle_response(Ok(7u8));
    assert_eq!(ok, Ok(7));
    let err: Result<u8, AppError> = handle_response(Err("expected value".to_string()));
    assert_eq!(
        err,
        Err(AppError::Internal("Failed to parse response: expected value".to_string()))
    );
    let broken = decode_login_response("not json");
    match broken {
        Err(e) => {
            assert_eq!(e.kind(), ErrorKind::Internal);
            assert!(e.message().starts_with("Failed to parse response: "));
        }
        Ok(_) => panic!("a text that is no JSON decoded"),
    }
    let incomplete = decode_login_response("{\"token\":\"abc\"}");
    assert_eq!(
        incomplete,
        Err(AppError::Internal(
            "Failed to parse response: missing or invalid member".to_string()
        ))
    );
}

#[test]
fn stored_token_forms() {
    assert_eq!(session_token(StoredToken::Absent), None);
    assert_eq!(session_token(StoredToken::Text("abc".to_string())), Some("abc".to_string()));
    assert_eq!(session_token(StoredToken::Other), Some(String::new()));
}

#[test]
fn error_display() {
    assert_eq!(AppError::Backend("m".to_string()).to_string(), "Backend error: m");
    assert_eq!(AppError::Network("m".to_string()).to_string(), "Network error: m");
    assert_eq!(AppError::Auth("m".to_string()).to_string(), "Authentication error: m");
    assert_eq!(AppError::Validation("m".to_string()).to_string(), "Validation error: m");
    assert_eq!(AppError::NotFound("m".to_string()).to_string(), "Not found: m");
    assert_eq!(AppError::Internal("m".to_string()).to_string(), "Internal error: m");
    assert_eq!(AppError::NotFound("m".to_string()).kind(), ErrorKind::NotFound);
    assert_eq!(AppError::Auth("why".to_string()).message(), "why");
}

#[test]
fn transport_failure_conversion() {
    assert_eq!(
        AppError::from_transport(TransportFailure::Timeout),
        AppError::Network("Request timeout".to_string())
    );
    assert_eq!(
        AppError::from_transport(TransportFailure::Connect),
        AppError::Network("Connection failed".to_string())
    );
    assert_eq!(
        AppError::from_transport(TransportFailure::Other("x".to_string())),
        AppError::Network("x".to_string())
    );
}

#[test]
fn replaying_a_recorded_request() {
    let mut c = client();
    c.set_temporary_token("T".to_string());
    let events = vec![
        Event::ProbeFailed,
        Event::ProbeFailed,
        Event::ProbeOk { session: Some("stored".to_string()) },
        Event::Response { status: 404, body: String::new() },
        Event::ProbeFailed,
    ];
    let (state, steps) = replay(&mut c, &events);
    assert_eq!(state, PipelineState::Finished);
    assert_eq!(
        steps,
        vec![
            Step { notice: network_notice(), next: Next::Probe { wait_seconds: 2 } },
            Step { notice: None, next: Next::Probe { wait_seconds: 2 } },
            Step {
                notice: None,
                next: Next::Send {
                    authorization: Some("Bearer T".to_string()),
                    timeout_seconds: 10,
                },
            },
            Step {
                notice: server_notice(),
                next: Next::Finish(Err(AppError::Backend("Server error: 404".to_string()))),
            },
            Step { notice: None, next: Next::Idle },
        ]
    );
    assert!(!c.has_temporary_token());
    let (state, steps) = replay(&mut c, &vec![]);
    assert_eq!(state, PipelineState::Probing { failures: 0 });
    assert!(steps.is_empty());
    for event in &events {
        assert_eq!(&copy_event(event), event);
    }
    assert_eq!(
        copy_event(&Event::Failed(TransportFailure::Other("x".to_string()))),
        Event::Failed(TransportFailure::Other("x".to_string()))
    );
}

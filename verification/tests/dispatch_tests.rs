use adguard_youtube::client::{
    interpret_login, AdGuardClient, AdGuardConfig, AuthError, HttpResponse, RemoteError,
};
use adguard_youtube::dispatch::{
    on_login_result, on_update_result, render_body, status_outcome, DispatchStep,
};
use adguard_youtube::mqtt::MqttCommand;

#[test]
fn login_token_leads_to_update_step() {
    let step = on_login_result(Ok("sess=abc".to_string()));
    match step {
        DispatchStep::AwaitUpdate { token } => assert_eq!(token, "sess=abc"),
        DispatchStep::Done { .. } => panic!("a token must lead to the update step"),
    }
}

#[test]
fn login_failure_is_final_401() {
    let step = on_login_result(Err(AuthError::NoCookie));
    match step {
        DispatchStep::Done { outcome } => {
            assert!(!outcome.success);
            assert_eq!(outcome.status, 401);
            assert_eq!(
                outcome.message,
                "Failed to login to AdGuard Home: No cookies found in response"
            );
        }
        DispatchStep::AwaitUpdate { .. } => panic!("a failed login must finish the dispatch"),
    }
}

#[test]
fn login_transport_failure_is_final_401() {
    let step = on_login_result(Err(AuthError::Transport("connection refused".to_string())));
    match step {
        DispatchStep::Done { outcome } => {
            assert!(!outcome.success);
            assert_eq!(outcome.status, 401);
            assert_eq!(
                outcome.message,
                "Failed to login to AdGuard Home: connection refused"
            );
        }
        DispatchStep::AwaitUpdate { .. } => panic!("a failed login must finish the dispatch"),
    }
}

#[test]
fn update_success_is_200_for_both_commands() {
    let enabled = on_update_result(MqttCommand::EnableYouTube, Ok(()));
    assert!(enabled.success);
    assert_eq!(enabled.status, 200);
    assert_eq!(enabled.message, "YouTube blocking enabled successfully");

    let disabled = on_update_result(MqttCommand::DisableYouTube, Ok(()));
    assert!(disabled.success);
    assert_eq!(disabled.status, 200);
    assert_eq!(disabled.message, "YouTube blocking disabled successfully");
}

#[test]
fn update_transport_failure_is_500() {
    let outcome = on_update_result(
        MqttCommand::EnableYouTube,
        Err(RemoteError::Transport("timed out".to_string())),
    );
    assert!(!outcome.success);
    assert_eq!(outcome.status, 500);
    assert_eq!(outcome.message, "Failed to enable YouTube blocking: timed out");

    let outcome = on_update_result(
        MqttCommand::DisableYouTube,
        Err(RemoteError::Transport("timed out".to_string())),
    );
    assert!(!outcome.success);
    assert_eq!(outcome.status, 500);
    assert_eq!(
        outcome.message,
        "Failed to disable YouTube blocking: timed out"
    );
}

#[test]
fn liveness_probe_outcome() {
    let outcome = status_outcome();
    assert!(outcome.success);
    assert_eq!(outcome.status, 200);
    assert_eq!(outcome.message, "AdGuard YouTube API is running");
    assert_eq!(
        render_body(&outcome),
        "{\"success\":true,\"message\":\"AdGuard YouTube API is running\"}"
    );
}

#[test]
fn render_body_escapes_message() {
    let outcome = on_update_result(
        MqttCommand::EnableYouTube,
        Err(RemoteError::Transport("a \"quoted\\\" cause\n\u{1}".to_string())),
    );
    let body = render_body(&outcome);
    let v: serde_json::Value = serde_json::from_str(&body).unwrap();
    assert_eq!(v.get("success").unwrap().as_bool().unwrap(), false);
    assert_eq!(
        v.get("message").unwrap().as_str().unwrap(),
        "Failed to enable YouTube blocking: a \"quoted\\\" cause\n\u{1}"
    );
}

#[test]
fn enable_scenario_with_cookie_yields_200_body() {
    let client = AdGuardClient::new(AdGuardConfig {
        base_url: "http://appliance".to_string(),
        username: "u".to_string(),
        password: "p".to_string(),
        timeout_seconds: 30,
    });
    let login_response = HttpResponse {
        status: 200,
        set_cookie: Some("sess=abc".to_string()),
        body: String::new(),
    };
    let step = on_login_result(interpret_login(login_response));
    let token = match step {
        DispatchStep::AwaitUpdate { token } => token,
        DispatchStep::Done { .. } => panic!("login succeeded, the update is owed"),
    };
    let update = client.set_blocking_request(&token, true);
    assert_eq!(update.cookie.as_deref(), Some("sess=abc"));
    assert_eq!(
        update.body,
        "{\"ids\":[\"youtube\"],\"schedule\":{\"time_zone\":\"Local\"}}"
    );
    // The appliance answers 200 with an empty body; only transport failures
    // count, so the update result is Ok.
    let outcome = on_update_result(MqttCommand::EnableYouTube, Ok(()));
    assert_eq!(outcome.status, 200);
    assert_eq!(
        render_body(&outcome),
        "{\"success\":true,\"message\":\"YouTube blocking enabled successfully\"}"
    );
}

#[test]
fn disable_scenario_without_cookie_yields_401_body() {
    let login_response = HttpResponse {
        status: 200,
        set_cookie: None,
        body: String::new(),
    };
    let step = on_login_result(interpret_login(login_response));
    match step {
        DispatchStep::Done { outcome } => {
            assert_eq!(outcome.status, 401);
            assert_eq!(
                render_body(&outcome),
                "{\"success\":false,\"message\":\"Failed to login to AdGuard Home: No cookies found in response\"}"
            );
        }
        DispatchStep::AwaitUpdate { .. } => panic!("no cookie means the dispatch is finished"),
    }
}

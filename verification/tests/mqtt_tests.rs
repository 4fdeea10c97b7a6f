use adguard_youtube::mqtt::{
    decode_command, fresh_client_id, listener_step, ConnState, ListenerAction, MqttCommand,
    PollEvent, RetryPolicy,
};

#[test]
fn decode_recognizes_enable() {
    assert_eq!(decode_command("enable"), Some(MqttCommand::EnableYouTube));
    assert_eq!(decode_command(" enable \n"), Some(MqttCommand::EnableYouTube));
    assert_eq!(decode_command("\tenable\r\n"), Some(MqttCommand::EnableYouTube));
}

#[test]
fn decode_recognizes_disable() {
    assert_eq!(decode_command("disable"), Some(MqttCommand::DisableYouTube));
    assert_eq!(decode_command(" disable "), Some(MqttCommand::DisableYouTube));
}

#[test]
fn decode_drops_unknown_payloads() {
    assert_eq!(decode_command("foo"), None);
    assert_eq!(decode_command(""), None);
    assert_eq!(decode_command("ENABLE"), None);
    assert_eq!(decode_command("enable now"), None);
    assert_eq!(decode_command("en able"), None);
}

#[test]
fn decode_trims_unicode_whitespace() {
    assert_eq!(
        decode_command("\u{a0}enable\u{2028}"),
        Some(MqttCommand::EnableYouTube)
    );
}

#[test]
fn listener_forwards_recognized_payloads() {
    let policy = RetryPolicy { delay_secs: 5 };
    let (state, action) = listener_step(
        &policy,
        &PollEvent::Message {
            text: "enable".to_string(),
        },
    );
    assert!(matches!(state, ConnState::Connected));
    assert!(matches!(
        action,
        ListenerAction::Forward {
            command: MqttCommand::EnableYouTube
        }
    ));
}

#[test]
fn listener_ignores_unknown_payloads_and_other_events() {
    let policy = RetryPolicy { delay_secs: 5 };
    let (state, action) = listener_step(
        &policy,
        &PollEvent::Message {
            text: "reboot".to_string(),
        },
    );
    assert!(matches!(state, ConnState::Connected));
    assert!(matches!(action, ListenerAction::Ignore));

    let (state, action) = listener_step(&policy, &PollEvent::Other);
    assert!(matches!(state, ConnState::Connected));
    assert!(matches!(action, ListenerAction::Ignore));
}

#[test]
fn listener_pauses_on_failure_with_configured_delay() {
    let policy = RetryPolicy { delay_secs: 5 };
    let (state, action) = listener_step(&policy, &PollEvent::Failure);
    assert!(matches!(state, ConnState::Reconnecting { delay_secs: 5 }));
    assert!(matches!(action, ListenerAction::Pause { delay_secs: 5 }));
}

#[test]
fn client_id_has_prefix_and_fresh_suffix() {
    let a = fresh_client_id();
    let b = fresh_client_id();
    assert_eq!(a.chars().count(), 55);
    assert!(a.starts_with("adguard_controller_"));
    assert!(b.starts_with("adguard_controller_"));
    // Version-4 UUIDs are random: two draws never coincide in practice.
    assert_ne!(a, b);
}

use gewe_cc::config::{
    Config, ConfigManager, GeweCliConfig, NotificationConfig, RemoteConfig,
};
use gewe_cc::hook::{
    json_escape_string, HookDecision, HookError, HookHandler, HookInput,
};

fn test_config(wxid: &str, listen: &str, enabled: bool) -> Config {
    Config {
        remote: RemoteConfig { enabled },
        notification: NotificationConfig {
            channel: "wechat".to_string(),
            wxid: wxid.to_string(),
            listen: listen.to_string(),
            transcript_domain: String::new(),
        },
        gewe_cli: GeweCliConfig { command: "gewe-cli".to_string(), timeout: 0 },
    }
}

fn input_with(session_id: &str, prompt: Option<&str>) -> HookInput {
    HookInput {
        session_id: session_id.to_string(),
        prompt: prompt.map(|p| p.to_string()),
        ..HookInput::default()
    }
}

#[test]
fn test_hook_decision_serialization() {
    let decision = HookDecision::Approve;
    let json = decision.to_json();
    assert_eq!(json, r#"{"decision":"approve"}"#);

    let decision = HookDecision::Block {
        reason: "测试原因".to_string(),
    };
    let json = decision.to_json();
    assert!(json.contains("block"));
    assert!(json.contains("测试原因"));
}

#[test]
fn test_decision_json_matches_reference_encoder() {
    // The hand-built encoding must agree with a reference JSON encoder,
    // including escapes: quote, backslash, newline, tab and a raw
    // control character.
    let reason = "a\"b\\c\nd\te\u{1}f 测试原因".to_string();
    let decision = HookDecision::Block { reason: reason.clone() };

    let mut object = serde_json::Map::new();
    object.insert(
        "decision".to_string(),
        serde_json::Value::String("block".to_string()),
    );
    object.insert("reason".to_string(), serde_json::Value::String(reason));
    let expected = serde_json::to_string(&serde_json::Value::Object(object)).unwrap();

    assert_eq!(decision.to_json(), expected);
}

#[test]
fn test_json_escape_control_chars() {
    assert_eq!(json_escape_string("a\u{1f}b"), "a\\u001fb");
    assert_eq!(json_escape_string("plain"), "plain");
    assert_eq!(json_escape_string("q\"s\\"), "q\\\"s\\\\");
}

#[test]
fn test_scenario_remote_on() {
    // Store starts disabled; `>remote-on` blocks with the configured
    // target in the reason and leaves the store enabled.
    let mut store = ConfigManager::new(
        "/home/user",
        Some(test_config("wxid_target", "0.0.0.0:4399", false)),
        false,
        Vec::new(),
    );
    let input = input_with("s1", Some(">remote-on"));
    let response = HookHandler::handle("user-prompt-submit", input, &mut store).unwrap();
    match response.decision {
        HookDecision::Block { ref reason } => {
            assert!(reason.contains("wxid_target"));
            assert!(reason.contains("0.0.0.0:4399"));
        }
        HookDecision::Approve => panic!("remote-on must block"),
    }
    assert!(store.is_remote_enabled());
}

#[test]
fn test_scenario_stop_replay_approves() {
    // Stop with the loop flag set is approved even though the store is
    // enabled.
    let mut store = ConfigManager::new(
        "/home/user",
        Some(test_config("w", "l", true)),
        true,
        Vec::new(),
    );
    let input = HookInput {
        session_id: "s1".to_string(),
        stop_hook_active: true,
        ..HookInput::default()
    };
    let response = HookHandler::handle("stop", input, &mut store).unwrap();
    assert_eq!(response.decision.to_json(), r#"{"decision":"approve"}"#);
}

#[test]
fn test_scenario_stop_intercepts_unknown_project() {
    // Stop without the flag, store enabled, empty session id and no
    // working directory: blocked, with the project reported as unknown.
    let mut store = ConfigManager::new(
        "/home/user",
        Some(test_config("w", "l", true)),
        false,
        Vec::new(),
    );
    let input = HookInput {
        session_id: String::new(),
        stop_hook_active: false,
        ..HookInput::default()
    };
    let response = HookHandler::handle("stop", input, &mut store).unwrap();
    match response.decision {
        HookDecision::Block { ref reason } => assert!(reason.contains("unknown")),
        HookDecision::Approve => panic!("stop must be intercepted"),
    }
}

#[test]
fn test_scenario_notification_disabled_sends_nothing() {
    // Notification with the store disabled: approve, and no messenger
    // request is produced.
    let mut store = ConfigManager::new(
        "/home/user",
        Some(test_config("w", "l", false)),
        false,
        Vec::new(),
    );
    let input = input_with("s1", None);
    let response = HookHandler::handle("notification", input, &mut store).unwrap();
    assert_eq!(response.decision.to_json(), r#"{"decision":"approve"}"#);
    assert!(response.notify.is_none());
}

#[test]
fn test_notification_enabled_builds_request() {
    let mut store = ConfigManager::new(
        "/home/user",
        Some(test_config("wxid_target", "l", true)),
        false,
        Vec::new(),
    );
    let input = HookInput {
        session_id: "s9".to_string(),
        cwd: Some("/work/myproj".to_string()),
        ..HookInput::default()
    };
    let response = HookHandler::handle("notification", input, &mut store).unwrap();
    assert!(matches!(response.decision, HookDecision::Approve));
    let notify = response.notify.expect("messenger request expected");
    assert_eq!(notify.command, "gewe-cli");
    assert_eq!(notify.wxid, "wxid_target");
    assert!(notify.message.contains("myproj"));
    assert!(notify.message.contains("s9"));
}

#[test]
fn test_notification_enabled_without_config_fails() {
    // Lock present but no config record: the notification handler needs
    // the record and propagates the failure.
    let mut store = ConfigManager::new("/home/user", None, true, Vec::new());
    let input = input_with("s1", None);
    let err = match HookHandler::handle("notification", input, &mut store) {
        Err(e) => e,
        Ok(_) => panic!("expected an error"),
    };
    assert!(matches!(err, HookError::ConfigUnavailable));
}

#[test]
fn test_unknown_hook_kind() {
    let mut store = ConfigManager::new("/home/user", None, false, Vec::new());
    let err = match HookHandler::handle("something-else", HookInput::default(), &mut store) {
        Err(e) => e,
        Ok(_) => panic!("expected an error"),
    };
    assert!(matches!(err, HookError::UnknownEventKind));
}

#[test]
fn test_ordinary_prompt_approves() {
    let mut store = ConfigManager::new(
        "/home/user",
        Some(test_config("w", "l", true)),
        true,
        Vec::new(),
    );
    let input = input_with("s1", Some("write some code"));
    let response = HookHandler::handle("user-prompt-submit", input, &mut store).unwrap();
    assert!(matches!(response.decision, HookDecision::Approve));
    let input = input_with("s1", None);
    let response = HookHandler::handle("user-prompt-submit", input, &mut store).unwrap();
    assert!(matches!(response.decision, HookDecision::Approve));
}

#[test]
fn test_remote_off_disables_session_only() {
    let mut store = ConfigManager::new(
        "/home/user",
        Some(test_config("w", "l", true)),
        true,
        Vec::new(),
    );
    let input = input_with("s1", Some(">remote-off"));
    let response = HookHandler::handle("user-prompt-submit", input, &mut store).unwrap();
    match response.decision {
        HookDecision::Block { ref reason } => assert!(reason.contains("s1")),
        HookDecision::Approve => panic!("remote-off must block"),
    }
    assert!(store.is_session_disabled("s1"));
    // The global flag is untouched.
    assert!(store.is_remote_enabled());

    // The disabled session's stop is now approved.
    let input = HookInput {
        session_id: "s1".to_string(),
        ..HookInput::default()
    };
    let response = HookHandler::handle("stop", input, &mut store).unwrap();
    assert!(matches!(response.decision, HookDecision::Approve));
}

#[test]
fn test_remote_off_with_blank_session() {
    let mut store = ConfigManager::new(
        "/home/user",
        Some(test_config("w", "l", true)),
        true,
        Vec::new(),
    );
    let input = input_with("", Some(">remote-off"));
    let response = HookHandler::handle("user-prompt-submit", input, &mut store).unwrap();
    match response.decision {
        HookDecision::Block { ref reason } => {
            assert!(reason.contains("无法记录会话禁用状态"));
        }
        HookDecision::Approve => panic!("remote-off must block"),
    }
    assert_eq!(store.disabled_sessions().len(), 0);
}

#[test]
fn test_remote_status_needs_config() {
    let mut store = ConfigManager::new("/home/user", None, true, Vec::new());
    let input = input_with("s1", Some(">remote-status"));
    let err = match HookHandler::handle("user-prompt-submit", input, &mut store) {
        Err(e) => e,
        Ok(_) => panic!("expected an error"),
    };
    assert!(matches!(err, HookError::ConfigUnavailable));
}

#[test]
fn test_remote_status_reports_state() {
    let mut store = ConfigManager::new(
        "/home/user",
        Some(test_config("wxid_target", "0.0.0.0:4399", false)),
        false,
        Vec::new(),
    );
    let input = input_with("s1", Some(">remote-status"));
    let response = HookHandler::handle("user-prompt-submit", input, &mut store).unwrap();
    match response.decision {
        HookDecision::Block { ref reason } => {
            assert!(reason.contains("未启用"));
            assert!(!reason.contains("wxid_target"));
        }
        HookDecision::Approve => panic!("remote-status must block"),
    }

    store.enable_remote();
    let input = input_with("s1", Some(">remote-status"));
    let response = HookHandler::handle("user-prompt-submit", input, &mut store).unwrap();
    match response.decision {
        HookDecision::Block { ref reason } => {
            assert!(reason.contains("已启用"));
            assert!(reason.contains("wxid_target"));
            assert!(reason.contains("0.0.0.0:4399"));
        }
        HookDecision::Approve => panic!("remote-status must block"),
    }
}

#[test]
fn test_stop_hands_back_registration() {
    let mut store = ConfigManager::new(
        "/home/user",
        Some(test_config("w", "l", true)),
        false,
        Vec::new(),
    );
    let input = HookInput {
        session_id: "s7".to_string(),
        transcript_path: Some("/tmp/s7.jsonl".to_string()),
        cwd: Some("/work/proj".to_string()),
        ..HookInput::default()
    };
    let response = HookHandler::handle("stop", input, &mut store).unwrap();
    let register = response.register.expect("registration request expected");
    assert_eq!(register.session_id, "s7");
    assert_eq!(register.transcript_path, "/tmp/s7.jsonl");
    match response.decision {
        HookDecision::Block { ref reason } => {
            assert!(reason.contains("proj"));
            assert!(reason.contains("/work/proj"));
            assert!(reason.contains("s7"));
        }
        HookDecision::Approve => panic!("stop must be intercepted"),
    }
}

#[test]
fn test_stop_custom_prompt_text() {
    let mut store = ConfigManager::new(
        "/home/user",
        Some(test_config("w", "l", true)),
        false,
        Vec::new(),
    );
    let input = HookInput {
        session_id: "s1".to_string(),
        user_prompt: Some("please wait for my reply".to_string()),
        ..HookInput::default()
    };
    let response = HookHandler::handle("stop", input, &mut store).unwrap();
    match response.decision {
        HookDecision::Block { ref reason } => {
            assert!(reason.contains("please wait for my reply"));
            assert!(!reason.contains("remote-control skill"));
        }
        HookDecision::Approve => panic!("stop must be intercepted"),
    }
}

#[test]
fn test_project_name_from_path_edges() {
    let mut store = ConfigManager::new(
        "/home/user",
        Some(test_config("w", "l", true)),
        false,
        Vec::new(),
    );

    // A trailing separator does not hide the project name.
    let input = HookInput {
        session_id: "s1".to_string(),
        cwd: Some("/work/proj/".to_string()),
        ..HookInput::default()
    };
    let response = HookHandler::handle("stop", input, &mut store).unwrap();
    match response.decision {
        HookDecision::Block { ref reason } => assert!(reason.contains("- 项目: proj\n")),
        HookDecision::Approve => panic!("stop must be intercepted"),
    }

    // A directory that resolves upward has no usable name.
    let input = HookInput {
        session_id: "s1".to_string(),
        cwd: Some("/work/proj/..".to_string()),
        ..HookInput::default()
    };
    let response = HookHandler::handle("stop", input, &mut store).unwrap();
    match response.decision {
        HookDecision::Block { ref reason } => assert!(reason.contains("- 项目: unknown\n")),
        HookDecision::Approve => panic!("stop must be intercepted"),
    }
}

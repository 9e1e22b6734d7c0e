use daemon_desktop::classifier::PairingBlock;
use daemon_desktop::config::{ConfigError, ConfigFault, Section};
use daemon_desktop::json::Json;
use daemon_desktop::openclaw::{
    arguments_of, command_words, configure_whatsapp_self_chat, find_openclaw, gateway_reachable,
    log_event, openclaw_check, qr_event, read_self_identity, remove_gateway_token_from_launchd,
    self_identity, DaemonCommand, LaunchdCleanup, PairingStep, PairingWorkflow, SelfChatError,
};
use daemon_desktop::supervisor::{ProcessEvent, StreamKind};
use serde_json::Value;

fn value(text: &str) -> Value {
    serde_json::from_str(text).unwrap()
}

fn words(list: &[&str]) -> Vec<String> {
    list.iter().map(|w| w.to_string()).collect()
}

#[test]
fn daemon_is_found_on_the_first_line() {
    assert_eq!(
        find_openclaw(true, "/usr/local/bin/openclaw\n/usr/bin/openclaw\n").as_deref(),
        Some("/usr/local/bin/openclaw")
    );
    assert_eq!(find_openclaw(true, ""), None);
    assert_eq!(find_openclaw(false, "/usr/local/bin/openclaw\n"), None);
}

#[test]
fn status_joins_lookup_and_gateway() {
    let status = openclaw_check(Some("/bin/openclaw".to_string()), Some(401));
    assert!(status.installed);
    assert_eq!(status.path.as_deref(), Some("/bin/openclaw"));
    assert!(status.gateway_running);
    let down = openclaw_check(None, None);
    assert!(!down.installed);
    assert_eq!(down.path, None);
    assert!(!down.gateway_running);
    assert!(gateway_reachable(Some(204)));
    assert!(!gateway_reachable(Some(500)));
}

#[test]
fn events_for_the_display_carry_line_and_stream() {
    let shown = log_event(ProcessEvent { line: "hello".to_string(), stream: StreamKind::Stderr });
    assert_eq!(shown.line, "hello");
    assert_eq!(shown.stream, "stderr");
    let out = log_event(ProcessEvent { line: String::new(), stream: StreamKind::Stdout });
    assert_eq!(out.stream, "stdout");
    let qr = qr_event(PairingBlock { data: "##\n##".to_string(), rows: 2, cols: 2 });
    assert_eq!(qr.data, "##\n##");
}

#[test]
fn token_removal_accepts_a_token_that_was_not_there() {
    assert_eq!(remove_gateway_token_from_launchd(LaunchdCleanup::NotNeeded), Ok(()));
    assert_eq!(remove_gateway_token_from_launchd(LaunchdCleanup::Exited(Some(0))), Ok(()));
    assert_eq!(remove_gateway_token_from_launchd(LaunchdCleanup::Exited(Some(1))), Ok(()));
    assert_eq!(
        remove_gateway_token_from_launchd(LaunchdCleanup::Exited(Some(2))),
        Err("PlistBuddy failed with code Some(2)".to_string())
    );
    assert_eq!(
        remove_gateway_token_from_launchd(LaunchdCleanup::Exited(None)),
        Err("PlistBuddy failed with code None".to_string())
    );
    assert_eq!(
        remove_gateway_token_from_launchd(LaunchdCleanup::NotRun("denied".to_string())),
        Err("Failed to run PlistBuddy: denied".to_string())
    );
}

#[test]
fn identity_is_the_id_of_the_first_entry() {
    assert_eq!(
        read_self_identity(true, " [{\"id\":\"+1555\",\"phone\":\"x\"},{\"id\":\"other\"}]\n"),
        Ok("+1555".to_string())
    );
    assert_eq!(read_self_identity(true, "[{\"phone\":\"+1777\"}]"), Ok("+1777".to_string()));
    assert_eq!(read_self_identity(true, "{\"id\":\"me\"}"), Ok("me".to_string()));
    assert_eq!(read_self_identity(true, "{\"phone\":\"p\"}"), Ok("p".to_string()));
}

#[test]
fn identity_that_cannot_be_resolved_is_an_error() {
    assert_eq!(read_self_identity(false, "[{\"id\":\"+1555\"}]"), Err(SelfChatError::QueryFailed));
    match read_self_identity(true, "nope") {
        Err(SelfChatError::Unparsable(message)) => {
            assert!(message.contains("line 1"), "{}", message)
        }
        other => panic!("{:?}", other),
    }
    assert_eq!(read_self_identity(true, "[]"), Err(SelfChatError::IdentityMissing));
    assert_eq!(read_self_identity(true, "{}"), Err(SelfChatError::IdentityMissing));
    assert_eq!(read_self_identity(true, "[{\"name\":\"x\"}]"), Err(SelfChatError::IdentityMissing));
    // An id that is no text hides the phone behind it.
    assert_eq!(
        read_self_identity(true, "{\"id\":5,\"phone\":\"p\"}"),
        Err(SelfChatError::IdentityMissing)
    );
    assert_eq!(read_self_identity(true, "[\"+1555\"]"), Err(SelfChatError::IdentityMissing));
    assert_eq!(read_self_identity(true, "{\"id\":\"\"}"), Err(SelfChatError::IdentityEmpty));
    assert_eq!(self_identity(&Json::Null), None);
}

#[test]
fn self_chat_guard_is_set_from_the_daemons_answer() {
    let text = configure_whatsapp_self_chat(
        true,
        "[{\"id\":\"+15551234567\"}]\n",
        Some("{\"gateway\":{\"mode\":\"local\"}}"),
        "whatsapp",
    )
    .unwrap();
    assert_eq!(
        value(&text),
        value(
            "{\"gateway\":{\"mode\":\"local\"},\"channels\":{\"whatsapp\":{\
\"dmPolicy\":\"allowlist\",\"allowFrom\":[\"+15551234567\"]}}}"
        )
    );
    assert_eq!(
        configure_whatsapp_self_chat(false, "", None, "whatsapp"),
        Err(SelfChatError::QueryFailed)
    );
    assert_eq!(
        configure_whatsapp_self_chat(true, "{\"id\":\"me\"}", Some("{\"channels\":1}"), "whatsapp"),
        Err(SelfChatError::Config(ConfigError::Fault(ConfigFault::SectionNotObject(
            Section::Channels
        ))))
    );
}

#[test]
fn commands_have_their_fixed_words() {
    assert_eq!(
        command_words(DaemonCommand::Install),
        ("sh".to_string(), words(&["-c", "curl -fsSL https://openclaw.ai/install.sh | bash"]))
    );
    assert_eq!(
        command_words(DaemonCommand::Onboard),
        ("openclaw".to_string(), words(&["onboard", "--install-daemon"]))
    );
    assert_eq!(
        command_words(DaemonCommand::GatewayRestart),
        ("openclaw".to_string(), words(&["gateway", "restart"]))
    );
    assert_eq!(arguments_of(PairingStep::Doctor, "whatsapp"), Some(words(&["doctor", "--fix", "--yes"])));
    assert_eq!(arguments_of(PairingStep::GatewayStop, "whatsapp"), Some(words(&["gateway", "stop"])));
    assert_eq!(arguments_of(PairingStep::GatewayStart, "whatsapp"), Some(words(&["gateway", "start"])));
    assert_eq!(
        arguments_of(PairingStep::EnablePlugin, "whatsapp"),
        Some(words(&["plugins", "enable", "whatsapp"]))
    );
    assert_eq!(
        arguments_of(PairingStep::Login, "whatsapp"),
        Some(words(&["channels", "login", "--channel", "whatsapp"]))
    );
    assert_eq!(
        arguments_of(PairingStep::ConfigureSelfChat, "signal"),
        Some(words(&["directory", "self", "--channel", "signal", "--json"]))
    );
    assert_eq!(arguments_of(PairingStep::EnsureLocalMode, "whatsapp"), None);
    assert_eq!(arguments_of(PairingStep::Settle, "whatsapp"), None);
    assert_eq!(arguments_of(PairingStep::CheckGateway, "whatsapp"), None);
}

#[test]
fn pairing_goes_through_its_steps_in_order() {
    let mut w = PairingWorkflow::new();
    let order = [
        PairingStep::EnsureLocalMode,
        PairingStep::Doctor,
        PairingStep::RemoveStaleAuth,
        PairingStep::RemoveLaunchdToken,
        PairingStep::GatewayStop,
        PairingStep::GatewayStart,
        PairingStep::Settle,
        PairingStep::EnablePlugin,
        PairingStep::CheckGateway,
        PairingStep::Login,
        PairingStep::ConfigureSelfChat,
    ];
    for step in order {
        assert_eq!(w.current(), Some(step));
        assert_eq!(w.outcome(), None);
        w.report(Ok(()));
    }
    assert_eq!(w.current(), None);
    assert_eq!(w.outcome(), Some(Ok(())));
    assert!(w.warnings().is_empty());
    w.report(Err("late".to_string()));
    assert_eq!(w.outcome(), Some(Ok(())));
}

#[test]
fn best_effort_failures_are_warnings() {
    let mut w = PairingWorkflow::new();
    w.report(Ok(()));
    w.report(Err("doctor exited with code Some(1)".to_string()));
    assert_eq!(w.current(), Some(PairingStep::RemoveStaleAuth));
    w.report(Ok(()));
    w.report(Ok(()));
    w.report(Err("not running".to_string()));
    w.report(Err("already running".to_string()));
    w.report(Ok(()));
    w.report(Err("plugin".to_string()));
    w.report(Ok(()));
    w.report(Ok(()));
    w.report(Err("no identity".to_string()));
    assert_eq!(w.outcome(), Some(Ok(())));
    let steps: Vec<PairingStep> = w.warnings().iter().map(|x| x.step).collect();
    assert_eq!(
        steps,
        vec![
            PairingStep::Doctor,
            PairingStep::GatewayStop,
            PairingStep::GatewayStart,
            PairingStep::EnablePlugin,
            PairingStep::ConfigureSelfChat,
        ]
    );
    assert_eq!(w.warnings()[0].reason, "doctor exited with code Some(1)");
}

#[test]
fn unreachable_gateway_ends_the_pairing_with_the_remedy() {
    let mut w = PairingWorkflow::new();
    for _ in 0..8 {
        w.report(Ok(()));
    }
    assert_eq!(w.current(), Some(PairingStep::CheckGateway));
    w.report(Err("timeout".to_string()));
    assert_eq!(w.current(), None);
    let message = w.outcome().unwrap().unwrap_err();
    assert!(message.starts_with("OpenClaw gateway is not reachable."));
    assert!(message.contains("openclaw gateway stop"));
    assert!(message.contains("openclaw gateway start"));
}

#[test]
fn load_bearing_failures_end_the_pairing_at_once() {
    let mut first = PairingWorkflow::new();
    first.report(Err("gateway must be an object".to_string()));
    assert_eq!(first.current(), None);
    assert_eq!(first.outcome(), Some(Err("gateway must be an object".to_string())));

    let mut login = PairingWorkflow::new();
    for _ in 0..9 {
        login.report(Ok(()));
    }
    assert_eq!(login.current(), Some(PairingStep::Login));
    login.report(Err("openclaw channels login --channel whatsapp exited with code Some(1)".to_string()));
    assert_eq!(
        login.outcome(),
        Some(Err("openclaw channels login --channel whatsapp exited with code Some(1)".to_string()))
    );
}

#[test]
fn self_chat_errors_say_what_went_wrong() {
    assert_eq!(SelfChatError::QueryFailed.describe(), "Failed to get self number");
    assert_eq!(
        SelfChatError::Unparsable("expected value".to_string()).describe(),
        "Failed to parse directory self output: expected value"
    );
    assert_eq!(
        SelfChatError::IdentityMissing.describe(),
        "Could not find phone number in directory self output"
    );
    assert_eq!(SelfChatError::IdentityEmpty.describe(), "Self phone number is empty");
    assert_eq!(
        SelfChatError::Config(ConfigError::Fault(ConfigFault::RootNotObject)).describe(),
        "Config is not a JSON object"
    );
}

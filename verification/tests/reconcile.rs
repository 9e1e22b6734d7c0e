use daemon_desktop::config::{
    configure_local_profile, configure_self_chat_guard, ensure_gateway_mode,
    openclaw_configure_model, reconcile_local_mode, remove_gateway_auth_for_local,
    strip_gateway_auth, ConfigError, ConfigFault, Section,
};
use daemon_desktop::json::{number, parse_text, render_text, Json};
use serde_json::Value;

fn value(text: &str) -> Value {
    serde_json::from_str(text).unwrap()
}

#[test]
fn missing_file_becomes_local_mode() {
    let text = ensure_gateway_mode(None).unwrap();
    assert_eq!(text, "{\n  \"gateway\": {\n    \"mode\": \"local\"\n  }\n}");
}

#[test]
fn unreadable_file_counts_as_empty() {
    let text = ensure_gateway_mode(Some("{ not json")).unwrap();
    assert_eq!(value(&text), value("{\"gateway\":{\"mode\":\"local\"}}"));
    let empty = ensure_gateway_mode(Some("")).unwrap();
    assert_eq!(value(&empty), value("{\"gateway\":{\"mode\":\"local\"}}"));
}

#[test]
fn local_mode_removes_auth_and_keeps_the_rest() {
    let before = "{\"custom\":{\"a\":[1,2.5,null,true,\"x\"]},\"gateway\":{\"mode\":\"remote\",\
\"auth\":{\"token\":\"t\"},\"port\":18789},\"zeta\":-7}";
    let text = ensure_gateway_mode(Some(before)).unwrap();
    assert_eq!(
        value(&text),
        value(
            "{\"custom\":{\"a\":[1,2.5,null,true,\"x\"]},\"gateway\":{\"mode\":\"local\",\
\"port\":18789},\"zeta\":-7}"
        )
    );
}

#[test]
fn local_mode_twice_is_local_mode_once() {
    let before = "{\"mine\":\"kept\",\"gateway\":{\"auth\":{\"token\":\"t\"}}}";
    let once = ensure_gateway_mode(Some(before)).unwrap();
    let twice = ensure_gateway_mode(Some(&once)).unwrap();
    assert_eq!(once, twice);
    assert_eq!(value(&once), value("{\"gateway\":{\"mode\":\"local\"},\"mine\":\"kept\"}"));
}

#[test]
fn gateway_that_is_no_object_is_refused() {
    assert_eq!(
        ensure_gateway_mode(Some("{\"gateway\":\"on\"}")),
        Err(ConfigError::Fault(ConfigFault::SectionNotObject(Section::Gateway)))
    );
}

#[test]
fn document_that_is_no_object_is_refused() {
    assert_eq!(
        ensure_gateway_mode(Some("[1,2]")),
        Err(ConfigError::Fault(ConfigFault::RootNotObject))
    );
    assert_eq!(reconcile_local_mode(Json::Null), Err(ConfigFault::RootNotObject));
}

#[test]
fn last_entry_of_a_key_counts() {
    let doc = Json::Object(vec![
        ("gateway".to_string(), Json::Text("old".to_string())),
        (
            "gateway".to_string(),
            Json::Object(vec![("auth".to_string(), Json::Bool(true))]),
        ),
    ]);
    let done = reconcile_local_mode(doc).unwrap();
    assert_eq!(
        done,
        Json::Object(vec![(
            "gateway".to_string(),
            Json::Object(vec![("mode".to_string(), Json::Text("local".to_string()))])
        )])
    );
}

#[test]
fn stale_auth_removal_without_file_does_nothing() {
    assert_eq!(remove_gateway_auth_for_local(None), Ok(None));
}

#[test]
fn stale_auth_removal_strips_only_auth() {
    let before = "{\"gateway\":{\"mode\":\"remote\",\"auth\":{\"token\":\"t\"}},\"other\":1}";
    let text = remove_gateway_auth_for_local(Some(before)).unwrap().unwrap();
    assert_eq!(value(&text), value("{\"gateway\":{\"mode\":\"remote\"},\"other\":1}"));
}

#[test]
fn stale_auth_removal_leaves_other_shapes_alone() {
    let text = remove_gateway_auth_for_local(Some("{\"gateway\":5}")).unwrap().unwrap();
    assert_eq!(value(&text), value("{\"gateway\":5}"));
    let list = remove_gateway_auth_for_local(Some("[1]")).unwrap().unwrap();
    assert_eq!(value(&list), value("[1]"));
    let none = remove_gateway_auth_for_local(Some("{\"a\":1}")).unwrap().unwrap();
    assert_eq!(value(&none), value("{\"a\":1}"));
    assert_eq!(strip_gateway_auth(Json::Bool(true)), Json::Bool(true));
}

#[test]
fn stale_auth_removal_of_unreadable_file_writes_the_empty_document() {
    let text = remove_gateway_auth_for_local(Some("oops")).unwrap().unwrap();
    assert_eq!(text, "{}");
}

#[test]
fn model_is_registered_from_nothing() {
    let text = openclaw_configure_model(None, "daemon").unwrap();
    let expected = "{\"agents\":{\"defaults\":{\"model\":{\"primary\":\"ollama/daemon\"}}},\
\"models\":{\"providers\":{\"ollama\":{\
\"baseUrl\":\"http://127.0.0.1:11434/v1\",\"apiKey\":\"ollama\",\"api\":\"openai-completions\",\
\"models\":[{\"id\":\"daemon\",\"name\":\"Daemon\",\"reasoning\":false,\"input\":[\"text\"],\
\"cost\":{\"input\":0,\"output\":0,\"cacheRead\":0,\"cacheWrite\":0},\
\"contextWindow\":16384,\"maxTokens\":8192}]}}}}";
    assert_eq!(value(&text), value(expected));
}

#[test]
fn model_replaces_legacy_keys_and_keeps_the_rest() {
    let before = "{\"provider\":\"anthropic\",\"model\":\"x\",\"contextWindow\":1,\
\"maxTokens\":2,\"theme\":\"dark\",\
\"gateway\":{\"auth\":{\"token\":\"t\"}},\
\"models\":{\"providers\":{\"other\":{\"api\":\"y\"},\"ollama\":{\"stale\":true}},\"extra\":1},\
\"agents\":{\"list\":[],\"defaults\":{\"model\":\"old\",\"temperature\":0.5}}}";
    let text = openclaw_configure_model(Some(before), "qwen2.5-coder:7b").unwrap();
    let v = value(&text);
    assert_eq!(v.get("provider"), None);
    assert_eq!(v.get("model"), None);
    assert_eq!(v.get("contextWindow"), None);
    assert_eq!(v.get("maxTokens"), None);
    assert_eq!(v["theme"], value("\"dark\""));
    // The gateway is not this operation's to touch.
    assert_eq!(v["gateway"], value("{\"auth\":{\"token\":\"t\"}}"));
    assert_eq!(v["models"]["extra"], value("1"));
    assert_eq!(v["models"].get("mode"), None);
    assert_eq!(v["models"]["providers"]["other"], value("{\"api\":\"y\"}"));
    assert_eq!(v["models"]["providers"]["ollama"].get("stale"), None);
    assert_eq!(
        v["models"]["providers"]["ollama"]["models"][0]["id"],
        value("\"qwen2.5-coder:7b\"")
    );
    assert_eq!(v["agents"]["list"], value("[]"));
    assert_eq!(v["agents"]["defaults"]["temperature"], value("0.5"));
    assert_eq!(
        v["agents"]["defaults"]["model"],
        value("{\"primary\":\"ollama/qwen2.5-coder:7b\"}")
    );
    let again = openclaw_configure_model(Some(&text), "qwen2.5-coder:7b").unwrap();
    assert_eq!(again, text);
}

#[test]
fn model_refuses_sections_that_are_no_objects() {
    let cases = [
        ("[]", ConfigFault::RootNotObject),
        ("{\"models\":1}", ConfigFault::SectionNotObject(Section::Models)),
        ("{\"models\":{\"providers\":[]}}", ConfigFault::SectionNotObject(Section::Providers)),
        ("{\"agents\":\"a\"}", ConfigFault::SectionNotObject(Section::Agents)),
        ("{\"agents\":{\"defaults\":null}}", ConfigFault::SectionNotObject(Section::Defaults)),
        (
            "{\"gateway\":1,\"models\":1,\"agents\":1}",
            ConfigFault::SectionNotObject(Section::Models),
        ),
    ];
    for (text, fault) in cases {
        assert_eq!(
            openclaw_configure_model(Some(text), "daemon"),
            Err(ConfigError::Fault(fault)),
            "{}",
            text
        );
    }
}

#[test]
fn local_profile_is_added_beside_the_others() {
    let text = configure_local_profile(Some(
        "{\"anthropic:default\":{\"provider\":\"anthropic\",\"mode\":\"api_key\",\"key\":\"k\"}}",
    ))
    .unwrap();
    assert_eq!(
        value(&text),
        value(
            "{\"anthropic:default\":{\"provider\":\"anthropic\",\"mode\":\"api_key\",\"key\":\"k\"},\
\"ollama:local\":{\"provider\":\"ollama\",\"mode\":\"api_key\",\"key\":\"ollama\"}}"
        )
    );
    let fresh = configure_local_profile(None).unwrap();
    assert_eq!(
        value(&fresh),
        value("{\"ollama:local\":{\"provider\":\"ollama\",\"mode\":\"api_key\",\"key\":\"ollama\"}}")
    );
    assert_eq!(configure_local_profile(Some(&fresh)).unwrap(), fresh);
    assert_eq!(
        configure_local_profile(Some("3")),
        Err(ConfigError::Fault(ConfigFault::RootNotObject))
    );
}

#[test]
fn self_chat_guard_allows_the_own_identity_alone() {
    let before = "{\"channels\":{\"whatsapp\":{\"dmPolicy\":\"open\",\"allowFrom\":[\"a\",\"b\"],\
\"keep\":1},\"telegram\":{\"x\":1}},\"other\":true}";
    let text = configure_self_chat_guard(Some(before), "whatsapp", "+15551234567").unwrap();
    assert_eq!(
        value(&text),
        value(
            "{\"channels\":{\"whatsapp\":{\"dmPolicy\":\"allowlist\",\
\"allowFrom\":[\"+15551234567\"],\"keep\":1},\"telegram\":{\"x\":1}},\"other\":true}"
        )
    );
    assert_eq!(
        configure_self_chat_guard(Some(&text), "whatsapp", "+15551234567").unwrap(),
        text
    );
}

#[test]
fn self_chat_guard_from_nothing() {
    let text = configure_self_chat_guard(None, "signal", "me").unwrap();
    assert_eq!(
        value(&text),
        value("{\"channels\":{\"signal\":{\"dmPolicy\":\"allowlist\",\"allowFrom\":[\"me\"]}}}")
    );
}

#[test]
fn self_chat_guard_refuses_sections_that_are_no_objects() {
    assert_eq!(
        configure_self_chat_guard(Some("{\"channels\":[]}"), "whatsapp", "me"),
        Err(ConfigError::Fault(ConfigFault::SectionNotObject(Section::Channels)))
    );
    assert_eq!(
        configure_self_chat_guard(Some("{\"channels\":{\"whatsapp\":true}}"), "whatsapp", "me"),
        Err(ConfigError::Fault(ConfigFault::SectionNotObject(Section::Channel)))
    );
    assert_eq!(
        configure_self_chat_guard(Some("true"), "whatsapp", "me"),
        Err(ConfigError::Fault(ConfigFault::RootNotObject))
    );
}

#[test]
fn numbers_and_escapes_survive_a_rewrite() {
    let before = "{\"big\":18446744073709551615,\"neg\":-9223372036854775808,\"real\":1.5e300,\
\"text\":\"line\\nbreak \\\"quoted\\\" \\u00e9\",\"nested\":[[],{},[{\"k\":null}]]}";
    let text = ensure_gateway_mode(Some(before)).unwrap();
    let mut expected = value(before);
    expected["gateway"] = value("{\"mode\":\"local\"}");
    assert_eq!(value(&text), expected);
}

#[test]
fn errors_say_which_part_has_the_wrong_shape() {
    assert_eq!(ConfigFault::RootNotObject.describe(), "Config is not a JSON object");
    let parts = [
        (Section::Gateway, "gateway must be an object"),
        (Section::Channels, "channels must be an object"),
        (Section::Channel, "channels.<channel> must be an object"),
        (Section::Models, "models must be an object"),
        (Section::Providers, "models.providers must be an object"),
        (Section::Agents, "agents must be an object"),
        (Section::Defaults, "agents.defaults must be an object"),
    ];
    for (section, shown) in parts {
        assert_eq!(ConfigFault::SectionNotObject(section).describe(), shown);
        assert_eq!(ConfigError::Fault(ConfigFault::SectionNotObject(section)).describe(), shown);
    }
    assert_eq!(
        ConfigError::Serialize("key must be a string".to_string()).describe(),
        "Failed to serialize config: key must be a string"
    );
}

#[test]
fn document_is_written_indented_with_its_keys_in_order() {
    let doc = Json::Object(vec![
        ("b".to_string(), number(1)),
        (
            "a".to_string(),
            Json::Array(vec![Json::Null, Json::Bool(true), Json::Text("x".to_string())]),
        ),
        ("b".to_string(), number(2)),
    ]);
    assert_eq!(
        render_text(&doc),
        Ok("{\n  \"a\": [\n    null,\n    true,\n    \"x\"\n  ],\n  \"b\": 2\n}".to_string())
    );
    assert_eq!(render_text(&Json::Null), Ok("null".to_string()));
    assert_eq!(render_text(&Json::Object(Vec::new())), Ok("{}".to_string()));
    assert_eq!(render_text(&number(u64::MAX)), Ok("18446744073709551615".to_string()));
}

#[test]
fn text_is_read_as_a_document_or_refused() {
    assert_eq!(
        parse_text(" [1, {\"k\": null}, \"t\"] "),
        Ok(Json::Array(vec![
            number(1),
            Json::Object(vec![("k".to_string(), Json::Null)]),
            Json::Text("t".to_string()),
        ]))
    );
    assert!(parse_text("{").is_err());
    assert!(parse_text("").is_err());
    assert!(parse_text("1 2").is_err());
    let written = render_text(&parse_text("{\"z\":[],\"a\":{\"n\":-0.5}}").unwrap()).unwrap();
    assert_eq!(written, "{\n  \"a\": {\n    \"n\": -0.5\n  },\n  \"z\": []\n}");
}

#[test]
fn model_leaves_the_gateway_and_the_other_providers_alone() {
    let before = "{\"theme\":\"dark\",\"gateway\":{\"mode\":\"remote\"},\
\"models\":{\"providers\":{\"other\":{\"x\":1}}}}";
    let text = openclaw_configure_model(Some(before), "m").unwrap();
    let v = value(&text);
    assert_eq!(v["theme"], value("\"dark\""));
    assert_eq!(v["gateway"], value("{\"mode\":\"remote\"}"));
    assert_eq!(v["models"]["providers"]["other"], value("{\"x\":1}"));
    assert_eq!(v["models"].as_object().unwrap().len(), 1);
    assert_eq!(v["models"]["providers"]["ollama"]["models"][0]["id"], value("\"m\""));
    assert_eq!(v["agents"], value("{\"defaults\":{\"model\":{\"primary\":\"ollama/m\"}}}"));
    assert_eq!(v.as_object().unwrap().len(), 4);
}

#[test]
fn model_does_not_look_at_a_gateway_of_any_shape() {
    let text = openclaw_configure_model(Some("{\"gateway\":17}"), "m").unwrap();
    assert_eq!(value(&text)["gateway"], value("17"));
    let none = openclaw_configure_model(Some("{}"), "m").unwrap();
    assert_eq!(value(&none).get("gateway"), None);
}

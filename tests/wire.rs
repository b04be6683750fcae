use runtime_supervisor::daemon::{
    chat_url, create_args, host_address, listing_mentions_tag, local_url, manifest_text,
    probe_body, probe_body_with, remove_args, tags_url,
};
use runtime_supervisor::launch::{
    allow_unauthenticated, app_server_env, app_server_start, daemon_env, flag_setting,
    port_setting, runtime_candidates, runtime_launch_order, script_candidates, server_args,
    AppServerStart, DEFAULT_APP_PORT, DEFAULT_DAEMON_PORT,
};
use runtime_supervisor::text::{decimal_string, parse_u16};

fn pairs(v: &[(String, String)]) -> Vec<(&str, &str)> {
    v.iter().map(|(k, x)| (k.as_str(), x.as_str())).collect()
}

#[test]
fn daemon_addresses() {
    assert_eq!(host_address(11434), "127.0.0.1:11434");
    assert_eq!(tags_url(11434), "http://127.0.0.1:11434/api/tags");
    assert_eq!(chat_url(8), "http://127.0.0.1:8/api/chat");
    assert_eq!(local_url(4317, "/"), "http://127.0.0.1:4317/");
}

#[test]
fn listing_is_matched_on_the_quoted_tag() {
    let body = "{\"models\":[{\"name\":\"deepseek:latest\"}]}";
    assert!(listing_mentions_tag(body, "deepseek:latest"));
    assert!(!listing_mentions_tag(body, "deepseek"));
    assert!(!listing_mentions_tag("", "x"));
}

#[test]
fn manifest_escapes_quotes() {
    assert_eq!(manifest_text("/m/w.gguf"), "FROM \"/m/w.gguf\"\n");
    assert_eq!(manifest_text("/m/a\"b.gguf"), "FROM \"/m/a\\\"b.gguf\"\n");
}

#[test]
fn probe_body_is_a_single_user_message() {
    assert_eq!(
        probe_body("deepseek:latest"),
        "{\"messages\":[{\"content\":\"hola\",\"role\":\"user\"}],\"model\":\"deepseek:latest\",\"stream\":false}"
    );
    assert_eq!(
        probe_body("a\"b"),
        "{\"messages\":[{\"content\":\"hola\",\"role\":\"user\"}],\"model\":\"a\\\"b\",\"stream\":false}"
    );
    assert_eq!(
        probe_body_with("\"t\""),
        "{\"messages\":[{\"content\":\"hola\",\"role\":\"user\"}],\"model\":\"t\",\"stream\":false}"
    );
}

#[test]
fn probe_body_escapes_controls_like_serde_json() {
    for tag in ["plain", "q\"uote", "back\\slash", "tab\tline\nret\r", "\u{1}\u{8}\u{c}\u{1f}", "é✓"] {
        let expected = format!(
            "{{\"messages\":[{{\"content\":\"hola\",\"role\":\"user\"}}],\"model\":{},\"stream\":false}}",
            serde_json::to_string(tag).unwrap()
        );
        assert_eq!(probe_body(tag), expected);
    }
    assert_eq!(
        probe_body("a\u{1}b"),
        "{\"messages\":[{\"content\":\"hola\",\"role\":\"user\"}],\"model\":\"a\\u0001b\",\"stream\":false}"
    );
}

#[test]
fn tag_command_lines() {
    assert_eq!(remove_args("t"), vec!["rm", "t"]);
    assert_eq!(create_args("t", "/d/Modelfile"), vec!["create", "t", "-f", "/d/Modelfile"]);
}

#[test]
fn server_command_line() {
    assert_eq!(server_args("/m/w.gguf", 8080), vec!["--model", "/m/w.gguf", "--port", "8080", "--no-webui"]);
}

#[test]
fn daemon_environment() {
    let serve = daemon_env(11434, "/data/store", true);
    assert_eq!(
        pairs(&serve),
        vec![
            ("OLLAMA_HOST", "127.0.0.1:11434"),
            ("OLLAMA_MODELS", "/data/store"),
            ("OLLAMA_ORIGINS", "app://*,file://*,tauri://*,http://localhost,https://localhost,http://127.0.0.1,https://127.0.0.1"),
        ]
    );
    assert_eq!(daemon_env(1, "s", false).len(), 2);
}

#[test]
fn app_server_environment() {
    let file = vec![("DATABASE_URL".to_string(), "file:db".to_string())];
    let env = app_server_env(4317, true, &file);
    assert_eq!(
        pairs(&env),
        vec![("PORT", "4317"), ("HOST", "127.0.0.1"), ("ALLOW_DEV_UNAUTH", "1"), ("DATABASE_URL", "file:db")]
    );
    assert_eq!(app_server_env(1, false, &Vec::new()).len(), 2);
}

#[test]
fn settings_parse_like_the_standard_library() {
    assert_eq!(port_setting(Some("8080"), DEFAULT_APP_PORT), 8080);
    assert_eq!(port_setting(Some("+80"), DEFAULT_APP_PORT), 80);
    assert_eq!(port_setting(Some("65536"), DEFAULT_APP_PORT), 4317);
    assert_eq!(port_setting(Some(" 80"), DEFAULT_DAEMON_PORT), 11434);
    assert_eq!(port_setting(None, DEFAULT_DAEMON_PORT), 11434);
    for s in ["0", "65535", "007", "+1", "", "+", "-1", "1a", "99999999999"] {
        assert_eq!(parse_u16(s), s.parse::<u16>().ok(), "{}", s);
    }
}

#[test]
fn decimal_numerals() {
    assert_eq!(decimal_string(0), "0");
    assert_eq!(decimal_string(u64::MAX), u64::MAX.to_string());
}

#[test]
fn flags_read_one_or_true() {
    assert!(flag_setting(Some("1")));
    assert!(flag_setting(Some("TRUE")));
    assert!(flag_setting(Some("True")));
    assert!(!flag_setting(Some("yes")));
    assert!(!flag_setting(None));
    assert!(allow_unauthenticated(Some("1"), false));
    assert!(!allow_unauthenticated(Some("true"), false));
    assert!(allow_unauthenticated(None, true));
}

#[test]
fn app_server_candidates() {
    let s = script_candidates("/app/MacOS", "/app/Resources");
    assert_eq!(s[0], "/app/MacOS/../../.next/standalone/server.js");
    assert_eq!(s[4], "/app/Resources/_up_/.next/standalone/server.js");
    assert_eq!(s.len(), 5);
    let r = runtime_candidates("/res", "/exe");
    assert_eq!(r[0], "/res/sidecar/node");
    assert_eq!(r[6], "/exe/node-aarch64-apple-darwin");
    assert_eq!(runtime_launch_order(Some("/res/sidecar/node".to_string())), vec!["/res/sidecar/node", "node"]);
    assert_eq!(runtime_launch_order(None), vec!["node"]);
}

#[test]
fn app_server_start_decision() {
    assert_eq!(app_server_start(false, true), AppServerStart::NoScript);
    assert_eq!(app_server_start(true, true), AppServerStart::AlreadyListening);
    assert_eq!(app_server_start(true, false), AppServerStart::Launch);
}

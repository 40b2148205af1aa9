use remedia::download_queue::QueueStatus;
use remedia::redgifs::{
    api_url, bearer, conclude, endpoint, find_poster, id_variants, judge_reply, reports_error,
    token_from_body, watch_url, PosterLookup, ReplyVerdict,
};
use remedia::remote::{
    bad_command_reply, build_remote_hello, failure_reply, ok_reply, payload_of, plan,
    received_note, remote_enabled, remote_event_message, status_reply, RemoteAction,
    RemoteCommand, RemotePlan, RemoteStep,
};
use std::time::{SystemTime, UNIX_EPOCH};
use remedia::window::{
    is_wayland_session, names_wsl2, preview_target, preview_title, wsl_window_close_behavior,
    PreviewTarget,
};

fn value(text: &str) -> serde_json::Value {
    serde_json::from_str(text).expect("valid JSON")
}

fn command(action: &str, url: Option<&str>, path: Option<&str>) -> RemoteCommand {
    RemoteCommand {
        action: action.to_string(),
        url: url.map(|s| s.to_string()),
        path: path.map(|s| s.to_string()),
        media_idx: None,
    }
}

fn status() -> QueueStatus {
    QueueStatus { queued: 2, active: 1, max_concurrent: 3 }
}

fn described(p: RemotePlan) -> Vec<String> {
    match p {
        RemotePlan::Steps { steps } => steps
            .into_iter()
            .map(|s| match s {
                RemoteStep::Emit { event, payload } => format!("emit {} {:?}", event, payload),
                RemoteStep::Reply { text } => format!("reply {}", text),
            })
            .collect(),
        RemotePlan::Delegate { action, argument } => {
            vec![format!("delegate {:?} {:?}", action, argument)]
        }
    }
}

#[test]
fn commands_that_tell_the_user_interface() {
    assert_eq!(
        described(plan(command("addUrl", Some("https://a"), None), status())),
        vec![
            "emit remote-add-url Some(\"https://a\")",
            "reply {\"ok\":true,\"action\":\"addUrl\"}",
            "reply {\"event\":\"remote-recv\",\"payload\":\"addUrl https://a\"}",
        ]
    );
    assert_eq!(
        described(plan(command("addUrl", None, Some("/p")), status())),
        vec!["reply {\"ok\":false,\"error\":\"url required\",\"action\":\"addUrl\"}"]
    );
    for (action, event) in [
        ("startDownloads", "remote-start-downloads"),
        ("cancelAll", "remote-cancel-downloads"),
        ("clearList", "remote-clear-list"),
    ] {
        assert_eq!(
            described(plan(command(action, Some("ignored"), None), status())),
            vec![
                format!("emit {} None", event),
                format!("reply {{\"ok\":true,\"action\":\"{}\"}}", action),
                format!("reply {{\"event\":\"remote-recv\",\"payload\":\"{}\"}}", action),
            ]
        );
    }
    assert_eq!(
        described(plan(command("setDownloadDir", Some("/u"), Some("/p")), status())),
        vec![
            "emit remote-set-download-dir Some(\"/p\")",
            "reply {\"ok\":true,\"action\":\"setDownloadDir\"}",
            "reply {\"event\":\"remote-recv\",\"payload\":\"setDownloadDir /p\"}",
        ]
    );
    assert_eq!(
        described(plan(command("setDownloadDir", Some("/u"), None), status()))[0],
        "emit remote-set-download-dir Some(\"/u\")"
    );
    assert_eq!(
        described(plan(command("setDownloadDir", None, None), status())),
        vec!["reply {\"ok\":false,\"action\":\"setDownloadDir\",\"error\":\"path required\"}"]
    );
}

#[test]
fn status_and_unknown_commands() {
    assert_eq!(
        described(plan(command("status", None, None), status())),
        vec![
            "reply {\"ok\":true,\"action\":\"status\",\"queued\":2,\"active\":1,\"max\":3}",
            "reply {\"event\":\"remote-recv\",\"payload\":\"status\"}",
        ]
    );
    for unknown in ["", "Status", "addurl", "quit"] {
        assert_eq!(
            described(plan(command(unknown, Some("x"), None), status())),
            vec!["reply {\"ok\":false,\"error\":\"unknown action\"}"]
        );
    }
}

#[test]
fn commands_for_the_webview() {
    assert_eq!(
        described(plan(command("runJs", Some("1+1"), None), status())),
        vec!["delegate RunJs Some(\"1+1\")"]
    );
    assert_eq!(
        described(plan(command("debugEcho", None, None), status())),
        vec!["delegate DebugEcho None"]
    );
    for (action, error) in [
        ("runJs", "script required"),
        ("runJsCapture", "script required"),
        ("runJsGetResult", "script required"),
        ("inspectWindow", "label required"),
        ("startDownloadDirect", "url required"),
    ] {
        assert_eq!(
            described(plan(command(action, None, Some("/p")), status())),
            vec![format!("reply {{\"ok\":false,\"action\":\"{}\",\"error\":\"{}\"}}", action, error)]
        );
        assert_eq!(described(plan(command(action, Some("x"), None), status())).len(), 1);
    }
}

#[test]
fn reply_texts() {
    assert_eq!(ok_reply(RemoteAction::RunJsCapture), "{\"ok\":true,\"action\":\"runJsCapture\"}");
    assert_eq!(
        failure_reply(RemoteAction::RunJs, "eval failed: x"),
        "{\"ok\":false,\"action\":\"runJs\",\"error\":\"eval failed: x\"}"
    );
    assert_eq!(
        received_note(RemoteAction::StartDownloadDirect, Some("https://a")),
        "{\"event\":\"remote-recv\",\"payload\":\"startDownloadDirect https://a\"}"
    );
    assert_eq!(
        status_reply(QueueStatus { queued: 0, active: 10, max_concurrent: usize::MAX }),
        format!("{{\"ok\":true,\"action\":\"status\",\"queued\":0,\"active\":10,\"max\":{}}}", usize::MAX)
    );
    assert_eq!(bad_command_reply("eof"), "{\"ok\":false,\"error\":\"bad command: eof\"}");
    assert_eq!(RemoteAction::parse("inspectWindow"), RemoteAction::InspectWindow);
    assert_eq!(RemoteAction::parse("InspectWindow"), RemoteAction::Unknown);
    assert_eq!(RemoteAction::Unknown.name(), "");
}

#[test]
fn remote_control_is_enabled_by_setting_or_build() {
    assert!(remote_enabled(Some("1"), false));
    assert!(!remote_enabled(Some("0"), true));
    assert!(!remote_enabled(Some("true"), true));
    assert!(remote_enabled(None, true));
    assert!(!remote_enabled(None, false));
}

#[test]
fn sign_in_answers() {
    assert_eq!(token_from_body("  abc.def \n"), Ok("abc.def".to_string()));
    assert_eq!(token_from_body(" {\"token\":\"t1\",\"x\":1} "), Ok("t1".to_string()));
    assert_eq!(
        token_from_body("{\"token\":5}"),
        Err("RedGifs auth JSON missing 'token' field".to_string())
    );
    assert_eq!(token_from_body("{}"), Err("RedGifs auth JSON missing 'token' field".to_string()));
    assert_eq!(token_from_body(" \t"), Err("RedGifs auth returned empty body".to_string()));
    assert_eq!(token_from_body(""), Err("RedGifs auth returned empty body".to_string()));
    let message = token_from_body(" {oops ").unwrap_err();
    assert!(message.starts_with("Failed to parse RedGifs auth JSON: "));
    assert!(message.ends_with(". Body: {oops"));
    assert_eq!(token_from_body("[\"t\"]"), Ok("[\"t\"]".to_string()));
}

#[test]
fn replies_of_the_service() {
    assert_eq!(judge_reply(401, false, true), ReplyVerdict::RetryWithFreshToken);
    assert_eq!(judge_reply(401, false, false), ReplyVerdict::Fail);
    assert_eq!(judge_reply(404, false, true), ReplyVerdict::Fail);
    assert_eq!(judge_reply(200, true, true), ReplyVerdict::Read);
    assert_eq!(judge_reply(204, true, false), ReplyVerdict::Read);
    assert!(reports_error(&value(r#"{"error":null}"#)));
    assert!(!reports_error(&value(r#"{"gif":{}}"#)));
    assert!(!reports_error(&value(r#"["error"]"#)));
    assert_eq!(endpoint("AbC"), "gifs/AbC?views=yes");
    assert_eq!(api_url("gifs/AbC?views=yes"), "https://api.redgifs.com/v2/gifs/AbC?views=yes");
    assert_eq!(watch_url("AbC"), "https://www.redgifs.com/watch/AbC");
    assert_eq!(bearer("t"), "Bearer t");
    assert_eq!(id_variants("AbÇ"), vec!["AbÇ", "abç"]);
}

#[test]
fn posters() {
    let found = |text: &str| match find_poster(&value(text)) {
        PosterLookup::Found { url } => url,
        PosterLookup::NoGif => "no gif".to_string(),
        PosterLookup::NoPoster => "no poster".to_string(),
    };
    assert_eq!(found(r#"{"x":1}"#), "no gif");
    assert_eq!(found(r#"{"gif":{}}"#), "no poster");
    assert_eq!(found(r#"{"gif":{"urls":{"poster":"p","thumbnail":"t"},"posterUrl":"q"}}"#), "p");
    assert_eq!(found(r#"{"gif":{"urls":{"poster":"","thumbnail":"t"},"posterUrl":"q"}}"#), "t");
    assert_eq!(found(r#"{"gif":{"urls":["poster"],"posterUrl":"q","mobilePosterUrl":""}}"#), "q");
    assert_eq!(found(r#"{"gif":{"urls":{},"miniPosterUrl":"m","thumb100PosterUrl":"s"}}"#), "m");
    assert_eq!(found(r#"{"gif":{"thumb100PosterUrl":"s","mobilePosterUrl":7}}"#), "s");
    assert_eq!(found(r#"{"gif":{"mobilePosterUrl":"a","posterUrl":"b"}}"#), "a");
    assert_eq!(found(r#"{"gif":"x"}"#), "no poster");
}

#[test]
fn lookups_without_poster() {
    assert_eq!(conclude(true, Some("e".to_string())), Ok(None));
    assert_eq!(conclude(true, None), Ok(None));
    assert_eq!(conclude(false, Some("e".to_string())), Err("e".to_string()));
    assert_eq!(conclude(false, None), Ok(None));
}

#[test]
fn preview_windows() {
    let shown = |url: &str| match preview_target(url) {
        PreviewTarget::External { url } => format!("external {}", url),
        PreviewTarget::App { route } => format!("app {}", route),
    };
    assert_eq!(shown("https://a/b"), "external https://a/b");
    assert_eq!(shown("http://a"), "external http://a");
    assert_eq!(shown("player"), "app /player");
    assert_eq!(shown("///player/x/"), "app /player/x/");
    assert_eq!(shown(""), "app /");
    assert_eq!(shown("Https://a"), "app /Https://a");
    assert_eq!(preview_title(None), "ReMedia Preview");
    assert_eq!(preview_title(Some("T".to_string())), "T");
}

#[test]
fn desktops() {
    assert!(is_wayland_session(Some("Wayland")));
    assert!(is_wayland_session(Some("wayland")));
    assert!(!is_wayland_session(Some("x11")));
    assert!(!is_wayland_session(None));
    assert!(names_wsl2("Linux version 5.15 microsoft-standard-WSL2"));
    assert!(!names_wsl2("Linux version 5.15 Microsoft wsl2"));
    assert_eq!(wsl_window_close_behavior(true, true), "wsl2");
    assert_eq!(wsl_window_close_behavior(true, false), "wsl1");
    assert_eq!(wsl_window_close_behavior(false, false), "native");
    assert_eq!(wsl_window_close_behavior(false, true), "native");
}

fn hello() -> String {
    let ts = SystemTime::now().duration_since(UNIX_EPOCH).unwrap_or_default().as_millis();
    build_remote_hello(4242, ts, true, Some("1"), None).unwrap()
}

#[test]
fn test_build_remote_hello_structure() {
    let hello = hello();
    let parsed: serde_json::Value = serde_json::from_str(&hello).unwrap();

    assert_eq!(parsed["event"], "remote-hello");
    assert!(parsed["payload"]["pid"].is_number());
    assert!(parsed["payload"]["ts"].is_number());
    assert!(parsed["payload"]["debugFallback"].is_boolean());
}

#[test]
fn test_build_remote_hello_includes_timestamp() {
    let hello = hello();
    let parsed: serde_json::Value = serde_json::from_str(&hello).unwrap();

    let ts = parsed["payload"]["ts"].as_u64().unwrap();
    assert!(ts > 0);
}

#[test]
fn test_build_remote_hello_debug_flag() {
    let hello = hello();
    let parsed: serde_json::Value = serde_json::from_str(&hello).unwrap();

    let debug_flag = parsed["payload"]["debugFallback"].as_bool().unwrap();
    assert_eq!(debug_flag, true);
}

#[test]
fn test_build_remote_hello_environment_vars() {
    let hello = hello();
    let parsed: serde_json::Value = serde_json::from_str(&hello).unwrap();

    let env_flag = parsed["payload"]["enableRemoteHarnessEnv"].as_str();
    let tauri_env = parsed["payload"]["tauriEnv"].as_str();

    assert!(env_flag.is_some() || env_flag.unwrap_or_default().is_empty());
    assert!(tauri_env.is_some() || tauri_env.unwrap_or_default().is_empty());
}

#[test]
fn greeting_is_exact() {
    assert_eq!(
        build_remote_hello(7, 1_700_000_000_000, false, None, Some(r#"dev "x""#)).unwrap(),
        r#"{"event":"remote-hello","payload":{"debugFallback":false,"enableRemoteHarnessEnv":null,"pid":7,"tauriEnv":"dev \"x\"","ts":1700000000000}}"#
    );
}

#[test]
fn events_for_remote_clients() {
    assert_eq!(
        remote_event_message("download-progress", &value("[3, 45.2]")).unwrap(),
        "{\"event\":\"download-progress\",\"payload\":[3,45.2]}"
    );
    assert_eq!(
        remote_event_message(r#"a"b"#, &value("null")).unwrap(),
        r#"{"event":"a\"b","payload":null}"#
    );
    assert_eq!(payload_of("{\"a\": 1}"), value("{\"a\":1}"));
    assert_eq!(payload_of("not json"), serde_json::Value::String("not json".to_string()));
    assert_eq!(payload_of("7"), value("7"));
}

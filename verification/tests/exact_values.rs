use remedia::arguments::{
    build_download_args, build_format_args, build_rate_and_size_args, generate_unique_id,
    output_template, resolve_output_dir, subfolder_path,
};
use remedia::error::{DownloaderError, ErrorCode, IoFailure, IoSource};
use remedia::logging::LogLevel;
use remedia::playlist::{normalize_playlist_entry, parse_playlist_expansion, sanitize_folder_name};
use remedia::media_info::{extract_preview_url, extract_uploader};
use remedia::settings::{
    default_native, default_true, default_unlimited, validate_output_location, validate_settings,
    validate_size_or_rate, validate_url, DownloadSettings,
};
use remedia::text::{decimal_string, find_text, from_chars, text_eq, to_chars, trim_bounds};
use remedia::thumbnail::resolve_thumbnail;

fn value(text: &str) -> serde_json::Value {
    serde_json::from_str(text).expect("valid JSON")
}

fn message(r: Result<(), DownloaderError>) -> String {
    r.unwrap_err().to_string()
}

#[test]
fn unique_id_is_the_hash_in_base_36() {
    assert_eq!(generate_unique_id(""), "54xu4jzh");
    assert_eq!(generate_unique_id("a"), "grr4viog");
    assert_eq!(generate_unique_id("https://example.com/video"), "bxmxf96d");
    assert_eq!(generate_unique_id("https://www.youtube.com/watch?v=dQw4w9WgXcQ"), "7yu1ann4");
}

#[test]
fn format_arguments_in_order() {
    let mut settings = DownloadSettings::remote_defaults();
    assert_eq!(build_format_args(&settings), vec!["-f", "bestvideo+bestaudio/best"]);

    settings.max_resolution = "720p".to_string();
    settings.video_format = "mkv".to_string();
    assert_eq!(
        build_format_args(&settings),
        vec![
            "-f",
            "bestvideo[height<=720]+bestaudio/best[height<=720]",
            "--merge-output-format",
            "mkv",
            "--remux-video",
            "mkv",
        ]
    );

    settings.max_resolution = "480ppp".to_string();
    settings.video_format = "best".to_string();
    assert_eq!(
        build_format_args(&settings),
        vec!["-f", "bestvideo[height<=480]+bestaudio/best[height<=480]"]
    );

    settings.download_mode = "audio".to_string();
    settings.audio_format = "opus".to_string();
    settings.audio_quality = "5".to_string();
    assert_eq!(
        build_format_args(&settings),
        vec!["-f", "bestaudio", "--extract-audio", "--audio-format", "opus", "--audio-quality", "5"]
    );

    settings.audio_format = "best".to_string();
    assert_eq!(
        build_format_args(&settings),
        vec!["-f", "bestaudio", "--extract-audio", "--audio-quality", "5"]
    );
}

#[test]
fn limit_arguments_in_order() {
    let mut settings = DownloadSettings::remote_defaults();
    assert!(build_rate_and_size_args(&settings).is_empty());
    settings.download_rate_limit = "1M".to_string();
    settings.max_file_size = "2G".to_string();
    assert_eq!(
        build_rate_and_size_args(&settings),
        vec!["--limit-rate", "1M", "--max-filesize", "2G"]
    );
}

#[test]
fn output_directory_falls_back_to_the_location() {
    assert_eq!(subfolder_path("/out", &None, '/'), None);
    assert_eq!(subfolder_path("/out", &Some(String::new()), '/'), None);
    assert_eq!(
        subfolder_path("/out", &Some("Mix".to_string()), '/'),
        Some("/out/Mix".to_string())
    );
    assert_eq!(
        subfolder_path("C:\\out", &Some("Mix".to_string()), '\\'),
        Some("C:\\out\\Mix".to_string())
    );
    assert_eq!(resolve_output_dir("/out", Some("/out/Mix".to_string()), true), "/out/Mix");
    assert_eq!(resolve_output_dir("/out", Some("/out/Mix".to_string()), false), "/out");
    assert_eq!(resolve_output_dir("/out", None, true), "/out");
}

#[test]
fn output_templates() {
    let mut settings = DownloadSettings::remote_defaults();
    assert_eq!(
        output_template("/out", '/', &settings, "https://example.com/video"),
        "/out/%(title)s [%(id)s].%(ext)s"
    );
    settings.unique_id_type = "hash".to_string();
    assert_eq!(
        output_template("/out", '/', &settings, "https://example.com/video"),
        "/out/%(title)s [bxmxf96d].%(ext)s"
    );
    settings.append_unique_id = false;
    assert_eq!(
        output_template("/out", '\\', &settings, "https://example.com/video"),
        "/out\\%(title)s.%(ext)s"
    );
}

#[test]
fn worker_arguments() {
    let mut settings = DownloadSettings::remote_defaults();
    settings.download_rate_limit = "50K".to_string();
    settings.video_format = "mp4".to_string();
    assert_eq!(
        build_download_args("https://example.com/v", "/out/%(title)s.%(ext)s", &settings),
        vec![
            "https://example.com/v",
            "--progress-template",
            "download:remedia-%(progress._percent_str)s-%(progress.eta)s",
            "--newline",
            "--continue",
            "--no-overwrites",
            "--output",
            "/out/%(title)s.%(ext)s",
            "--embed-thumbnail",
            "--embed-subs",
            "--embed-metadata",
            "--embed-chapters",
            "--windows-filenames",
            "--limit-rate",
            "50K",
            "-f",
            "bestvideo+bestaudio/best",
            "--merge-output-format",
            "mp4",
            "--remux-video",
            "mp4",
        ]
    );
}

#[test]
fn defaults() {
    assert_eq!(default_native(), "native");
    assert_eq!(default_unlimited(), "unlimited");
    assert!(default_true());
    let settings = DownloadSettings::remote_defaults();
    assert_eq!(settings.video_format, "best");
    assert_eq!(settings.audio_format, "best");
    assert_eq!(settings.audio_quality, "0");
    assert_eq!(settings.download_rate_limit, "unlimited");
    assert_eq!(settings.max_file_size, "unlimited");
    assert!(settings.append_unique_id);
    assert_eq!(settings.unique_id_type, "native");
}

#[test]
fn sizes_and_rates() {
    for ok in ["unlimited", "1", "50K", "1.5M", ".5G", "5.k", "10m", "3g", "0.001", "007"] {
        assert!(validate_size_or_rate(ok), "{}", ok);
    }
    for bad in [
        "", "0", "0.0K", ".", "1..2", "1.2.3M", "K", "50KB", "50 K", "-5", "+5", "1e3", "Unlimited",
        "5T", "٣",
    ] {
        assert!(!validate_size_or_rate(bad), "{}", bad);
    }
}

#[test]
fn settings_complaints() {
    let check = |change: fn(&mut DownloadSettings), expected: &str| {
        let mut settings = DownloadSettings::remote_defaults();
        change(&mut settings);
        assert_eq!(
            message(validate_settings(&settings)),
            format!("validation error (InvalidSettings): {}", expected)
        );
    };
    check(|s| s.download_mode = "Video".to_string(), "Invalid download_mode: Video");
    check(|s| s.video_quality = "".to_string(), "Invalid video_quality: ");
    check(|s| s.max_resolution = "4k".to_string(), "Invalid max_resolution: 4k");
    check(|s| s.video_format = "avi".to_string(), "Invalid video_format: avi");
    check(|s| s.audio_format = "wav".to_string(), "Invalid audio_format: wav");
    check(|s| s.audio_quality = "1".to_string(), "Invalid audio_quality: 1");
    check(|s| s.download_rate_limit = "fast".to_string(), "Invalid download_rate_limit: fast");
    check(|s| s.max_file_size = "0M".to_string(), "Invalid max_file_size: 0M");
    check(|s| s.unique_id_type = "uuid".to_string(), "Invalid unique_id_type: uuid");
    check(
        |s| {
            s.unique_id_type = "uuid".to_string();
            s.video_format = "avi".to_string();
        },
        "Invalid video_format: avi",
    );
}

#[test]
fn url_complaints() {
    assert_eq!(message(validate_url(" \t")), "validation error (InvalidUrl): URL cannot be empty");
    assert_eq!(
        message(validate_url("HTTP://example.com")),
        "validation error (InvalidUrl): URL must start with http:// or https://"
    );
    let long = format!("https://example.com/{}", "é".repeat(2039));
    assert_eq!(long.chars().count(), 2059);
    assert_eq!(
        message(validate_url(&long)),
        "validation error (InvalidUrl): URL is too long (max 4096 characters)"
    );
    let fits = format!("https://example.com/{}", "é".repeat(2038));
    assert_eq!(fits.len(), 4096);
    assert!(validate_url(&fits).is_ok());
    assert_eq!(
        message(validate_url("https://example.com/a;b")),
        "validation error (InvalidUrl): URL contains invalid characters"
    );
    assert_eq!(
        message(validate_url("https://example.com/a&b?c=1")),
        "validation error (InvalidUrl): URL contains invalid characters"
    );
    assert!(validate_url("https://example.com/a?b=1&c=2?d&e").is_ok());
    assert_eq!(
        message(validate_url("https://example.com/a?b=1&c=$2")),
        "validation error (InvalidUrl): URL contains invalid characters"
    );
    assert_eq!(
        message(validate_url(&format!("https://example.com/;{}", "x".repeat(5000)))),
        "validation error (InvalidUrl): URL is too long (max 4096 characters)"
    );
}

#[test]
fn location_complaints() {
    assert_eq!(
        message(validate_output_location("\n")),
        "validation error (InvalidPath): Output location cannot be empty"
    );
    assert_eq!(
        message(validate_output_location(&"d".repeat(1025))),
        "validation error (InvalidPath): Output location path is too long (max 1024 characters)"
    );
    assert!(validate_output_location(&"d".repeat(1024)).is_ok());
    assert!(validate_output_location("a;b|c").is_ok());
}

#[test]
fn every_error_variant() {
    let cases: Vec<(DownloaderError, &str, &str, bool)> = vec![
        (DownloaderError::invalid_url("u"), "E_VAL_INVALID_URL", "validation error (InvalidUrl): u", false),
        (
            DownloaderError::invalid_settings("s"),
            "E_VAL_INVALID_SETTINGS",
            "validation error (InvalidSettings): s",
            false,
        ),
        (DownloaderError::invalid_path("p"), "E_VAL_INVALID_PATH", "validation error (InvalidPath): p", false),
        (
            DownloaderError::invalid_media_idx("m"),
            "E_VAL_INVALID_MEDIA_IDX",
            "validation error (InvalidMediaIdx): m",
            false,
        ),
        (
            DownloaderError::io("writing", IoSource::new(IoFailure::NotFound, "gone")),
            "E_IO_NOT_FOUND",
            "io error in writing: gone",
            false,
        ),
        (
            DownloaderError::io("writing", IoSource::new(IoFailure::PermissionDenied, "no")),
            "E_IO_PERMISSION_DENIED",
            "io error in writing: no",
            false,
        ),
        (
            DownloaderError::io("writing", IoSource::new(IoFailure::Other, "full")),
            "E_IO_WRITE_FAILED",
            "io error in writing: full",
            false,
        ),
        (
            DownloaderError::download(-2147483648, "r"),
            "E_DL_PROCESS_FAILED",
            "download failed for media -2147483648: r",
            true,
        ),
        (DownloaderError::download(0, "r"), "E_DL_PROCESS_FAILED", "download failed for media 0: r", true),
        (DownloaderError::queue("q"), "E_Q_NOT_FOUND", "queue error (NotFound): q", false),
        (DownloaderError::queue_duplicate("q"), "E_Q_DUPLICATE", "queue error (Duplicate): q", false),
        (DownloaderError::queue_full("q"), "E_Q_FULL", "queue error (Full): q", false),
        (DownloaderError::queue_not_found("q"), "E_Q_NOT_FOUND", "queue error (NotFound): q", false),
        (DownloaderError::network("https://x", "down"), "E_NET_CONNECTION_FAILED", "network error for https://x: down", true),
        (DownloaderError::internal("bug"), "E_INTERNAL", "internal error: bug", false),
    ];
    for (error, code, text, retryable) in cases {
        assert_eq!(error.to_string(), text);
        assert_eq!(error.error_code().as_str(), code);
        let fe = error.to_frontend_error();
        assert_eq!(fe.code, code);
        assert_eq!(fe.message, text);
        assert_eq!(fe.retryable, retryable);
    }
}

#[test]
fn retryable_codes() {
    let retryable = [
        ErrorCode::ENetConnectionFailed,
        ErrorCode::ENetTimeout,
        ErrorCode::ENetRateLimited,
        ErrorCode::EDlTimeout,
        ErrorCode::EDlProcessFailed,
    ];
    for code in retryable {
        assert!(code.is_retryable());
    }
    for code in [ErrorCode::EDlCancelled, ErrorCode::EDlSpawnFailed, ErrorCode::EQueueFull, ErrorCode::EIoReadFailed] {
        assert!(!code.is_retryable());
    }
}

#[test]
fn frontend_json_is_framed_and_escaped() {
    let error = DownloaderError::network("https://x", "say \"no\"\n");
    assert_eq!(
        error.to_frontend_json(),
        "{\"code\":\"E_NET_CONNECTION_FAILED\",\"message\":\"network error for https://x: say \\\"no\\\"\\n\",\"retryable\":true}"
    );
    let parsed = value(&error.to_frontend_json());
    assert_eq!(parsed["message"], "network error for https://x: say \"no\"\n");
    assert_eq!(parsed["retryable"], true);
}

#[test]
fn log_levels() {
    assert_eq!(LogLevel::parse("ERROR"), Ok(LogLevel::Error));
    assert_eq!(LogLevel::parse("Warn"), Ok(LogLevel::Warn));
    assert_eq!(LogLevel::parse("warning"), Ok(LogLevel::Warn));
    assert_eq!(LogLevel::parse("info"), Ok(LogLevel::Info));
    assert_eq!(LogLevel::parse("dEbUg"), Ok(LogLevel::Debug));
    assert_eq!(LogLevel::parse("Trace"), Err("Invalid log level: Trace".to_string()));
    assert_eq!("debug".parse::<LogLevel>(), Ok(LogLevel::Debug));
    assert_eq!(LogLevel::from_lowered("ERROR"), None);
    assert_eq!(LogLevel::default(), LogLevel::Info);
    assert_eq!(LogLevel::Error.label(), "ERROR");
    assert_eq!(LogLevel::Warn.label(), "WARN");
    assert_eq!(LogLevel::Info.label(), "INFO");
    assert_eq!(LogLevel::Debug.label(), "DEBUG");
    let levels = [LogLevel::Error, LogLevel::Warn, LogLevel::Info, LogLevel::Debug];
    for (i, level) in levels.iter().enumerate() {
        assert_eq!(level.level_value() as usize, i);
        for (j, min) in levels.iter().enumerate() {
            assert_eq!(level.should_log(min), i <= j);
        }
    }
}

#[test]
fn text_helpers() {
    assert!(text_eq("héllo", "héllo"));
    assert!(!text_eq("héllo", "hello"));
    assert!(!text_eq("a", "ab"));
    assert!(text_eq("", ""));
    let chars = to_chars(" \u{a0}a b\t\n");
    assert_eq!(chars.len(), 7);
    assert_eq!(trim_bounds(&chars, 0, chars.len()), (2, 5));
    assert_eq!(trim_bounds(&chars, 0, 2), (2, 2));
    assert_eq!(from_chars(&chars, 2, 5), "a b");
    let hay = to_chars("abcabc");
    assert_eq!(find_text(&hay, &to_chars("bc"), 0), Some(1));
    assert_eq!(find_text(&hay, &to_chars("bc"), 2), Some(4));
    assert_eq!(find_text(&hay, &to_chars("bc"), 5), None);
    assert_eq!(find_text(&hay, &to_chars(""), 6), Some(6));
    assert_eq!(find_text(&hay, &to_chars("abcabcd"), 0), None);
    assert_eq!(decimal_string(0), "0");
    assert_eq!(decimal_string(-7), "-7");
    assert_eq!(decimal_string(1203), "1203");
    assert_eq!(decimal_string(i32::MAX), "2147483647");
    assert_eq!(decimal_string(i32::MIN), "-2147483648");
}

#[test]
fn folder_names() {
    assert_eq!(sanitize_folder_name(" a/b\\c:d*e?f\"g<h>i|j "), "a_b_c_d_e_f_g_h_i_j");
    assert_eq!(sanitize_folder_name("   "), "");
    assert_eq!(sanitize_folder_name("/"), "_");
    assert_eq!(sanitize_folder_name("Ünï cödé"), "Ünï cödé");
}

#[test]
fn playlist_text_that_is_no_json() {
    let message = parse_playlist_expansion("{not json").unwrap_err();
    assert!(message.starts_with("Failed to parse yt-dlp JSON: "));
    assert!(message.len() > "Failed to parse yt-dlp JSON: ".len());
    assert!(parse_playlist_expansion("").is_err());
}

#[test]
fn playlist_entries() {
    let entry = |text: &str| normalize_playlist_entry(&value(text));
    let item = entry(r#"{"webpage_url":"https://a","url":"https://b","title":"T"}"#).unwrap();
    assert_eq!(item.url, "https://a");
    assert_eq!(item.title.as_deref(), Some("T"));
    let item = entry(r#"{"webpage_url":"ftp://a","url":"http://b","title":""}"#).unwrap();
    assert_eq!(item.url, "http://b");
    assert_eq!(item.title, None);
    let item = entry(r#"{"url":"b","id":"x1","extractor":"YoutubeTab","title":5}"#).unwrap();
    assert_eq!(item.url, "https://www.youtube.com/watch?v=x1");
    assert_eq!(item.title, None);
    let item = entry(r#"{"id":"x2","extractor":"RedGifsUser"}"#).unwrap();
    assert_eq!(item.url, "https://www.redgifs.com/watch/x2");
    assert!(entry(r#"{"id":"x3","extractor":"Vimeo"}"#).is_none());
    assert!(entry(r#"{"id":7,"extractor":"Youtube"}"#).is_none());
    assert!(entry(r#"{"extractor":"Youtube"}"#).is_none());
    assert!(entry(r#"["https://a"]"#).is_none());
}

#[test]
fn playlist_names_and_collections() {
    let e = parse_playlist_expansion(r#"{"title":7,"playlist_title":"P","entries":[]}"#).unwrap();
    assert_eq!(e.playlist_name, None);
    assert_eq!(e.collection_kind, None);
    let e = parse_playlist_expansion(r#"{"playlist_title":" A/B ","channel":"C:D","entries":[]}"#).unwrap();
    assert_eq!(e.playlist_name.as_deref(), Some("A_B"));
    assert_eq!(e.uploader.as_deref(), Some("C_D"));
    assert_eq!(e.collection_id.as_deref(), Some("playlist:A_B"));
    assert_eq!(e.collection_kind.as_deref(), Some("playlist"));
    assert_eq!(e.folder_slug.as_deref(), Some("A_B"));
    let e = parse_playlist_expansion(r#"{"uploader":"","channel":"C","entries":{}}"#).unwrap();
    assert_eq!(e.uploader, None);
    assert_eq!(e.collection_name, None);
    assert!(e.entries.is_empty());
    let e = parse_playlist_expansion(
        r#"{"entries":[{"url":"https://a"},{"x":1},{"url":"https://b"},{"webpage_url":"https://a","title":"again"}]}"#,
    )
    .unwrap();
    let urls: Vec<&str> = e.entries.iter().map(|i| i.url.as_str()).collect();
    assert_eq!(urls, vec!["https://a", "https://b"]);
}

#[test]
fn preview_addresses_and_uploaders() {
    let preview = |text: &str| extract_preview_url(&value(text));
    assert_eq!(preview(r#"{"url":"u","formats":[{"url":"f"}]}"#).as_deref(), Some("u"));
    assert_eq!(preview(r#"{"url":"","formats":[{"url":"f"}]}"#).as_deref(), Some("f"));
    assert_eq!(
        preview(
            r#"{"formats":[{"url":"a","height":1080},{"url":"b","ext":"mp4","height":81},{"url":"c","ext":"mp4","filesize":81999999},{"url":"","height":99999}]}"#
        )
        .as_deref(),
        Some("b")
    );
    assert_eq!(
        preview(r#"{"formats":[{"url":"a","height":-1},{"url":"b","filesize":-1999999,"height":0}]}"#)
            .as_deref(),
        None
    );
    assert_eq!(
        preview(r#"{"formats":[{"url":"a","height":9223372036854775807,"ext":"mp4"},{"url":"b","height":9223372036854775807}]}"#)
            .as_deref(),
        Some("a")
    );
    assert_eq!(preview(r#"{"formats":[{"url":"a","height":1.5}]}"#).as_deref(), Some("a"));
    assert_eq!(preview(r#"{"formats":{}}"#), None);
    assert_eq!(preview(r#"{}"#), None);

    let uploader = |text: &str| extract_uploader(&value(text));
    assert_eq!(uploader(r#"{"uploader":"A|B","channel":"C"}"#).as_deref(), Some("A_B"));
    assert_eq!(uploader(r#"{"uploader":null,"channel":"C"}"#), None);
    assert_eq!(uploader(r#"{"channel":"C","uploader_id":"I"}"#).as_deref(), Some("C"));
    assert_eq!(uploader(r#"{"uploader_id":"I"}"#).as_deref(), Some("I"));
    assert_eq!(uploader(r#"{}"#), None);
}

#[test]
fn redgifs_ids_in_addresses() {
    let thumb = |text: &str| resolve_thumbnail(&value(text));
    assert_eq!(
        thumb(r#"{"extractor":"RedGifs","formats":[{"url":"https://x.redgifs.com/a/Id-mobile-mobile.mp4.mp4"}]}"#)
            .as_deref(),
        Some("https://thumbs2.redgifs.com/Id-mobile.jpg")
    );
    assert_eq!(
        thumb(r#"{"extractor":"RedGifs","id":"Z","formats":[{"url":"https://other.com/a.mp4"},{"url":"https://redgifs.com/.mp4"}]}"#),
        None
    );
    assert_eq!(
        thumb(r#"{"extractor":"RedGifs","id":" Z ","formats":[{"url":"https://redgifs.com/a.webm"}]}"#)
            .as_deref(),
        Some("https://thumbs2.redgifs.com/Z-mobile.jpg")
    );
    assert_eq!(thumb(r#"{"extractor":"redgifs","id":"Z"}"#), None);
    assert_eq!(thumb(r#"{"thumbnails":[{"url":"https://a"},{"url":""}],"thumbnail_url":"https://c"}"#).as_deref(), Some("https://c"));
}

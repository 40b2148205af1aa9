//! Download settings: what values they may hold, the validation of a URL
//! and of an output location, and the worker arguments that settings call for.

use crate::decimal::{
    decimal_of, is_digit, is_digit_char, lemma_position_of, parse_decimal, position_of,
};
use crate::error::{DownloaderError, ErrorView, ValidationKind};
use crate::text::{
    all_white_space, is_blank, matches_at, starts_with_text, text_eq, to_chars,
};
use vstd::prelude::*;
use vstd::string::StringExecFns;

verus! {

/// The most bytes a URL may have.
pub const MAX_URL_LENGTH: usize = 4096;

/// The most bytes an output location may have.
pub const MAX_OUTPUT_PATH_LENGTH: usize = 1024;

/// The settings of one download, as the user interface sends them.
#[derive(Debug)]
pub struct DownloadSettings {
    /// `video` or `audio`.
    pub download_mode: String,
    /// `best`, `high`, `medium` or `low`.
    pub video_quality: String,
    /// `2160p`, `1440p`, `1080p`, `720p`, `480p` or `no-limit`.
    pub max_resolution: String,
    /// `mp4`, `mkv`, `webm` or `best`.
    pub video_format: String,
    /// `mp3`, `m4a`, `opus` or `best`.
    pub audio_format: String,
    /// `0`, `2`, `5` or `9`.
    pub audio_quality: String,
    /// A rate such as `50K` or `1M`, or `unlimited`.
    pub download_rate_limit: String,
    /// A size such as `50M` or `1G`, or `unlimited`.
    pub max_file_size: String,
    /// Whether file names get a unique id appended.
    pub append_unique_id: bool,
    /// `native` for the worker's own id, `hash` for a hash of the URL.
    pub unique_id_type: String,
}

/// The content of download settings.
pub struct SettingsView {
    pub download_mode: Seq<char>,
    pub video_quality: Seq<char>,
    pub max_resolution: Seq<char>,
    pub video_format: Seq<char>,
    pub audio_format: Seq<char>,
    pub audio_quality: Seq<char>,
    pub download_rate_limit: Seq<char>,
    pub max_file_size: Seq<char>,
    pub append_unique_id: bool,
    pub unique_id_type: Seq<char>,
}

impl View for DownloadSettings {
    type V = SettingsView;

    open spec fn view(&self) -> SettingsView {
        SettingsView {
            download_mode: self.download_mode@,
            video_quality: self.video_quality@,
            max_resolution: self.max_resolution@,
            video_format: self.video_format@,
            audio_format: self.audio_format@,
            audio_quality: self.audio_quality@,
            download_rate_limit: self.download_rate_limit@,
            max_file_size: self.max_file_size@,
            append_unique_id: self.append_unique_id,
            unique_id_type: self.unique_id_type@,
        }
    }
}

/// The settings of a download that is requested by remote control.
pub open spec fn remote_default_settings() -> SettingsView {
    SettingsView {
        download_mode: "video"@,
        video_quality: "best"@,
        max_resolution: "no-limit"@,
        video_format: "best"@,
        audio_format: "best"@,
        audio_quality: "0"@,
        download_rate_limit: "unlimited"@,
        max_file_size: "unlimited"@,
        append_unique_id: true,
        unique_id_type: "native"@,
    }
}

impl Clone for DownloadSettings {
    fn clone(&self) -> (r: Self)
        ensures
            r == *self,
    {
        DownloadSettings {
            download_mode: self.download_mode.clone(),
            video_quality: self.video_quality.clone(),
            max_resolution: self.max_resolution.clone(),
            video_format: self.video_format.clone(),
            audio_format: self.audio_format.clone(),
            audio_quality: self.audio_quality.clone(),
            download_rate_limit: self.download_rate_limit.clone(),
            max_file_size: self.max_file_size.clone(),
            append_unique_id: self.append_unique_id,
            unique_id_type: self.unique_id_type.clone(),
        }
    }
}

/// The kind of unique id used where settings name none.
pub fn default_native() -> (s: String)
    ensures
        s@ == "native"@,
{
    String::from_str("native")
}

/// Whether a unique id is appended where settings do not say.
pub fn default_true() -> (b: bool)
    ensures
        b,
{
    true
}

/// The limit used where settings name none.
pub fn default_unlimited() -> (s: String)
    ensures
        s@ == "unlimited"@,
{
    String::from_str("unlimited")
}

impl DownloadSettings {
    /// The settings of a download that is requested by remote control.
    pub fn remote_defaults() -> (s: Self)
        ensures
            s@ == remote_default_settings(),
    {
        DownloadSettings {
            download_mode: String::from_str("video"),
            video_quality: String::from_str("best"),
            max_resolution: String::from_str("no-limit"),
            video_format: String::from_str("best"),
            audio_format: String::from_str("best"),
            audio_quality: String::from_str("0"),
            download_rate_limit: default_unlimited(),
            max_file_size: default_unlimited(),
            append_unique_id: true,
            unique_id_type: default_native(),
        }
    }
}

/// Whether `c` may stand in the number of a size or rate.
pub open spec fn is_number_char(c: char) -> bool {
    is_digit(c) || c == '.'
}

/// The length of the longest prefix of `s` made of digits and points.
pub open spec fn number_prefix_len(s: Seq<char>) -> int
    decreases s.len(),
{
    if s.len() == 0 || !is_number_char(s[0]) {
        0
    } else {
        1 + number_prefix_len(s.drop_first())
    }
}

/// Whether `s` is one of the unit letters of a size or rate.
pub open spec fn is_unit_suffix(s: Seq<char>) -> bool {
    s.len() == 1 && (s[0] == 'K' || s[0] == 'M' || s[0] == 'G' || s[0] == 'k' || s[0] == 'm'
        || s[0] == 'g')
}

/// Whether `s` writes a size or rate: `unlimited`, or a decimal number
/// above zero, alone or followed by one of the letters K, M, G, k, m, g.
pub open spec fn is_size_or_rate(s: Seq<char>) -> bool {
    s == "unlimited"@ || {
        let n = number_prefix_len(s);
        &&& decimal_of(s.take(n)) matches Some(d) && d.nonzero
        &&& (n == s.len() || is_unit_suffix(s.skip(n)))
    }
}

proof fn lemma_number_prefix(s: Seq<char>, i: int)
    requires
        0 <= i <= s.len(),
        forall|j: int| 0 <= j < i ==> is_number_char(s[j]),
        i < s.len() ==> !is_number_char(s[i]),
    ensures
        number_prefix_len(s) == i,
    decreases i,
{
    if i > 0 {
        let t = s.drop_first();
        lemma_number_prefix(t, i - 1);
    }
}

/// Whether `s` writes a size or rate.
pub fn validate_size_or_rate(s: &str) -> (ok: bool)
    ensures
        ok == is_size_or_rate(s@),
{
    if text_eq(s, "unlimited") {
        return true;
    }
    let chars = to_chars(s);
    let mut n: usize = 0;
    while n < chars.len() && (is_digit_char(chars[n]) || chars[n] == '.')
        invariant
            n <= chars.len(),
            forall|j: int| 0 <= j < n ==> is_number_char(chars@[j]),
        decreases chars.len() - n,
    {
        n = n + 1;
    }
    proof {
        lemma_number_prefix(chars@, n as int);
    }
    match parse_decimal(&chars, 0, n) {
        Some(d) => {
            if !d.nonzero {
                return false;
            }
        },
        None => {
            return false;
        },
    }
    if n == chars.len() {
        return true;
    }
    if chars.len() - n != 1 {
        return false;
    }
    let c = chars[n];
    c == 'K' || c == 'M' || c == 'G' || c == 'k' || c == 'm' || c == 'g'
}

/// The complaint about a setting: its name and the value it has.
pub open spec fn complaint(label: Seq<char>, value: Seq<char>) -> Seq<char> {
    "Invalid "@ + label + ": "@ + value
}

/// What is wrong with the settings, if anything: the complaint about the
/// first member, in the order of their declaration, that holds no value
/// allowed for it.
pub open spec fn settings_fault(s: SettingsView) -> Option<Seq<char>> {
    if !(s.download_mode == "video"@ || s.download_mode == "audio"@) {
        Some(complaint("download_mode"@, s.download_mode))
    } else if !(s.video_quality == "best"@ || s.video_quality == "high"@ || s.video_quality
        == "medium"@ || s.video_quality == "low"@) {
        Some(complaint("video_quality"@, s.video_quality))
    } else if !(s.max_resolution == "2160p"@ || s.max_resolution == "1440p"@
        || s.max_resolution == "1080p"@ || s.max_resolution == "720p"@ || s.max_resolution
        == "480p"@ || s.max_resolution == "no-limit"@) {
        Some(complaint("max_resolution"@, s.max_resolution))
    } else if !(s.video_format == "mp4"@ || s.video_format == "mkv"@ || s.video_format
        == "webm"@ || s.video_format == "best"@) {
        Some(complaint("video_format"@, s.video_format))
    } else if !(s.audio_format == "mp3"@ || s.audio_format == "m4a"@ || s.audio_format
        == "opus"@ || s.audio_format == "best"@) {
        Some(complaint("audio_format"@, s.audio_format))
    } else if !(s.audio_quality == "0"@ || s.audio_quality == "2"@ || s.audio_quality == "5"@
        || s.audio_quality == "9"@) {
        Some(complaint("audio_quality"@, s.audio_quality))
    } else if !is_size_or_rate(s.download_rate_limit) {
        Some(complaint("download_rate_limit"@, s.download_rate_limit))
    } else if !is_size_or_rate(s.max_file_size) {
        Some(complaint("max_file_size"@, s.max_file_size))
    } else if !(s.unique_id_type == "native"@ || s.unique_id_type == "hash"@) {
        Some(complaint("unique_id_type"@, s.unique_id_type))
    } else {
        None
    }
}

/// The validation error of kind `kind` with the message `message`.
pub open spec fn validation_error(kind: ValidationKind, message: Seq<char>) -> ErrorView {
    ErrorView::Validation { kind, message }
}

fn complain(label: &str, value: &str) -> (e: DownloaderError)
    ensures
        e@ == validation_error(ValidationKind::InvalidSettings, complaint(label@, value@)),
{
    let mut message = String::from_str("Invalid ");
    message.append(label);
    message.append(": ");
    message.append(value);
    DownloaderError::invalid_settings(message.as_str())
}

/// Checks that every member of the settings holds a value allowed for it.
pub fn validate_settings(settings: &DownloadSettings) -> (r: Result<(), DownloaderError>)
    ensures
        match r {
            Ok(_) => settings_fault(settings@) is None,
            Err(e) => settings_fault(settings@) matches Some(message) && e@ == validation_error(
                ValidationKind::InvalidSettings,
                message,
            ),
        },
{
    let mode = settings.download_mode.as_str();
    if !(text_eq(mode, "video") || text_eq(mode, "audio")) {
        return Err(complain("download_mode", mode));
    }
    let quality = settings.video_quality.as_str();
    if !(text_eq(quality, "best") || text_eq(quality, "high") || text_eq(quality, "medium")
        || text_eq(quality, "low")) {
        return Err(complain("video_quality", quality));
    }
    let resolution = settings.max_resolution.as_str();
    if !(text_eq(resolution, "2160p") || text_eq(resolution, "1440p") || text_eq(
        resolution,
        "1080p",
    ) || text_eq(resolution, "720p") || text_eq(resolution, "480p") || text_eq(
        resolution,
        "no-limit",
    )) {
        return Err(complain("max_resolution", resolution));
    }
    let video = settings.video_format.as_str();
    if !(text_eq(video, "mp4") || text_eq(video, "mkv") || text_eq(video, "webm") || text_eq(
        video,
        "best",
    )) {
        return Err(complain("video_format", video));
    }
    let audio = settings.audio_format.as_str();
    if !(text_eq(audio, "mp3") || text_eq(audio, "m4a") || text_eq(audio, "opus") || text_eq(
        audio,
        "best",
    )) {
        return Err(complain("audio_format", audio));
    }
    let audio_quality = settings.audio_quality.as_str();
    if !(text_eq(audio_quality, "0") || text_eq(audio_quality, "2") || text_eq(audio_quality, "5")
        || text_eq(audio_quality, "9")) {
        return Err(complain("audio_quality", audio_quality));
    }
    if !validate_size_or_rate(settings.download_rate_limit.as_str()) {
        return Err(complain("download_rate_limit", settings.download_rate_limit.as_str()));
    }
    if !validate_size_or_rate(settings.max_file_size.as_str()) {
        return Err(complain("max_file_size", settings.max_file_size.as_str()));
    }
    let id_type = settings.unique_id_type.as_str();
    if !(text_eq(id_type, "native") || text_eq(id_type, "hash")) {
        return Err(complain("unique_id_type", id_type));
    }
    Ok(())
}

/// Whether `c` means something to a shell wherever it stands. No shell
/// sees a URL, yet such characters are refused in one.
pub open spec fn is_shell_char(c: char) -> bool {
    c == '|' || c == ';' || c == '$' || c == '`' || c == '\n' || c == '\r' || c == '(' || c == ')'
        || c == '<' || c == '>'
}

/// Whether the character at `i` is refused in the URL `url`: a shell
/// character anywhere, and `&` where it does not separate the parameters
/// of a query, which is before the first `?`.
pub open spec fn refused_at(url: Seq<char>, i: int) -> bool {
    is_shell_char(url[i]) || (url[i] == '&' && i < position_of(url, '?'))
}

pub open spec fn has_shell_char(url: Seq<char>) -> bool {
    exists|i: int| 0 <= i < url.len() && #[trigger] refused_at(url, i)
}

/// The number of bytes that the text `s` takes.
pub open spec fn byte_len(s: Seq<char>) -> nat {
    vstd::utf8::encode_utf8(s).len()
}

/// What is wrong with a URL, if anything; the first of: it is blank, it
/// begins with neither `http://` nor `https://`, it is longer than
/// `MAX_URL_LENGTH` bytes, it holds a character that is refused.
pub open spec fn url_fault(url: Seq<char>) -> Option<Seq<char>> {
    if all_white_space(url) {
        Some("URL cannot be empty"@)
    } else if !starts_with_text(url, "http://"@) && !starts_with_text(url, "https://"@) {
        Some("URL must start with http:// or https://"@)
    } else if byte_len(url) > MAX_URL_LENGTH {
        Some("URL is too long (max 4096 characters)"@)
    } else if has_shell_char(url) {
        Some("URL contains invalid characters"@)
    } else {
        None
    }
}

fn is_shell_character(c: char) -> (r: bool)
    ensures
        r == is_shell_char(c),
{
    c == '|' || c == ';' || c == '$' || c == '`' || c == '\n' || c == '\r' || c == '(' || c == ')'
        || c == '<' || c == '>'
}

/// Checks a URL before it is handed to a worker.
pub fn validate_url(url: &str) -> (r: Result<(), DownloaderError>)
    ensures
        match r {
            Ok(_) => url_fault(url@) is None,
            Err(e) => url_fault(url@) matches Some(message) && e@ == validation_error(
                ValidationKind::InvalidUrl,
                message,
            ),
        },
{
    let chars = to_chars(url);
    if is_blank(&chars) {
        return Err(DownloaderError::invalid_url("URL cannot be empty"));
    }
    let http = to_chars("http://");
    let https = to_chars("https://");
    if !matches_at(&chars, &http, 0) && !matches_at(&chars, &https, 0) {
        return Err(DownloaderError::invalid_url("URL must start with http:// or https://"));
    }
    if url.as_bytes().len() > MAX_URL_LENGTH {
        return Err(DownloaderError::invalid_url("URL is too long (max 4096 characters)"));
    }
    let mut i: usize = 0;
    let mut in_query = false;
    proof {
        lemma_position_of(url@, '?');
    }
    while i < chars.len()
        invariant
            i <= chars.len(),
            chars@ == url@,
            !all_white_space(url@),
            starts_with_text(url@, "http://"@) || starts_with_text(url@, "https://"@),
            byte_len(url@) <= MAX_URL_LENGTH,
            in_query == (position_of(url@, '?') < i),
            position_of(url@, '?') < url@.len() ==> url@[position_of(url@, '?')] == '?',
            forall|j: int| 0 <= j < position_of(url@, '?') ==> url@[j] != '?',
            forall|j: int| 0 <= j < i ==> !#[trigger] refused_at(url@, j),
        decreases chars.len() - i,
    {
        let c = chars[i];
        if is_shell_character(c) || (c == '&' && !in_query) {
            assert(refused_at(url@, i as int));
            return Err(DownloaderError::invalid_url("URL contains invalid characters"));
        }
        if c == '?' {
            in_query = true;
        }
        i = i + 1;
    }
    Ok(())
}

/// What is wrong with an output location, if anything: it is blank, or
/// longer than `MAX_OUTPUT_PATH_LENGTH` bytes.
pub open spec fn location_fault(location: Seq<char>) -> Option<Seq<char>> {
    if all_white_space(location) {
        Some("Output location cannot be empty"@)
    } else if byte_len(location) > MAX_OUTPUT_PATH_LENGTH {
        Some("Output location path is too long (max 1024 characters)"@)
    } else {
        None
    }
}

/// Checks the directory that downloads are written to.
pub fn validate_output_location(location: &str) -> (r: Result<(), DownloaderError>)
    ensures
        match r {
            Ok(_) => location_fault(location@) is None,
            Err(e) => location_fault(location@) matches Some(message) && e@ == validation_error(
                ValidationKind::InvalidPath,
                message,
            ),
        },
{
    let chars = to_chars(location);
    if is_blank(&chars) {
        return Err(DownloaderError::invalid_path("Output location cannot be empty"));
    }
    if location.as_bytes().len() > MAX_OUTPUT_PATH_LENGTH {
        return Err(
            DownloaderError::invalid_path("Output location path is too long (max 1024 characters)"),
        );
    }
    Ok(())
}

} // verus!

//! What is decided when a thumbnail is asked of the RedGifs service: the
//! token in the answer to a sign-in, what to do about a reply, the poster
//! in a description, and what the whole lookup comes to.

use crate::json::{
    error_text, get_member, get_text, member_of, member_text, parse, parsed, text_field,
};
use crate::text::{
    ends_with_text, from_chars, lowercase_of, opt_text, starts_with_text, str_to_lowercase,
    to_chars, trim_bounds, trimmed,
};
use vstd::prelude::*;
use vstd::string::StringExecFns;

verus! {

/// The status with which the service refuses a token.
pub const STATUS_UNAUTHORIZED: u16 = 401;

/// What the answer to a sign-in gives: the token, or why there is none.
pub enum TokenReading {
    Token { token: Seq<char> },
    /// The answer is an object without a text member `token`.
    MissingToken,
    /// The answer begins like an object and is no JSON.
    NotJson,
    Empty,
}

/// What the answer `body` to a sign-in gives. The service answers with
/// the bare token, or with an object that holds it as `token`.
pub open spec fn token_reading(body: Seq<char>) -> TokenReading {
    let t = trimmed(body);
    if t.len() > 0 && t[0] == '{' {
        match parsed(t) {
            Some(v) => match member_text(v, "token"@) {
                Some(token) => TokenReading::Token { token },
                None => TokenReading::MissingToken,
            },
            None => TokenReading::NotJson,
        }
    } else if t.len() == 0 {
        TokenReading::Empty
    } else {
        TokenReading::Token { token: t }
    }
}

/// Reads the token out of the answer to a sign-in.
pub fn token_from_body(body: &str) -> (r: Result<String, String>)
    ensures
        match r {
            Ok(token) => token_reading(body@) == (TokenReading::Token { token: token@ }),
            Err(message) => match token_reading(body@) {
                TokenReading::Token { token } => false,
                TokenReading::MissingToken => message@
                    == "RedGifs auth JSON missing 'token' field"@,
                TokenReading::NotJson => starts_with_text(
                    message@,
                    "Failed to parse RedGifs auth JSON: "@,
                ) && ends_with_text(message@, ". Body: "@ + trimmed(body@)),
                TokenReading::Empty => message@ == "RedGifs auth returned empty body"@,
            },
        },
{
    let chars = to_chars(body);
    assert(chars@.subrange(0, chars@.len() as int) == chars@);
    let (a, b) = trim_bounds(&chars, 0, chars.len());
    let text = from_chars(&chars, a, b);
    if a < b && chars[a] == '{' {
        match parse(text.as_str()) {
            Ok(v) => {
                let token = match get_member(&v, "token") {
                    Some(m) => crate::json::as_text(m),
                    None => None,
                };
                match token {
                    Some(token) => Ok(String::from_str(token)),
                    None => Err(String::from_str("RedGifs auth JSON missing 'token' field")),
                }
            },
            Err(e) => {
                let mut message = String::from_str("Failed to parse RedGifs auth JSON: ");
                let ghost prefix = message@;
                let detail = error_text(&e);
                message.append(detail.as_str());
                message.append(". Body: ");
                message.append(text.as_str());
                proof {
                    let tail = ". Body: "@ + text@;
                    assert(message@.subrange(0, prefix.len() as int) =~= prefix);
                    assert(message@.subrange(message@.len() - tail.len(), message@.len() as int)
                        =~= tail);
                }
                Err(message)
            },
        }
    } else if a == b {
        Err(String::from_str("RedGifs auth returned empty body"))
    } else {
        Ok(text)
    }
}

/// What to do about a reply of the service.
#[derive(Debug, Clone, Copy, PartialEq, Eq, Structural)]
pub enum ReplyVerdict {
    /// The token was refused: forget it, sign in again and ask once more.
    RetryWithFreshToken,
    /// The service refused: give up on this request.
    Fail,
    /// Read the reply.
    Read,
}

/// Decides what to do about a reply from its status: a refused token is
/// replaced once, on the first attempt; any other status that is no
/// success fails the request.
pub fn judge_reply(status: u16, is_success: bool, first_attempt: bool) -> (v: ReplyVerdict)
    ensures
        v == if status == STATUS_UNAUTHORIZED && first_attempt {
            ReplyVerdict::RetryWithFreshToken
        } else if !is_success {
            ReplyVerdict::Fail
        } else {
            ReplyVerdict::Read
        },
{
    if status == STATUS_UNAUTHORIZED && first_attempt {
        ReplyVerdict::RetryWithFreshToken
    } else if !is_success {
        ReplyVerdict::Fail
    } else {
        ReplyVerdict::Read
    }
}

/// Whether the service reports an error in its reply.
pub fn reports_error(reply: &serde_json::Value) -> (r: bool)
    ensures
        r == member_of(*reply, "error"@) is Some,
{
    get_member(reply, "error").is_some()
}

/// The request for the description of the medium `id`.
pub fn endpoint(id: &str) -> (s: String)
    ensures
        s@ == "gifs/"@ + id@ + "?views=yes"@,
{
    let mut s = String::from_str("gifs/");
    s.append(id);
    s.append("?views=yes");
    s
}

/// The address of a request.
pub fn api_url(endpoint: &str) -> (s: String)
    ensures
        s@ == "https://api.redgifs.com/v2/"@ + endpoint@,
{
    let mut s = String::from_str("https://api.redgifs.com/v2/");
    s.append(endpoint);
    s
}

/// The page of the medium `id`, which a request names as its origin.
pub fn watch_url(id: &str) -> (s: String)
    ensures
        s@ == "https://www.redgifs.com/watch/"@ + id@,
{
    let mut s = String::from_str("https://www.redgifs.com/watch/");
    s.append(id);
    s
}

/// The value of the header that carries the token.
pub fn bearer(token: &str) -> (s: String)
    ensures
        s@ == "Bearer "@ + token@,
{
    let mut s = String::from_str("Bearer ");
    s.append(token);
    s
}

/// The spellings under which a medium is asked for: as given, then in
/// lower case.
pub fn id_variants(video_id: &str) -> (ids: Vec<String>)
    ensures
        ids@.len() == 2,
        ids@[0]@ == video_id@,
        ids@[1]@ == lowercase_of(video_id@),
{
    let mut ids: Vec<String> = Vec::new();
    ids.push(String::from_str(video_id));
    ids.push(str_to_lowercase(video_id));
    ids
}

/// The first of the members `mobilePosterUrl`, `posterUrl`,
/// `miniPosterUrl` and `thumb100PosterUrl` of `gif` that holds text.
pub open spec fn poster_member(gif: serde_json::Value) -> Option<Seq<char>> {
    if text_field(gif, "mobilePosterUrl"@) is Some {
        text_field(gif, "mobilePosterUrl"@)
    } else if text_field(gif, "posterUrl"@) is Some {
        text_field(gif, "posterUrl"@)
    } else if text_field(gif, "miniPosterUrl"@) is Some {
        text_field(gif, "miniPosterUrl"@)
    } else {
        text_field(gif, "thumb100PosterUrl"@)
    }
}

/// The poster among the addresses of `gif`: its `poster`, else its
/// `thumbnail`.
pub open spec fn listed_poster(gif: serde_json::Value) -> Option<Seq<char>> {
    match member_of(gif, "urls"@) {
        Some(urls) => if text_field(urls, "poster"@) is Some {
            text_field(urls, "poster"@)
        } else {
            text_field(urls, "thumbnail"@)
        },
        None => None,
    }
}

/// The poster of the medium that `gif` describes.
pub open spec fn poster_of(gif: serde_json::Value) -> Option<Seq<char>> {
    if listed_poster(gif) is Some {
        listed_poster(gif)
    } else {
        poster_member(gif)
    }
}

/// What a description gives for a poster.
#[derive(Debug)]
pub enum PosterLookup {
    Found { url: String },
    /// The description has no member `gif`.
    NoGif,
    /// The medium is described without a poster.
    NoPoster,
}

/// Looks for the poster in the description that the service sent.
pub fn find_poster(data: &serde_json::Value) -> (r: PosterLookup)
    ensures
        match r {
            PosterLookup::Found { url } => member_of(*data, "gif"@) matches Some(gif)
                && poster_of(gif) == Some(url@),
            PosterLookup::NoGif => member_of(*data, "gif"@) is None,
            PosterLookup::NoPoster => member_of(*data, "gif"@) matches Some(gif) && poster_of(gif)
                is None,
        },
{
    let gif = match get_member(data, "gif") {
        Some(gif) => gif,
        None => {
            return PosterLookup::NoGif;
        },
    };
    match get_member(gif, "urls") {
        Some(urls) => {
            match get_text(urls, "poster") {
                Some(url) => {
                    return PosterLookup::Found { url: String::from_str(url) };
                },
                None => {},
            }
            match get_text(urls, "thumbnail") {
                Some(url) => {
                    return PosterLookup::Found { url: String::from_str(url) };
                },
                None => {},
            }
        },
        None => {},
    }
    match get_text(gif, "mobilePosterUrl") {
        Some(url) => {
            return PosterLookup::Found { url: String::from_str(url) };
        },
        None => {},
    }
    match get_text(gif, "posterUrl") {
        Some(url) => {
            return PosterLookup::Found { url: String::from_str(url) };
        },
        None => {},
    }
    match get_text(gif, "miniPosterUrl") {
        Some(url) => {
            return PosterLookup::Found { url: String::from_str(url) };
        },
        None => {},
    }
    match get_text(gif, "thumb100PosterUrl") {
        Some(url) => {
            return PosterLookup::Found { url: String::from_str(url) };
        },
        None => {},
    }
    PosterLookup::NoPoster
}

/// The id under which a poster is asked for: for a medium of the
/// extractor `RedGifs`, its member `id`, or `display_id` where `id` is no text.
pub open spec fn lookup_id(v: serde_json::Value) -> Option<Seq<char>> {
    if member_text(v, "extractor"@) == Some("RedGifs"@) {
        if member_text(v, "id"@) is Some {
            member_text(v, "id"@)
        } else {
            member_text(v, "display_id"@)
        }
    } else {
        None
    }
}

/// The id under which the service is asked for the poster of the medium
/// that `v` describes, if it is one of the service's.
pub fn poster_lookup_id(v: &serde_json::Value) -> (r: Option<String>)
    ensures
        opt_text(r) == lookup_id(*v),
{
    let extractor = match get_member(v, "extractor") {
        Some(m) => crate::json::as_text(m),
        None => None,
    };
    let is_redgifs = match extractor {
        Some(e) => crate::text::text_eq(e, "RedGifs"),
        None => false,
    };
    if !is_redgifs {
        return None;
    }
    let id = match get_member(v, "id") {
        Some(m) => crate::json::as_text(m),
        None => None,
    };
    match id {
        Some(id) => Some(String::from_str(id)),
        None => {
            let display = match get_member(v, "display_id") {
                Some(m) => crate::json::as_text(m),
                None => None,
            };
            match display {
                Some(d) => Some(String::from_str(d)),
                None => None,
            }
        },
    }
}

/// What a lookup that found no poster comes to: nothing where the service
/// answered at all, else the last error, else nothing.
pub fn conclude(any_succeeded: bool, last_error: Option<String>) -> (r: Result<
    Option<String>,
    String,
>)
    ensures
        match r {
            Ok(found) => found is None && (any_succeeded || last_error is None),
            Err(e) => !any_succeeded && last_error == Some(e),
        },
{
    if any_succeeded {
        Ok(None)
    } else {
        match last_error {
            Some(e) => Err(e),
            None => Ok(None),
        }
    }
}

} // verus!

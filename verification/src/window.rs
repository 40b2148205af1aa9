//! Small decisions about windows and the desktop the program runs on.

use crate::text::{
    contains_text, find_text, from_chars, lowercase_of, matches_at, starts_with_text,
    str_to_lowercase, text_eq, to_chars,
};
use vstd::prelude::*;
use vstd::string::StringExecFns;

verus! {

/// The title of a preview window that is given none.
pub const DEFAULT_PREVIEW_TITLE: &'static str = "ReMedia Preview";

/// What a preview window shows.
#[derive(Debug)]
pub enum PreviewTarget {
    /// A page of the web.
    External { url: String },
    /// A route of the program's own pages, beginning with one `/`.
    App { route: String },
}

/// `s` without the `/`s at its start.
pub open spec fn without_leading_slashes(s: Seq<char>) -> Seq<char>
    decreases s.len(),
{
    if s.len() > 0 && s[0] == '/' {
        without_leading_slashes(s.drop_first())
    } else {
        s
    }
}

pub open spec fn is_web_address(url: Seq<char>) -> bool {
    starts_with_text(url, "http://"@) || starts_with_text(url, "https://"@)
}

/// Decides what a preview window shows for `url`: the page itself if
/// it is an address of the web, else the program's own route of that name.
pub fn preview_target(url: &str) -> (t: PreviewTarget)
    ensures
        match t {
            PreviewTarget::External { url: u } => is_web_address(url@) && u@ == url@,
            PreviewTarget::App { route } => !is_web_address(url@) && route@ == seq!['/']
                + without_leading_slashes(url@),
        },
{
    let chars = to_chars(url);
    let http = to_chars("http://");
    let https = to_chars("https://");
    if matches_at(&chars, &http, 0) || matches_at(&chars, &https, 0) {
        return PreviewTarget::External { url: String::from_str(url) };
    }
    let mut from: usize = 0;
    assert(chars@.skip(0) == chars@);
    while from < chars.len() && chars[from] == '/'
        invariant
            from <= chars.len(),
            without_leading_slashes(chars@) == without_leading_slashes(chars@.skip(from as int)),
        decreases chars.len() - from,
    {
        assert(chars@.skip(from as int).drop_first() == chars@.skip(from + 1));
        from = from + 1;
    }
    let rest = from_chars(&chars, from, chars.len());
    let mut route = String::from_str("/");
    proof {
        reveal_strlit("/");
    }
    route.append(rest.as_str());
    PreviewTarget::App { route }
}

/// The title of a preview window.
pub fn preview_title(title: Option<String>) -> (t: String)
    ensures
        t@ == match title {
            Some(given) => given@,
            None => DEFAULT_PREVIEW_TITLE@,
        },
{
    match title {
        Some(given) => given,
        None => String::from_str(DEFAULT_PREVIEW_TITLE),
    }
}

/// Whether a session of this type, if the desktop names one, is a Wayland
/// session: whether its name is `wayland` in any mix of upper and lower case.
pub fn is_wayland_session(session_type: Option<&str>) -> (r: bool)
    ensures
        r == match session_type {
            Some(name) => lowercase_of(name@) == "wayland"@,
            None => false,
        },
{
    match session_type {
        Some(name) => {
            let lowered = str_to_lowercase(name);
            text_eq(lowered.as_str(), "wayland")
        },
        None => false,
    }
}

/// Whether the kernel's description of itself names the second version of
/// the Windows subsystem for Linux.
pub fn names_wsl2(kernel_version: &str) -> (r: bool)
    ensures
        r == contains_text(kernel_version@, "WSL2"@),
{
    let chars = to_chars(kernel_version);
    let mark = to_chars("WSL2");
    find_text(&chars, &mark, 0).is_some()
}

/// How a window is closed, by the system the program runs on.
pub fn wsl_window_close_behavior(is_wsl: bool, is_wsl2: bool) -> (s: &'static str)
    ensures
        s@ == if is_wsl && is_wsl2 {
            "wsl2"@
        } else if is_wsl {
            "wsl1"@
        } else {
            "native"@
        },
{
    if is_wsl && is_wsl2 {
        "wsl2"
    } else if is_wsl {
        "wsl1"
    } else {
        "native"
    }
}

} // verus!

//! The thumbnail of a medium, read out of the worker's JSON description.

use crate::json::{
    as_items, as_text, get_member, get_text, items_of, member_of, member_text, text_field,
};
use crate::text::{
    contains_text, ends_with, ends_with_text, find_text, from_chars, last_segment,
    last_segment_start, matches_at, opt_text, starts_with_text, text_eq, to_chars, trim_bounds,
    trimmed, without_suffix, without_suffix_end,
};
use vstd::prelude::*;
use vstd::string::StringExecFns;

verus! {

/// The address of the last entry of the member `thumbnails`, if it has one.
pub open spec fn last_listed_thumbnail(v: serde_json::Value) -> Option<Seq<char>> {
    match member_of(v, "thumbnails"@) {
        Some(list) => match items_of(list) {
            Some(items) => if items.len() > 0 {
                text_field(items.last(), "url"@)
            } else {
                None
            },
            None => None,
        },
        None => None,
    }
}

/// The thumbnail that the description names itself: the member
/// `thumbnail`, else the last of `thumbnails`, else `thumbnail_url`.
pub open spec fn named_thumbnail(v: serde_json::Value) -> Option<Seq<char>> {
    if text_field(v, "thumbnail"@) is Some {
        text_field(v, "thumbnail"@)
    } else if last_listed_thumbnail(v) is Some {
        last_listed_thumbnail(v)
    } else {
        text_field(v, "thumbnail_url"@)
    }
}

/// Whether `url` is the address of a video file of RedGifs.
pub open spec fn is_redgifs_video(url: Seq<char>) -> bool {
    contains_text(url, "redgifs.com"@) && ends_with_text(url, ".mp4"@)
}

/// The id in the address of a video file of RedGifs: the file's name
/// without `.mp4` and without `-mobile` at its end.
pub open spec fn redgifs_id_in(url: Seq<char>) -> Seq<char> {
    without_suffix(without_suffix(last_segment(url, '/'), ".mp4"@), "-mobile"@)
}

/// The id in the first of `formats` whose address is that of a video file
/// of RedGifs.
pub open spec fn redgifs_id_in_formats(formats: Seq<serde_json::Value>) -> Option<Seq<char>>
    decreases formats.len(),
{
    if formats.len() == 0 {
        None
    } else {
        match member_text(formats[0], "url"@) {
            Some(url) => if is_redgifs_video(url) {
                Some(redgifs_id_in(url))
            } else {
                redgifs_id_in_formats(formats.drop_first())
            },
            None => redgifs_id_in_formats(formats.drop_first()),
        }
    }
}

/// The id in the formats of the description `v`, if they hold one.
pub open spec fn redgifs_format_id(v: serde_json::Value) -> Option<Seq<char>> {
    match member_of(v, "formats"@) {
        Some(list) => match items_of(list) {
            Some(formats) => redgifs_id_in_formats(formats),
            None => None,
        },
        None => None,
    }
}

/// The id of a RedGifs medium: the one in its formats, else its member
/// `id`, else `display_id`.
pub open spec fn redgifs_id(v: serde_json::Value) -> Option<Seq<char>> {
    if redgifs_format_id(v) is Some {
        redgifs_format_id(v)
    } else if member_text(v, "id"@) is Some {
        member_text(v, "id"@)
    } else {
        member_text(v, "display_id"@)
    }
}

/// The address of the thumbnail that RedGifs keeps for the id `id`.
pub open spec fn redgifs_thumbnail_for(id: Seq<char>) -> Seq<char> {
    "https://thumbs2.redgifs.com/"@ + id + "-mobile.jpg"@
}

/// The thumbnail made up for a RedGifs medium that names none.
pub open spec fn redgifs_thumbnail(v: serde_json::Value) -> Option<Seq<char>> {
    match redgifs_id(v) {
        Some(id) => if trimmed(id).len() > 0 {
            Some(redgifs_thumbnail_for(trimmed(id)))
        } else {
            None
        },
        None => None,
    }
}

/// The thumbnail before its address is checked.
pub open spec fn thumbnail_candidate(v: serde_json::Value) -> Option<Seq<char>> {
    if named_thumbnail(v) is Some {
        named_thumbnail(v)
    } else if member_text(v, "extractor"@) == Some("RedGifs"@) {
        redgifs_thumbnail(v)
    } else {
        None
    }
}

/// The thumbnail of the medium that `v` describes: the one it names, or for
/// a RedGifs medium without one the one made up from its id; and only if
/// its address begins with `http`.
pub open spec fn thumbnail_of(v: serde_json::Value) -> Option<Seq<char>> {
    match thumbnail_candidate(v) {
        Some(t) => if starts_with_text(t, "http"@) {
            Some(t)
        } else {
            None
        },
        None => None,
    }
}

fn named<'a>(v: &'a serde_json::Value) -> (r: Option<&'a str>)
    ensures
        match r {
            Some(s) => named_thumbnail(*v) == Some(s@),
            None => named_thumbnail(*v) is None,
        },
{
    match get_text(v, "thumbnail") {
        Some(t) => {
            return Some(t);
        },
        None => {},
    }
    let listed = match get_member(v, "thumbnails") {
        Some(list) => match as_items(list) {
            Some(items) => if items.len() > 0 {
                get_text(&items[items.len() - 1], "url")
            } else {
                None
            },
            None => None,
        },
        None => None,
    };
    match listed {
        Some(t) => Some(t),
        None => get_text(v, "thumbnail_url"),
    }
}

fn id_in_url(url: &str) -> (r: Option<String>)
    ensures
        opt_text(r) == if is_redgifs_video(url@) {
            Some(redgifs_id_in(url@))
        } else {
            None
        },
{
    let chars = to_chars(url);
    let site = to_chars("redgifs.com");
    let mp4 = to_chars(".mp4");
    let mobile = to_chars("-mobile");
    assert(chars@.take(chars@.len() as int) == chars@);
    if find_text(&chars, &site, 0).is_none() || !ends_with(&chars, chars.len(), &mp4) {
        return None;
    }
    let from = last_segment_start(&chars, '/');
    let name = from_chars(&chars, from, chars.len());
    let name_chars = to_chars(name.as_str());
    assert(name_chars@.take(name_chars@.len() as int) == name_chars@);
    let end = without_suffix_end(&name_chars, name_chars.len(), &mp4);
    let end = without_suffix_end(&name_chars, end, &mobile);
    Some(from_chars(&name_chars, 0, end))
}

fn id_in_formats(formats: &Vec<serde_json::Value>) -> (r: Option<String>)
    ensures
        opt_text(r) == redgifs_id_in_formats(formats@),
{
    let mut i: usize = 0;
    assert(formats@.skip(0) == formats@);
    while i < formats.len()
        invariant
            i <= formats.len(),
            redgifs_id_in_formats(formats@) == redgifs_id_in_formats(formats@.skip(i as int)),
        decreases formats.len() - i,
    {
        let ghost rest = formats@.skip(i as int);
        assert(rest.drop_first() == formats@.skip(i + 1));
        let url = match get_member(&formats[i], "url") {
            Some(m) => as_text(m),
            None => None,
        };
        match url {
            Some(url) => {
                match id_in_url(url) {
                    Some(id) => {
                        return Some(id);
                    },
                    None => {},
                }
            },
            None => {},
        }
        i = i + 1;
    }
    None
}

fn member_string(v: &serde_json::Value, key: &str) -> (r: Option<String>)
    ensures
        opt_text(r) == member_text(*v, key@),
{
    match get_member(v, key) {
        Some(m) => match as_text(m) {
            Some(s) => Some(String::from_str(s)),
            None => None,
        },
        None => None,
    }
}

fn made_up(v: &serde_json::Value) -> (r: Option<String>)
    ensures
        opt_text(r) == redgifs_thumbnail(*v),
{
    let from_formats = match get_member(v, "formats") {
        Some(list) => match as_items(list) {
            Some(formats) => id_in_formats(formats),
            None => None,
        },
        None => None,
    };
    let id = match from_formats {
        Some(id) => Some(id),
        None => match member_string(v, "id") {
            Some(id) => Some(id),
            None => member_string(v, "display_id"),
        },
    };
    match id {
        Some(id) => {
            let chars = to_chars(id.as_str());
            assert(chars@.subrange(0, chars@.len() as int) == chars@);
            let (a, b) = trim_bounds(&chars, 0, chars.len());
            if a == b {
                None
            } else {
                let trimmed_id = from_chars(&chars, a, b);
                let mut t = String::from_str("https://thumbs2.redgifs.com/");
                t.append(trimmed_id.as_str());
                t.append("-mobile.jpg");
                Some(t)
            }
        },
        None => None,
    }
}

/// Finds the thumbnail of the medium that `v` describes.
pub fn resolve_thumbnail(v: &serde_json::Value) -> (r: Option<String>)
    ensures
        opt_text(r) == thumbnail_of(*v),
{
    let candidate = match named(v) {
        Some(t) => Some(String::from_str(t)),
        None => {
            let extractor = match get_member(v, "extractor") {
                Some(m) => as_text(m),
                None => None,
            };
            let is_redgifs = match extractor {
                Some(e) => text_eq(e, "RedGifs"),
                None => false,
            };
            if is_redgifs {
                made_up(v)
            } else {
                None
            }
        },
    };
    match candidate {
        Some(t) => {
            let chars = to_chars(t.as_str());
            let http = to_chars("http");
            if matches_at(&chars, &http, 0) {
                Some(t)
            } else {
                None
            }
        },
        None => None,
    }
}

} // verus!

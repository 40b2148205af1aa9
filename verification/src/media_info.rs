//! What is shown of a medium before it is downloaded, read out of the
//! worker's JSON description.

use crate::json::{
    as_integer, as_items, as_text, get_member, get_text, integer_of, items_of, member_of,
    member_text, non_empty, text_field, text_of,
};
use crate::playlist::{sanitize_folder_name, sanitized};
use crate::text::{opt_text, text_eq};
use crate::thumbnail::{resolve_thumbnail, thumbnail_of};
use vstd::prelude::*;
use vstd::string::StringExecFns;

verus! {

/// What is shown of a medium.
#[derive(Debug)]
pub struct ExtractedMediaInfo {
    pub title: String,
    pub thumbnail: String,
    pub preview_url: String,
    pub uploader: Option<String>,
    pub collection_id: Option<String>,
    pub collection_kind: Option<String>,
    pub collection_name: Option<String>,
    pub folder_slug: Option<String>,
}

/// The content of what is shown of a medium.
pub struct MediaInfoView {
    pub title: Seq<char>,
    pub thumbnail: Seq<char>,
    pub preview_url: Seq<char>,
    pub uploader: Option<Seq<char>>,
    pub collection_id: Option<Seq<char>>,
    pub collection_kind: Option<Seq<char>>,
    pub collection_name: Option<Seq<char>>,
    pub folder_slug: Option<Seq<char>>,
}

impl View for ExtractedMediaInfo {
    type V = MediaInfoView;

    open spec fn view(&self) -> MediaInfoView {
        MediaInfoView {
            title: self.title@,
            thumbnail: self.thumbnail@,
            preview_url: self.preview_url@,
            uploader: opt_text(self.uploader),
            collection_id: opt_text(self.collection_id),
            collection_kind: opt_text(self.collection_kind),
            collection_name: opt_text(self.collection_name),
            folder_slug: opt_text(self.folder_slug),
        }
    }
}

/// The first of the three members that `v` has, whatever it holds.
pub open spec fn first_member(
    v: serde_json::Value,
    first: Seq<char>,
    second: Seq<char>,
    third: Seq<char>,
) -> Option<serde_json::Value> {
    if member_of(v, first) is Some {
        member_of(v, first)
    } else if member_of(v, second) is Some {
        member_of(v, second)
    } else {
        member_of(v, third)
    }
}

/// The text of `m`, if it is a string that is not empty.
pub open spec fn filled_text(m: Option<serde_json::Value>) -> Option<Seq<char>> {
    match m {
        Some(m) => non_empty(text_of(m)),
        None => None,
    }
}

/// The name of who uploaded the medium, fit for a folder: taken from the
/// first of the members `uploader`, `channel` and `uploader_id` that is
/// there, if that one is a string and not empty.
pub open spec fn uploader_of(v: serde_json::Value) -> Option<Seq<char>> {
    match filled_text(first_member(v, "uploader"@, "channel"@, "uploader_id"@)) {
        Some(name) => Some(sanitized(name)),
        None => None,
    }
}

/// A million.
pub const MEGA: i128 = 1_000_000;

/// `n` in millions, rounded towards zero.
pub open spec fn in_millions(n: int) -> int {
    if n >= 0 {
        n / 1_000_000
    } else {
        -((-n) / 1_000_000)
    }
}

/// The integer that the member `key` of `f` holds, or 0.
pub open spec fn integer_or_zero(f: serde_json::Value, key: Seq<char>) -> int {
    match member_of(f, key) {
        Some(m) => match integer_of(m) {
            Some(n) => n as int,
            None => 0,
        },
        None => 0,
    }
}

/// How much a format is preferred: 1000 for an `mp4`, plus its height,
/// plus its size in millions of bytes.
pub open spec fn format_score(f: serde_json::Value) -> int {
    (if member_text(f, "ext"@) == Some("mp4"@) {
        1000int
    } else {
        0int
    }) + integer_or_zero(f, "height"@) + in_millions(integer_or_zero(f, "filesize"@))
}

/// The best address so far and its score.
pub struct BestFormat {
    pub score: int,
    pub url: Option<Seq<char>>,
}

/// The best of a choice so far and the formats that follow: a format with
/// an address takes the place of the best so far if it scores higher.
pub open spec fn best_among(formats: Seq<serde_json::Value>, best: BestFormat) -> BestFormat
    decreases formats.len(),
{
    if formats.len() == 0 {
        best
    } else {
        let f = formats[0];
        let next = match text_field(f, "url"@) {
            Some(url) => if format_score(f) > best.score {
                BestFormat { score: format_score(f), url: Some(url) }
            } else {
                best
            },
            None => best,
        };
        best_among(formats.drop_first(), next)
    }
}

/// The address of the format preferred for a preview: the choice among
/// all formats, begun with no address at a score of -1.
pub open spec fn best_format_url(v: serde_json::Value) -> Option<Seq<char>> {
    match member_of(v, "formats"@) {
        Some(list) => match items_of(list) {
            Some(formats) => best_among(formats, BestFormat { score: -1, url: None }).url,
            None => None,
        },
        None => None,
    }
}

/// The address for a preview: the member `url` of the description, else
/// that of its preferred format.
pub open spec fn preview_url_of(v: serde_json::Value) -> Option<Seq<char>> {
    if text_field(v, "url"@) is Some {
        text_field(v, "url"@)
    } else {
        best_format_url(v)
    }
}

/// The choice among formats is a format that scores highest: its address
/// is that of the start or of a format which scores what the choice scores;
/// the choice scores no less than the start; and no format with an address
/// scores more.
pub proof fn law_best_format_scores_highest(formats: Seq<serde_json::Value>, start: BestFormat)
    ensures
        ({
            let best = best_among(formats, start);
            &&& best.score >= start.score
            &&& best == start || exists|i: int|
                0 <= i < formats.len() && #[trigger] text_field(formats[i], "url"@) == best.url
                    && best.url is Some && format_score(formats[i]) == best.score
            &&& forall|i: int|
                0 <= i < formats.len() && (#[trigger] text_field(formats[i], "url"@)) is Some
                    ==> format_score(formats[i]) <= best.score
        }),
    decreases formats.len(),
{
    if formats.len() > 0 {
        let f = formats[0];
        let rest = formats.drop_first();
        let next = match text_field(f, "url"@) {
            Some(url) => if format_score(f) > start.score {
                BestFormat { score: format_score(f), url: Some(url) }
            } else {
                start
            },
            None => start,
        };
        law_best_format_scores_highest(rest, next);
        let best = best_among(formats, start);
        assert forall|i: int|
            0 <= i < formats.len() && (#[trigger] text_field(formats[i], "url"@)) is Some implies format_score(
            formats[i],
        ) <= best.score by {
            if i > 0 {
                assert(formats[i] == rest[i - 1]);
            }
        }
    }
}

fn member_integer(f: &serde_json::Value, key: &str) -> (n: i128)
    ensures
        n == integer_or_zero(*f, key@),
        i64::MIN <= n <= i64::MAX,
{
    match get_member(f, key) {
        Some(m) => match as_integer(m) {
            Some(n) => n as i128,
            None => 0,
        },
        None => 0,
    }
}

fn score(f: &serde_json::Value) -> (s: i128)
    ensures
        s == format_score(*f),
{
    let ext = match get_member(f, "ext") {
        Some(m) => as_text(m),
        None => None,
    };
    let is_mp4 = match ext {
        Some(e) => text_eq(e, "mp4"),
        None => false,
    };
    let mut s: i128 = if is_mp4 { 1000 } else { 0 };
    s = s + member_integer(f, "height");
    let size = member_integer(f, "filesize");
    let millions: i128 = if size >= 0 {
        size / MEGA
    } else {
        -((-size) / MEGA)
    };
    s + millions
}

fn best_format(formats: &Vec<serde_json::Value>) -> (r: Option<String>)
    ensures
        opt_text(r) == best_among(formats@, BestFormat { score: -1, url: None }).url,
{
    let mut best_url: Option<String> = None;
    let mut best_score: i128 = -1;
    let mut i: usize = 0;
    assert(formats@.skip(0) == formats@);
    while i < formats.len()
        invariant
            i <= formats.len(),
            best_among(formats@, BestFormat { score: -1, url: None }) == best_among(
                formats@.skip(i as int),
                BestFormat { score: best_score as int, url: opt_text(best_url) },
            ),
        decreases formats.len() - i,
    {
        let ghost rest = formats@.skip(i as int);
        assert(rest.drop_first() == formats@.skip(i + 1));
        match get_text(&formats[i], "url") {
            Some(url) => {
                let s = score(&formats[i]);
                if s > best_score {
                    best_score = s;
                    best_url = Some(String::from_str(url));
                }
            },
            None => {},
        }
        i = i + 1;
    }
    best_url
}

/// Finds the address for a preview of the medium that `v` describes.
pub fn extract_preview_url(v: &serde_json::Value) -> (r: Option<String>)
    ensures
        opt_text(r) == preview_url_of(*v),
{
    match get_text(v, "url") {
        Some(url) => {
            return Some(String::from_str(url));
        },
        None => {},
    }
    match get_member(v, "formats") {
        Some(list) => match as_items(list) {
            Some(formats) => best_format(formats),
            None => None,
        },
        None => None,
    }
}

/// The first of the three members that `v` has, if it holds text that is
/// not empty.
pub fn first_text<'a>(v: &'a serde_json::Value, first: &str, second: &str, third: &str) -> (r:
    Option<&'a str>)
    ensures
        match r {
            Some(s) => filled_text(first_member(*v, first@, second@, third@)) == Some(s@),
            None => filled_text(first_member(*v, first@, second@, third@)) is None,
        },
{
    let member = match get_member(v, first) {
        Some(m) => Some(m),
        None => match get_member(v, second) {
            Some(m) => Some(m),
            None => get_member(v, third),
        },
    };
    match member {
        Some(m) => match as_text(m) {
            Some(s) => if s.unicode_len() > 0 {
                Some(s)
            } else {
                None
            },
            None => None,
        },
        None => None,
    }
}

/// Finds the name of who uploaded the medium that `v` describes.
pub fn extract_uploader(v: &serde_json::Value) -> (r: Option<String>)
    ensures
        opt_text(r) == uploader_of(*v),
{
    match first_text(v, "uploader", "channel", "uploader_id") {
        Some(name) => Some(sanitize_folder_name(name)),
        None => None,
    }
}

/// `t`, or the empty text in its place.
pub open spec fn or_empty(t: Option<Seq<char>>) -> Seq<char> {
    match t {
        Some(s) => s,
        None => Seq::empty(),
    }
}

/// What is shown of the medium at `media_source_url` that `v` describes:
/// the title, or the address where there is none; thumbnail and preview
/// address, empty where there is none; and the uploader. A single medium
/// belongs to no collection.
pub open spec fn media_info_of(v: serde_json::Value, media_source_url: Seq<char>) -> MediaInfoView {
    MediaInfoView {
        title: match text_field(v, "title"@) {
            Some(t) => t,
            None => media_source_url,
        },
        thumbnail: or_empty(thumbnail_of(v)),
        preview_url: or_empty(preview_url_of(v)),
        uploader: uploader_of(v),
        collection_id: None,
        collection_kind: None,
        collection_name: None,
        folder_slug: None,
    }
}

/// Reads what is shown of the medium at `media_source_url` out of its
/// description: the title, or the address where there is none; thumbnail
/// and preview address, empty where there is none; and the uploader. A
/// single medium belongs to no collection.
pub fn extract_media_info_from_value(v: &serde_json::Value, media_source_url: &str) -> (r: Option<
    ExtractedMediaInfo,
>)
    ensures
        r matches Some(info) && info@ == media_info_of(*v, media_source_url@),
{
    let title = match get_text(v, "title") {
        Some(t) => String::from_str(t),
        None => String::from_str(media_source_url),
    };
    let thumbnail = match resolve_thumbnail(v) {
        Some(t) => t,
        None => String::new(),
    };
    let preview_url = match extract_preview_url(v) {
        Some(u) => u,
        None => String::new(),
    };
    let uploader = extract_uploader(v);
    Some(
        ExtractedMediaInfo {
            title,
            thumbnail,
            preview_url,
            uploader,
            collection_id: None,
            collection_kind: None,
            collection_name: None,
            folder_slug: None,
        },
    )
}

} // verus!

//! Names of folders for playlists and channels.

use crate::json::{
    as_items, as_text, error_text, get_member, get_text, items_of, member_of, member_text, parse,
    parsed, text_field,
};
use crate::text::{
    from_chars, matches_at, opt_text, starts_with_text, text_eq, to_chars, trim_bounds, trimmed,
};
use vstd::prelude::*;
use vstd::string::StringExecFns;

verus! {

/// The most entries that a playlist expands to.
pub const MAX_PLAYLIST_ITEMS: usize = 500;

/// Whether `c` may not stand in a file name on some system.
pub open spec fn is_reserved_char(c: char) -> bool {
    c == '/' || c == '\\' || c == ':' || c == '*' || c == '?' || c == '"' || c == '<' || c == '>'
        || c == '|'
}

/// `c`, or `_` in its place if it is reserved.
pub open spec fn safe_char(c: char) -> char {
    if is_reserved_char(c) {
        '_'
    } else {
        c
    }
}

/// `name` with `_` for each reserved character, without the white space
/// around it.
pub open spec fn sanitized(name: Seq<char>) -> Seq<char> {
    trimmed(Seq::new(name.len(), |i: int| safe_char(name[i])))
}

/// Makes a name fit for a folder on every system: each of `/ \ : * ? " < > |`
/// becomes `_`, and the white space around the name is dropped.
pub fn sanitize_folder_name(name: &str) -> (r: String)
    ensures
        r@ == sanitized(name@),
{
    let chars = to_chars(name);
    let mut safe: Vec<char> = Vec::new();
    let mut i: usize = 0;
    while i < chars.len()
        invariant
            i <= chars.len(),
            safe@.len() == i,
            forall|j: int| 0 <= j < i ==> safe@[j] == safe_char(chars@[j]),
        decreases chars.len() - i,
    {
        let c = chars[i];
        let s = if c == '/' || c == '\\' || c == ':' || c == '*' || c == '?' || c == '"' || c
            == '<' || c == '>' || c == '|' {
            '_'
        } else {
            c
        };
        safe.push(s);
        i = i + 1;
    }
    assert(safe@ =~= Seq::new(name@.len(), |i: int| safe_char(name@[i])));
    assert(safe@.subrange(0, safe@.len() as int) == safe@);
    let (a, b) = trim_bounds(&safe, 0, safe.len());
    from_chars(&safe, a, b)
}

/// One entry of a playlist.
#[derive(Debug)]
pub struct PlaylistItem {
    pub url: String,
    pub title: Option<String>,
}

/// The content of a playlist entry.
pub struct PlaylistItemView {
    pub url: Seq<char>,
    pub title: Option<Seq<char>>,
}

impl View for PlaylistItem {
    type V = PlaylistItemView;

    open spec fn view(&self) -> PlaylistItemView {
        PlaylistItemView { url: self.url@, title: opt_text(self.title) }
    }
}

/// What a playlist address expands to.
#[derive(Debug)]
pub struct PlaylistExpansion {
    /// The playlist's title, fit for a folder.
    pub playlist_name: Option<String>,
    /// The channel or uploader, fit for a folder.
    pub uploader: Option<String>,
    pub entries: Vec<PlaylistItem>,
    /// The collection's kind and name, such as `playlist:My Playlist`.
    pub collection_id: Option<String>,
    /// `playlist` or `channel`.
    pub collection_kind: Option<String>,
    pub collection_name: Option<String>,
    /// The name of the collection's folder.
    pub folder_slug: Option<String>,
}

/// The content of a playlist expansion.
pub struct PlaylistExpansionView {
    pub playlist_name: Option<Seq<char>>,
    pub uploader: Option<Seq<char>>,
    pub entries: Seq<PlaylistItemView>,
    pub collection_id: Option<Seq<char>>,
    pub collection_kind: Option<Seq<char>>,
    pub collection_name: Option<Seq<char>>,
    pub folder_slug: Option<Seq<char>>,
}

/// The contents of playlist entries.
pub open spec fn item_views(items: Seq<PlaylistItem>) -> Seq<PlaylistItemView> {
    Seq::new(items.len(), |i: int| items[i]@)
}

impl View for PlaylistExpansion {
    type V = PlaylistExpansionView;

    open spec fn view(&self) -> PlaylistExpansionView {
        PlaylistExpansionView {
            playlist_name: opt_text(self.playlist_name),
            uploader: opt_text(self.uploader),
            entries: item_views(self.entries@),
            collection_id: opt_text(self.collection_id),
            collection_kind: opt_text(self.collection_kind),
            collection_name: opt_text(self.collection_name),
            folder_slug: opt_text(self.folder_slug),
        }
    }
}

/// The text of the member `key` of `entry`, if it is a string that begins
/// with `http`.
pub open spec fn web_address(entry: serde_json::Value, key: Seq<char>) -> Option<Seq<char>> {
    match member_text(entry, key) {
        Some(u) => if starts_with_text(u, "http"@) {
            Some(u)
        } else {
            None
        },
        None => None,
    }
}

/// Whether the extractor of this name is one of YouTube's.
pub open spec fn is_youtube_extractor(name: Seq<char>) -> bool {
    name == "Youtube"@ || name == "YouTube"@ || name == "YoutubeTab"@ || name
        == "YoutubeSearchURL"@ || name == "YoutubePlaylist"@
}

/// Whether the extractor of this name is one of RedGifs'.
pub open spec fn is_redgifs_extractor(name: Seq<char>) -> bool {
    name == "RedGifs"@ || name == "RedGifsUser"@
}

/// The watch page of an entry that gives only its id, for the extractors
/// whose pages are known.
pub open spec fn watch_page(entry: serde_json::Value) -> Option<Seq<char>> {
    match member_text(entry, "id"@) {
        Some(id) => match member_text(entry, "extractor"@) {
            Some(extractor) => if is_youtube_extractor(extractor) {
                Some("https://www.youtube.com/watch?v="@ + id)
            } else if is_redgifs_extractor(extractor) {
                Some("https://www.redgifs.com/watch/"@ + id)
            } else {
                None
            },
            None => None,
        },
        None => None,
    }
}

/// The address of a playlist entry: its member `webpage_url`, else `url`,
/// each only if it begins with `http`; else its watch page.
pub open spec fn entry_url(entry: serde_json::Value) -> Option<Seq<char>> {
    if web_address(entry, "webpage_url"@) is Some {
        web_address(entry, "webpage_url"@)
    } else if web_address(entry, "url"@) is Some {
        web_address(entry, "url"@)
    } else {
        watch_page(entry)
    }
}

/// What a playlist entry comes to; nothing if it has no address.
pub open spec fn entry_of(entry: serde_json::Value) -> Option<PlaylistItemView> {
    match entry_url(entry) {
        Some(url) => Some(PlaylistItemView { url, title: text_field(entry, "title"@) }),
        None => None,
    }
}

/// Whether one of `items` has the address `url`.
pub open spec fn has_url(items: Seq<PlaylistItemView>, url: Seq<char>) -> bool {
    exists|i: int| 0 <= i < items.len() && (#[trigger] items[i]).url == url
}

/// The entries collected so far, and then those of `entries` in order:
/// each that has an address not yet collected is added, until
/// `MAX_PLAYLIST_ITEMS` are collected.
pub open spec fn collected(entries: Seq<serde_json::Value>, so_far: Seq<PlaylistItemView>) -> Seq<
    PlaylistItemView,
>
    decreases entries.len(),
{
    if entries.len() == 0 || so_far.len() >= MAX_PLAYLIST_ITEMS {
        so_far
    } else {
        let rest = entries.drop_first();
        match entry_of(entries[0]) {
            Some(item) => if has_url(so_far, item.url) {
                collected(rest, so_far)
            } else {
                collected(rest, so_far.push(item))
            },
            None => collected(rest, so_far),
        }
    }
}

/// The title of a playlist, fit for a folder: taken from the member
/// `title`, or from `playlist_title` if there is no `title`.
pub open spec fn playlist_name_of(v: serde_json::Value) -> Option<Seq<char>> {
    let member = if member_of(v, "title"@) is Some {
        member_of(v, "title"@)
    } else {
        member_of(v, "playlist_title"@)
    };
    match crate::media_info::filled_text(member) {
        Some(name) => Some(sanitized(name)),
        None => None,
    }
}

/// The entries of a playlist description, if it has any.
pub open spec fn listed_entries(v: serde_json::Value) -> Option<Seq<serde_json::Value>> {
    match member_of(v, "entries"@) {
        Some(list) => items_of(list),
        None => None,
    }
}

/// The collection's kind: `playlist` where there is a title, else
/// `channel` where there is an uploader.
pub open spec fn collection_kind_of(v: serde_json::Value) -> Option<Seq<char>> {
    if playlist_name_of(v) is Some {
        Some("playlist"@)
    } else if crate::media_info::uploader_of(v) is Some {
        Some("channel"@)
    } else {
        None
    }
}

/// The collection's name: the title, else the uploader.
pub open spec fn collection_name_of(v: serde_json::Value) -> Option<Seq<char>> {
    if playlist_name_of(v) is Some {
        playlist_name_of(v)
    } else {
        crate::media_info::uploader_of(v)
    }
}

/// What the playlist description `v` expands to. Without a list of
/// entries it is no collection.
pub open spec fn expansion_of(v: serde_json::Value) -> PlaylistExpansionView {
    match listed_entries(v) {
        Some(entries) => PlaylistExpansionView {
            playlist_name: playlist_name_of(v),
            uploader: crate::media_info::uploader_of(v),
            entries: collected(entries, Seq::empty()),
            collection_id: match collection_kind_of(v) {
                Some(kind) => Some(kind + ":"@ + collection_name_of(v)->0),
                None => None,
            },
            collection_kind: collection_kind_of(v),
            collection_name: collection_name_of(v),
            folder_slug: collection_name_of(v),
        },
        None => PlaylistExpansionView {
            playlist_name: playlist_name_of(v),
            uploader: crate::media_info::uploader_of(v),
            entries: Seq::empty(),
            collection_id: None,
            collection_kind: None,
            collection_name: None,
            folder_slug: None,
        },
    }
}

fn web_address_in<'a>(entry: &'a serde_json::Value, key: &str) -> (r: Option<&'a str>)
    ensures
        match r {
            Some(u) => web_address(*entry, key@) == Some(u@),
            None => web_address(*entry, key@) is None,
        },
{
    let text = match get_member(entry, key) {
        Some(m) => as_text(m),
        None => None,
    };
    match text {
        Some(u) => {
            let chars = to_chars(u);
            let http = to_chars("http");
            if matches_at(&chars, &http, 0) {
                Some(u)
            } else {
                None
            }
        },
        None => None,
    }
}

fn watch_page_of(entry: &serde_json::Value) -> (r: Option<String>)
    ensures
        opt_text(r) == watch_page(*entry),
{
    let id = match get_member(entry, "id") {
        Some(m) => as_text(m),
        None => None,
    };
    let extractor = match get_member(entry, "extractor") {
        Some(m) => as_text(m),
        None => None,
    };
    match id {
        Some(id) => match extractor {
            Some(e) => {
                if text_eq(e, "Youtube") || text_eq(e, "YouTube") || text_eq(e, "YoutubeTab")
                    || text_eq(e, "YoutubeSearchURL") || text_eq(e, "YoutubePlaylist") {
                    let mut page = String::from_str("https://www.youtube.com/watch?v=");
                    page.append(id);
                    Some(page)
                } else if text_eq(e, "RedGifs") || text_eq(e, "RedGifsUser") {
                    let mut page = String::from_str("https://www.redgifs.com/watch/");
                    page.append(id);
                    Some(page)
                } else {
                    None
                }
            },
            None => None,
        },
        None => None,
    }
}

/// Reads one entry of a playlist description: its address and, if it has
/// one, its title. An entry without an address gives nothing.
pub fn normalize_playlist_entry(entry: &serde_json::Value) -> (r: Option<PlaylistItem>)
    ensures
        match r {
            Some(item) => entry_of(*entry) == Some(item@),
            None => entry_of(*entry) is None,
        },
{
    let url = match web_address_in(entry, "webpage_url") {
        Some(u) => Some(String::from_str(u)),
        None => match web_address_in(entry, "url") {
            Some(u) => Some(String::from_str(u)),
            None => watch_page_of(entry),
        },
    };
    match url {
        Some(url) => {
            let title = match get_text(entry, "title") {
                Some(t) => Some(String::from_str(t)),
                None => None,
            };
            Some(PlaylistItem { url, title })
        },
        None => None,
    }
}

fn holds_url(items: &Vec<PlaylistItem>, url: &str) -> (r: bool)
    ensures
        r == has_url(item_views(items@), url@),
{
    let mut i: usize = 0;
    while i < items.len()
        invariant
            i <= items.len(),
            forall|j: int| 0 <= j < i ==> (#[trigger] item_views(items@)[j]).url != url@,
        decreases items.len() - i,
    {
        if text_eq(items[i].url.as_str(), url) {
            assert(item_views(items@)[i as int].url == url@);
            return true;
        }
        i = i + 1;
    }
    false
}

fn collect_entries(entries: &Vec<serde_json::Value>) -> (items: Vec<PlaylistItem>)
    ensures
        item_views(items@) == collected(entries@, Seq::empty()),
{
    let mut items: Vec<PlaylistItem> = Vec::new();
    let mut i: usize = 0;
    assert(entries@.skip(0) == entries@);
    assert(item_views(items@) =~= Seq::empty());
    while i < entries.len() && items.len() < MAX_PLAYLIST_ITEMS
        invariant
            i <= entries.len(),
            collected(entries@, Seq::empty()) == collected(
                entries@.skip(i as int),
                item_views(items@),
            ),
        decreases entries.len() - i,
    {
        let ghost rest = entries@.skip(i as int);
        let ghost before = item_views(items@);
        assert(rest.drop_first() == entries@.skip(i + 1));
        match normalize_playlist_entry(&entries[i]) {
            Some(item) => {
                if !holds_url(&items, item.url.as_str()) {
                    items.push(item);
                    assert(item_views(items@) =~= before.push(item@));
                }
            },
            None => {},
        }
        i = i + 1;
    }
    items
}

/// Fills in a playlist expansion from a playlist description.
pub fn expand(v: &serde_json::Value) -> (r: PlaylistExpansion)
    ensures
        r@ == expansion_of(*v),
{
    let playlist_name = {
        let member = match get_member(v, "title") {
            Some(m) => Some(m),
            None => get_member(v, "playlist_title"),
        };
        let text = match member {
            Some(m) => match as_text(m) {
                Some(s) => if s.unicode_len() > 0 {
                    Some(s)
                } else {
                    None
                },
                None => None,
            },
            None => None,
        };
        match text {
            Some(name) => Some(sanitize_folder_name(name)),
            None => None,
        }
    };
    let uploader = crate::media_info::extract_uploader(v);
    let listed = match get_member(v, "entries") {
        Some(list) => as_items(list),
        None => None,
    };
    let entries = match listed {
        Some(entries) => entries,
        None => {
            let r = PlaylistExpansion {
                playlist_name,
                uploader,
                entries: Vec::new(),
                collection_id: None,
                collection_kind: None,
                collection_name: None,
                folder_slug: None,
            };
            assert(item_views(r.entries@) =~= Seq::empty());
            return r;
        },
    };
    let items = collect_entries(entries);
    let kind_and_name: Option<(&str, String)> = match &playlist_name {
        Some(name) => Some(("playlist", name.clone())),
        None => match &uploader {
            Some(name) => Some(("channel", name.clone())),
            None => None,
        },
    };
    match kind_and_name {
        Some((kind, name)) => {
            let mut id = String::from_str(kind);
            id.append(":");
            id.append(name.as_str());
            PlaylistExpansion {
                playlist_name,
                uploader,
                entries: items,
                collection_id: Some(id),
                collection_kind: Some(String::from_str(kind)),
                collection_name: Some(name.clone()),
                folder_slug: Some(name),
            }
        },
        None => PlaylistExpansion {
            playlist_name,
            uploader,
            entries: items,
            collection_id: None,
            collection_kind: None,
            collection_name: None,
            folder_slug: None,
        },
    }
}

/// Reads what a playlist address expands to out of the worker's JSON
/// description of it. Text that is no JSON is refused, with a message that
/// begins with `Failed to parse yt-dlp JSON: `.
pub fn parse_playlist_expansion(json_str: &str) -> (r: Result<PlaylistExpansion, String>)
    ensures
        match r {
            Ok(expansion) => parsed(json_str@) matches Some(v) && expansion@ == expansion_of(v),
            Err(message) => parsed(json_str@) is None && starts_with_text(
                message@,
                "Failed to parse yt-dlp JSON: "@,
            ),
        },
{
    match parse(json_str) {
        Ok(v) => Ok(expand(&v)),
        Err(e) => {
            let mut message = String::from_str("Failed to parse yt-dlp JSON: ");
            let ghost prefix = message@;
            let detail = error_text(&e);
            message.append(detail.as_str());
            assert(message@.subrange(0, prefix.len() as int) =~= prefix);
            Err(message)
        },
    }
}

} // verus!

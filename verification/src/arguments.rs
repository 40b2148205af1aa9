//! The arguments of a worker process: where its output goes, how files are
//! named, and what the settings of a download add.

use crate::settings::{DownloadSettings, SettingsView};
use crate::text::{from_chars, opt_text, string_push, text_eq, to_chars};
use vstd::prelude::*;
use vstd::string::StringExecFns;

verus! {

/// The start value of the FNV-1a hash of 64 bits.
pub const FNV_OFFSET: u64 = 0xcbf29ce484222325;

/// The prime of the FNV-1a hash of 64 bits.
pub const FNV_PRIME: u64 = 0x100000001b3;

/// The number of characters of a unique id.
pub const ID_LENGTH: usize = 8;

/// The FNV-1a hash of `bytes`: for each byte in turn, the hash is combined
/// with the byte by exclusive or and multiplied by the prime, modulo 2^64.
pub open spec fn fnv1a(bytes: Seq<u8>) -> u64
    decreases bytes.len(),
{
    if bytes.len() == 0 {
        FNV_OFFSET
    } else {
        (fnv1a(bytes.drop_last()) ^ (bytes.last() as u64)).wrapping_mul(FNV_PRIME)
    }
}

/// The digit `d` in base 36: `0` to `9`, then `a` to `z`.
pub open spec fn base36_char(d: nat) -> char
    recommends
        d < 36,
{
    if d < 10 {
        (48 + d) as u8 as char
    } else {
        (87 + d) as u8 as char
    }
}

/// The `count` lowest digits of `value` in base 36, lowest first.
pub open spec fn base36_digits(value: nat, count: nat) -> Seq<char>
    decreases count,
{
    if count == 0 {
        Seq::empty()
    } else {
        seq![base36_char(value % 36)] + base36_digits(value / 36, (count - 1) as nat)
    }
}

/// The unique id of a URL: the eight lowest digits in base 36, lowest
/// first, of the FNV-1a hash of its bytes.
pub open spec fn unique_id_of(url: Seq<char>) -> Seq<char> {
    base36_digits(fnv1a(vstd::utf8::encode_utf8(url)) as nat, ID_LENGTH as nat)
}

/// A short id that is the same for the same URL every time: eight
/// characters out of `0` to `9` and `a` to `z`.
pub fn generate_unique_id(url: &str) -> (id: String)
    ensures
        id@ == unique_id_of(url@),
        id@.len() == ID_LENGTH,
        forall|i: int|
            0 <= i < id@.len() ==> ('0' <= #[trigger] id@[i] <= '9') || ('a' <= id@[i] <= 'z'),
{
    let bytes = url.as_bytes();
    let mut hash: u64 = FNV_OFFSET;
    let mut i: usize = 0;
    while i < bytes.len()
        invariant
            i <= bytes.len(),
            hash == fnv1a(bytes@.take(i as int)),
        decreases bytes.len() - i,
    {
        assert(bytes@.take(i + 1).drop_last() == bytes@.take(i as int));
        hash = (hash ^ (bytes[i] as u64)).wrapping_mul(FNV_PRIME);
        i = i + 1;
    }
    assert(bytes@.take(bytes@.len() as int) == bytes@);

    let mut id = String::new();
    let mut value: u64 = hash;
    let mut k: usize = 0;
    while k < ID_LENGTH
        invariant
            k <= ID_LENGTH,
            id@.len() == k,
            id@ + base36_digits(value as nat, (ID_LENGTH - k) as nat) == base36_digits(
                hash as nat,
                ID_LENGTH as nat,
            ),
            forall|j: int|
                0 <= j < id@.len() ==> ('0' <= #[trigger] id@[j] <= '9') || ('a' <= id@[j]
                    <= 'z'),
        decreases ID_LENGTH - k,
    {
        let d: u8 = (value % 36) as u8;
        let c: char = if d < 10 {
            (48 + d) as char
        } else {
            (87 + d) as char
        };
        string_push(&mut id, c);
        value = value / 36;
        k = k + 1;
    }
    id
}

/// The texts that the strings of `v` hold.
pub open spec fn texts(v: Seq<String>) -> Seq<Seq<char>> {
    Seq::new(v.len(), |i: int| v[i]@)
}

fn push_text(args: &mut Vec<String>, text: &str)
    ensures
        texts(final(args)@) == texts(old(args)@).push(text@),
{
    args.push(String::from_str(text));
}

fn push_all(args: &mut Vec<String>, more: Vec<String>)
    ensures
        texts(final(args)@) == texts(old(args)@) + texts(more@),
{
    let mut more = more;
    args.append(&mut more);
}

/// `s` without the `p`s at its end.
pub open spec fn without_trailing_p(s: Seq<char>) -> Seq<char>
    decreases s.len(),
{
    if s.len() > 0 && s.last() == 'p' {
        without_trailing_p(s.drop_last())
    } else {
        s
    }
}

/// The worker's format selector for videos no higher than `resolution`.
pub open spec fn format_selector(resolution: Seq<char>) -> Seq<char> {
    if resolution == "no-limit"@ {
        "bestvideo+bestaudio/best"@
    } else {
        let height = without_trailing_p(resolution);
        "bestvideo[height<="@ + height + "]+bestaudio/best[height<="@ + height + "]"@
    }
}

/// The arguments that select what is downloaded and in which container.
pub open spec fn format_args(s: SettingsView) -> Seq<Seq<char>> {
    if s.download_mode == "audio"@ {
        seq!["-f"@, "bestaudio"@, "--extract-audio"@] + (if s.audio_format != "best"@ {
            seq!["--audio-format"@, s.audio_format]
        } else {
            Seq::empty()
        }) + seq!["--audio-quality"@, s.audio_quality]
    } else {
        seq!["-f"@, format_selector(s.max_resolution)] + (if s.video_format != "best"@ {
            seq![
                "--merge-output-format"@,
                s.video_format,
                "--remux-video"@,
                s.video_format,
            ]
        } else {
            Seq::empty()
        })
    }
}

/// The arguments that limit the rate of a download and the size of a file.
pub open spec fn rate_and_size_args(s: SettingsView) -> Seq<Seq<char>> {
    (if s.download_rate_limit != "unlimited"@ {
        seq!["--limit-rate"@, s.download_rate_limit]
    } else {
        Seq::empty()
    }) + (if s.max_file_size != "unlimited"@ {
        seq!["--max-filesize"@, s.max_file_size]
    } else {
        Seq::empty()
    })
}

fn selector(resolution: &str) -> (s: String)
    ensures
        s@ == format_selector(resolution@),
{
    if text_eq(resolution, "no-limit") {
        return String::from_str("bestvideo+bestaudio/best");
    }
    let chars = to_chars(resolution);
    let mut end: usize = chars.len();
    assert(chars@.take(end as int) == chars@);
    while end > 0 && chars[end - 1] == 'p'
        invariant
            end <= chars.len(),
            without_trailing_p(chars@) == without_trailing_p(chars@.take(end as int)),
        decreases end,
    {
        assert(chars@.take(end as int).drop_last() == chars@.take(end - 1));
        end = end - 1;
    }
    let height = from_chars(&chars, 0, end);
    let mut s = String::from_str("bestvideo[height<=");
    s.append(height.as_str());
    s.append("]+bestaudio/best[height<=");
    s.append(height.as_str());
    s.append("]");
    s
}

/// The worker arguments that select what is downloaded: in audio mode the
/// best audio, extracted, in the wanted format and quality; else the best
/// video up to the wanted height, put into the wanted container.
pub fn build_format_args(settings: &DownloadSettings) -> (args: Vec<String>)
    ensures
        texts(args@) == format_args(settings@),
{
    let mut args: Vec<String> = Vec::new();
    if text_eq(settings.download_mode.as_str(), "audio") {
        push_text(&mut args, "-f");
        push_text(&mut args, "bestaudio");
        push_text(&mut args, "--extract-audio");
        if !text_eq(settings.audio_format.as_str(), "best") {
            push_text(&mut args, "--audio-format");
            push_text(&mut args, settings.audio_format.as_str());
        }
        push_text(&mut args, "--audio-quality");
        push_text(&mut args, settings.audio_quality.as_str());
    } else {
        let format = selector(settings.max_resolution.as_str());
        push_text(&mut args, "-f");
        push_text(&mut args, format.as_str());
        if !text_eq(settings.video_format.as_str(), "best") {
            push_text(&mut args, "--merge-output-format");
            push_text(&mut args, settings.video_format.as_str());
            push_text(&mut args, "--remux-video");
            push_text(&mut args, settings.video_format.as_str());
        }
    }
    args
}

/// The worker arguments that limit the rate of a download and the size of
/// a file, for each limit that is not `unlimited`.
pub fn build_rate_and_size_args(settings: &DownloadSettings) -> (args: Vec<String>)
    ensures
        texts(args@) == rate_and_size_args(settings@),
{
    let mut args: Vec<String> = Vec::new();
    if !text_eq(settings.download_rate_limit.as_str(), "unlimited") {
        push_text(&mut args, "--limit-rate");
        push_text(&mut args, settings.download_rate_limit.as_str());
    }
    if !text_eq(settings.max_file_size.as_str(), "unlimited") {
        push_text(&mut args, "--max-filesize");
        push_text(&mut args, settings.max_file_size.as_str());
    }
    args
}

/// The folder below the output location that a download asks for, if it
/// asks for one: the location, the separator, the subfolder.
pub open spec fn subfolder_path_of(
    output_location: Seq<char>,
    subfolder: Option<Seq<char>>,
    separator: char,
) -> Option<Seq<char>> {
    match subfolder {
        Some(folder) => if folder.len() > 0 {
            Some(output_location.push(separator) + folder)
        } else {
            None
        },
        None => None,
    }
}

/// The folder below the output location that the caller is to create
/// before the worker starts, if the download asks for one.
pub fn subfolder_path(output_location: &str, subfolder: &Option<String>, separator: char) -> (path:
    Option<String>)
    ensures
        opt_text(path) == subfolder_path_of(output_location@, opt_text(*subfolder), separator),
{
    match subfolder {
        Some(folder) => {
            if folder.as_str().unicode_len() == 0 {
                None
            } else {
                let mut path = String::from_str(output_location);
                string_push(&mut path, separator);
                path.append(folder.as_str());
                Some(path)
            }
        },
        None => None,
    }
}

/// The directory that the worker writes to: the subfolder where one was
/// asked for and could be created, else the output location itself.
pub fn resolve_output_dir(output_location: &str, subfolder: Option<String>, created: bool) -> (dir:
    String)
    ensures
        dir@ == match opt_text(subfolder) {
            Some(path) => if created {
                path
            } else {
                output_location@
            },
            None => output_location@,
        },
{
    match subfolder {
        Some(path) => if created {
            path
        } else {
            String::from_str(output_location)
        },
        None => String::from_str(output_location),
    }
}

/// The pattern of the file names in `output_dir`.
pub open spec fn output_template_of(
    output_dir: Seq<char>,
    separator: char,
    s: SettingsView,
    url: Seq<char>,
) -> Seq<char> {
    let base = output_dir.push(separator);
    if s.append_unique_id {
        if s.unique_id_type == "hash"@ {
            base + "%(title)s ["@ + unique_id_of(url) + "].%(ext)s"@
        } else {
            base + "%(title)s [%(id)s].%(ext)s"@
        }
    } else {
        base + "%(title)s.%(ext)s"@
    }
}

/// The pattern by which the worker names its files: the title, then, if
/// the settings ask for a unique id, the hash of the URL or the worker's own
/// id in brackets, then the extension.
pub fn output_template(output_dir: &str, separator: char, settings: &DownloadSettings, url: &str) -> (t:
    String)
    ensures
        t@ == output_template_of(output_dir@, separator, settings@, url@),
{
    let mut t = String::from_str(output_dir);
    string_push(&mut t, separator);
    if settings.append_unique_id {
        if text_eq(settings.unique_id_type.as_str(), "hash") {
            let id = generate_unique_id(url);
            t.append("%(title)s [");
            t.append(id.as_str());
            t.append("].%(ext)s");
        } else {
            t.append("%(title)s [%(id)s].%(ext)s");
        }
    } else {
        t.append("%(title)s.%(ext)s");
    }
    t
}

/// The arguments of a download worker, in order.
pub open spec fn download_args(url: Seq<char>, template: Seq<char>, s: SettingsView) -> Seq<
    Seq<char>,
> {
    seq![
        url,
        "--progress-template"@,
        "download:remedia-%(progress._percent_str)s-%(progress.eta)s"@,
        "--newline"@,
        "--continue"@,
        "--no-overwrites"@,
        "--output"@,
        template,
        "--embed-thumbnail"@,
        "--embed-subs"@,
        "--embed-metadata"@,
        "--embed-chapters"@,
        "--windows-filenames"@,
    ] + rate_and_size_args(s) + format_args(s)
}

/// The arguments of the worker that downloads `url` into files named by
/// `template`: the URL, the progress template that the monitor reads, the
/// fixed options, then the limits and the format that the settings ask for.
pub fn build_download_args(url: &str, template: &str, settings: &DownloadSettings) -> (args: Vec<
    String,
>)
    ensures
        texts(args@) == download_args(url@, template@, settings@),
{
    let mut args: Vec<String> = Vec::new();
    push_text(&mut args, url);
    push_text(&mut args, "--progress-template");
    push_text(&mut args, "download:remedia-%(progress._percent_str)s-%(progress.eta)s");
    push_text(&mut args, "--newline");
    push_text(&mut args, "--continue");
    push_text(&mut args, "--no-overwrites");
    push_text(&mut args, "--output");
    push_text(&mut args, template);
    push_text(&mut args, "--embed-thumbnail");
    push_text(&mut args, "--embed-subs");
    push_text(&mut args, "--embed-metadata");
    push_text(&mut args, "--embed-chapters");
    push_text(&mut args, "--windows-filenames");
    push_all(&mut args, build_rate_and_size_args(settings));
    push_all(&mut args, build_format_args(settings));
    args
}

} // verus!

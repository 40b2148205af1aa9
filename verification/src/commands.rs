//! What the user interface may ask of the download system: to enqueue a
//! download, to cancel one or all, to change the concurrency limit, and to
//! report the queue's status.

use crate::cancellation::{all_requested, CancellationRegistry};
use crate::download_queue::{
    DownloadQueue, DownloadStatus, JobView, QueueStatus, QueuedDownload,
};
use crate::text::opt_text;
use crate::error::{DownloaderError, ValidationKind};
use crate::settings::{
    location_fault, settings_fault, url_fault, validate_output_location, validate_settings,
    validate_url, validation_error, DownloadSettings, SettingsView,
};
use vstd::prelude::*;
use vstd::string::StringExecFns;

verus! {

/// The message of the validation error of kind `kind` that says `message`.
pub open spec fn validation_text(kind: ValidationKind, message: Seq<char>) -> Seq<char> {
    validation_error(kind, message).display_text()
}

/// Why a download request is refused, if it is; the first of: its URL, its
/// output location, its settings, its index.
pub open spec fn request_fault(
    media_idx: i32,
    url: Seq<char>,
    output_location: Seq<char>,
    settings: SettingsView,
) -> Option<Seq<char>> {
    if url_fault(url) is Some {
        Some("URL validation failed: "@ + validation_text(ValidationKind::InvalidUrl, url_fault(url)->0))
    } else if location_fault(output_location) is Some {
        Some(
            "Output location invalid: "@ + validation_text(
                ValidationKind::InvalidPath,
                location_fault(output_location)->0,
            ),
        )
    } else if settings_fault(settings) is Some {
        Some(
            "Settings validation failed: "@ + validation_text(
                ValidationKind::InvalidSettings,
                settings_fault(settings)->0,
            ),
        )
    } else if media_idx < 0 {
        Some("Invalid media index"@)
    } else {
        None
    }
}

fn refusal(prefix: &str, e: &DownloaderError) -> (reason: String)
    ensures
        reason@ == prefix@ + e@.display_text(),
{
    let mut reason = String::from_str(prefix);
    let text = e.to_string();
    reason.append(text.as_str());
    reason
}

/// Checks a download request; a refusal comes with its reason.
pub fn check_download_request(
    media_idx: i32,
    url: &str,
    output_location: &str,
    settings: &DownloadSettings,
) -> (r: Result<(), String>)
    ensures
        match r {
            Ok(_) => request_fault(media_idx, url@, output_location@, settings@) is None,
            Err(reason) => request_fault(media_idx, url@, output_location@, settings@) == Some(
                reason@,
            ),
        },
{
    match validate_url(url) {
        Err(e) => {
            return Err(refusal("URL validation failed: ", &e));
        },
        Ok(_) => {},
    }
    match validate_output_location(output_location) {
        Err(e) => {
            return Err(refusal("Output location invalid: ", &e));
        },
        Ok(_) => {},
    }
    match validate_settings(settings) {
        Err(e) => {
            return Err(refusal("Settings validation failed: ", &e));
        },
        Ok(_) => {},
    }
    if media_idx < 0 {
        return Err(String::from_str("Invalid media index"));
    }
    Ok(())
}

/// The job that a request with these values enqueues.
pub open spec fn requested_job(
    media_idx: i32,
    url: Seq<char>,
    output_location: Seq<char>,
    subfolder: Option<Seq<char>>,
    settings_json: Seq<char>,
) -> JobView {
    JobView {
        media_idx,
        url,
        output_location,
        settings: settings_json,
        subfolder,
        status: DownloadStatus::Queued,
    }
}

/// Takes a download request: a request that passes the checks is enqueued,
/// with its settings in serialized form, and the caller then announces it
/// and wakes the pump; a refused request leaves the queue as it is.
pub fn download_media(
    queue: &mut DownloadQueue,
    media_idx: i32,
    url: String,
    output_location: String,
    subfolder: Option<String>,
    settings: &DownloadSettings,
    settings_json: String,
) -> (r: Result<(), String>)
    requires
        old(queue).wf(),
    ensures
        final(queue).wf(),
        match r {
            Ok(_) => request_fault(media_idx, url@, output_location@, settings@) is None
                && final(queue)@ == old(queue)@.enqueue(
                requested_job(
                    media_idx,
                    url@,
                    output_location@,
                    opt_text(subfolder),
                    settings_json@,
                ),
            ),
            Err(reason) => request_fault(media_idx, url@, output_location@, settings@) == Some(
                reason@,
            ) && final(queue)@ == old(queue)@,
        },
        old(queue)@.within_capacity() ==> final(queue)@.within_capacity(),
{
    match check_download_request(media_idx, url.as_str(), output_location.as_str(), settings) {
        Err(reason) => {
            return Err(reason);
        },
        Ok(_) => {},
    }
    let download = QueuedDownload {
        media_idx,
        url,
        output_location,
        settings: settings_json,
        subfolder,
        status: DownloadStatus::Queued,
    };
    queue.enqueue(download)
}

/// Why a request for media information is refused, if it is.
pub open spec fn info_request_fault(media_idx: i32, url: Seq<char>) -> Option<Seq<char>> {
    if url_fault(url) is Some {
        Some(validation_text(ValidationKind::InvalidUrl, url_fault(url)->0))
    } else if media_idx < 0 {
        Some("Media index must be non-negative"@)
    } else {
        None
    }
}

/// Checks a request for media information; a refusal comes with its reason.
pub fn check_media_info_request(media_idx: i32, url: &str) -> (r: Result<(), String>)
    ensures
        match r {
            Ok(_) => info_request_fault(media_idx, url@) is None,
            Err(reason) => info_request_fault(media_idx, url@) == Some(reason@),
        },
{
    match validate_url(url) {
        Err(e) => {
            return Err(e.to_string());
        },
        Ok(_) => {},
    }
    if media_idx < 0 {
        return Err(String::from_str("Media index must be non-negative"));
    }
    Ok(())
}

/// Requests cancellation of the running job `media_idx`. Says whether a
/// monitor is at work on it; the monitor ends the job at its next poll.
pub fn cancel_download(registry: &mut CancellationRegistry, media_idx: i32) -> (found: bool)
    ensures
        found == old(registry)@.contains_key(media_idx),
        found ==> final(registry)@ == old(registry)@.insert(media_idx, true),
        !found ==> final(registry)@ == old(registry)@,
{
    registry.request_cancel(media_idx)
}

/// Cancels everything: the queue is emptied and every flag is set. Returns
/// the ids whose cancellation the caller announces at once, each once: those
/// that no monitor is at work on. A job with a monitor is announced by it,
/// when it sees its flag.
pub fn cancel_all_downloads(queue: &mut DownloadQueue, registry: &mut CancellationRegistry) -> (announce:
    Vec<i32>)
    requires
        old(queue).wf(),
    ensures
        final(queue).wf(),
        final(queue)@ == old(queue)@.cancel_all(),
        final(registry)@ == all_requested(old(registry)@),
        forall|id: i32|
            announce@.contains(id) <==> old(queue)@.tracks(id) && !old(registry)@.contains_key(id),
        announce@.no_duplicates(),
{
    let cancelled = queue.cancel_all();
    registry.request_cancel_all();
    let mut announce: Vec<i32> = Vec::new();
    let mut i: usize = 0;
    while i < cancelled.len()
        invariant
            i <= cancelled.len(),
            registry@ == all_requested(old(registry)@),
            cancelled@.no_duplicates(),
            forall|id: i32|
                announce@.contains(id) <==> cancelled@.take(i as int).contains(id)
                    && !old(registry)@.contains_key(id),
            announce@.no_duplicates(),
        decreases cancelled.len() - i,
    {
        let id = cancelled[i];
        let ghost before = announce@;
        let ghost seen_next = cancelled@.take(i + 1);
        if !registry.is_registered(id) {
            announce.push(id);
            assert(announce@.last() == id);
        }
        proof {
            assert forall|x: i32|
                announce@.contains(x) <==> seen_next.contains(x) && !old(registry)@.contains_key(
                    x,
                ) by {
                assert(seen_next[i as int] == id);
                if before.contains(x) {
                    let j = choose|j: int| 0 <= j < before.len() && before[j] == x;
                    assert(announce@[j] == x);
                }
            }
            assert(announce@.no_duplicates()) by {
                assert(!before.contains(id));
            }
        }
        i = i + 1;
    }
    assert(cancelled@.take(cancelled@.len() as int) == cancelled@);
    announce
}

/// Sets the concurrency limit. A limit of 0 is refused and changes
/// nothing; after any other the caller wakes the pump, so that room gained
/// is used at once.
pub fn set_max_concurrent_downloads(queue: &mut DownloadQueue, max_concurrent: usize) -> (r: Result<
    (),
    String,
>)
    requires
        old(queue).wf(),
    ensures
        final(queue).wf(),
        match r {
            Ok(_) => max_concurrent >= 1 && final(queue)@ == old(queue)@.set_max_concurrent(
                max_concurrent as nat,
            ),
            Err(reason) => max_concurrent == 0 && final(queue)@ == old(queue)@ && reason@
                == "Max concurrent downloads must be at least 1"@,
        },
{
    if max_concurrent == 0 {
        return Err(String::from_str("Max concurrent downloads must be at least 1"));
    }
    queue.set_max_concurrent(max_concurrent);
    Ok(())
}

/// The counts of pending and running jobs, and the limit.
pub fn get_queue_status(queue: &DownloadQueue) -> (s: QueueStatus)
    requires
        queue.wf(),
    ensures
        s.queued == queue@.pending.len(),
        s.active == queue@.running.len(),
        s.max_concurrent == queue@.max_concurrent,
        s.max_concurrent >= 1,
{
    queue.status()
}

} // verus!

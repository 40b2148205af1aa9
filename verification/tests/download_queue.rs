use remedia::download_queue::{DownloadQueue, DownloadStatus, QueuedDownload};

fn create_test_download(idx: i32) -> QueuedDownload {
    QueuedDownload {
        media_idx: idx,
        url: format!("https://example.com/{}", idx),
        output_location: "/tmp".to_string(),
        settings: "{}".to_string(),
        subfolder: None,
        status: DownloadStatus::Queued,
    }
}

#[test]
fn test_enqueue_and_dequeue() {
    let mut queue = DownloadQueue::new(2);

    let download1 = create_test_download(1);
    let download2 = create_test_download(2);

    assert!(queue.enqueue(download1.clone()).is_ok());
    assert!(queue.enqueue(download2.clone()).is_ok());
    assert_eq!(queue.queue_size(), 2);

    let next = queue.next_to_start();
    assert!(next.is_some());
    assert_eq!(next.unwrap().media_idx, 1);
    assert_eq!(queue.active_count(), 1);
    assert_eq!(queue.queue_size(), 1);
}

#[test]
fn test_max_concurrent_limit() {
    let mut queue = DownloadQueue::new(2);

    // Add 3 downloads
    queue.enqueue(create_test_download(1)).unwrap();
    queue.enqueue(create_test_download(2)).unwrap();
    queue.enqueue(create_test_download(3)).unwrap();

    // Start first two
    assert!(queue.next_to_start().is_some());
    assert!(queue.next_to_start().is_some());
    assert_eq!(queue.active_count(), 2);

    // Third should not start (max concurrent reached)
    assert!(queue.next_to_start().is_none());
    assert_eq!(queue.queue_size(), 1);
}

#[test]
fn test_complete_and_start_next() {
    let mut queue = DownloadQueue::new(2);

    queue.enqueue(create_test_download(1)).unwrap();
    queue.enqueue(create_test_download(2)).unwrap();
    queue.enqueue(create_test_download(3)).unwrap();

    // Start first two
    queue.next_to_start();
    queue.next_to_start();

    // Complete first download
    queue.complete(1);
    assert_eq!(queue.active_count(), 1);

    // Now third can start
    let next = queue.next_to_start();
    assert!(next.is_some());
    assert_eq!(next.unwrap().media_idx, 3);
    assert_eq!(queue.active_count(), 2);
}

#[test]
fn test_cancel_queued() {
    let mut queue = DownloadQueue::new(1);

    queue.enqueue(create_test_download(1)).unwrap();
    queue.enqueue(create_test_download(2)).unwrap();

    assert!(queue.cancel(2));
    assert_eq!(queue.queue_size(), 1);
}

#[test]
fn test_cancel_active() {
    let mut queue = DownloadQueue::new(2);

    queue.enqueue(create_test_download(1)).unwrap();
    queue.next_to_start();

    assert!(queue.cancel(1));
    assert_eq!(queue.active_count(), 0);
}

#[test]
fn test_cancel_all() {
    let mut queue = DownloadQueue::new(2);

    queue.enqueue(create_test_download(1)).unwrap();
    queue.enqueue(create_test_download(2)).unwrap();
    queue.enqueue(create_test_download(3)).unwrap();
    queue.next_to_start();
    queue.next_to_start();

    let cancelled = queue.cancel_all();
    assert_eq!(cancelled.len(), 3);
    assert_eq!(queue.queue_size(), 0);
    assert_eq!(queue.active_count(), 0);
}

#[test]
fn test_duplicate_prevention() {
    let mut queue = DownloadQueue::new(2);

    let download = create_test_download(1);
    assert!(queue.enqueue(download.clone()).is_ok());
    // Idempotent: second enqueue for same media idx is a no-op
    assert!(queue.enqueue(download).is_ok());
}

#[test]
fn test_status() {
    let mut queue = DownloadQueue::new(2);

    queue.enqueue(create_test_download(1)).unwrap();
    queue.enqueue(create_test_download(2)).unwrap();
    queue.enqueue(create_test_download(3)).unwrap();
    queue.next_to_start();

    let status = queue.status();
    assert_eq!(status.queued, 2);
    assert_eq!(status.active, 1);
    assert_eq!(status.max_concurrent, 2);
}

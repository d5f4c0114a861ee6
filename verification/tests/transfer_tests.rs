use remote_session::transfer::{
    concat_chunks, split_into_chunks, Download, ProgressTracker, Upload, CHUNK_SIZE,
};
use remote_session::errors::SshError;

fn bytes(n: usize) -> Vec<u8> {
    (0..n).map(|i| (i % 251) as u8).collect()
}

fn round_trip(n: usize, chunk: usize) {
    let data = bytes(n);
    let chunks = split_into_chunks(&data, chunk);
    assert_eq!(concat_chunks(&chunks), data);
    for (i, c) in chunks.iter().enumerate() {
        if i + 1 < chunks.len() {
            assert_eq!(c.len(), chunk);
        } else {
            assert!(c.len() <= chunk);
        }
    }
}

#[test]
fn chunking_round_trips_at_boundaries() {
    // exact multiple, one less, one more — content identical either way
    round_trip(CHUNK_SIZE, CHUNK_SIZE);
    round_trip(CHUNK_SIZE - 1, CHUNK_SIZE);
    round_trip(CHUNK_SIZE + 1, CHUNK_SIZE);
    round_trip(2 * CHUNK_SIZE, CHUNK_SIZE);
    round_trip(0, CHUNK_SIZE);
    round_trip(7, 3);
    round_trip(9, 3);
    round_trip(1, 1);
}

#[test]
fn empty_content_gives_one_empty_chunk() {
    let chunks = split_into_chunks(&Vec::new(), CHUNK_SIZE);
    assert_eq!(chunks.len(), 1);
    assert!(chunks[0].is_empty());
}

#[test]
fn progress_emits_only_on_change() {
    let mut t = ProgressTracker::new(200);
    assert_eq!(t.record(1), None); // still 0 percent
    assert_eq!(t.record(99), Some(50));
    assert_eq!(t.record(0), None); // unchanged
    assert_eq!(t.record(2), Some(51));
    assert_eq!(t.record(98), Some(100));
}

#[test]
fn progress_is_strictly_increasing() {
    let mut t = ProgressTracker::new(1000);
    let mut reported: Vec<u8> = Vec::new();
    for _ in 0..100 {
        if let Some(p) = t.record(10) {
            reported.push(p);
        }
    }
    for w in reported.windows(2) {
        assert!(w[0] < w[1]);
    }
    assert_eq!(*reported.last().unwrap(), 100);
}

#[test]
fn progress_with_zero_total_stays_silent() {
    let mut t = ProgressTracker::new(0);
    assert_eq!(t.record(0), None);
    assert_eq!(t.record(0), None);
}

#[test]
fn download_accounts_chunks_until_eof() {
    let data = bytes(10);
    let mut d = Download::new(10);
    let first: Vec<u8> = data[..4].to_vec();
    let second: Vec<u8> = data[4..].to_vec();
    assert_eq!(d.on_data(&first), Some(40));
    assert_eq!(d.on_data(&second), Some(100));
    assert_eq!(d.on_eof(), Ok(()));
}

#[test]
fn download_error_is_transfer_io() {
    let mut d = Download::new(100);
    assert_eq!(d.on_error(), SshError::TransferIo);
}

#[test]
fn upload_finishes_on_short_write() {
    let total = (CHUNK_SIZE + 5) as u64;
    let mut u = Upload::new(total);
    let full = vec![7u8; CHUNK_SIZE];
    let short = vec![7u8; 5];
    let p1 = u.on_chunk(&full);
    assert!(p1.is_some()); // a whole chunk moves the percentage
    let p2 = u.on_chunk(&short);
    assert_eq!(p2, Some(100));
}

#[test]
fn upload_error_is_transfer_io() {
    let mut u = Upload::new(10);
    assert_eq!(u.on_error(), SshError::TransferIo);
}

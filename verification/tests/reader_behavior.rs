use wheel_scanner::reader::{RangedReader, ReadPlan, ReaderConfig};
use wheel_scanner::seek::{SeekError, SeekTarget};

/// An in-memory remote object that records every range fetch and can be
/// told to fail the next one.
struct FakeRemote {
    data: Vec<u8>,
    fetches: Vec<(u64, u64)>,
    fail_next: bool,
}

impl FakeRemote {
    fn new(total: usize) -> FakeRemote {
        let data: Vec<u8> = (0..total).map(|i| (i % 251) as u8).collect();
        FakeRemote { data, fetches: Vec::new(), fail_next: false }
    }

    fn fetch(&mut self, start: u64, end: u64) -> Result<Vec<u8>, String> {
        if self.fail_next {
            self.fail_next = false;
            return Err(String::from("range fetch failed: HTTP 403"));
        }
        self.fetches.push((start, end));
        let s = start as usize;
        let e = (end as usize).min(self.data.len());
        Ok(self.data[s..e].to_vec())
    }
}

/// One `read` call: plan, fetch when the plan names a range, serve.
fn drive_read(
    reader: &mut RangedReader,
    remote: &mut FakeRemote,
    buf_len: usize,
) -> Result<Vec<u8>, String> {
    loop {
        match reader.plan_read() {
            ReadPlan::Eof => return Ok(Vec::new()),
            ReadPlan::FromCache => return Ok(reader.read_from_cache(buf_len)),
            ReadPlan::FetchTail { start, end } => {
                let data = remote.fetch(start, end)?;
                reader.update_cache(start, end, data);
            }
            ReadPlan::FetchChunk { start, end } => {
                let data = remote.fetch(start, end)?;
                return Ok(reader.complete_fetched_read(start, end, data, buf_len));
            }
        }
    }
}

/// Construct a reader over the remote, performing the construction-time
/// central-directory prefetch as the transports do.
fn construct(
    config: ReaderConfig,
    remote: &mut FakeRemote,
) -> Result<RangedReader, String> {
    let mut reader = RangedReader::new(config, remote.data.len() as u64);
    if let Some((start, end)) = reader.prefetch_central_directory_range() {
        let data = remote.fetch(start, end)?;
        reader.update_cache(start, end, data);
    }
    Ok(reader)
}

#[test]
fn construction_prefetches_tail_window() {
    let mut remote = FakeRemote::new(1_000_000);
    let reader = construct(ReaderConfig::http(), &mut remote).unwrap();
    assert_eq!(remote.fetches, vec![(1_000_000 - 65_536, 1_000_000)]);
    assert_eq!(reader.is_in_cache(1_000_000 - 65_536), Some((934_464, 1_000_000, 0)));
    assert_eq!(reader.is_in_cache(999_999), Some((934_464, 1_000_000, 65_535)));
    assert_eq!(reader.is_in_cache(934_463), None);
    assert_eq!(reader.position(), 0);
}

#[test]
fn construction_of_small_object_prefetches_whole_object() {
    let mut remote = FakeRemote::new(1000);
    let reader = construct(ReaderConfig::http(), &mut remote).unwrap();
    assert_eq!(remote.fetches, vec![(0, 1000)]);
    assert_eq!(reader.is_in_cache(0), Some((0, 1000, 0)));
}

#[test]
fn construction_of_empty_object_fetches_nothing() {
    let mut remote = FakeRemote::new(0);
    let reader = construct(ReaderConfig::http(), &mut remote).unwrap();
    assert!(remote.fetches.is_empty());
    assert_eq!(reader.is_in_cache(0), None);
}

#[test]
fn read_at_end_returns_zero_without_fetch() {
    let mut remote = FakeRemote::new(1000);
    let mut reader = construct(ReaderConfig::http(), &mut remote).unwrap();
    reader.seek(SeekTarget::Start(1000)).unwrap();
    let fetches_before = remote.fetches.len();
    let out = drive_read(&mut reader, &mut remote, 64).unwrap();
    assert_eq!(out.len(), 0);
    assert_eq!(remote.fetches.len(), fetches_before);
}

#[test]
fn scenario_million_byte_object() {
    let mut remote = FakeRemote::new(1_000_000);
    let mut reader = construct(ReaderConfig::http(), &mut remote).unwrap();
    // Exactly one construction fetch, for the tail window.
    assert_eq!(remote.fetches, vec![(934_464, 1_000_000)]);

    // Seek to 0, read 10 bytes: one new fetch from the aligned start, one
    // chunk long (clamped to the end of the object), serving the first 10
    // bytes.
    assert_eq!(reader.seek(SeekTarget::Start(0)), Ok(0));
    let out = drive_read(&mut reader, &mut remote, 10).unwrap();
    assert_eq!(out, (0..10).map(|i| (i % 251) as u8).collect::<Vec<u8>>());
    assert_eq!(remote.fetches.len(), 2);
    assert_eq!(remote.fetches[1], (0, 1_000_000));
    assert_eq!(reader.position(), 10);

    // Seek near the end and read: the chunk fetch evicted the tail slot, so
    // the heuristic re-verifies the cached interval, finds it differs from
    // the tail window, and re-fetches exactly the tail window; the read
    // returns exactly the last 10 bytes.
    assert_eq!(reader.seek(SeekTarget::Start(999_990)), Ok(999_990));
    let out = drive_read(&mut reader, &mut remote, 10).unwrap();
    assert_eq!(
        out,
        (999_990..1_000_000).map(|i| (i % 251) as u8).collect::<Vec<u8>>()
    );
    assert_eq!(remote.fetches.len(), 3);
    assert_eq!(remote.fetches[2], (934_464, 1_000_000));

    // Reading there again issues no further fetch: the slot is the tail.
    assert_eq!(reader.seek(SeekTarget::Start(999_990)), Ok(999_990));
    let out = drive_read(&mut reader, &mut remote, 10).unwrap();
    assert_eq!(out.len(), 10);
    assert_eq!(remote.fetches.len(), 3);

    // Seeking past the end fails with an invalid-argument error and leaves
    // the cursor unchanged.
    assert_eq!(reader.seek(SeekTarget::Start(1_000_001)), Err(SeekError::PastEnd));
    assert_eq!(reader.position(), 1_000_000);
}

#[test]
fn rereading_cached_window_fetches_once() {
    let mut remote = FakeRemote::new(100_000);
    // Small chunks, unaligned, tail window as wide as the near-end zone.
    let mut reader = construct(ReaderConfig::custom(4096, 4096, 1), &mut remote).unwrap();
    let fetches_after_construction = remote.fetches.len();

    reader.seek(SeekTarget::Start(50_000)).unwrap();
    let first = drive_read(&mut reader, &mut remote, 100).unwrap();
    assert_eq!(first.len(), 100);
    assert_eq!(remote.fetches.len(), fetches_after_construction + 1);
    assert_eq!(*remote.fetches.last().unwrap(), (50_000, 54_096));

    // Seek back inside the cached window and re-read the same range: served
    // from the slot, no second fetch.
    reader.seek(SeekTarget::Start(50_000)).unwrap();
    let second = drive_read(&mut reader, &mut remote, 100).unwrap();
    assert_eq!(second, first);
    assert_eq!(remote.fetches.len(), fetches_after_construction + 1);
}

#[test]
fn sequential_reads_within_chunk_hit_cache() {
    let mut remote = FakeRemote::new(100_000);
    let mut reader = construct(ReaderConfig::custom(8192, 4096, 4096), &mut remote).unwrap();
    reader.seek(SeekTarget::Start(4100)).unwrap();
    let out = drive_read(&mut reader, &mut remote, 50).unwrap();
    // Aligned down to 4096, one chunk long.
    assert_eq!(*remote.fetches.last().unwrap(), (4096, 12_288));
    assert_eq!(out.len(), 50);
    assert_eq!(reader.position(), 4150);
    let n = remote.fetches.len();
    // The next sequential read is a cache hit.
    let out2 = drive_read(&mut reader, &mut remote, 50).unwrap();
    assert_eq!(out2.len(), 50);
    assert_eq!(out2[0], ((4150usize) % 251) as u8);
    assert_eq!(remote.fetches.len(), n);
}

#[test]
fn failed_fetch_leaves_reader_retryable() {
    let mut remote = FakeRemote::new(1_000_000);
    let mut reader = construct(ReaderConfig::http(), &mut remote).unwrap();
    reader.seek(SeekTarget::Start(100_000)).unwrap();
    let position_before = reader.position();
    let bytes_before = reader.total_bytes_read();

    remote.fail_next = true;
    let err = drive_read(&mut reader, &mut remote, 10);
    assert!(err.is_err());
    // No cached failure state: cursor, counter and cache are unchanged.
    assert_eq!(reader.position(), position_before);
    assert_eq!(reader.total_bytes_read(), bytes_before);
    assert_eq!(reader.is_in_cache(100_000), None);

    // The same read, retried without seeking, issues the same fetch and
    // succeeds.
    let fetches_before = remote.fetches.len();
    let out = drive_read(&mut reader, &mut remote, 10).unwrap();
    assert_eq!(out.len(), 10);
    assert_eq!(out[0], ((100_000usize) % 251) as u8);
    assert_eq!(remote.fetches.len(), fetches_before + 1);
    assert_eq!(*remote.fetches.last().unwrap(), (98_304, 1_000_000));
}

#[test]
fn short_remote_response_clamps_and_serves_short_count() {
    let mut reader = RangedReader::new(ReaderConfig::custom(100, 0, 1), 1000);
    // The remote handed back only 5 bytes for [0, 100).
    reader.seek(SeekTarget::Start(2)).unwrap();
    let out = reader.complete_fetched_read(0, 100, vec![10, 11, 12, 13, 14], 10);
    assert_eq!(out, vec![12, 13, 14]);
    assert_eq!(reader.position(), 5);
}

#[test]
fn short_remote_response_before_position_serves_zero() {
    let mut reader = RangedReader::new(ReaderConfig::custom(100, 0, 1), 1000);
    reader.seek(SeekTarget::Start(50)).unwrap();
    let out = reader.complete_fetched_read(0, 100, vec![1, 2, 3], 10);
    assert_eq!(out.len(), 0);
    // The reader is unchanged, so the caller may retry.
    assert_eq!(reader.position(), 50);
    assert_eq!(reader.is_in_cache(50), None);
}

#[test]
fn reads_never_exceed_buffer_length() {
    let mut remote = FakeRemote::new(10_000);
    let mut reader = construct(ReaderConfig::http(), &mut remote).unwrap();
    let out = drive_read(&mut reader, &mut remote, 7).unwrap();
    assert_eq!(out.len(), 7);
    let out = drive_read(&mut reader, &mut remote, 0).unwrap();
    assert_eq!(out.len(), 0);
}

#[test]
fn seek_arithmetic_saturates_and_rejects_past_end() {
    let mut reader = RangedReader::new(ReaderConfig::http(), 100);
    assert_eq!(reader.seek(SeekTarget::Start(100)), Ok(100));
    assert_eq!(reader.seek(SeekTarget::Current(-300)), Ok(0));
    assert_eq!(reader.seek(SeekTarget::End(-30)), Ok(70));
    assert_eq!(reader.seek(SeekTarget::Current(10)), Ok(80));
    assert_eq!(reader.seek(SeekTarget::End(1)), Err(SeekError::PastEnd));
    assert_eq!(reader.position(), 80);
    assert_eq!(reader.seek(SeekTarget::End(i64::MIN)), Ok(0));
    assert_eq!(reader.seek(SeekTarget::Start(101)), Err(SeekError::PastEnd));
    assert_eq!(reader.position(), 0);
}

#[test]
fn seeks_on_a_maximum_size_object_saturate() {
    let mut reader = RangedReader::new(ReaderConfig::http(), u64::MAX);
    assert_eq!(reader.seek(SeekTarget::End(0)), Ok(u64::MAX));
    // Adding past `u64::MAX` saturates there, which is still within the
    // object, so the seek is accepted.
    assert_eq!(reader.seek(SeekTarget::End(7)), Ok(u64::MAX));
    assert_eq!(reader.seek(SeekTarget::Current(1)), Ok(u64::MAX));
    assert_eq!(reader.seek(SeekTarget::End(i64::MIN)), Ok(u64::MAX - 9_223_372_036_854_775_808));
}

#[test]
fn total_bytes_read_accumulates() {
    let mut remote = FakeRemote::new(10_000);
    let mut reader = construct(ReaderConfig::http(), &mut remote).unwrap();
    assert_eq!(reader.total_bytes_read(), 0);
    drive_read(&mut reader, &mut remote, 100).unwrap();
    assert_eq!(reader.total_bytes_read(), 100);
    drive_read(&mut reader, &mut remote, 25).unwrap();
    assert_eq!(reader.total_bytes_read(), 125);
    assert_eq!(reader.total_size(), 10_000);
}

#[test]
fn object_store_config_fetches_from_raw_position() {
    let mut remote = FakeRemote::new(1_000_000);
    let mut reader = construct(ReaderConfig::object_store(), &mut remote).unwrap();
    reader.seek(SeekTarget::Start(4100)).unwrap();
    drive_read(&mut reader, &mut remote, 10).unwrap();
    // Unaligned: the fetch starts exactly at the read position.
    assert_eq!(*remote.fetches.last().unwrap(), (4100, 1_000_000));
}

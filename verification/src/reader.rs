//! Bookkeeping for a seekable stream over a remote object of known total
//! length, read through byte-range fetches.
//!
//! The reader owns the cursor state (`position`, `total_bytes_read`), a
//! single-slot cache holding the most recently fetched byte range, and the
//! ZIP-aware tail prefetch heuristic.  It performs no I/O itself: the caller
//! asks [`RangedReader::plan_read`] what a read needs, performs any range
//! fetch the plan names, and hands the bytes back through
//! [`RangedReader::update_cache`] or [`RangedReader::complete_fetched_read`].
//! A failed fetch simply means the caller installs nothing: the reader's
//! state is unchanged and the same call may be retried.

use vstd::prelude::*;

use crate::seek::{compute_new_position, sat_add_u64, sat_sub_u64, spec_new_position, SeekError,
    SeekTarget};

verus! {

/// Width of the end-of-object zone in which a read re-verifies that the
/// cache slot holds the tail of the object (ZIP parsers re-read the
/// end-of-central-directory record from there).
pub const TAIL_WINDOW: u64 = 4096;

/// Default size of one range fetch.
pub const DEFAULT_CHUNK_SIZE: u64 = 16 * 1024 * 1024;

/// Default size of the tail window prefetched for the ZIP central directory.
pub const DEFAULT_TAIL_BUFFER: u64 = 64 * 1024;

/// Fetch alignment used over HTTP: chunk starts are aligned down to this
/// boundary so that adjacent reads hit the same cached range.
pub const HTTP_ALIGNMENT: u64 = 4096;

/// Immutable configuration of a ranged reader: how large a chunk one fetch
/// asks for, how many tail bytes the central-directory prefetch pins, and
/// the boundary chunk starts are aligned down to (1 = unaligned).
#[derive(Clone, Copy, Debug, PartialEq, Eq, Structural)]
pub struct ReaderConfig {
    pub chunk_size: u64,
    pub tail_buffer: u64,
    pub alignment: u64,
}

impl ReaderConfig {
    /// A usable configuration: a positive alignment no larger than the chunk
    /// size, so that an aligned fetch always reaches the position it was
    /// planned for.
    pub open spec fn wf(self) -> bool {
        1 <= self.alignment <= self.chunk_size
    }

    /// The configuration of the HTTP reader: 16 MiB chunks aligned down to
    /// 4 KiB, 64 KiB tail prefetch.
    pub fn http() -> (r: ReaderConfig)
        ensures
            r.wf(),
            r.chunk_size == DEFAULT_CHUNK_SIZE,
            r.tail_buffer == DEFAULT_TAIL_BUFFER,
            r.alignment == HTTP_ALIGNMENT,
    {
        ReaderConfig {
            chunk_size: DEFAULT_CHUNK_SIZE,
            tail_buffer: DEFAULT_TAIL_BUFFER,
            alignment: HTTP_ALIGNMENT,
        }
    }

    /// The configuration of the object-store reader: 16 MiB chunks starting
    /// at the raw read position, 64 KiB tail prefetch.
    pub fn object_store() -> (r: ReaderConfig)
        ensures
            r.wf(),
            r.chunk_size == DEFAULT_CHUNK_SIZE,
            r.tail_buffer == DEFAULT_TAIL_BUFFER,
            r.alignment == 1,
    {
        ReaderConfig { chunk_size: DEFAULT_CHUNK_SIZE, tail_buffer: DEFAULT_TAIL_BUFFER, alignment: 1 }
    }

    /// An arbitrary configuration, for small test doubles.
    pub fn custom(chunk_size: u64, tail_buffer: u64, alignment: u64) -> (r: ReaderConfig)
        requires
            1 <= alignment <= chunk_size,
        ensures
            r.wf(),
            r.chunk_size == chunk_size,
            r.tail_buffer == tail_buffer,
            r.alignment == alignment,
    {
        ReaderConfig { chunk_size, tail_buffer, alignment }
    }
}

/// The single cache slot: the byte range `[start, end)` of the remote object
/// was fetched last, and `data` holds its bytes (possibly fewer than
/// `end - start` if the remote returned a short response).
#[derive(Debug)]
pub struct CacheSlot {
    pub start: u64,
    pub end: u64,
    pub data: Vec<u8>,
}

impl CacheSlot {
    /// The slot describes a range inside the object and holds at most that
    /// many bytes.
    pub open spec fn wf(self, total_size: u64) -> bool {
        &&& self.start <= self.end <= total_size
        &&& self.data@.len() <= self.end - self.start
    }

    /// The slot serves `position` when it lies inside the slot's interval.
    pub open spec fn spec_covers(self, position: u64) -> bool {
        self.start <= position < self.end
    }
}

/// What one `read` call needs next.
#[derive(Clone, Copy, Debug, PartialEq, Eq, Structural)]
pub enum ReadPlan {
    /// The position is at the end of the object: return 0 bytes, no error,
    /// no fetch.
    Eof,
    /// The cache slot covers the position: serve with
    /// [`RangedReader::read_from_cache`], no fetch.
    FromCache,
    /// The tail heuristic wants `[start, end)` re-fetched; install the bytes
    /// with [`RangedReader::update_cache`] and plan again.
    FetchTail { start: u64, end: u64 },
    /// Fetch `[start, end)` and finish with
    /// [`RangedReader::complete_fetched_read`].
    FetchChunk { start: u64, end: u64 },
}

/// Cursor, cache and configuration of one ranged reader instance.
#[derive(Debug)]
pub struct RangedReader {
    pub config: ReaderConfig,
    pub total_size: u64,
    pub position: u64,
    pub total_bytes_read: u64,
    pub cache: Option<CacheSlot>,
}

impl RangedReader {
    /// Invariant: the position stays inside `[0, total_size]` and the cache
    /// slot, if any, is a well-formed range of the object.
    pub open spec fn wf(self) -> bool {
        &&& self.config.wf()
        &&& self.position <= self.total_size
        &&& match self.cache {
            Some(slot) => slot.wf(self.total_size),
            None => true,
        }
    }

    /// Start of the tail window: `max(0, total_size - tail_buffer)`.
    pub open spec fn spec_tail_start(self) -> u64 {
        sat_sub_u64(self.total_size, self.config.tail_buffer)
    }

    /// The position lies in the last `TAIL_WINDOW` bytes of the object (and
    /// strictly before its end).
    pub open spec fn spec_near_end(self) -> bool {
        self.position < self.total_size && self.total_size - self.position < TAIL_WINDOW
    }

    /// The cache slot is exactly the tail window.
    pub open spec fn spec_cache_is_tail(self) -> bool {
        match self.cache {
            Some(slot) => slot.start == self.spec_tail_start() && slot.end == self.total_size,
            None => false,
        }
    }

    /// The cache slot's interval contains `position`.
    pub open spec fn spec_cache_covers(self, position: u64) -> bool {
        match self.cache {
            Some(slot) => slot.spec_covers(position),
            None => false,
        }
    }

    /// Start of the chunk a cache miss fetches: the position aligned down to
    /// the configured boundary.
    pub open spec fn spec_chunk_start(self) -> u64 {
        (self.position - (self.position as int % self.config.alignment as int)) as u64
    }

    /// End of the chunk a cache miss fetches: one chunk size past the start,
    /// clamped to the end of the object.
    pub open spec fn spec_chunk_end(self) -> u64 {
        if self.total_size - self.spec_chunk_start() < self.config.chunk_size {
            self.total_size
        } else {
            (self.spec_chunk_start() + self.config.chunk_size) as u64
        }
    }

    /// What the next `read` call does, as a function of the reader's state:
    /// end-of-object first, then the tail heuristic (a pure comparison of
    /// the cached interval against the tail window; it fetches only when
    /// they differ), then the cache, then a chunk fetch.
    pub open spec fn spec_plan(self) -> ReadPlan {
        if self.position >= self.total_size {
            ReadPlan::Eof
        } else if self.spec_near_end() && !self.spec_cache_is_tail() {
            ReadPlan::FetchTail { start: self.spec_tail_start(), end: self.total_size }
        } else if self.spec_cache_covers(self.position) {
            ReadPlan::FromCache
        } else {
            ReadPlan::FetchChunk { start: self.spec_chunk_start(), end: self.spec_chunk_end() }
        }
    }

    /// A fresh reader: cursor at 0, nothing read, empty cache.
    pub fn new(config: ReaderConfig, total_size: u64) -> (r: RangedReader)
        requires
            config.wf(),
        ensures
            r.wf(),
            r.config == config,
            r.total_size == total_size,
            r.position == 0,
            r.total_bytes_read == 0,
            r.cache is None,
    {
        RangedReader { config, total_size, position: 0, total_bytes_read: 0, cache: None }
    }

    /// The range the construction-time central-directory prefetch must
    /// fetch: the whole tail window, unless the object is empty.  Installing
    /// it with [`RangedReader::update_cache`] makes the cache slot cover
    /// exactly `[max(0, total_size - tail_buffer), total_size)`.
    pub fn prefetch_central_directory_range(&self) -> (r: Option<(u64, u64)>)
        requires
            self.wf(),
        ensures
            self.total_size > 0 ==> r == Some((self.spec_tail_start(), self.total_size)),
            self.total_size == 0 ==> r is None,
            r matches Some(p) ==> p.0 <= p.1 <= self.total_size,
    {
        if self.total_size > 0 {
            let start = if self.total_size > self.config.tail_buffer {
                self.total_size - self.config.tail_buffer
            } else {
                0
            };
            Some((start, self.total_size))
        } else {
            None
        }
    }

    /// Which range, if any, the cache can serve `position` from, and the
    /// offset of `position` inside it.
    pub fn is_in_cache(&self, position: u64) -> (r: Option<(u64, u64, u64)>)
        ensures
            match r {
                Some(t) => self.spec_cache_covers(position) && (self.cache matches Some(slot)
                    && t.0 == slot.start && t.1 == slot.end && t.2 == position - slot.start),
                None => !self.spec_cache_covers(position),
            },
    {
        match &self.cache {
            Some(slot) => {
                if slot.start <= position && position < slot.end {
                    Some((slot.start, slot.end, position - slot.start))
                } else {
                    None
                }
            },
            None => None,
        }
    }

    /// Decide what the next `read` call needs.  Pure bookkeeping: no state
    /// change, no I/O.  The plan is `Eof` exactly at the end of the object.
    pub fn plan_read(&self) -> (plan: ReadPlan)
        requires
            self.wf(),
        ensures
            plan == self.spec_plan(),
            plan == ReadPlan::Eof <==> self.position == self.total_size,
    {
        if self.position >= self.total_size {
            return ReadPlan::Eof;
        }
        let tail_start = if self.total_size > self.config.tail_buffer {
            self.total_size - self.config.tail_buffer
        } else {
            0
        };
        if self.total_size - self.position < TAIL_WINDOW {
            let is_tail = match &self.cache {
                Some(slot) => slot.start == tail_start && slot.end == self.total_size,
                None => false,
            };
            if !is_tail {
                return ReadPlan::FetchTail { start: tail_start, end: self.total_size };
            }
        }
        if self.is_in_cache(self.position).is_some() {
            return ReadPlan::FromCache;
        }
        proof {
            assert(self.position as int % self.config.alignment as int <= self.position as int)
                by (nonlinear_arith)
                requires
                    self.config.alignment >= 1,
                    self.position >= 0,
            ;
        }
        let chunk_start = self.position - self.position % self.config.alignment;
        let chunk_end = if self.total_size - chunk_start < self.config.chunk_size {
            self.total_size
        } else {
            chunk_start + self.config.chunk_size
        };
        ReadPlan::FetchChunk { start: chunk_start, end: chunk_end }
    }
}

/// `data` cut down to at most `len` elements.
pub open spec fn spec_clamped(data: Seq<u8>, len: int) -> Seq<u8> {
    if data.len() > len {
        data.subrange(0, len)
    } else {
        data
    }
}

/// `data[off .. off + n]`, copied.
fn copy_range(data: &Vec<u8>, off: usize, n: usize) -> (out: Vec<u8>)
    requires
        off + n <= data@.len(),
    ensures
        out@ == data@.subrange(off as int, off + n),
{
    let len: usize = data.len();
    let mut out: Vec<u8> = Vec::new();
    let mut i: usize = 0;
    while i < n
        invariant
            i <= n,
            off + n <= len,
            len == data@.len(),
            out@ == data@.subrange(off as int, off + i),
        decreases n - i,
    {
        out.push(data[off + i]);
        proof {
            assert(out@ =~= data@.subrange(off as int, off + i + 1));
        }
        i = i + 1;
    }
    out
}

impl RangedReader {
    /// How many bytes a cache hit serves: all that the slot holds at the
    /// current position, clamped to the caller's buffer length.
    pub open spec fn spec_serve_len(self, buf_len: int) -> int
        recommends
            self.cache is Some,
    {
        let slot = self.cache.unwrap();
        let off = self.position - slot.start;
        if off < slot.data@.len() {
            if slot.data@.len() - off < buf_len {
                slot.data@.len() - off
            } else {
                buf_len
            }
        } else {
            0
        }
    }

    /// Which bytes a cache hit serves.
    pub open spec fn spec_served_bytes(self, buf_len: int) -> Seq<u8>
        recommends
            self.cache is Some,
    {
        let slot = self.cache.unwrap();
        let off = self.position - slot.start;
        if off <= slot.data@.len() {
            slot.data@.subrange(off, off + self.spec_serve_len(buf_len))
        } else {
            Seq::<u8>::empty()
        }
    }

    /// Replace the cache slot with the bytes fetched for `[start, end)`.
    /// A response longer than the requested range is cut down to it, so the
    /// slot invariant holds for any response.  Cursor state is untouched.
    ///
    /// Installing the construction-time prefetch range makes the slot
    /// exactly the tail window.
    pub fn update_cache(&mut self, start: u64, end: u64, data: Vec<u8>)
        requires
            old(self).wf(),
            start <= end <= old(self).total_size,
        ensures
            final(self).wf(),
            final(self).cache matches Some(slot) && slot.start == start && slot.end == end
                && slot.data@ == spec_clamped(data@, end - start),
            final(self).config == old(self).config,
            final(self).total_size == old(self).total_size,
            final(self).position == old(self).position,
            final(self).total_bytes_read == old(self).total_bytes_read,
            start == old(self).spec_tail_start() && end == old(self).total_size
                ==> final(self).spec_cache_is_tail(),
    {
        let mut data = data;
        if data.len() as u64 > end - start {
            data.truncate((end - start) as usize);
        }
        self.cache = Some(CacheSlot { start, end, data });
    }

    /// Serve a read from the cache slot.  Returns
    /// `min(available, buf_len)` bytes taken from the slot at the current
    /// position — more than zero unless the caller asked for zero or a
    /// short remote response left the slot without bytes at this position —
    /// and advances the cursor by as many.
    pub fn read_from_cache(&mut self, buf_len: usize) -> (out: Vec<u8>)
        requires
            old(self).wf(),
            old(self).spec_cache_covers(old(self).position),
        ensures
            final(self).wf(),
            final(self).config == old(self).config,
            final(self).total_size == old(self).total_size,
            final(self).cache == old(self).cache,
            out@ == old(self).spec_served_bytes(buf_len as int),
            out@.len() == old(self).spec_serve_len(buf_len as int),
            out@.len() <= buf_len,
            buf_len > 0 && old(self).position - old(self).cache.unwrap().start
                < old(self).cache.unwrap().data@.len() ==> out@.len() > 0,
            final(self).position == old(self).position + out@.len(),
            final(self).total_bytes_read == sat_add_u64(old(self).total_bytes_read, out@.len() as u64),
    {
        let out: Vec<u8>;
        match &self.cache {
            Some(slot) => {
                let off_u64: u64 = self.position - slot.start;
                if off_u64 >= slot.data.len() as u64 {
                    proof {
                        assert(self.spec_served_bytes(buf_len as int) =~= Seq::<u8>::empty());
                    }
                    return Vec::new();
                }
                let off: usize = off_u64 as usize;
                let available: usize = slot.data.len() - off;
                let to_read: usize = if available < buf_len {
                    available
                } else {
                    buf_len
                };
                out = copy_range(&slot.data, off, to_read);
            },
            None => {
                proof {
                    assert(false);
                }
                out = Vec::new();
            },
        }
        let n = out.len();
        proof {
            assert(self.position + n <= self.cache.unwrap().start + self.cache.unwrap().data@.len());
        }
        self.position = self.position + n as u64;
        self.total_bytes_read = self.total_bytes_read.saturating_add(n as u64);
        out
    }

    /// Finish a read that fetched `[start, end)` on a cache miss: cut an
    /// over-long response down to the requested range, then — unless the
    /// remote returned too few bytes to reach the read position (the
    /// short-read edge case, which serves 0 bytes and leaves the reader
    /// unchanged) — install the bytes as the new cache slot and serve the
    /// read from it.
    pub fn complete_fetched_read(&mut self, start: u64, end: u64, data: Vec<u8>, buf_len: usize) -> (out:
        Vec<u8>)
        requires
            old(self).wf(),
            start <= old(self).position < end <= old(self).total_size,
        ensures
            final(self).wf(),
            final(self).config == old(self).config,
            final(self).total_size == old(self).total_size,
            ({
                let clamped = spec_clamped(data@, end - start);
                let off = old(self).position - start;
                if off < clamped.len() {
                    &&& final(self).cache matches Some(slot) && slot.start == start && slot.end
                        == end && slot.data@ == clamped
                    &&& out@ == clamped.subrange(
                        off,
                        off + final(self).position - old(self).position,
                    )
                    &&& out@.len() == (if clamped.len() - off < buf_len {
                        clamped.len() - off
                    } else {
                        buf_len as int
                    })
                    &&& final(self).position == old(self).position + out@.len()
                    &&& final(self).total_bytes_read == sat_add_u64(
                        old(self).total_bytes_read,
                        out@.len() as u64,
                    )
                } else {
                    *final(self) == *old(self) && out@ =~= Seq::<u8>::empty()
                }
            }),
            out@.len() <= buf_len,
            buf_len > 0 && old(self).position - start < spec_clamped(data@, end - start).len()
                ==> out@.len() > 0,
    {
        let mut data = data;
        if data.len() as u64 > end - start {
            data.truncate((end - start) as usize);
        }
        let off_u64: u64 = self.position - start;
        if off_u64 >= data.len() as u64 {
            return Vec::new();
        }
        self.update_cache(start, end, data);
        self.read_from_cache(buf_len)
    }

    /// Seek to an absolute position, or relative to the end of the object
    /// or the current position.  Pure arithmetic, no I/O: a position past
    /// the end of the object is rejected and nothing changes; otherwise the
    /// cursor moves there and the cache is kept.
    pub fn seek(&mut self, target: SeekTarget) -> (r: Result<u64, SeekError>)
        requires
            old(self).wf(),
        ensures
            final(self).wf(),
            final(self).config == old(self).config,
            final(self).total_size == old(self).total_size,
            final(self).total_bytes_read == old(self).total_bytes_read,
            final(self).cache == old(self).cache,
            match r {
                Ok(p) => p == spec_new_position(old(self).position, old(self).total_size, target)
                    && p <= old(self).total_size && final(self).position == p,
                Err(e) => e == SeekError::PastEnd && spec_new_position(
                    old(self).position,
                    old(self).total_size,
                    target,
                ) > old(self).total_size && final(self).position == old(self).position,
            },
    {
        match compute_new_position(self.position, self.total_size, target) {
            Ok(p) => {
                self.position = p;
                Ok(p)
            },
            Err(e) => Err(e),
        }
    }

    /// The current logical read offset.
    pub fn position(&self) -> (r: u64)
        ensures
            r == self.position,
    {
        self.position
    }

    /// The immutable total size of the remote object.
    pub fn total_size(&self) -> (r: u64)
        ensures
            r == self.total_size,
    {
        self.total_size
    }

    /// How many bytes reads have served so far (diagnostic counter).
    pub fn total_bytes_read(&self) -> (r: u64)
        ensures
            r == self.total_bytes_read,
    {
        self.total_bytes_read
    }
}

/// A read strictly before the end of the object is never planned as `Eof`:
/// it serves from the cache or names a fetch, so it returns bytes whenever
/// the remote has them in range.
pub proof fn lemma_read_before_end_is_not_eof(r: RangedReader)
    requires
        r.wf(),
        r.position < r.total_size,
    ensures
        r.spec_plan() != ReadPlan::Eof,
{
}

/// When the tail window is at least as wide as the near-end zone (as in
/// both shipped configurations), a cache slot holding the tail covers every
/// near-end position.
pub proof fn lemma_tail_slot_covers_near_end(r: RangedReader)
    requires
        r.wf(),
        r.config.tail_buffer >= TAIL_WINDOW,
        r.spec_near_end(),
        r.spec_cache_is_tail(),
    ensures
        r.spec_cache_covers(r.position),
{
}

/// A planned chunk fetch always brackets the position that missed the
/// cache, and stays inside the object.
pub proof fn lemma_chunk_plan_covers_position(r: RangedReader, start: u64, end: u64)
    requires
        r.wf(),
        r.spec_plan() == (ReadPlan::FetchChunk { start, end }),
    ensures
        start <= r.position < end <= r.total_size,
        end - start <= r.config.chunk_size,
{
    let p = r.position as int;
    let a = r.config.alignment as int;
    assert(0 <= (p % a) < a && (p % a) <= p) by (nonlinear_arith)
        requires
            a >= 1,
            p >= 0,
    ;
    assert(start == r.spec_chunk_start());
    assert(r.spec_chunk_start() == (p - p % a) as u64);
    assert(0 <= p - p % a <= p);
    assert(start <= r.position);
    assert(end == r.spec_chunk_end());
    assert(r.position < r.total_size);
    assert(r.position < end);
}

/// Cache-hit law: while the cache slot covers the current position — and,
/// near the end of the object, the slot is exactly the tail window — a read
/// plans no fetch.  Re-reading a byte range twice without an intervening
/// seek outside the cached window therefore issues exactly one remote
/// fetch: the one that filled the slot.
pub proof fn lemma_reread_hits_cache(r: RangedReader)
    requires
        r.wf(),
        r.spec_cache_covers(r.position),
        r.spec_near_end() ==> r.spec_cache_is_tail(),
    ensures
        r.spec_plan() == ReadPlan::FromCache,
{
}

/// Construction-prefetch law: a cache slot holding the construction-time
/// prefetch range covers exactly
/// `[max(0, total_size - tail_buffer), total_size)`.
pub proof fn lemma_initial_prefetch_covers_tail(r: RangedReader)
    requires
        r.wf(),
        r.spec_cache_is_tail(),
    ensures
        r.cache matches Some(slot) && (slot.start == if r.config.tail_buffer <= r.total_size {
            (r.total_size - r.config.tail_buffer) as u64
        } else {
            0u64
        }) && slot.end == r.total_size,
{
}

} // verus!

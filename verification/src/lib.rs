//! Seek-based, random-access reading of a ZIP archive whose bytes live in a
//! remote object store, without downloading the whole archive.
//!
//! The heart of the crate is [`reader::RangedReader`]: the bookkeeping for a
//! seekable stream over a remote object of known total length, fetched in
//! chunks via byte-range requests, with a single-slot cache and a ZIP-aware
//! tail prefetch heuristic.  The reader itself performs no I/O: each call to
//! [`reader::RangedReader::plan_read`] says whether a range fetch is needed,
//! the caller performs the fetch, and hands the bytes back.  All cache,
//! cursor and seek logic is verified.
//!
//! Around the reader stand the pure parts of the wheel tooling: seek
//! arithmetic ([`seek`]), requirement-string parsing ([`requirement`]), and
//! the wheel metadata helpers ([`wheel`]).

pub mod envvars;
pub mod locator;
pub mod metadata;
pub mod reader;
pub mod requirement;
pub mod seek;
pub mod text;
pub mod wheel;

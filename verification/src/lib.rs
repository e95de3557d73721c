//! Cross-boundary string marshalling for a sandboxed guest runtime.
//!
//! A guest running inside an isolated linear memory calls out to its host
//! through imported functions. Every argument crosses the boundary as a
//! `(pointer, length)` pair of raw bytes, and every result comes back as a
//! wide pointer: the address of a two-word `{data_pointer, data_length}`
//! record describing a UTF-8 payload. Depending on the call site, ownership
//! of the returned buffers either stays with the host or transfers to the
//! guest, which must then free both the record and the payload exactly once
//! after copying the bytes out.
//!
//! This crate holds the verified core of that protocol: encoding requests,
//! interpreting wide-pointer records, validating payloads as UTF-8, and
//! planning the deallocations that each ownership contract demands. The
//! actual boundary crossings (the imported functions, the raw memory reads
//! and the frees) are performed by the unverified embedding around the crate,
//! which feeds the words and bytes it read into these functions and carries
//! out the free operations they plan.

pub mod boundary;
pub mod lifecycle;
pub mod registry;
pub mod text;

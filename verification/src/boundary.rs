//! Wide-pointer decoding and the two boundary call sites.
//!
//! A boundary call returns a raw machine word: the address of a two-word
//! `{data_pointer, data_length}` record describing a UTF-8 payload in the
//! host's allocator. The embedding around this crate performs the call, reads
//! the two words and copies the payload bytes; the functions here interpret
//! those plain values, validate the copy as UTF-8, and plan the frees the
//! call site's ownership contract demands.
//!
//! The two call sites are kept structurally distinct. The argument-only site
//! has retained ownership: its finish path cannot even express a free. The
//! handle-plus-argument site has transferred ownership: its finish path
//! always yields the two owed frees, on the success and on the failure path
//! alike. Both go through one shared consume step, with the policy selected
//! by the typed [`Ownership`] value that [`spec_ownership_of`] fixes per
//! site, never by duplicated code.

use vstd::prelude::*;
use crate::lifecycle::{spec_frees, FreeOp};
use crate::text::{is_valid_utf8, GuestText};

verus! {

/// The statically known ownership contract of a boundary call's result.
#[derive(Clone, Copy, PartialEq, Eq, Structural, Debug)]
pub enum Ownership {
    /// The callee keeps both returned buffers; the caller must not free them.
    Retained,
    /// The callee hands both returned buffers to the caller, which must free
    /// each exactly once after copying the payload out.
    Transferred,
}

/// A decoded two-word record: the address the record itself sits at, the
/// address of the payload buffer, and the payload's length in bytes.
#[derive(Clone, Copy, PartialEq, Eq, Structural, Debug)]
pub struct WideRecord {
    /// Address of the two-word record in the host's allocator.
    pub record_addr: u32,
    /// First word: address of the payload buffer.
    pub data_ptr: u32,
    /// Second word: length of the payload buffer in bytes.
    pub data_len: u32,
}

/// How a boundary call can fail from the guest's point of view.
#[derive(Clone, Copy, PartialEq, Eq, Structural, Debug)]
pub enum BoundaryError {
    /// The boundary contract was broken: the call returned a null wide
    /// pointer, so no record can be read. Fatal; nothing was decoded.
    ProtocolViolation,
    /// The payload bytes do not form valid UTF-8. Surfaced to the caller,
    /// never patched over by truncating or substituting bytes.
    DecodeFailure,
}

/// One of the two boundary call patterns exposed to guest code.
#[derive(Clone, Copy, PartialEq, Eq, Structural, Debug)]
pub enum CallSite {
    /// Encode one string argument and call the plain imported function.
    ArgumentOnly,
    /// Forward an opaque proxy handle along with the encoded argument.
    WithHandle { handle: u32 },
}

/// The ownership contract is fixed per call site: the argument-only site's
/// result stays with the callee, the handle site's result transfers to the
/// caller.
pub open spec fn spec_ownership_of(site: CallSite) -> Ownership {
    match site {
        CallSite::ArgumentOnly => Ownership::Retained,
        CallSite::WithHandle { .. } => Ownership::Transferred,
    }
}

/// Looks the fixed ownership contract of `site` up.
pub fn ownership_of(site: CallSite) -> (r: Ownership)
    ensures
        r == spec_ownership_of(site),
{
    match site {
        CallSite::ArgumentOnly => Ownership::Retained,
        CallSite::WithHandle { .. } => Ownership::Transferred,
    }
}

/// An encoded boundary request: the proxy handle to forward, if the call
/// site takes one, and the argument string's bytes to pass as
/// `(pointer, length)`.
pub struct Request {
    /// Forwarded by value, never dereferenced by the guest.
    pub handle: Option<u32>,
    /// The exact bytes of the argument string's UTF-8 encoding.
    pub payload: Vec<u8>,
}

/// The handle a request for `site` forwards: exactly the site's own handle,
/// unmodified, and none for the argument-only site.
pub open spec fn spec_forwarded_handle(site: CallSite) -> Option<u32> {
    match site {
        CallSite::ArgumentOnly => None,
        CallSite::WithHandle { handle } => Some(handle),
    }
}

/// Copies a byte buffer into fresh guest-owned memory.
fn copy_bytes(v: &Vec<u8>) -> (r: Vec<u8>)
    ensures
        r@ == v@,
{
    let n = v.len();
    let mut r: Vec<u8> = Vec::new();
    let mut i: usize = 0;
    while i < n
        invariant
            i <= n,
            n == v@.len(),
            r@ == v@.take(i as int),
        decreases n - i,
    {
        r.push(v[i]);
        i = i + 1;
        proof {
            assert(r@ =~= v@.take(i as int));
        }
    }
    proof {
        assert(v@.take(n as int) =~= v@);
    }
    r
}

/// Encodes one call of `site` with argument `text`: the site's handle is
/// forwarded unmodified and the payload is exactly the argument's UTF-8
/// bytes.
pub fn prepare_request(site: CallSite, text: &GuestText) -> (r: Request)
    ensures
        r.handle == spec_forwarded_handle(site),
        r.payload@ == text@,
{
    let handle: Option<u32> = match site {
        CallSite::ArgumentOnly => None,
        CallSite::WithHandle { handle } => Some(handle),
    };
    Request { handle, payload: copy_bytes(text.as_bytes()) }
}

/// Interprets the raw word a boundary call returned together with the two
/// words read at that address. A null wide pointer is the one detectable
/// protocol violation and is surfaced as such rather than decoded; for it
/// the two word arguments carry no information.
pub fn decode_wide_record(wide_ptr: u32, word0: u32, word1: u32) -> (r: Result<
    WideRecord,
    BoundaryError,
>)
    ensures
        wide_ptr != 0 ==> r == Ok::<WideRecord, BoundaryError>(
            WideRecord { record_addr: wide_ptr, data_ptr: word0, data_len: word1 },
        ),
        wide_ptr == 0 ==> r == Err::<WideRecord, BoundaryError>(BoundaryError::ProtocolViolation),
{
    if wide_ptr == 0 {
        Err(BoundaryError::ProtocolViolation)
    } else {
        Ok(WideRecord { record_addr: wide_ptr, data_ptr: word0, data_len: word1 })
    }
}

/// What decoding a payload copy yields: the same bytes as an owned string
/// when they are well-formed UTF-8, a surfaced decode failure otherwise.
pub open spec fn spec_decode(payload: Seq<u8>) -> Result<Seq<u8>, BoundaryError> {
    if is_valid_utf8(payload) {
        Ok(payload)
    } else {
        Err(BoundaryError::DecodeFailure)
    }
}

/// The shared consume step of both call sites: validate the payload copy as
/// UTF-8 and plan the frees the ownership policy owes. The frees are planned
/// on every path — also when decoding fails — since the copy is already done
/// and a transferred buffer must be released exactly once regardless.
pub fn consume_result(rec: &WideRecord, payload: Vec<u8>, own: Ownership) -> (r: (
    Result<GuestText, BoundaryError>,
    Vec<FreeOp>,
))
    requires
        payload@.len() == rec.data_len as int,
    ensures
        r.1@ == spec_frees(*rec, own),
        r.0 is Ok <==> is_valid_utf8(payload@),
        r.0 is Ok ==> r.0.unwrap()@ == payload@ && r.0.unwrap().wf(),
        r.0 is Err ==> r.0 == Err::<GuestText, BoundaryError>(BoundaryError::DecodeFailure),
        r.0 is Ok ==> spec_decode(payload@) == Ok::<Seq<u8>, BoundaryError>(r.0.unwrap()@),
        r.0 is Err ==> spec_decode(payload@) == Err::<Seq<u8>, BoundaryError>(
            BoundaryError::DecodeFailure,
        ),
{
    let frees = crate::lifecycle::plan_frees(rec, own);
    match GuestText::from_bytes(payload) {
        Some(text) => (Ok(text), frees),
        None => (Err(BoundaryError::DecodeFailure), frees),
    }
}

/// Finishes an argument-only call. Ownership is retained by the callee, so
/// this path plans no free at all — the type says as much: there is no free
/// plan to carry out.
pub fn finish_argument_call(rec: &WideRecord, payload: Vec<u8>) -> (r: Result<
    GuestText,
    BoundaryError,
>)
    requires
        payload@.len() == rec.data_len as int,
    ensures
        r is Ok <==> is_valid_utf8(payload@),
        r is Ok ==> r.unwrap()@ == payload@ && r.unwrap().wf(),
        r is Err ==> r == Err::<GuestText, BoundaryError>(BoundaryError::DecodeFailure),
{
    let (res, _frees) = consume_result(rec, payload, Ownership::Retained);
    res
}

/// Finishes a handle-plus-argument call. Ownership was transferred, so along
/// with the decoded string this always yields the two owed frees — record
/// and payload, each once — for the embedding to carry out, on the failure
/// path as well as on success.
pub fn finish_handle_call(rec: &WideRecord, payload: Vec<u8>) -> (r: (
    Result<GuestText, BoundaryError>,
    Vec<FreeOp>,
))
    requires
        payload@.len() == rec.data_len as int,
    ensures
        r.1@ == spec_frees(*rec, Ownership::Transferred),
        r.1@.len() == 2,
        r.0 is Ok <==> is_valid_utf8(payload@),
        r.0 is Ok ==> r.0.unwrap()@ == payload@ && r.0.unwrap().wf(),
        r.0 is Err ==> r.0 == Err::<GuestText, BoundaryError>(BoundaryError::DecodeFailure),
{
    consume_result(rec, payload, Ownership::Transferred)
}

/// Round-trip law: a well-formed guest string sent through the argument-only
/// call site against a boundary that echoes its request payload decodes back
/// to exactly the original bytes — and that site frees nothing, since the
/// echoing callee retains its buffers.
pub proof fn lemma_round_trip(text: Seq<u8>, rec: WideRecord)
    requires
        is_valid_utf8(text),
    ensures
        spec_decode(text) == Ok::<Seq<u8>, BoundaryError>(text),
        spec_frees(rec, spec_ownership_of(CallSite::ArgumentOnly)).len() == 0,
{
}

/// Decode-failure law: a payload that is not well-formed UTF-8 decodes to
/// the surfaced decode error — never to a silently truncated or substituted
/// string.
pub proof fn lemma_decode_failure_surfaced(payload: Seq<u8>)
    requires
        !is_valid_utf8(payload),
    ensures
        spec_decode(payload) == Err::<Seq<u8>, BoundaryError>(BoundaryError::DecodeFailure),
{
}

} // verus!

//! Boundary buffer lifecycle: planning the frees that an ownership contract
//! demands.
//!
//! A call whose contract transfers ownership to the guest leaves the guest
//! responsible for exactly two deallocations: the two-word record itself
//! (eight bytes, byte-aligned) and the payload buffer it describes
//! (`data_length` bytes, byte-aligned). A call whose contract is retained
//! leaves nothing to free. This module computes that plan from the decoded
//! record and the call site's ownership tag, so a call site can never skip,
//! duplicate or cross the two frees: it performs precisely the operations
//! planned here, after the payload copy has completed.

use vstd::prelude::*;
use crate::boundary::{spec_ownership_of, CallSite, Ownership, WideRecord};

verus! {

/// Size in bytes of the two-word `{data_pointer, data_length}` record.
pub const RECORD_SIZE: u32 = 8;

/// Alignment of both host allocations granted to the guest.
pub const BUFFER_ALIGN: u32 = 1;

/// One explicit, length-and-alignment-qualified deallocation of a
/// host-allocated buffer.
#[derive(Clone, Copy, PartialEq, Eq, Structural, Debug)]
pub struct FreeOp {
    /// Address of the buffer to release.
    pub addr: u32,
    /// Size in bytes the buffer was allocated with.
    pub size: u32,
    /// Alignment the buffer was allocated with.
    pub align: u32,
}

/// The deallocation of the two-word record of `rec`.
pub open spec fn spec_record_free(rec: WideRecord) -> FreeOp {
    FreeOp { addr: rec.record_addr, size: RECORD_SIZE, align: BUFFER_ALIGN }
}

/// The deallocation of the payload buffer described by `rec`.
pub open spec fn spec_payload_free(rec: WideRecord) -> FreeOp {
    FreeOp { addr: rec.data_ptr, size: rec.data_len, align: BUFFER_ALIGN }
}

/// The frees owed for `rec` under ownership tag `own`: both buffers, once
/// each, when ownership was transferred; none when it was retained.
pub open spec fn spec_frees(rec: WideRecord, own: Ownership) -> Seq<FreeOp> {
    match own {
        Ownership::Retained => Seq::<FreeOp>::empty(),
        Ownership::Transferred => seq![spec_record_free(rec), spec_payload_free(rec)],
    }
}

/// Plans the deallocations owed for the buffers of `rec` under `own`.
pub fn plan_frees(rec: &WideRecord, own: Ownership) -> (r: Vec<FreeOp>)
    ensures
        r@ == spec_frees(*rec, own),
{
    let mut r: Vec<FreeOp> = Vec::new();
    match own {
        Ownership::Retained => {},
        Ownership::Transferred => {
            r.push(FreeOp { addr: rec.record_addr, size: RECORD_SIZE, align: BUFFER_ALIGN });
            r.push(FreeOp { addr: rec.data_ptr, size: rec.data_len, align: BUFFER_ALIGN });
        },
    }
    proof {
        assert(r@ =~= spec_frees(*rec, own));
    }
    r
}

/// No-double-free law: one invocation of the handle-plus-argument call site
/// owes exactly two frees — the two-word record once and the payload buffer
/// once — and never more than two.
pub proof fn lemma_handle_site_frees_exactly_two(handle: u32, rec: WideRecord)
    ensures
        spec_frees(rec, spec_ownership_of(CallSite::WithHandle { handle })).len() == 2,
        spec_frees(rec, spec_ownership_of(CallSite::WithHandle { handle }))[0]
            == spec_record_free(rec),
        spec_frees(rec, spec_ownership_of(CallSite::WithHandle { handle }))[1]
            == spec_payload_free(rec),
{
}

/// No-free-on-retained-path law: the argument-only call site owes no free at
/// all — the callee keeps both buffers, and the guest must not release them.
pub proof fn lemma_argument_site_frees_none(rec: WideRecord)
    ensures
        spec_frees(rec, spec_ownership_of(CallSite::ArgumentOnly)).len() == 0,
{
}

} // verus!

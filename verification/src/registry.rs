//! The set of guest-callable items exposed at initialization.
//!
//! Initialization registers three globals with the script engine: a marker
//! flag saying the boundary is active, a wrapper for the argument-only
//! imported call, and a wrapper for the handle-plus-argument call. The
//! engine-facing registration itself is a thin adaptation layer in the
//! unverified embedding; this module is the model it follows, and it pins
//! the one property that matters there: registering is idempotent, so
//! running initialization twice exposes the same three callables as running
//! it once, with nothing duplicated or lost.

use vstd::prelude::*;

verus! {

/// One of the guest-callable items registered at initialization.
#[derive(Clone, Copy, PartialEq, Eq, Structural, Debug)]
pub enum Callable {
    /// The marker flag telling guest code the boundary is active.
    PluginMarker,
    /// The wrapper of the argument-only imported call.
    ImportedCall,
    /// The wrapper of the handle-plus-argument call.
    InvokeCall,
}

/// All callables that initialization exposes.
pub open spec fn spec_all_callables() -> Set<Callable> {
    set![Callable::PluginMarker, Callable::ImportedCall, Callable::InvokeCall]
}

/// Which guest-callable items have been registered so far.
#[derive(Clone, Copy, PartialEq, Eq, Structural, Debug)]
pub struct Registry {
    /// Whether the marker flag is registered.
    pub plugin_marker: bool,
    /// Whether the argument-only call wrapper is registered.
    pub imported_call: bool,
    /// Whether the handle-plus-argument call wrapper is registered.
    pub invoke_call: bool,
}

/// The state a registration step leaves behind, whatever it found: all three
/// callables exposed, each at most once.
pub open spec fn spec_register(r: Registry) -> Registry {
    Registry { plugin_marker: true, imported_call: true, invoke_call: true }
}

impl Registry {
    /// The set of callables this state exposes. A set by construction: no
    /// callable can be exposed twice.
    pub open spec fn exposed(self) -> Set<Callable> {
        Set::<Callable>::empty().union(
            if self.plugin_marker {
                set![Callable::PluginMarker]
            } else {
                Set::<Callable>::empty()
            },
        ).union(
            if self.imported_call {
                set![Callable::ImportedCall]
            } else {
                Set::<Callable>::empty()
            },
        ).union(
            if self.invoke_call {
                set![Callable::InvokeCall]
            } else {
                Set::<Callable>::empty()
            },
        )
    }

    /// A fresh runtime exposes nothing.
    pub fn new() -> (r: Registry)
        ensures
            r.exposed() =~= Set::<Callable>::empty(),
    {
        Registry { plugin_marker: false, imported_call: false, invoke_call: false }
    }

    /// Registers all three guest-callable items, whatever was registered
    /// before.
    pub fn register_all(&mut self)
        ensures
            *final(self) == spec_register(*old(self)),
            final(self).exposed() =~= spec_all_callables(),
    {
        self.plugin_marker = true;
        self.imported_call = true;
        self.invoke_call = true;
    }
}

/// Idempotent-registration law: registering on top of any prior state — in
/// particular, a second time on top of a first — exposes exactly the full
/// set of callables, the same as registering once, with no duplicates (the
/// exposed callables form a set) and nothing lost.
pub proof fn lemma_registration_idempotent(r: Registry)
    ensures
        spec_register(spec_register(r)) == spec_register(r),
        spec_register(r).exposed() =~= spec_all_callables(),
{
}

} // verus!

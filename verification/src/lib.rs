//! Scoped ownership of a native CEF sandbox-information handle.
//!
//! The native library hands out an opaque handle from a create entry point
//! and takes it back, exactly once, through a destroy entry point. This
//! crate holds the ownership discipline: which handle an instance stores,
//! which destroy call it owes, and that create and destroy always see the
//! same handle. The platform layer makes the foreign calls themselves; it
//! hands the created handle in and performs the destroy call that
//! `release` yields. On every platform but the target one no handle is
//! created, and the type is an inert stand-in that owes no call, so call
//! sites stay uniform.

use vstd::prelude::*;

verus! {

/// The lifecycle state of a scoped sandbox-information value: it either
/// owns the handle the native create call returned, or it is an inert
/// stand-in that owns nothing.
pub enum SandboxState {
    /// The instance owns `raw` and owes exactly one destroy call for it.
    Owning { raw: usize },
    /// No handle was created; no destroy call is owed.
    Inert,
}

/// The state an instance is in right after construction: owning the
/// handle the native create call returned, or inert where no call was
/// made.
pub open spec fn state_after_new(created: Option<usize>) -> SandboxState {
    match created {
        Some(raw) => SandboxState::Owning { raw },
        None => SandboxState::Inert,
    }
}

/// The destroy call a state owes when its owner is done: exactly the
/// owned handle, once, or no call at all for an inert stand-in.
pub open spec fn destroy_argument(s: SandboxState) -> Option<usize> {
    match s {
        SandboxState::Owning { raw } => Some(raw),
        SandboxState::Inert => None,
    }
}

/// Owns at most one native sandbox-information handle.
///
/// The type can neither be copied nor cloned, so each handle has a single
/// owner, and `release` consumes the instance, so the destroy call it
/// yields can be obtained at most once per construction: a double release
/// is ruled out structurally, not by a run-time flag.
pub struct CefScopedSandboxInfo {
    owned: Option<usize>,
}

impl View for CefScopedSandboxInfo {
    type V = SandboxState;

    closed spec fn view(&self) -> SandboxState {
        match self.owned {
            Some(raw) => SandboxState::Owning { raw },
            None => SandboxState::Inert,
        }
    }
}

impl CefScopedSandboxInfo {
    /// Takes ownership of the handle the native create call returned, or
    /// of nothing where no call was made (every platform but the target
    /// one). The handle is stored as it came: a null value is not
    /// rejected, since the native contract gives the caller nothing to
    /// inspect.
    pub fn new(created: Option<usize>) -> (s: Self)
        ensures
            s@ == state_after_new(created),
    {
        CefScopedSandboxInfo { owned: created }
    }

    /// The stored handle, unchanged; an inert instance reports the null
    /// value.
    pub fn ptr(&self) -> (p: usize)
        ensures
            p == (match self@ {
                SandboxState::Owning { raw } => raw,
                SandboxState::Inert => 0,
            }),
    {
        match self.owned {
            Some(raw) => raw,
            None => 0,
        }
    }

    /// Whether the instance owns a handle, and so owes a destroy call.
    pub fn owns_handle(&self) -> (b: bool)
        ensures
            b == (self@ is Owning),
    {
        self.owned.is_some()
    }

    /// Gives up ownership and yields the one destroy call the instance
    /// owes: `Some` of the stored handle, or `None` for an inert
    /// stand-in. Consuming `self` makes a second release of the same
    /// instance impossible.
    pub fn release(self) -> (d: Option<usize>)
        ensures
            d == destroy_argument(self@),
    {
        self.owned
    }
}

/// Law: each create call is paired with exactly one destroy call, and the
/// destroy call receives precisely the handle the create call returned —
/// no duplication, no mismatch.
pub proof fn lemma_destroy_matches_create(raw: usize)
    ensures
        destroy_argument(state_after_new(Some(raw))) == Some(raw),
{
}

/// Law: where no create call was made, no destroy call is owed —
/// off the target platform both construction and destruction are no-ops.
pub proof fn lemma_inert_owes_no_call()
    ensures
        destroy_argument(state_after_new(None)) == None::<usize>,
{
}

} // verus!

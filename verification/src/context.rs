//! The GPU context creation policy: which creation attempt a window's
//! graphics context comes from.
//!
//! Building a context bound to a window handle is tried first with the
//! primary API profile; if that attempt fails, it is retried once with the
//! reduced fallback profile. If the fallback attempt fails too, startup is
//! fatal: no window without a usable context is allowed to exist.

use vstd::prelude::*;

verus! {

/// The API profile a GPU context was requested with.
#[derive(Clone, Copy, PartialEq, Eq, Structural, Debug)]
pub enum ContextApiProfile {
    /// The primary, full API profile, tried first.
    Primary,
    /// The reduced fallback profile, tried once after a primary failure.
    Fallback,
}

/// Which context creation attempt a window uses: the primary profile
/// whenever its attempt succeeded, the fallback profile only after a
/// primary failure, and none — a fatal startup condition — when both
/// attempts failed.
pub open spec fn spec_selected_context(
    primary_succeeded: bool,
    fallback_succeeded: bool,
) -> Option<ContextApiProfile> {
    if primary_succeeded {
        Some(ContextApiProfile::Primary)
    } else if fallback_succeeded {
        Some(ContextApiProfile::Fallback)
    } else {
        None
    }
}

/// Decides which context creation attempt a window's graphics context
/// comes from, given whether each attempt succeeded. `None` means both
/// attempts failed and startup must abort.
pub fn select_context_attempt(primary_succeeded: bool, fallback_succeeded: bool) -> (choice:
    Option<ContextApiProfile>)
    ensures
        choice == spec_selected_context(primary_succeeded, fallback_succeeded),
{
    if primary_succeeded {
        Some(ContextApiProfile::Primary)
    } else if fallback_succeeded {
        Some(ContextApiProfile::Fallback)
    } else {
        None
    }
}

} // verus!

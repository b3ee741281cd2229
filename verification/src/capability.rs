//! Capability negotiation: selecting one GPU surface capability set from the
//! candidates offered by the graphics backend.
//!
//! Negotiation runs once at startup and the winner is shared, read-only, by
//! every window. The tie-break rule, applied pairwise left to right over the
//! candidates: a candidate supporting transparency beats one that does not,
//! regardless of sample count; among candidates with equal transparency
//! support, the lower sample count wins (cheaper is preferred).

use vstd::prelude::*;

verus! {

/// The negotiated, process-wide GPU surface attributes shared by all windows.
/// Immutable once chosen at startup.
#[derive(Clone, Copy, PartialEq, Eq, Structural, Debug)]
pub struct CapabilitySet {
    /// Whether the surface supports an alpha channel for window transparency.
    pub supports_transparency: bool,
    /// Multisample-antialiasing sample count of the surface.
    pub sample_count: u32,
    /// Stencil buffer depth, in bits.
    pub stencil_depth: u32,
}

/// The winner of one pairwise comparison: transparency support beats its
/// absence; with equal transparency support the lower sample count wins;
/// on a full tie the right-hand (later) candidate is kept.
pub open spec fn spec_prefer(a: CapabilitySet, b: CapabilitySet) -> CapabilitySet {
    if a.supports_transparency && !b.supports_transparency {
        a
    } else if b.supports_transparency && !a.supports_transparency {
        b
    } else if a.sample_count < b.sample_count {
        a
    } else {
        b
    }
}

/// The left-to-right pairwise reduction of a non-empty candidate sequence.
pub open spec fn spec_reduce(candidates: Seq<CapabilitySet>) -> CapabilitySet
    recommends
        candidates.len() > 0,
    decreases candidates.len(),
{
    if candidates.len() <= 1 {
        candidates[0]
    } else {
        spec_prefer(spec_reduce(candidates.drop_last()), candidates.last())
    }
}

/// The negotiation result over any candidate sequence: no usable candidate
/// (an empty offer) yields nothing, otherwise the pairwise winner.
pub open spec fn spec_negotiate(candidates: Seq<CapabilitySet>) -> Option<CapabilitySet> {
    if candidates.len() == 0 {
        None
    } else {
        Some(spec_reduce(candidates))
    }
}

impl CapabilitySet {
    /// Picks the winner of one pairwise comparison of capability sets.
    pub fn prefer(self, other: CapabilitySet) -> (winner: CapabilitySet)
        ensures
            winner == spec_prefer(self, other),
    {
        if self.supports_transparency && !other.supports_transparency {
            self
        } else if other.supports_transparency && !self.supports_transparency {
            other
        } else if self.sample_count < other.sample_count {
            self
        } else {
            other
        }
    }
}

/// Reduces the backend's candidate capability sets to the one the process
/// will use, or `None` when the backend offers no candidate at all, which
/// is a fatal startup condition for the caller.
pub fn negotiate(candidates: &Vec<CapabilitySet>) -> (winner: Option<CapabilitySet>)
    ensures
        winner == spec_negotiate(candidates@),
{
    if candidates.len() == 0 {
        return None;
    }
    let mut winner: CapabilitySet = candidates[0];
    let mut i: usize = 1;
    while i < candidates.len()
        invariant
            1 <= i <= candidates@.len(),
            winner == spec_reduce(candidates@.take(i as int)),
        decreases candidates@.len() - i,
    {
        proof {
            assert(candidates@.take(i + 1).drop_last() =~= candidates@.take(i as int));
            assert(candidates@.take(i + 1).last() == candidates@[i as int]);
        }
        winner = winner.prefer(candidates[i]);
        i = i + 1;
    }
    proof {
        assert(candidates@.take(candidates@.len() as int) =~= candidates@);
    }
    Some(winner)
}

/// Reduces the backend's candidate capability sets to the position of the
/// one the process will use, so the windowing layer can finalize the
/// backend configuration standing at that position. `None` exactly when
/// the backend offers no candidate, which is fatal for the caller.
pub fn negotiate_index(candidates: &Vec<CapabilitySet>) -> (winner: Option<usize>)
    ensures
        match winner {
            Some(i) => {
                &&& i < candidates@.len()
                &&& candidates@[i as int] == spec_reduce(candidates@)
                &&& spec_negotiate(candidates@) == Some(candidates@[i as int])
            },
            None => candidates@.len() == 0,
        },
{
    if candidates.len() == 0 {
        return None;
    }
    let mut winner: usize = 0;
    let mut i: usize = 1;
    while i < candidates.len()
        invariant
            1 <= i <= candidates@.len(),
            winner < i,
            candidates@[winner as int] == spec_reduce(candidates@.take(i as int)),
        decreases candidates@.len() - i,
    {
        proof {
            assert(candidates@.take(i + 1).drop_last() =~= candidates@.take(i as int));
            assert(candidates@.take(i + 1).last() == candidates@[i as int]);
        }
        let kept = candidates[winner].prefer(candidates[i]);
        if kept == candidates[i] {
            winner = i;
        } else {
            proof {
                assert(kept == candidates@[winner as int]);
            }
        }
        i = i + 1;
    }
    proof {
        assert(candidates@.take(candidates@.len() as int) =~= candidates@);
    }
    Some(winner)
}

/// A winning candidate is never beaten on transparency: whenever any
/// candidate supports transparency, so does the negotiated winner.
pub proof fn lemma_negotiate_transparency(candidates: Seq<CapabilitySet>, i: int)
    requires
        0 <= i < candidates.len(),
        candidates[i].supports_transparency,
    ensures
        spec_negotiate(candidates) matches Some(winner) && winner.supports_transparency,
    decreases candidates.len(),
{
    if candidates.len() <= 1 {
    } else {
        if i < candidates.len() - 1 {
            lemma_negotiate_transparency(candidates.drop_last(), i);
        }
    }
}

/// The negotiated winner is one of the candidates.
pub proof fn lemma_negotiate_member(candidates: Seq<CapabilitySet>)
    requires
        candidates.len() > 0,
    ensures
        spec_negotiate(candidates) matches Some(winner) && candidates.contains(winner),
    decreases candidates.len(),
{
    if candidates.len() <= 1 {
        assert(candidates.contains(candidates[0]));
    } else {
        lemma_negotiate_member(candidates.drop_last());
        let sub = spec_reduce(candidates.drop_last());
        let j = choose|j: int| 0 <= j < candidates.drop_last().len() && candidates.drop_last()[j] == sub;
        assert(candidates[j] == sub);
        assert(candidates[candidates.len() - 1] == candidates.last());
    }
}

} // verus!

//! The cache of sampler objects, one for each way of sampling a texture.

use vstd::prelude::*;
use crate::common::{FilterMode, WrapMode};

verus! {

/// The number of distinct sampler states.
pub const SAMPLER_STATES: usize = 20;

/// The position of a sampler state in the cache.
pub open spec fn state_index(wrap_mode: WrapMode, filter: FilterMode, mip_filter: FilterMode) -> nat {
    let wrap: nat = match wrap_mode {
        WrapMode::ClampToBorder => 0,
        WrapMode::ClampToEdge => 1,
        WrapMode::Repeat => 2,
        WrapMode::MirroredRepeat => 3,
        WrapMode::MirroredClamp => 4,
    };
    let min: nat = match filter {
        FilterMode::Linear => 0,
        FilterMode::Nearest => 1,
    };
    let mip: nat = match mip_filter {
        FilterMode::Linear => 0,
        FilterMode::Nearest => 1,
    };
    wrap * 4 + min * 2 + mip
}

/// Sampler objects by sampler state. A state has no object until one is
/// stored for it; the first one stored stays.
pub struct SamplerSet {
    slots: Vec<Option<u32>>,
}

impl View for SamplerSet {
    type V = Seq<Option<u32>>;

    closed spec fn view(&self) -> Seq<Option<u32>> {
        self.slots@
    }
}

impl SamplerSet {
    /// Every cache has a slot for each sampler state.
    pub open spec fn wf(&self) -> bool {
        self@.len() == SAMPLER_STATES
    }

    /// The sampler cached for a state, if any.
    pub open spec fn cached(&self, wrap_mode: WrapMode, filter: FilterMode, mip_filter: FilterMode) -> Option<u32> {
        self@[state_index(wrap_mode, filter, mip_filter) as int]
    }

    /// A cache without samplers.
    pub fn new() -> (set: SamplerSet)
        ensures
            set.wf(),
            forall|i: int| 0 <= i < SAMPLER_STATES ==> set@[i] is None,
    {
        let mut slots: Vec<Option<u32>> = Vec::new();
        let mut i: usize = 0;
        while i < SAMPLER_STATES
            invariant
                i <= SAMPLER_STATES,
                slots@.len() == i,
                forall|k: int| 0 <= k < i ==> slots@[k] is None,
            decreases SAMPLER_STATES - i,
        {
            slots.push(None);
            i = i + 1;
        }
        SamplerSet { slots }
    }

    /// The sampler cached for a state, if any.
    pub fn get(&self, wrap_mode: WrapMode, filter: FilterMode, mip_filter: FilterMode) -> (sampler: Option<u32>)
        requires
            self.wf(),
        ensures
            sampler == self.cached(wrap_mode, filter, mip_filter),
    {
        self.slots[slot(wrap_mode, filter, mip_filter)]
    }

    /// Stores `sampler` for a state that has none and returns the sampler
    /// that the state has afterwards: the one stored first.
    pub fn insert(&mut self, wrap_mode: WrapMode, filter: FilterMode, mip_filter: FilterMode, sampler: u32) -> (cached:
        u32)
        requires
            old(self).wf(),
        ensures
            final(self).wf(),
            cached == (match old(self).cached(wrap_mode, filter, mip_filter) {
                Some(first) => first,
                None => sampler,
            }),
            final(self)@ == old(self)@.update(state_index(wrap_mode, filter, mip_filter) as int, Some(cached)),
    {
        let at = slot(wrap_mode, filter, mip_filter);
        match self.slots[at] {
            Some(first) => {
                assert(self.slots@ =~= old(self).slots@.update(at as int, Some(first)));
                first
            },
            None => {
                self.slots.set(at, Some(sampler));
                sampler
            },
        }
    }
}

/// The position of a sampler state in the cache.
fn slot(wrap_mode: WrapMode, filter: FilterMode, mip_filter: FilterMode) -> (at: usize)
    ensures
        at == state_index(wrap_mode, filter, mip_filter),
        at < SAMPLER_STATES,
{
    let wrap: usize = match wrap_mode {
        WrapMode::ClampToBorder => 0,
        WrapMode::ClampToEdge => 1,
        WrapMode::Repeat => 2,
        WrapMode::MirroredRepeat => 3,
        WrapMode::MirroredClamp => 4,
    };
    let min: usize = match filter {
        FilterMode::Linear => 0,
        FilterMode::Nearest => 1,
    };
    let mip: usize = match mip_filter {
        FilterMode::Linear => 0,
        FilterMode::Nearest => 1,
    };
    wrap * 4 + min * 2 + mip
}

} // verus!

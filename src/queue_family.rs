//! Discovery of the queue families that serve graphics and presentation.
use vstd::prelude::*;

use crate::error::SuitabilityError;

verus! {

/// The graphics bit of a queue family's capability flags.
pub const QUEUE_GRAPHICS_BIT: u32 = 1;

pub open spec fn supports_graphics(flags: u32) -> bool {
    flags & QUEUE_GRAPHICS_BIT != 0
}

pub open spec fn has_graphics_family(flags: Seq<u32>) -> bool {
    exists|i: int| 0 <= i < flags.len() && supports_graphics(#[trigger] flags[i])
}

/// `i` is the first family that advertises graphics capability.
pub open spec fn is_first_graphics_family(flags: Seq<u32>, i: int) -> bool {
    &&& 0 <= i < flags.len()
    &&& supports_graphics(flags[i])
    &&& forall|k: int| 0 <= k < i ==> !supports_graphics(#[trigger] flags[k])
}

pub open spec fn has_present_family(support: Seq<bool>) -> bool {
    exists|i: int| 0 <= i < support.len() && #[trigger] support[i]
}

/// `i` is the first family that can present to the surface.
pub open spec fn is_first_present_family(support: Seq<bool>, i: int) -> bool {
    &&& 0 <= i < support.len()
    &&& support[i]
    &&& forall|k: int| 0 <= k < i ==> !#[trigger] support[k]
}

/// The queue families chosen for graphics and for presentation; they may coincide.
#[derive(Debug, Copy, Clone, PartialEq, Eq, Structural)]
pub struct QueueFamilyIndices {
    pub graphics: u32,
    pub present: u32,
}

/// The families that get one queue each: every discovered family once.
pub open spec fn spec_unique_families(indices: QueueFamilyIndices) -> Seq<u32> {
    if indices.graphics == indices.present {
        seq![indices.graphics]
    } else {
        seq![indices.graphics, indices.present]
    }
}

/// How swapchain images are shared between the queue families.
#[derive(Debug, Copy, Clone, PartialEq, Eq, Structural)]
pub enum SharingMode {
    /// One family owns the images.
    Exclusive,
    /// Both families use the images without ownership transfers.
    Concurrent,
}

impl QueueFamilyIndices {
    /// Scans the families once: graphics is the first family with the
    /// graphics bit in `queue_flags`, present the first one whose entry in
    /// `present_support` is true. Both must exist.
    pub fn get(queue_flags: &Vec<u32>, present_support: &Vec<bool>) -> (r: Result<
        QueueFamilyIndices,
        SuitabilityError,
    >)
        requires
            queue_flags@.len() <= u32::MAX,
            present_support@.len() <= u32::MAX,
        ensures
            r is Ok <==> has_graphics_family(queue_flags@) && has_present_family(
                present_support@,
            ),
            r is Ok ==> is_first_graphics_family(queue_flags@, r->Ok_0.graphics as int)
                && is_first_present_family(present_support@, r->Ok_0.present as int),
            r is Err ==> r == Err::<QueueFamilyIndices, _>(SuitabilityError::MissingQueueFamilies),
    {
        let mut graphics: Option<u32> = None;
        let mut i: usize = 0;
        while i < queue_flags.len()
            invariant
                i <= queue_flags@.len() <= u32::MAX,
                graphics is None ==> forall|k: int|
                    0 <= k < i ==> !supports_graphics(#[trigger] queue_flags@[k]),
                graphics is Some ==> is_first_graphics_family(
                    queue_flags@,
                    graphics->0 as int,
                ),
            decreases queue_flags@.len() - i,
        {
            if graphics.is_none() && queue_flags[i] & QUEUE_GRAPHICS_BIT != 0 {
                graphics = Some(i as u32);
            }
            i = i + 1;
        }
        let mut present: Option<u32> = None;
        let mut j: usize = 0;
        while j < present_support.len() && present.is_none()
            invariant
                j <= present_support@.len() <= u32::MAX,
                present is None ==> forall|k: int| 0 <= k < j ==> !#[trigger] present_support@[k],
                present is Some ==> is_first_present_family(present_support@, present->0 as int),
            decreases present_support@.len() - j + (if present is None { 1int } else { 0int }),
        {
            if present_support[j] {
                present = Some(j as u32);
            } else {
                j = j + 1;
            }
        }
        match (graphics, present) {
            (Some(g), Some(p)) => {
                assert(supports_graphics(queue_flags@[g as int]));
                assert(present_support@[p as int]);
                Ok(QueueFamilyIndices { graphics: g, present: p })
            },
            _ => Err(SuitabilityError::MissingQueueFamilies),
        }
    }

    /// The families to create queues for: one entry per distinct family.
    pub fn unique_families(&self) -> (r: Vec<u32>)
        ensures
            r@ == spec_unique_families(*self),
    {
        if self.graphics == self.present {
            vec![self.graphics]
        } else {
            vec![self.graphics, self.present]
        }
    }

    pub open spec fn spec_sharing_mode(self) -> SharingMode {
        if self.graphics == self.present {
            SharingMode::Exclusive
        } else {
            SharingMode::Concurrent
        }
    }

    /// Exclusive when one family serves both roles, concurrent otherwise.
    pub fn sharing_mode(&self) -> (r: SharingMode)
        ensures
            r == self.spec_sharing_mode(),
    {
        if self.graphics == self.present {
            SharingMode::Exclusive
        } else {
            SharingMode::Concurrent
        }
    }

    pub open spec fn spec_concurrent_families(self) -> Seq<u32> {
        if self.graphics == self.present {
            seq![]
        } else {
            seq![self.graphics, self.present]
        }
    }

    /// The families listed for concurrent sharing: none when exclusive.
    pub fn concurrent_families(&self) -> (r: Vec<u32>)
        ensures
            r@ == self.spec_concurrent_families(),
    {
        if self.graphics == self.present {
            Vec::new()
        } else {
            vec![self.graphics, self.present]
        }
    }
}

/// Every discovered pair of families yields exactly one queue when the two
/// roles share a family and exactly two otherwise, never the same family twice,
/// and every discovered family is among them.
pub proof fn lemma_one_queue_per_distinct_family(indices: QueueFamilyIndices)
    ensures
        indices.graphics == indices.present ==> spec_unique_families(indices).len() == 1,
        indices.graphics != indices.present ==> spec_unique_families(indices).len() == 2,
        spec_unique_families(indices).no_duplicates(),
        spec_unique_families(indices).contains(indices.graphics),
        spec_unique_families(indices).contains(indices.present),
{
    let s = spec_unique_families(indices);
    if indices.graphics == indices.present {
        assert(s[0] == indices.graphics);
    } else {
        assert(s[0] == indices.graphics);
        assert(s[1] == indices.present);
    }
}

} // verus!

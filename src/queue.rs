//! Queue families the renderer submits to.
use vstd::prelude::*;

verus! {

/// Families of the graphics and the present queue.
#[derive(Debug, Clone, Copy, PartialEq, Eq, Structural)]
pub struct QueueFamilyIndices {
    pub graphics_family: u32,
    pub present_family: u32,
}

impl QueueFamilyIndices {
    /// Both families, graphics first.
    pub fn all(&self) -> (r: [u32; 2])
        ensures
            r@ == seq![self.graphics_family, self.present_family],
    {
        [self.graphics_family, self.present_family]
    }
}

/// Families of the graphics, transfer and present queues.
#[derive(Debug, Clone, Copy, PartialEq, Eq, Structural)]
pub struct QueueFamilies {
    pub graphics: u32,
    pub transfer: u32,
    pub present: u32,
}

impl QueueFamilies {
    /// The families that share the swapchain images: graphics, present, transfer.
    pub fn indices(&self) -> (r: Vec<u32>)
        ensures
            r@ == seq![self.graphics, self.present, self.transfer],
    {
        let r = vec![self.graphics, self.present, self.transfer];
        assert(r@ =~= seq![self.graphics, self.present, self.transfer]);
        r
    }
}

/// `VK_QUEUE_GRAPHICS_BIT`.
pub const QUEUE_GRAPHICS: u32 = 0x1;

/// `VK_QUEUE_TRANSFER_BIT`.
pub const QUEUE_TRANSFER: u32 = 0x4;

/// `i` is the first family whose flags have every bit of `bit`.
pub open spec fn first_with_flag(queue_flags: Seq<u32>, bit: u32, i: int) -> bool {
    &&& 0 <= i < queue_flags.len()
    &&& queue_flags[i] & bit == bit
    &&& forall|j: int| 0 <= j < i ==> #[trigger] queue_flags[j] & bit != bit
}

pub open spec fn has_flag(queue_flags: Seq<u32>, bit: u32) -> bool {
    exists|i: int| 0 <= i < queue_flags.len() && #[trigger] queue_flags[i] & bit == bit
}

/// `i` is the first family that can present to the surface.
pub open spec fn first_presenting(present_support: Seq<bool>, i: int) -> bool {
    &&& 0 <= i < present_support.len()
    &&& present_support[i]
    &&& forall|j: int| 0 <= j < i ==> !#[trigger] present_support[j]
}

fn first_flagged(queue_flags: &Vec<u32>, bit: u32) -> (r: Option<u32>)
    requires
        queue_flags.len() <= u32::MAX,
    ensures
        r is None <==> !has_flag(queue_flags@, bit),
        r is Some ==> first_with_flag(queue_flags@, bit, r->0 as int),
{
    let mut i: usize = 0;
    while i < queue_flags.len()
        invariant
            i <= queue_flags.len() <= u32::MAX,
            forall|j: int| 0 <= j < i ==> #[trigger] queue_flags@[j] & bit != bit,
        decreases queue_flags.len() - i,
    {
        if queue_flags[i] & bit == bit {
            return Some(i as u32);
        }
        i = i + 1;
    }
    None
}

fn first_true(present_support: &Vec<bool>) -> (r: Option<u32>)
    requires
        present_support.len() <= u32::MAX,
    ensures
        r is None <==> !present_support@.contains(true),
        r is Some ==> first_presenting(present_support@, r->0 as int),
{
    let mut i: usize = 0;
    while i < present_support.len()
        invariant
            i <= present_support.len() <= u32::MAX,
            forall|j: int| 0 <= j < i ==> !#[trigger] present_support@[j],
        decreases present_support.len() - i,
    {
        if present_support[i] {
            assert(present_support@[i as int]);
            return Some(i as u32);
        }
        i = i + 1;
    }
    None
}

impl QueueFamilies {
    /// The first family able to do graphics, the first able to do transfers and
    /// the first able to present, from the device's per-family queue flags and
    /// per-family present support; `None` when one of them is missing.
    pub fn select(queue_flags: &Vec<u32>, present_support: &Vec<bool>) -> (r: Option<QueueFamilies>)
        requires
            queue_flags.len() <= u32::MAX,
            present_support.len() <= u32::MAX,
        ensures
            r is Some <==> has_flag(queue_flags@, QUEUE_GRAPHICS) && has_flag(
                queue_flags@,
                QUEUE_TRANSFER,
            ) && present_support@.contains(true),
            r is Some ==> first_with_flag(queue_flags@, QUEUE_GRAPHICS, r->0.graphics as int)
                && first_with_flag(queue_flags@, QUEUE_TRANSFER, r->0.transfer as int)
                && first_presenting(present_support@, r->0.present as int),
    {
        let graphics = match first_flagged(queue_flags, QUEUE_GRAPHICS) {
            Some(i) => i,
            None => return None,
        };
        let transfer = match first_flagged(queue_flags, QUEUE_TRANSFER) {
            Some(i) => i,
            None => return None,
        };
        let present = match first_true(present_support) {
            Some(i) => i,
            None => return None,
        };
        Some(QueueFamilies { graphics, transfer, present })
    }
}

} // verus!

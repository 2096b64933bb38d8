//! Choice of the device memory type for an allocation.
use vstd::prelude::*;

verus! {

/// The device reports at most this many memory types.
pub const MAX_MEMORY_TYPES: usize = 32;

/// Bit `i` of the filter a resource's memory requirements give is set.
pub open spec fn type_allowed(type_filter: u32, i: int) -> bool {
    (type_filter >> (i as u32)) & 1u32 == 1u32
}

/// `flags` has every property bit of `required`.
pub open spec fn has_properties(flags: u32, required: u32) -> bool {
    flags & required == required
}

pub open spec fn suitable(type_filter: u32, type_flags: Seq<u32>, required: u32, i: int) -> bool {
    &&& 0 <= i < type_flags.len()
    &&& i < MAX_MEMORY_TYPES
    &&& type_allowed(type_filter, i)
    &&& has_properties(type_flags[i], required)
}

/// The first memory type that the resource accepts and that has every required
/// property; `type_flags` holds the property bits of the device's memory types.
pub fn find_memory_type(type_filter: u32, type_flags: &Vec<u32>, required: u32) -> (r: Option<u32>)
    ensures
        r is None <==> forall|i: int| !suitable(type_filter, type_flags@, required, i),
        r is Some ==> suitable(type_filter, type_flags@, required, r->0 as int) && forall|i: int|
            0 <= i < r->0 ==> !suitable(type_filter, type_flags@, required, i),
{
    let n = if type_flags.len() < MAX_MEMORY_TYPES {
        type_flags.len()
    } else {
        MAX_MEMORY_TYPES
    };
    let mut i: usize = 0;
    while i < n
        invariant
            n <= type_flags.len(),
            n <= MAX_MEMORY_TYPES,
            n == type_flags.len() || n == MAX_MEMORY_TYPES,
            i <= n,
            forall|j: int| 0 <= j < i ==> !suitable(type_filter, type_flags@, required, j),
        decreases n - i,
    {
        if (type_filter >> (i as u32)) & 1u32 == 1u32 && type_flags[i] & required == required {
            assert(suitable(type_filter, type_flags@, required, i as int));
            return Some(i as u32);
        }
        i = i + 1;
    }
    None
}

} // verus!

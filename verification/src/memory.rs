//! GPU memory type selection.
//!
//! A GPU reports a small list of memory types (at most 32, one bit each in
//! the compatibility masks that resources report). Allocating backing memory
//! for a resource means picking the first type that is both permitted by the
//! resource's compatibility mask and carries every requested property flag.

use vstd::prelude::*;

use crate::RenderError;

verus! {

/// Memory property flag: memory local to the GPU.
pub const MEMORY_PROPERTY_DEVICE_LOCAL: u32 = 0x1;

/// Memory property flag: the CPU can map and write this memory.
pub const MEMORY_PROPERTY_HOST_VISIBLE: u32 = 0x2;

/// Memory property flag: CPU writes become visible to the GPU without an
/// explicit flush.
pub const MEMORY_PROPERTY_HOST_COHERENT: u32 = 0x4;

/// One memory type as the hardware reports it: a set of property flags.
#[derive(Clone, Copy, Debug, PartialEq, Eq, Structural)]
pub struct MemoryType {
    pub property_flags: u32,
}

/// The memory types a physical device offers, in hardware order.
#[derive(Clone, Debug)]
pub struct MemoryProperties {
    pub memory_types: Vec<MemoryType>,
}

/// Whether the compatibility mask permits memory type `i`.
pub open spec fn memory_type_allowed(allowed_memory_types: u32, i: int) -> bool {
    allowed_memory_types & (1u32 << (i as u32)) != 0
}

/// Whether the property flags `flags` include every flag of `requested`.
pub open spec fn has_all_properties(flags: u32, requested: u32) -> bool {
    flags & requested == requested
}

/// Whether memory type `i` both is permitted by the mask and has every
/// requested property.
pub open spec fn memory_type_suitable(
    memory_properties: MemoryProperties,
    allowed_memory_types: u32,
    requested_properties: u32,
    i: int,
) -> bool {
    &&& 0 <= i < memory_properties.memory_types@.len()
    &&& memory_type_allowed(allowed_memory_types, i)
    &&& has_all_properties(memory_properties.memory_types@[i].property_flags, requested_properties)
}

/// Finds the first memory type that is permitted by `allowed_memory_types`
/// and has all of `requested_properties`.
///
/// Succeeds with the lowest suitable index; fails with
/// `NoSuitableMemoryType` exactly when no type in range is suitable. The
/// caller must surface that failure as a fatal setup error: there is no
/// fallback.
pub fn find_memory_type(
    memory_properties: &MemoryProperties,
    allowed_memory_types: u32,
    requested_properties: u32,
) -> (r: Result<u32, RenderError>)
    requires
        memory_properties.memory_types@.len() <= 32,
    ensures
        r matches Ok(i) ==> {
            &&& memory_type_suitable(
                *memory_properties,
                allowed_memory_types,
                requested_properties,
                i as int,
            )
            &&& forall|j: int|
                0 <= j < i ==> !memory_type_suitable(
                    *memory_properties,
                    allowed_memory_types,
                    requested_properties,
                    j,
                )
        },
        r matches Err(e) ==> {
            &&& e == RenderError::NoSuitableMemoryType
            &&& forall|j: int|
                !memory_type_suitable(
                    *memory_properties,
                    allowed_memory_types,
                    requested_properties,
                    j,
                )
        },
{
    let number_of_different_memory_types = memory_properties.memory_types.len();
    let mut memory_type_index: usize = 0;
    while memory_type_index < number_of_different_memory_types
        invariant
            number_of_different_memory_types == memory_properties.memory_types@.len() <= 32,
            memory_type_index <= number_of_different_memory_types,
            forall|j: int|
                0 <= j < memory_type_index ==> !memory_type_suitable(
                    *memory_properties,
                    allowed_memory_types,
                    requested_properties,
                    j,
                ),
        decreases number_of_different_memory_types - memory_type_index,
    {
        let memory_type_is_allowed =
            (allowed_memory_types & (1u32 << (memory_type_index as u32))) != 0;
        if memory_type_is_allowed {
            let memory_type_properties =
                memory_properties.memory_types[memory_type_index].property_flags;
            let has_all_desired_properties =
                (memory_type_properties & requested_properties) == requested_properties;
            if has_all_desired_properties {
                return Ok(memory_type_index as u32);
            }
        }
        memory_type_index += 1;
    }
    Err(RenderError::NoSuitableMemoryType)
}

} // verus!

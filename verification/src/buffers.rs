//! Data-filled buffer creation.
//!
//! Filling a GPU buffer with CPU data means creating the buffer, querying
//! its memory requirements, picking a host-visible and host-coherent memory
//! type, allocating and binding, then copying the caller's bytes through
//! the mapped allocation. The mapped allocation is modelled here as a byte
//! vector; the shell performs the raw copy exactly as the model states it,
//! and host coherence means what was written is what is read back, with no
//! explicit flush.

use vstd::prelude::*;

use crate::RenderError;
use crate::memory::{
    MEMORY_PROPERTY_HOST_COHERENT, MEMORY_PROPERTY_HOST_VISIBLE, MemoryProperties,
    find_memory_type, memory_type_suitable,
};

verus! {

/// Buffer usage flag: source of a transfer.
pub const BUFFER_USAGE_TRANSFER_SRC: u32 = 0x1;

/// Buffer usage flag: vertex input.
pub const BUFFER_USAGE_VERTEX_BUFFER: u32 = 0x80;

/// Buffer usage flag: index input.
pub const BUFFER_USAGE_INDEX_BUFFER: u32 = 0x40;

/// Buffer usage flag: uniform data.
pub const BUFFER_USAGE_UNIFORM_BUFFER: u32 = 0x10;

/// What the device reports about the memory a buffer or image needs: how
/// many bytes the allocation must have, and a mask of the memory types that
/// may back it.
#[derive(Clone, Copy, Debug, PartialEq, Eq, Structural)]
pub struct MemoryRequirements {
    pub size: u64,
    pub memory_type_bits: u32,
}

/// A host-visible, host-coherent allocation while mapped: the bytes the CPU
/// sees through the mapping.
#[derive(Clone, Debug)]
pub struct MappedMemory {
    pub bytes: Vec<u8>,
}

/// A buffer whose backing memory has been filled with the caller's data:
/// the chosen memory type, the allocation, and what the allocation holds.
#[derive(Clone, Debug)]
pub struct FilledBuffer {
    pub usage_flags: u32,
    pub memory_type_index: u32,
    pub allocation_size: u64,
    pub contents: MappedMemory,
}

/// Copies `data_slice` into the front of a mapped allocation, leaving the
/// bytes past the copy untouched.
pub fn copy_to_mapped(data_slice: &Vec<u8>, mapped: &mut MappedMemory)
    requires
        data_slice@.len() <= old(mapped).bytes@.len(),
    ensures
        final(mapped).bytes@ == data_slice@ + old(mapped).bytes@.skip(data_slice@.len() as int),
{
    let mut i: usize = 0;
    while i < data_slice.len()
        invariant
            data_slice@.len() <= mapped.bytes@.len(),
            mapped.bytes@.len() == old(mapped).bytes@.len(),
            i <= data_slice@.len(),
            forall|j: int| 0 <= j < i ==> mapped.bytes@[j] == data_slice@[j],
            forall|j: int|
                i <= j < mapped.bytes@.len() ==> mapped.bytes@[j] == old(mapped).bytes@[j],
        decreases data_slice@.len() - i,
    {
        let b = data_slice[i];
        mapped.bytes.set(i, b);
        i += 1;
    }
    assert(mapped.bytes@ =~= data_slice@ + old(mapped).bytes@.skip(data_slice@.len() as int));
}

/// Reads the first `count` bytes back out of a mapped allocation.
pub fn read_back_mapped(mapped: &MappedMemory, count: usize) -> (r: Vec<u8>)
    requires
        count <= mapped.bytes@.len(),
    ensures
        r@ == mapped.bytes@.take(count as int),
{
    let mut out: Vec<u8> = Vec::new();
    let mut i: usize = 0;
    while i < count
        invariant
            count <= mapped.bytes@.len(),
            i <= count,
            out@.len() == i,
            forall|j: int| 0 <= j < i ==> out@[j] == mapped.bytes@[j],
        decreases count - i,
    {
        out.push(mapped.bytes[i]);
        i += 1;
    }
    assert(out@ =~= mapped.bytes@.take(count as int));
    out
}

/// Round trip through a mapped allocation: reading back as many bytes as
/// were copied in yields exactly the bytes that went in. Host-coherent
/// memory adds nothing to write or read, so this is the whole story of the
/// data-filled-buffer path.
pub proof fn lemma_mapped_copy_round_trip(data: Seq<u8>, previous: Seq<u8>)
    requires
        data.len() <= previous.len(),
    ensures
        (data + previous.skip(data.len() as int)).take(data.len() as int) == data,
{
    assert((data + previous.skip(data.len() as int)).take(data.len() as int) =~= data);
}

/// Builds the model of a filled buffer: picks the first host-visible,
/// host-coherent memory type the requirements permit, allocates the
/// reported size, and copies the caller's bytes in. Fails exactly when no
/// permitted memory type is host-visible and host-coherent.
///
/// The shell passes the requirements its driver reported for the created
/// buffer; a driver never reports less than the requested size, which is
/// the length of the data, and this function requires as much.
pub fn allocate_and_fill_buffer(
    data_slice: &Vec<u8>,
    buffer_usage_flags: u32,
    requirements: &MemoryRequirements,
    memory_properties: &MemoryProperties,
) -> (r: Result<FilledBuffer, RenderError>)
    requires
        memory_properties.memory_types@.len() <= 32,
        data_slice@.len() <= requirements.size,
        requirements.size <= usize::MAX,
    ensures
        r matches Ok(b) ==> {
            &&& b.usage_flags == buffer_usage_flags
            &&& memory_type_suitable(
                *memory_properties,
                requirements.memory_type_bits,
                MEMORY_PROPERTY_HOST_VISIBLE | MEMORY_PROPERTY_HOST_COHERENT,
                b.memory_type_index as int,
            )
            &&& forall|j: int|
                0 <= j < b.memory_type_index ==> !memory_type_suitable(
                    *memory_properties,
                    requirements.memory_type_bits,
                    MEMORY_PROPERTY_HOST_VISIBLE | MEMORY_PROPERTY_HOST_COHERENT,
                    j,
                )
            &&& b.allocation_size == requirements.size
            &&& b.contents.bytes@.len() == requirements.size
            &&& b.contents.bytes@.take(data_slice@.len() as int) == data_slice@
        },
        r matches Err(e) ==> {
            &&& e == RenderError::NoSuitableMemoryType
            &&& forall|j: int|
                !memory_type_suitable(
                    *memory_properties,
                    requirements.memory_type_bits,
                    MEMORY_PROPERTY_HOST_VISIBLE | MEMORY_PROPERTY_HOST_COHERENT,
                    j,
                )
        },
{
    let desired_properties = MEMORY_PROPERTY_HOST_VISIBLE | MEMORY_PROPERTY_HOST_COHERENT;
    let memory_type_index = find_memory_type(
        memory_properties,
        requirements.memory_type_bits,
        desired_properties,
    )?;
    let mut mapped = MappedMemory { bytes: zeroed_bytes(requirements.size as usize) };
    copy_to_mapped(data_slice, &mut mapped);
    proof {
        lemma_mapped_copy_round_trip(
            data_slice@,
            Seq::new(requirements.size as nat, |i: int| 0u8),
        );
    }
    Ok(
        FilledBuffer {
            usage_flags: buffer_usage_flags,
            memory_type_index,
            allocation_size: requirements.size,
            contents: mapped,
        },
    )
}

/// A fresh allocation before the copy: `count` zero bytes.
fn zeroed_bytes(count: usize) -> (r: Vec<u8>)
    ensures
        r@.len() == count,
        forall|j: int| 0 <= j < count ==> r@[j] == 0u8,
{
    let mut out: Vec<u8> = Vec::new();
    let mut i: usize = 0;
    while i < count
        invariant
            i <= count,
            out@.len() == i,
            forall|j: int| 0 <= j < i ==> out@[j] == 0u8,
        decreases count - i,
    {
        out.push(0u8);
        i += 1;
    }
    out
}

} // verus!

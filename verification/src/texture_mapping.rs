//! Staged texture upload.
//!
//! A decoded pixel buffer (4 bytes per pixel) travels to a device-local
//! image in three stages: a host-visible staging buffer is filled with the
//! bytes, a one-shot command buffer transitions the image from its
//! undefined initial layout to transfer-destination, copies the staging
//! buffer in, and transitions the image to shader-read-only; the queue is
//! then idled before the staging buffer and its memory are destroyed. The
//! synchronous idle wait is a deliberate simplification that couples the
//! CPU to the GPU during load; streaming would need asynchronous fencing.

use vstd::prelude::*;

use crate::RenderError;
use crate::buffers::{
    BUFFER_USAGE_TRANSFER_SRC, FilledBuffer, MemoryRequirements, allocate_and_fill_buffer,
};
use crate::memory::{
    MEMORY_PROPERTY_DEVICE_LOCAL, MEMORY_PROPERTY_HOST_COHERENT, MEMORY_PROPERTY_HOST_VISIBLE,
    MemoryProperties, find_memory_type, memory_type_suitable,
};
use crate::swapchain::ImageViewConfig;

verus! {

/// Pixel format identifier: 8-bit RGBA with sRGB encoding.
pub const FORMAT_R8G8B8A8_SRGB: u32 = 43;

/// Image usage flag: destination of a transfer.
pub const IMAGE_USAGE_TRANSFER_DST: u32 = 0x2;

/// Image usage flag: sampled by shaders.
pub const IMAGE_USAGE_SAMPLED: u32 = 0x4;

/// Bytes each decoded pixel occupies.
pub const BYTES_PER_PIXEL: u64 = 4;

/// The configuration of the device-local texture image: two-dimensional,
/// fixed sRGB format, no mipmaps, single layer and sample, optimally
/// tiled, usable as a transfer destination and a sampled texture, starting
/// in the undefined layout.
#[derive(Clone, Copy, Debug, PartialEq, Eq, Structural)]
pub struct ImageConfig {
    pub width: u32,
    pub height: u32,
    pub format: u32,
    pub mip_levels: u32,
    pub array_layers: u32,
    pub samples: u32,
    pub optimal_tiling: bool,
    pub usage_flags: u32,
    pub exclusive_sharing: bool,
    pub undefined_initial_layout: bool,
}

/// The memory backing the texture image: the chosen device-local memory
/// type and the allocation size the driver asked for.
#[derive(Clone, Copy, Debug, PartialEq, Eq, Structural)]
pub struct ImageAllocation {
    pub memory_type_index: u32,
    pub allocation_size: u64,
}

/// One step of the staged upload, in the order the shell must perform
/// them.
#[derive(Clone, Copy, Debug, PartialEq, Eq, Structural)]
pub enum TransferStep {
    /// Pipeline barrier: undefined layout to transfer-destination-optimal.
    TransitionUndefinedToTransferDst { image: u64 },
    /// Copy the whole staging buffer into the image.
    CopyBufferToImage { buffer: u64, image: u64, width: u32, height: u32 },
    /// Pipeline barrier: transfer-destination-optimal to
    /// shader-read-only-optimal.
    TransitionTransferDstToShaderRead { image: u64 },
    /// Block until the submitting queue has finished the one-shot commands.
    WaitQueueIdle,
    /// Destroy the staging buffer handle (before its memory).
    DestroyBuffer { buffer: u64 },
    /// Free the staging buffer's memory (after its handle).
    FreeMemory { memory: u64 },
}

/// Whether `len` is exactly `width * height * 4`, the size of a decoded
/// 4-byte-per-pixel buffer.
pub open spec fn pixel_data_matches(len: nat, width: u32, height: u32) -> bool {
    len == width * height * BYTES_PER_PIXEL
}

/// Fills a host-visible staging buffer with a decoded pixel buffer.
///
/// Fails with `InvalidPixelData` exactly when the byte count is not
/// `width * height * 4`; otherwise behaves as the data-filled-buffer path
/// does, with transfer-source usage: the buffer is backed by the first
/// host-visible, host-coherent memory type the requirements permit, and
/// the call fails with `NoSuitableMemoryType` exactly when no permitted
/// type has both properties.
pub fn create_and_fill_staging_buffer(
    image_bytes: &Vec<u8>,
    width: u32,
    height: u32,
    requirements: &MemoryRequirements,
    memory_properties: &MemoryProperties,
) -> (r: Result<FilledBuffer, RenderError>)
    requires
        memory_properties.memory_types@.len() <= 32,
        image_bytes@.len() <= requirements.size,
        requirements.size <= usize::MAX,
    ensures
        !pixel_data_matches(image_bytes@.len(), width, height) <==> r == Err::<
            FilledBuffer,
            RenderError,
        >(RenderError::InvalidPixelData),
        r matches Ok(b) ==> {
            &&& b.usage_flags == BUFFER_USAGE_TRANSFER_SRC
            &&& b.contents.bytes@.take(image_bytes@.len() as int) == image_bytes@
            &&& b.allocation_size == requirements.size
            &&& memory_type_suitable(
                *memory_properties,
                requirements.memory_type_bits,
                MEMORY_PROPERTY_HOST_VISIBLE | MEMORY_PROPERTY_HOST_COHERENT,
                b.memory_type_index as int,
            )
            &&& forall|j: int|
                0 <= j < b.memory_type_index ==> !memory_type_suitable(
                    *memory_properties,
                    requirements.memory_type_bits,
                    MEMORY_PROPERTY_HOST_VISIBLE | MEMORY_PROPERTY_HOST_COHERENT,
                    j,
                )
        },
        r matches Err(e) ==> e == RenderError::InvalidPixelData || (e
            == RenderError::NoSuitableMemoryType && forall|j: int|
            !memory_type_suitable(
                *memory_properties,
                requirements.memory_type_bits,
                MEMORY_PROPERTY_HOST_VISIBLE | MEMORY_PROPERTY_HOST_COHERENT,
                j,
            )),
{
    if !byte_count_matches_extent(image_bytes.len(), width, height) {
        return Err(RenderError::InvalidPixelData);
    }
    allocate_and_fill_buffer(
        image_bytes,
        BUFFER_USAGE_TRANSFER_SRC,
        requirements,
        memory_properties,
    )
}

/// Describes the device-local texture image for a decoded pixel buffer.
pub fn create_image(width: u32, height: u32) -> (r: ImageConfig)
    ensures
        r == (ImageConfig {
            width,
            height,
            format: FORMAT_R8G8B8A8_SRGB,
            mip_levels: 1,
            array_layers: 1,
            samples: 1,
            optimal_tiling: true,
            usage_flags: IMAGE_USAGE_TRANSFER_DST | IMAGE_USAGE_SAMPLED,
            exclusive_sharing: true,
            undefined_initial_layout: true,
        }),
{
    ImageConfig {
        width,
        height,
        format: FORMAT_R8G8B8A8_SRGB,
        mip_levels: 1,
        array_layers: 1,
        samples: 1,
        optimal_tiling: true,
        usage_flags: IMAGE_USAGE_TRANSFER_DST | IMAGE_USAGE_SAMPLED,
        exclusive_sharing: true,
        undefined_initial_layout: true,
    }
}

/// Picks the backing memory for the texture image: the first device-local
/// memory type the image's requirements permit, at the size the driver
/// asked for. Fails exactly when no permitted type is device-local.
pub fn allocate_and_bind_image_device_memory(
    requirements: &MemoryRequirements,
    memory_properties: &MemoryProperties,
) -> (r: Result<ImageAllocation, RenderError>)
    requires
        memory_properties.memory_types@.len() <= 32,
    ensures
        r matches Ok(a) ==> {
            &&& memory_type_suitable(
                *memory_properties,
                requirements.memory_type_bits,
                MEMORY_PROPERTY_DEVICE_LOCAL,
                a.memory_type_index as int,
            )
            &&& forall|j: int|
                0 <= j < a.memory_type_index ==> !memory_type_suitable(
                    *memory_properties,
                    requirements.memory_type_bits,
                    MEMORY_PROPERTY_DEVICE_LOCAL,
                    j,
                )
            &&& a.allocation_size == requirements.size
        },
        r matches Err(e) ==> {
            &&& e == RenderError::NoSuitableMemoryType
            &&& forall|j: int|
                !memory_type_suitable(
                    *memory_properties,
                    requirements.memory_type_bits,
                    MEMORY_PROPERTY_DEVICE_LOCAL,
                    j,
                )
        },
{
    let memory_type_index = find_memory_type(
        memory_properties,
        requirements.memory_type_bits,
        MEMORY_PROPERTY_DEVICE_LOCAL,
    )?;
    Ok(ImageAllocation { memory_type_index, allocation_size: requirements.size })
}

/// Describes the shader-facing view of the texture image: identity channel
/// mapping, one mip level, one array layer, in the texture's format.
pub fn create_image_view(image: u64) -> (r: ImageViewConfig)
    ensures
        r == (ImageViewConfig {
            image,
            format: FORMAT_R8G8B8A8_SRGB,
            identity_swizzle: true,
            base_mip_level: 0,
            mip_level_count: 1,
            base_array_layer: 0,
            array_layer_count: 1,
        }),
{
    ImageViewConfig {
        image,
        format: FORMAT_R8G8B8A8_SRGB,
        identity_swizzle: true,
        base_mip_level: 0,
        mip_level_count: 1,
        base_array_layer: 0,
        array_layer_count: 1,
    }
}

/// Plans the one-shot transfer that moves the staged bytes into the image:
/// barrier to transfer-destination, copy, barrier to shader-read-only,
/// idle-wait, and only then the staging buffer's destruction — handle
/// first, memory second.
pub fn transfer_image_data(
    staging_buffer: u64,
    staging_memory: u64,
    image: u64,
    width: u32,
    height: u32,
) -> (r: Vec<TransferStep>)
    ensures
        r@ == seq![
            TransferStep::TransitionUndefinedToTransferDst { image },
            TransferStep::CopyBufferToImage { buffer: staging_buffer, image, width, height },
            TransferStep::TransitionTransferDstToShaderRead { image },
            TransferStep::WaitQueueIdle,
            TransferStep::DestroyBuffer { buffer: staging_buffer },
            TransferStep::FreeMemory { memory: staging_memory },
        ],
{
    let mut steps: Vec<TransferStep> = Vec::new();
    steps.push(TransferStep::TransitionUndefinedToTransferDst { image });
    steps.push(
        TransferStep::CopyBufferToImage { buffer: staging_buffer, image, width, height },
    );
    steps.push(TransferStep::TransitionTransferDstToShaderRead { image });
    steps.push(TransferStep::WaitQueueIdle);
    steps.push(TransferStep::DestroyBuffer { buffer: staging_buffer });
    steps.push(TransferStep::FreeMemory { memory: staging_memory });
    assert(steps@ =~= seq![
        TransferStep::TransitionUndefinedToTransferDst { image },
        TransferStep::CopyBufferToImage { buffer: staging_buffer, image, width, height },
        TransferStep::TransitionTransferDstToShaderRead { image },
        TransferStep::WaitQueueIdle,
        TransferStep::DestroyBuffer { buffer: staging_buffer },
        TransferStep::FreeMemory { memory: staging_memory },
    ]);
    steps
}

/// Runs the computing part of the texture path on an already decoded pixel
/// buffer: validates its size against its stated dimensions and fills the
/// staging buffer. The shell decodes the file and hands the bytes in.
///
/// Succeeds exactly when the byte count matches the dimensions and some
/// permitted memory type is host-visible and host-coherent; each error
/// names which of the two was missing.
pub fn check_working(
    image_bytes: &Vec<u8>,
    width: u32,
    height: u32,
    requirements: &MemoryRequirements,
    memory_properties: &MemoryProperties,
) -> (r: Result<FilledBuffer, RenderError>)
    requires
        memory_properties.memory_types@.len() <= 32,
        image_bytes@.len() <= requirements.size,
        requirements.size <= usize::MAX,
    ensures
        !pixel_data_matches(image_bytes@.len(), width, height) <==> r == Err::<
            FilledBuffer,
            RenderError,
        >(RenderError::InvalidPixelData),
        r matches Ok(b) ==> {
            &&& b.usage_flags == BUFFER_USAGE_TRANSFER_SRC
            &&& b.contents.bytes@.take(image_bytes@.len() as int) == image_bytes@
            &&& b.allocation_size == requirements.size
            &&& memory_type_suitable(
                *memory_properties,
                requirements.memory_type_bits,
                MEMORY_PROPERTY_HOST_VISIBLE | MEMORY_PROPERTY_HOST_COHERENT,
                b.memory_type_index as int,
            )
            &&& forall|j: int|
                0 <= j < b.memory_type_index ==> !memory_type_suitable(
                    *memory_properties,
                    requirements.memory_type_bits,
                    MEMORY_PROPERTY_HOST_VISIBLE | MEMORY_PROPERTY_HOST_COHERENT,
                    j,
                )
        },
        r matches Err(e) ==> e == RenderError::InvalidPixelData || (e
            == RenderError::NoSuitableMemoryType && forall|j: int|
            !memory_type_suitable(
                *memory_properties,
                requirements.memory_type_bits,
                MEMORY_PROPERTY_HOST_VISIBLE | MEMORY_PROPERTY_HOST_COHERENT,
                j,
            )),
{
    create_and_fill_staging_buffer(image_bytes, width, height, requirements, memory_properties)
}

/// Whether `len` bytes are exactly enough for `width * height` pixels of 4
/// bytes, computed without overflow by comparing quarters.
fn byte_count_matches_extent(len: usize, width: u32, height: u32) -> (r: bool)
    ensures
        r == pixel_data_matches(len as nat, width, height),
{
    proof {
        assert((width as u64) * (height as u64) < 0x10000000000000000) by (nonlinear_arith)
            requires
                width <= u32::MAX,
                height <= u32::MAX,
        ;
    }
    let pixel_count = (width as u64) * (height as u64);
    proof {
        assert(len as nat == width * height * BYTES_PER_PIXEL <==> (len as u64 % 4 == 0 && len
            as u64 / 4 == pixel_count)) by (nonlinear_arith)
            requires
                pixel_count == width * height,
                len <= usize::MAX,
        ;
    }
    len as u64 % 4 == 0 && len as u64 / 4 == pixel_count
}

} // verus!

//! Physical device selection.
//!
//! Every available GPU is evaluated against a suitability predicate: it must
//! have a graphics-capable queue family, a family that can present to the
//! bound surface, every required device extension, and at least one surface
//! format and one presentation mode. The first suitable device is selected;
//! the others are rejected individually without being fatal. Only when no
//! device is suitable does selection fail as a whole.

use vstd::prelude::*;

use crate::RenderError;
use crate::queue_families::{
    QueueFamilyInfo, RequiredQueueFamilies, has_graphics_family, has_presentation_family,
};

verus! {

/// Why one particular device was rejected.
#[derive(Clone, Copy, Debug)]
pub struct SuitabilityError(pub &'static str);

/// What device selection needs to know about one GPU, gathered by the shell
/// from the device and the bound surface.
#[derive(Clone, Debug)]
pub struct GpuInfo {
    /// The device's queue families, in hardware order.
    pub queue_families: Vec<QueueFamilyInfo>,
    /// The device extensions the GPU supports, as opaque identifiers.
    pub extensions: Vec<u64>,
    /// How many surface formats the GPU reports for the bound surface.
    pub surface_format_count: usize,
    /// How many presentation modes the GPU reports for the bound surface.
    pub present_mode_count: usize,
}

/// Whether every required extension occurs among the available ones.
pub open spec fn extensions_supported(available: Seq<u64>, required: Seq<u64>) -> bool {
    forall|i: int| 0 <= i < required.len() ==> available.contains(required[i])
}

/// The full suitability predicate of device selection.
pub open spec fn gpu_suitable(gpu: GpuInfo, required_extensions: Seq<u64>) -> bool {
    &&& has_graphics_family(gpu.queue_families@)
    &&& has_presentation_family(gpu.queue_families@)
    &&& extensions_supported(gpu.extensions@, required_extensions)
    &&& gpu.surface_format_count > 0
    &&& gpu.present_mode_count > 0
}

/// Checks that every required extension is available, failing exactly when
/// one is missing.
pub fn check_gpu_extensions(
    available_extensions: &Vec<u64>,
    required_extensions: &Vec<u64>,
) -> (r: Result<(), SuitabilityError>)
    ensures
        r is Ok <==> extensions_supported(available_extensions@, required_extensions@),
        r matches Err(e) ==> e.0@ == "Missing required GPU extensions."@,
{
    let mut i: usize = 0;
    while i < required_extensions.len()
        invariant
            i <= required_extensions@.len(),
            forall|j: int|
                0 <= j < i ==> available_extensions@.contains(required_extensions@[j]),
        decreases required_extensions@.len() - i,
    {
        if !contains_id(available_extensions, required_extensions[i]) {
            return Err(SuitabilityError("Missing required GPU extensions."));
        }
        i += 1;
    }
    Ok(())
}

/// Evaluates the whole suitability predicate for one GPU, reporting the
/// first failing requirement.
pub fn check_gpu(gpu: &GpuInfo, required_extensions: &Vec<u64>) -> (r: Result<
    (),
    SuitabilityError,
>)
    requires
        gpu.queue_families@.len() <= u32::MAX,
    ensures
        r is Ok <==> gpu_suitable(*gpu, required_extensions@),
        r matches Err(e) ==> {
            let queues_ok = has_graphics_family(gpu.queue_families@) && has_presentation_family(
                gpu.queue_families@,
            );
            let extensions_ok = extensions_supported(gpu.extensions@, required_extensions@);
            &&& !queues_ok ==> e.0@ == "Missing required queue families."@
            &&& queues_ok && !extensions_ok ==> e.0@ == "Missing required GPU extensions."@
            &&& queues_ok && extensions_ok ==> e.0@ == "Insufficient swapchain support."@
        },
{
    if let Err(_) = RequiredQueueFamilies::get(&gpu.queue_families) {
        return Err(SuitabilityError("Missing required queue families."));
    }
    check_gpu_extensions(&gpu.extensions, required_extensions)?;
    if gpu.surface_format_count == 0 || gpu.present_mode_count == 0 {
        return Err(SuitabilityError("Insufficient swapchain support."));
    }
    Ok(())
}

/// Whether this GPU fails the suitability predicate.
pub fn gpu_not_have_required_properties(gpu: &GpuInfo, required_extensions: &Vec<u64>) -> (r:
    bool)
    requires
        gpu.queue_families@.len() <= u32::MAX,
    ensures
        r == !gpu_suitable(*gpu, required_extensions@),
{
    if let Err(_) = check_gpu(gpu, required_extensions) {
        true
    } else {
        false
    }
}

/// Selects the first suitable GPU, returning its index in `gpus`.
///
/// Unsuitable devices before it are rejected without being fatal; the whole
/// selection fails with `NoSuitableDevice` exactly when no device is
/// suitable.
pub fn choose_gpu(gpus: &Vec<GpuInfo>, required_extensions: &Vec<u64>) -> (r: Result<
    usize,
    RenderError,
>)
    requires
        forall|i: int| 0 <= i < gpus@.len() ==> gpus@[i].queue_families@.len() <= u32::MAX,
    ensures
        r matches Ok(i) ==> {
            &&& i < gpus@.len()
            &&& gpu_suitable(gpus@[i as int], required_extensions@)
            &&& forall|j: int| 0 <= j < i ==> !gpu_suitable(gpus@[j], required_extensions@)
        },
        r matches Err(e) ==> {
            &&& e == RenderError::NoSuitableDevice
            &&& forall|j: int|
                0 <= j < gpus@.len() ==> !gpu_suitable(gpus@[j], required_extensions@)
        },
{
    let mut i: usize = 0;
    while i < gpus.len()
        invariant
            forall|k: int| 0 <= k < gpus@.len() ==> gpus@[k].queue_families@.len() <= u32::MAX,
            i <= gpus@.len(),
            forall|j: int| 0 <= j < i ==> !gpu_suitable(gpus@[j], required_extensions@),
        decreases gpus@.len() - i,
    {
        if !gpu_not_have_required_properties(&gpus[i], required_extensions) {
            return Ok(i);
        }
        i += 1;
    }
    Err(RenderError::NoSuitableDevice)
}

/// Whether `id` occurs in `ids`.
fn contains_id(ids: &Vec<u64>, id: u64) -> (r: bool)
    ensures
        r == ids@.contains(id),
{
    let mut i: usize = 0;
    while i < ids.len()
        invariant
            i <= ids@.len(),
            forall|j: int| 0 <= j < i ==> ids@[j] != id,
        decreases ids@.len() - i,
    {
        if ids[i] == id {
            assert(ids@.contains(id));
            return true;
        }
        i += 1;
    }
    assert(!ids@.contains(id));
    false
}

} // verus!

use render_core::RenderError;
use render_core::gpu::{
    GpuInfo, check_gpu, check_gpu_extensions, choose_gpu, gpu_not_have_required_properties,
};
use render_core::memory::{
    MEMORY_PROPERTY_DEVICE_LOCAL, MEMORY_PROPERTY_HOST_COHERENT, MEMORY_PROPERTY_HOST_VISIBLE,
    MemoryProperties, MemoryType, find_memory_type,
};
use render_core::queue_families::{
    QueueFamilyInfo, RequiredQueueFamilies, queue_family_indexes_not_empty,
};

fn memory_properties(flags: &[u32]) -> MemoryProperties {
    MemoryProperties {
        memory_types: flags.iter().map(|f| MemoryType { property_flags: *f }).collect(),
    }
}

#[test]
fn find_memory_type_picks_first_suitable() {
    let props = memory_properties(&[
        MEMORY_PROPERTY_DEVICE_LOCAL,
        MEMORY_PROPERTY_HOST_VISIBLE | MEMORY_PROPERTY_HOST_COHERENT,
        MEMORY_PROPERTY_HOST_VISIBLE | MEMORY_PROPERTY_HOST_COHERENT,
    ]);
    let requested = MEMORY_PROPERTY_HOST_VISIBLE | MEMORY_PROPERTY_HOST_COHERENT;
    assert_eq!(find_memory_type(&props, 0b111, requested), Ok(1));
}

#[test]
fn find_memory_type_respects_compatibility_mask() {
    let props = memory_properties(&[
        MEMORY_PROPERTY_HOST_VISIBLE,
        MEMORY_PROPERTY_HOST_VISIBLE,
    ]);
    // Index 0 is suitable by properties but excluded by the mask.
    assert_eq!(find_memory_type(&props, 0b10, MEMORY_PROPERTY_HOST_VISIBLE), Ok(1));
}

#[test]
fn find_memory_type_requires_all_properties() {
    let props = memory_properties(&[
        MEMORY_PROPERTY_HOST_VISIBLE,
        MEMORY_PROPERTY_HOST_VISIBLE | MEMORY_PROPERTY_HOST_COHERENT,
    ]);
    let requested = MEMORY_PROPERTY_HOST_VISIBLE | MEMORY_PROPERTY_HOST_COHERENT;
    assert_eq!(find_memory_type(&props, 0b11, requested), Ok(1));
}

#[test]
fn find_memory_type_fails_when_nothing_matches() {
    let props = memory_properties(&[MEMORY_PROPERTY_DEVICE_LOCAL, 0]);
    assert_eq!(
        find_memory_type(&props, 0b11, MEMORY_PROPERTY_HOST_VISIBLE),
        Err(RenderError::NoSuitableMemoryType)
    );
}

#[test]
fn find_memory_type_fails_on_empty_mask() {
    let props = memory_properties(&[MEMORY_PROPERTY_HOST_VISIBLE]);
    assert_eq!(
        find_memory_type(&props, 0, MEMORY_PROPERTY_HOST_VISIBLE),
        Err(RenderError::NoSuitableMemoryType)
    );
}

fn family(graphics: bool, presentation: bool) -> QueueFamilyInfo {
    QueueFamilyInfo { supports_graphics: graphics, supports_presentation: presentation }
}

#[test]
fn queue_families_picks_first_of_each_capability() {
    let families = vec![
        family(false, false),
        family(true, false),
        family(true, true),
        family(false, true),
    ];
    let picked = RequiredQueueFamilies::get(&families).unwrap();
    assert_eq!(picked.graphics_queue_index, 1);
    assert_eq!(picked.presentation_queue_index, 2);
}

#[test]
fn queue_families_may_coincide() {
    let families = vec![family(true, true)];
    let picked = RequiredQueueFamilies::get(&families).unwrap();
    assert_eq!(picked.graphics_queue_index, 0);
    assert_eq!(picked.presentation_queue_index, 0);
}

#[test]
fn queue_families_missing_graphics_fails() {
    let families = vec![family(false, true)];
    assert_eq!(
        RequiredQueueFamilies::get(&families),
        Err(RenderError::NoSuitableQueueFamily)
    );
}

#[test]
fn queue_families_missing_presentation_fails() {
    let families = vec![family(true, false)];
    assert_eq!(
        RequiredQueueFamilies::get(&families),
        Err(RenderError::NoSuitableQueueFamily)
    );
}

#[test]
fn queue_family_indexes_not_empty_needs_both() {
    assert!(queue_family_indexes_not_empty(Some(0), Some(1)));
    assert!(!queue_family_indexes_not_empty(None, Some(1)));
    assert!(!queue_family_indexes_not_empty(Some(0), None));
    assert!(!queue_family_indexes_not_empty(None, None));
}

#[test]
fn shared_queue_indices_for_distinct_families() {
    let indices = RequiredQueueFamilies { graphics_queue_index: 1, presentation_queue_index: 2 };
    assert_eq!(indices.shared_queue_indices(), vec![1, 2]);
    let same = RequiredQueueFamilies { graphics_queue_index: 1, presentation_queue_index: 1 };
    assert_eq!(same.shared_queue_indices(), Vec::<u32>::new());
}

#[test]
fn unique_queue_indices_deduplicates() {
    let same = RequiredQueueFamilies { graphics_queue_index: 3, presentation_queue_index: 3 };
    assert_eq!(same.unique_queue_indices(), vec![3]);
    let distinct = RequiredQueueFamilies { graphics_queue_index: 3, presentation_queue_index: 4 };
    assert_eq!(distinct.unique_queue_indices(), vec![3, 4]);
}

fn suitable_gpu() -> GpuInfo {
    GpuInfo {
        queue_families: vec![family(true, true)],
        extensions: vec![100, 200],
        surface_format_count: 2,
        present_mode_count: 2,
    }
}

#[test]
fn check_gpu_accepts_suitable_device() {
    assert!(check_gpu(&suitable_gpu(), &vec![100]).is_ok());
}

#[test]
fn check_gpu_reports_missing_queue_families() {
    let mut gpu = suitable_gpu();
    gpu.queue_families = vec![family(true, false)];
    let err = check_gpu(&gpu, &vec![100]).unwrap_err();
    assert_eq!(err.0, "Missing required queue families.");
}

#[test]
fn check_gpu_reports_missing_extensions() {
    let err = check_gpu(&suitable_gpu(), &vec![999]).unwrap_err();
    assert_eq!(err.0, "Missing required GPU extensions.");
}

#[test]
fn check_gpu_reports_insufficient_swapchain_support() {
    let mut gpu = suitable_gpu();
    gpu.surface_format_count = 0;
    let err = check_gpu(&gpu, &vec![100]).unwrap_err();
    assert_eq!(err.0, "Insufficient swapchain support.");
}

#[test]
fn check_gpu_extensions_wants_every_required_extension() {
    assert!(check_gpu_extensions(&vec![1, 2, 3], &vec![2, 3]).is_ok());
    assert!(check_gpu_extensions(&vec![1, 2], &vec![2, 3]).is_err());
    assert!(check_gpu_extensions(&vec![], &vec![]).is_ok());
}

#[test]
fn choose_gpu_takes_first_suitable_device() {
    let mut unsuitable = suitable_gpu();
    unsuitable.present_mode_count = 0;
    let gpus = vec![unsuitable, suitable_gpu(), suitable_gpu()];
    assert_eq!(choose_gpu(&gpus, &vec![100]), Ok(1));
}

#[test]
fn choose_gpu_fails_when_no_device_is_suitable() {
    let mut unsuitable = suitable_gpu();
    unsuitable.extensions = vec![];
    let gpus = vec![unsuitable];
    assert_eq!(choose_gpu(&gpus, &vec![100]), Err(RenderError::NoSuitableDevice));
    assert_eq!(choose_gpu(&Vec::new(), &vec![100]), Err(RenderError::NoSuitableDevice));
}

#[test]
fn gpu_not_have_required_properties_mirrors_check() {
    assert!(!gpu_not_have_required_properties(&suitable_gpu(), &vec![100]));
    let mut bad = suitable_gpu();
    bad.present_mode_count = 0;
    assert!(gpu_not_have_required_properties(&bad, &vec![100]));
}

#[test]
fn render_error_messages_are_diagnostic() {
    assert_eq!(
        RenderError::NoSuitableMemoryType.message(),
        "Failed to find a suitable memory type."
    );
    assert_eq!(RenderError::NoSuitableDevice.message(), "Failed to find suitable GPU.");
}

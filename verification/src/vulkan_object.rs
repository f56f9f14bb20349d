//! The application core: per-frame synchronization and the presentation
//! lifecycle.
//!
//! The core tracks, for each of the `MAX_FRAMES_IN_FLIGHT` frame slots, the
//! state of its in-flight fence, and for each presentable image, which
//! slot's fence last claimed it. One frame advances through: wait for the
//! slot's fence; acquire an image (recreating the chain instead when the
//! surface is out of date); wait for the fence that last claimed that
//! image; claim it, reset the slot's fence and submit; present, recreating
//! the chain when presentation reports the surface out of date; advance the
//! slot counter. The unverified shell performs each GPU call and reports
//! its outcome; the core decides every step and is the single holder of
//! the protocol state.

use vstd::prelude::*;

use crate::MAX_FRAMES_IN_FLIGHT;
use crate::RenderError;
use crate::queue_families::RequiredQueueFamilies;
use crate::swapchain::{
    Extent2D, SwapchainSupport, chosen_extent, chosen_format, create_swapchain,
};

verus! {

/// The model of one slot's in-flight fence: signaled when the GPU has
/// finished the slot's last submission (or none was made), pending from
/// submission until the GPU signals it.
#[derive(Clone, Copy, Debug, PartialEq, Eq, Structural)]
pub enum FenceStatus {
    Signaled,
    Pending,
}

/// What acquiring the next presentable image reported.
#[derive(Clone, Copy, Debug, PartialEq, Eq, Structural)]
pub enum AcquireOutcome {
    /// An image is available, with its index in the chain.
    Image { image_index: u32 },
    /// The surface is incompatible with the chain; recreate instead of
    /// rendering.
    OutOfDate,
    /// Any other acquire failure: terminal.
    Failure,
}

/// What presenting the rendered image reported.
#[derive(Clone, Copy, Debug, PartialEq, Eq, Structural)]
pub enum PresentOutcome {
    Success,
    /// The image was presented but the chain no longer matches the surface
    /// optimally. Policy here, as in the steady-state sequence: treated as
    /// success, not as a recreation trigger.
    Suboptimal,
    /// The surface is incompatible; the image was not presented.
    OutOfDate,
    /// Any other presentation failure: terminal.
    Failure,
}

/// What one pass through the frame routine did.
#[derive(Clone, Copy, Debug, PartialEq, Eq, Structural)]
pub struct FrameReport {
    /// How many swapchain recreation cycles ran (zero or one).
    pub recreations: u32,
    /// Whether a command buffer was submitted this frame.
    pub submitted: bool,
    /// Whether the image was handed to the presentation engine.
    pub presented: bool,
}

/// The handles and protocol state the application owns. Handles are the
/// shell's opaque identifiers; a zero handle means absent. The fence and
/// claim vectors are the protocol state this core maintains.
#[derive(Clone, Debug)]
pub struct VulkanApplicationData {
    pub surface: u64,
    /// Zero when validation is disabled and no messenger exists.
    pub debug_messenger: u64,
    pub swapchain: u64,
    pub swapchain_format: u32,
    pub swapchain_extent: Extent2D,
    pub swapchain_images: Vec<u64>,
    pub swapchain_image_views: Vec<u64>,
    pub render_pass: u64,
    pub pipeline_layout: u64,
    pub pipeline: u64,
    pub framebuffers: Vec<u64>,
    pub command_pool: u64,
    pub command_buffers: Vec<u64>,
    /// One in-flight fence per frame slot.
    pub in_flight_fences: Vec<FenceStatus>,
    /// For each presentable image, the slot whose fence last claimed it.
    pub images_in_flight: Vec<Option<usize>>,
}

/// Everything the shell creates when it builds a chain: the chain handle
/// and the per-image resources, all as opaque identifiers.
#[derive(Clone, Debug)]
pub struct SwapchainParts {
    pub swapchain: u64,
    pub images: Vec<u64>,
    pub image_views: Vec<u64>,
    pub render_pass: u64,
    pub pipeline_layout: u64,
    pub pipeline: u64,
    pub framebuffers: Vec<u64>,
    pub command_buffers: Vec<u64>,
}

/// Structural validity of freshly created chain resources: a non-null
/// chain, at least one image, and one view, framebuffer and command buffer
/// per image.
pub open spec fn parts_valid(parts: SwapchainParts) -> bool {
    &&& parts.swapchain != 0
    &&& parts.images@.len() > 0
    &&& parts.image_views@.len() == parts.images@.len()
    &&& parts.framebuffers@.len() == parts.images@.len()
    &&& parts.command_buffers@.len() == parts.images@.len()
}

/// Structural validity of the presentation bundle: a non-null chain and
/// per-image resources in matching numbers. The bundle is built and torn
/// down as a whole, so this holds between any two lifecycle operations.
pub open spec fn bundle_well_formed(data: VulkanApplicationData) -> bool {
    &&& data.swapchain != 0
    &&& data.swapchain_images@.len() > 0
    &&& data.swapchain_image_views@.len() == data.swapchain_images@.len()
    &&& data.framebuffers@.len() == data.swapchain_images@.len()
    &&& data.command_buffers@.len() == data.swapchain_images@.len()
}

/// Validity of the protocol state: one fence per frame slot, one claim
/// entry per presentable image, and every claim naming a real slot.
pub open spec fn sync_well_formed(data: VulkanApplicationData) -> bool {
    &&& data.in_flight_fences@.len() == MAX_FRAMES_IN_FLIGHT
    &&& data.images_in_flight@.len() == data.swapchain_images@.len()
    &&& forall|i: int|
        0 <= i < data.images_in_flight@.len() ==> (#[trigger] data.images_in_flight@[i] matches Some(
            s,
        ) ==> s < MAX_FRAMES_IN_FLIGHT)
}

/// How many fences are in the submitted-but-not-yet-signaled state.
pub open spec fn count_pending(fences: Seq<FenceStatus>) -> int
    decreases fences.len(),
{
    if fences.len() == 0 {
        0
    } else {
        count_pending(fences.drop_last()) + if fences.last() is Pending {
            1int
        } else {
            0int
        }
    }
}

/// No more fences can be pending than exist.
pub proof fn lemma_count_pending_le_len(fences: Seq<FenceStatus>)
    ensures
        0 <= count_pending(fences) <= fences.len(),
    decreases fences.len(),
{
    if fences.len() > 0 {
        lemma_count_pending_le_len(fences.drop_last());
    }
}

/// The frame-slot invariant: at all times, at most `MAX_FRAMES_IN_FLIGHT`
/// fences are in the submitted-but-not-yet-signaled state, because only
/// that many in-flight fences exist at all.
pub proof fn lemma_frames_in_flight_bounded(data: VulkanApplicationData)
    requires
        sync_well_formed(data),
    ensures
        count_pending(data.in_flight_fences@) <= MAX_FRAMES_IN_FLIGHT,
{
    lemma_count_pending_le_len(data.in_flight_fences@);
}

/// Whether `image_index` may be handed to a new command buffer: either no
/// fence ever claimed it, or the fence that last claimed it has signaled.
pub open spec fn image_fence_clear(data: VulkanApplicationData, image_index: int) -> bool
    recommends
        sync_well_formed(data),
        0 <= image_index < data.images_in_flight@.len(),
{
    data.images_in_flight@[image_index] matches Some(s) ==> data.in_flight_fences@[s as int]
        is Signaled
}

/// Creates the protocol state for fresh synchronization objects: one fence
/// per frame slot, created in the signaled state so the first wait on each
/// slot returns at once, and no image claimed by any fence yet.
pub fn create_sync_objects(image_count: usize) -> (r: (Vec<FenceStatus>, Vec<Option<usize>>))
    ensures
        r.0@.len() == MAX_FRAMES_IN_FLIGHT,
        forall|i: int| 0 <= i < r.0@.len() ==> r.0@[i] is Signaled,
        r.1@.len() == image_count,
        forall|i: int| 0 <= i < r.1@.len() ==> r.1@[i] is None,
{
    let mut fences: Vec<FenceStatus> = Vec::new();
    let mut slot: usize = 0;
    while slot < MAX_FRAMES_IN_FLIGHT
        invariant
            slot <= MAX_FRAMES_IN_FLIGHT,
            fences@.len() == slot,
            forall|i: int| 0 <= i < slot ==> fences@[i] is Signaled,
        decreases MAX_FRAMES_IN_FLIGHT - slot,
    {
        fences.push(FenceStatus::Signaled);
        slot += 1;
    }
    let mut claims: Vec<Option<usize>> = Vec::new();
    let mut i: usize = 0;
    while i < image_count
        invariant
            i <= image_count,
            claims@.len() == i,
            forall|j: int| 0 <= j < i ==> claims@[j] is None,
        decreases image_count - i,
    {
        claims.push(None);
        i += 1;
    }
    (fences, claims)
}

/// The application core: the owned handles and protocol state, what the
/// surface last reported, the window's pixel size, the chosen queue
/// families, the active frame slot, and the pending-resize flag the shell
/// sets from its event loop.
#[derive(Clone, Debug)]
pub struct VulkanApplication {
    pub data: VulkanApplicationData,
    pub support: SwapchainSupport,
    pub window_extent: Extent2D,
    pub indices: RequiredQueueFamilies,
    pub frame: usize,
    pub resized: bool,
}

impl VulkanApplication {
    /// Validity of the whole core between frames.
    pub open spec fn well_formed(self) -> bool {
        &&& bundle_well_formed(self.data)
        &&& sync_well_formed(self.data)
        &&& self.frame < MAX_FRAMES_IN_FLIGHT
        &&& self.support.formats@.len() > 0
        &&& self.support.capabilities.min_image_count < u32::MAX
    }

    /// Assembles the application core around the chain resources the shell
    /// created, with fresh synchronization state. Fails with
    /// `ResourceCreationFailed` exactly when the resources are not
    /// structurally valid. Device selection has already guaranteed at
    /// least one surface format.
    pub fn create_vulkan_application(
        surface: u64,
        debug_messenger: u64,
        command_pool: u64,
        indices: RequiredQueueFamilies,
        support: SwapchainSupport,
        window_extent: Extent2D,
        parts: SwapchainParts,
    ) -> (r: Result<VulkanApplication, RenderError>)
        requires
            support.formats@.len() > 0,
            support.capabilities.min_image_count < u32::MAX,
        ensures
            r is Ok <==> parts_valid(parts),
            r matches Err(e) ==> e == RenderError::ResourceCreationFailed,
            r matches Ok(app) ==> {
                &&& app.well_formed()
                &&& app.frame == 0
                &&& !app.resized
                &&& app.support == support
                &&& app.window_extent == window_extent
                &&& app.indices == indices
                &&& app.data.surface == surface
                &&& app.data.debug_messenger == debug_messenger
                &&& app.data.command_pool == command_pool
                &&& app.data.swapchain == parts.swapchain
                &&& app.data.swapchain_images == parts.images
                &&& app.data.swapchain_image_views == parts.image_views
                &&& app.data.render_pass == parts.render_pass
                &&& app.data.pipeline_layout == parts.pipeline_layout
                &&& app.data.pipeline == parts.pipeline
                &&& app.data.framebuffers == parts.framebuffers
                &&& app.data.command_buffers == parts.command_buffers
                &&& app.data.swapchain_format == chosen_format(support.formats@).format
                &&& app.data.swapchain_extent == chosen_extent(
                    window_extent,
                    support.capabilities,
                )
                &&& forall|i: int|
                    0 <= i < app.data.in_flight_fences@.len()
                        ==> app.data.in_flight_fences@[i] is Signaled
                &&& forall|i: int|
                    0 <= i < app.data.images_in_flight@.len()
                        ==> app.data.images_in_flight@[i] is None
            },
    {
        if !swapchain_parts_valid(&parts) {
            return Err(RenderError::ResourceCreationFailed);
        }
        let config = create_swapchain(window_extent, &support, &indices);
        let (in_flight_fences, images_in_flight) = create_sync_objects(parts.images.len());
        let data = VulkanApplicationData {
            surface,
            debug_messenger,
            swapchain: parts.swapchain,
            swapchain_format: config.format,
            swapchain_extent: config.extent,
            swapchain_images: parts.images,
            swapchain_image_views: parts.image_views,
            render_pass: parts.render_pass,
            pipeline_layout: parts.pipeline_layout,
            pipeline: parts.pipeline,
            framebuffers: parts.framebuffers,
            command_pool,
            command_buffers: parts.command_buffers,
            in_flight_fences,
            images_in_flight,
        };
        Ok(
            VulkanApplication {
                data,
                support,
                window_extent,
                indices,
                frame: 0,
                resized: false,
            },
        )
    }
}

/// What the shell must submit to the graphics queue for one frame: the
/// pre-recorded command buffer of the acquired image, waiting on the
/// slot's image-available semaphore at the color-attachment-output stage,
/// signaling the slot's render-finished semaphore, with the slot's fence
/// as the completion signal.
#[derive(Clone, Copy, Debug, PartialEq, Eq, Structural)]
pub struct SubmitPlan {
    pub command_buffer: u64,
    pub wait_semaphore_slot: usize,
    pub color_attachment_output_wait_stage: bool,
    pub signal_semaphore_slot: usize,
    pub fence_slot: usize,
}

/// What the shell must hand to the presentation queue: the chain, the
/// acquired image's index, waiting on the slot's render-finished
/// semaphore.
#[derive(Clone, Copy, Debug, PartialEq, Eq, Structural)]
pub struct PresentPlan {
    pub swapchain: u64,
    pub image_index: u32,
    pub wait_semaphore_slot: usize,
}

/// Everything outside the three pieces of per-frame protocol state (the
/// fences, the claims, the slot counter) is the same in `post` as in
/// `pre`.
pub open spec fn only_sync_state_changed(pre: VulkanApplication, post: VulkanApplication) -> bool {
    &&& post.data.surface == pre.data.surface
    &&& post.data.debug_messenger == pre.data.debug_messenger
    &&& post.data.swapchain == pre.data.swapchain
    &&& post.data.swapchain_format == pre.data.swapchain_format
    &&& post.data.swapchain_extent == pre.data.swapchain_extent
    &&& post.data.swapchain_images == pre.data.swapchain_images
    &&& post.data.swapchain_image_views == pre.data.swapchain_image_views
    &&& post.data.render_pass == pre.data.render_pass
    &&& post.data.pipeline_layout == pre.data.pipeline_layout
    &&& post.data.pipeline == pre.data.pipeline
    &&& post.data.framebuffers == pre.data.framebuffers
    &&& post.data.command_pool == pre.data.command_pool
    &&& post.data.command_buffers == pre.data.command_buffers
    &&& post.support == pre.support
    &&& post.window_extent == pre.window_extent
    &&& post.indices == pre.indices
    &&& post.resized == pre.resized
}

/// The chain resources in `post` are exactly the freshly created `parts`;
/// what does not belong to the chain (surface, pool, the per-slot fences)
/// is carried over from `pre`.
pub open spec fn bundle_fields_replaced(
    pre: VulkanApplicationData,
    parts: SwapchainParts,
    post: VulkanApplicationData,
) -> bool {
    &&& post.swapchain == parts.swapchain
    &&& post.swapchain_images == parts.images
    &&& post.swapchain_image_views == parts.image_views
    &&& post.render_pass == parts.render_pass
    &&& post.pipeline_layout == parts.pipeline_layout
    &&& post.pipeline == parts.pipeline
    &&& post.framebuffers == parts.framebuffers
    &&& post.command_buffers == parts.command_buffers
    &&& post.surface == pre.surface
    &&& post.debug_messenger == pre.debug_messenger
    &&& post.command_pool == pre.command_pool
    &&& post.in_flight_fences == pre.in_flight_fences
}

/// What one recreation cycle does to the core: the chain resources are
/// replaced by the fresh parts, format and extent are renegotiated from
/// the stored surface report and window size, the image-claim list is
/// resized to the new image count and cleared, and everything else —
/// including the frame slot and the per-slot fences — is untouched.
pub open spec fn recreated_state(
    pre: VulkanApplication,
    parts: SwapchainParts,
    post: VulkanApplication,
) -> bool {
    &&& bundle_fields_replaced(pre.data, parts, post.data)
    &&& post.data.swapchain_format == chosen_format(pre.support.formats@).format
    &&& post.data.swapchain_extent == chosen_extent(pre.window_extent, pre.support.capabilities)
    &&& post.data.images_in_flight@.len() == parts.images@.len()
    &&& forall|i: int|
        0 <= i < post.data.images_in_flight@.len() ==> post.data.images_in_flight@[i] is None
    &&& post.support == pre.support
    &&& post.window_extent == pre.window_extent
    &&& post.indices == pre.indices
    &&& post.frame == pre.frame
    &&& post.resized == pre.resized
}

impl VulkanApplication {
    /// Models step one of a frame: block until the active slot's fence is
    /// signaled. The shell performs the actual wait; afterwards the
    /// slot's fence is signaled and nothing else has moved.
    pub fn wait_for_current_fence(&mut self)
        requires
            old(self).well_formed(),
        ensures
            final(self).well_formed(),
            only_sync_state_changed(*old(self), *final(self)),
            final(self).frame == old(self).frame,
            final(self).data.images_in_flight == old(self).data.images_in_flight,
            final(self).data.in_flight_fences@ == old(self).data.in_flight_fences@.update(
                old(self).frame as int,
                FenceStatus::Signaled,
            ),
    {
        let slot = self.frame;
        self.data.in_flight_fences.set(slot, FenceStatus::Signaled);
    }

    /// Models step three of a frame: if the acquired image was last
    /// claimed by a still-pending fence, block until that fence signals.
    /// Afterwards the image is clear for reuse.
    pub fn wait_for_image_fence(&mut self, image_index: usize)
        requires
            old(self).well_formed(),
            image_index < old(self).data.images_in_flight@.len(),
        ensures
            final(self).well_formed(),
            only_sync_state_changed(*old(self), *final(self)),
            final(self).frame == old(self).frame,
            final(self).data.images_in_flight == old(self).data.images_in_flight,
            image_fence_clear(final(self).data, image_index as int),
            ({
                let claim = old(self).data.images_in_flight@[image_index as int];
                match claim {
                    Some(s) => final(self).data.in_flight_fences@ == old(self).data.in_flight_fences@.update(s as int, FenceStatus::Signaled),
                    None => final(self).data.in_flight_fences@ == old(self).data.in_flight_fences@,
                }
            }),
    {
        if let Some(slot) = self.data.images_in_flight[image_index] {
            self.data.in_flight_fences.set(slot, FenceStatus::Signaled);
        }
    }

    /// Models steps four and five of a frame: record that the active
    /// slot's fence now claims the image, reset that fence and submit the
    /// image's pre-recorded command buffer.
    ///
    /// The requirement that the image's previous fence has signaled is the
    /// image-reuse invariant: an image index is never handed to a new
    /// submission while the fence that last claimed it is pending.
    pub fn submit_frame(&mut self, image_index: usize) -> (r: SubmitPlan)
        requires
            old(self).well_formed(),
            image_index < old(self).data.images_in_flight@.len(),
            old(self).data.in_flight_fences@[old(self).frame as int] is Signaled,
            image_fence_clear(old(self).data, image_index as int),
        ensures
            final(self).well_formed(),
            only_sync_state_changed(*old(self), *final(self)),
            final(self).frame == old(self).frame,
            final(self).data.images_in_flight@ == old(self).data.images_in_flight@.update(
                image_index as int,
                Some(old(self).frame),
            ),
            final(self).data.in_flight_fences@ == old(self).data.in_flight_fences@.update(
                old(self).frame as int,
                FenceStatus::Pending,
            ),
            r == (SubmitPlan {
                command_buffer: old(self).data.command_buffers@[image_index as int],
                wait_semaphore_slot: old(self).frame,
                color_attachment_output_wait_stage: true,
                signal_semaphore_slot: old(self).frame,
                fence_slot: old(self).frame,
            }),
    {
        let slot = self.frame;
        self.data.images_in_flight.set(image_index, Some(slot));
        self.data.in_flight_fences.set(slot, FenceStatus::Pending);
        SubmitPlan {
            command_buffer: self.data.command_buffers[image_index],
            wait_semaphore_slot: slot,
            color_attachment_output_wait_stage: true,
            signal_semaphore_slot: slot,
            fence_slot: slot,
        }
    }

    /// Describes the presentation of the acquired image on the
    /// presentation queue, waiting on the active slot's render-finished
    /// semaphore.
    pub fn present_image_to_swapchain(&self, image_index: u32) -> (r: PresentPlan)
        ensures
            r == (PresentPlan {
                swapchain: self.data.swapchain,
                image_index,
                wait_semaphore_slot: self.frame,
            }),
    {
        PresentPlan {
            swapchain: self.data.swapchain,
            image_index,
            wait_semaphore_slot: self.frame,
        }
    }

    /// Models step seven of a frame: advance the slot counter, keeping the
    /// rotation consistent whether or not the chain was recreated.
    pub fn advance_frame(&mut self)
        requires
            old(self).well_formed(),
        ensures
            final(self).well_formed(),
            only_sync_state_changed(*old(self), *final(self)),
            final(self).data.images_in_flight == old(self).data.images_in_flight,
            final(self).data.in_flight_fences == old(self).data.in_flight_fences,
            final(self).frame == (old(self).frame + 1) % (MAX_FRAMES_IN_FLIGHT as int),
    {
        self.frame = (self.frame + 1) % MAX_FRAMES_IN_FLIGHT;
    }

    /// One recreation cycle: after the shell has idled the device, torn
    /// the old chain down and created fresh resources, this installs them,
    /// renegotiates format and extent from the stored surface report, and
    /// clears the image-claim list at the new image count. Fails with
    /// `ResourceCreationFailed`, leaving the core untouched, exactly when
    /// the fresh resources are not structurally valid.
    pub fn recreate_swapchain(&mut self, parts: SwapchainParts) -> (r: Result<(), RenderError>)
        requires
            old(self).well_formed(),
        ensures
            final(self).well_formed(),
            r is Ok <==> parts_valid(parts),
            r matches Err(e) ==> e == RenderError::ResourceCreationFailed && *final(self)
                == *old(self),
            r is Ok ==> recreated_state(*old(self), parts, *final(self)),
    {
        if !swapchain_parts_valid(&parts) {
            return Err(RenderError::ResourceCreationFailed);
        }
        let config = create_swapchain(self.window_extent, &self.support, &self.indices);
        let cleared = cleared_image_claims(parts.images.len());
        self.data.swapchain = parts.swapchain;
        self.data.swapchain_format = config.format;
        self.data.swapchain_extent = config.extent;
        self.data.swapchain_images = parts.images;
        self.data.swapchain_image_views = parts.image_views;
        self.data.render_pass = parts.render_pass;
        self.data.pipeline_layout = parts.pipeline_layout;
        self.data.pipeline = parts.pipeline;
        self.data.framebuffers = parts.framebuffers;
        self.data.command_buffers = parts.command_buffers;
        self.data.images_in_flight = cleared;
        Ok(())
    }
}

/// Swapchain rebuild idempotence: two recreation cycles in a row (the
/// second with no change to the surface report or window size) leave the
/// bundle structurally valid — non-null chain, one framebuffer per image,
/// an image-claim list matching the image count — and the second cycle
/// negotiates the same format and extent as the first.
pub proof fn lemma_recreation_idempotent(
    s0: VulkanApplication,
    parts1: SwapchainParts,
    s1: VulkanApplication,
    parts2: SwapchainParts,
    s2: VulkanApplication,
)
    requires
        s0.well_formed(),
        parts_valid(parts1),
        parts_valid(parts2),
        recreated_state(s0, parts1, s1),
        recreated_state(s1, parts2, s2),
    ensures
        s2.data.swapchain != 0,
        s2.data.framebuffers@.len() == s2.data.swapchain_images@.len(),
        s2.data.images_in_flight@.len() == s2.data.swapchain_images@.len(),
        forall|i: int|
            0 <= i < s2.data.images_in_flight@.len() ==> s2.data.images_in_flight@[i] is None,
        s2.data.swapchain_format == s1.data.swapchain_format,
        s2.data.swapchain_extent == s1.data.swapchain_extent,
{
}

impl VulkanApplication {
    /// One pass of the steady-state frame routine, over the outcomes the
    /// shell reports: what acquiring an image returned, and what
    /// presenting would return once the submitted work is handed over.
    /// `replacement_parts` are the fresh chain resources the shell stands
    /// ready to install should a recreation cycle be needed; they are
    /// dropped otherwise.
    ///
    /// An out-of-date acquire abandons the frame: exactly one recreation
    /// cycle runs, nothing is submitted or presented, and the slot counter
    /// does not move. An out-of-date present triggers exactly one
    /// recreation cycle after the submission, and the slot counter
    /// advances as on any completed frame. Acquire or present failures
    /// are terminal errors; the caller must stop calling this after one.
    pub fn render_frame(
        &mut self,
        acquire: AcquireOutcome,
        present: PresentOutcome,
        replacement_parts: SwapchainParts,
    ) -> (r: Result<FrameReport, RenderError>)
        requires
            old(self).well_formed(),
        ensures
            final(self).well_formed(),
            acquire is OutOfDate && parts_valid(replacement_parts) ==> {
                &&& r == Ok::<FrameReport, RenderError>(
                    FrameReport { recreations: 1, submitted: false, presented: false },
                )
                &&& final(self).frame == old(self).frame
                &&& final(self).data.swapchain == replacement_parts.swapchain
                &&& final(self).data.images_in_flight@.len()
                    == replacement_parts.images@.len()
                &&& forall|i: int|
                    0 <= i < final(self).data.images_in_flight@.len() ==> final(self).data.images_in_flight@[i] is None
            },
            acquire is OutOfDate && !parts_valid(replacement_parts) ==> r == Err::<
                FrameReport,
                RenderError,
            >(RenderError::ResourceCreationFailed),
            acquire is Failure ==> {
                &&& r == Err::<FrameReport, RenderError>(RenderError::AcquireFailed)
                &&& final(self).frame == old(self).frame
                &&& only_sync_state_changed(*old(self), *final(self))
                &&& final(self).data.images_in_flight == old(self).data.images_in_flight
                &&& final(self).data.in_flight_fences@ == old(self).data.in_flight_fences@.update(
                    old(self).frame as int,
                    FenceStatus::Signaled,
                )
            },
            acquire is Image && acquire->image_index as int >= old(self).data.images_in_flight@.len() ==> {
                &&& r == Err::<FrameReport, RenderError>(RenderError::AcquireFailed)
                &&& final(self).frame == old(self).frame
                &&& only_sync_state_changed(*old(self), *final(self))
                &&& final(self).data.images_in_flight == old(self).data.images_in_flight
            },
            acquire is Image && (acquire->image_index as int) < old(self).data.images_in_flight@.len() ==> ({
                let idx = acquire->image_index as int;
                &&& (present is Success || present is Suboptimal) ==> {
                    &&& r == Ok::<FrameReport, RenderError>(
                        FrameReport { recreations: 0, submitted: true, presented: true },
                    )
                    &&& final(self).frame == (old(self).frame + 1) % (
                    MAX_FRAMES_IN_FLIGHT as int)
                    &&& final(self).data.images_in_flight@ == old(self).data.images_in_flight@.update(idx, Some(old(self).frame))
                    &&& final(self).data.in_flight_fences@[old(self).frame as int] is Pending
                    &&& (old(self).data.images_in_flight@[idx] matches Some(s) ==> (s != old(self).frame ==> final(self).data.in_flight_fences@[s as int] is Signaled))
                }
                &&& present is Failure ==> {
                    &&& r == Err::<FrameReport, RenderError>(RenderError::PresentFailed)
                    &&& final(self).frame == old(self).frame
                    &&& only_sync_state_changed(*old(self), *final(self))
                    &&& final(self).data.images_in_flight@ == old(self).data.images_in_flight@.update(idx, Some(old(self).frame))
                    &&& final(self).data.in_flight_fences@[old(self).frame as int] is Pending
                }
                &&& present is OutOfDate && parts_valid(replacement_parts) ==> {
                    &&& r == Ok::<FrameReport, RenderError>(
                        FrameReport { recreations: 1, submitted: true, presented: false },
                    )
                    &&& final(self).frame == (old(self).frame + 1) % (
                    MAX_FRAMES_IN_FLIGHT as int)
                    &&& final(self).data.swapchain == replacement_parts.swapchain
                    &&& final(self).data.images_in_flight@.len()
                        == replacement_parts.images@.len()
                    &&& forall|i: int|
                        0 <= i < final(self).data.images_in_flight@.len() ==> final(self).data.images_in_flight@[i] is None
                    &&& (old(self).data.images_in_flight@[idx] matches Some(s) ==> (s != old(self).frame ==> final(self).data.in_flight_fences@[s as int] is Signaled))
                }
                &&& present is OutOfDate && !parts_valid(replacement_parts) ==> r == Err::<
                    FrameReport,
                    RenderError,
                >(RenderError::ResourceCreationFailed)
            }),
    {
        self.wait_for_current_fence();
        match acquire {
            AcquireOutcome::OutOfDate => {
                match self.recreate_swapchain(replacement_parts) {
                    Ok(()) => Ok(
                        FrameReport { recreations: 1, submitted: false, presented: false },
                    ),
                    Err(e) => Err(e),
                }
            },
            AcquireOutcome::Failure => Err(RenderError::AcquireFailed),
            AcquireOutcome::Image { image_index } => {
                let idx = image_index as usize;
                if idx >= self.data.images_in_flight.len() {
                    return Err(RenderError::AcquireFailed);
                }
                self.wait_for_image_fence(idx);
                let submit_plan = self.submit_frame(idx);
                let present_plan = self.present_image_to_swapchain(image_index);
                match present {
                    PresentOutcome::Failure => Err(RenderError::PresentFailed),
                    PresentOutcome::OutOfDate => {
                        match self.recreate_swapchain(replacement_parts) {
                            Ok(()) => {
                                self.advance_frame();
                                Ok(
                                    FrameReport {
                                        recreations: 1,
                                        submitted: true,
                                        presented: false,
                                    },
                                )
                            },
                            Err(e) => Err(e),
                        }
                    },
                    _ => {
                        self.advance_frame();
                        Ok(FrameReport { recreations: 0, submitted: true, presented: true })
                    },
                }
            },
        }
    }
}

/// One destruction the shell must perform during teardown. Destruction
/// order is a correctness requirement: a dependent handle must never
/// outlive what it depends on, so the plans below fix the exact order.
#[derive(Clone, Copy, Debug, PartialEq, Eq, Structural)]
pub enum DestroyStep {
    Framebuffer { handle: u64 },
    /// Return every command buffer to the pool.
    FreeCommandBuffers,
    Pipeline { handle: u64 },
    PipelineLayout { handle: u64 },
    RenderPass { handle: u64 },
    ImageView { handle: u64 },
    Swapchain { handle: u64 },
    InFlightFence { slot: usize },
    RenderFinishedSemaphore { slot: usize },
    ImageAvailableSemaphore { slot: usize },
    CommandPool { handle: u64 },
    Device,
    Surface { handle: u64 },
    DebugMessenger { handle: u64 },
    Instance,
}

impl VulkanApplication {
    /// The chain teardown plan, in exact reverse dependency order: every
    /// framebuffer, then the command buffers back to the pool, the
    /// pipeline, its layout, the render pass, every image view, and the
    /// chain itself last.
    pub fn destroy_swapchain(&self) -> (r: Vec<DestroyStep>)
        ensures
            ({
                let nf = self.data.framebuffers@.len() as int;
                let nv = self.data.swapchain_image_views@.len() as int;
                &&& r@.len() == nf + 4 + nv + 1
                &&& forall|i: int|
                    0 <= i < nf ==> r@[i] == (DestroyStep::Framebuffer {
                        handle: self.data.framebuffers@[i],
                    })
                &&& r@[nf] == DestroyStep::FreeCommandBuffers
                &&& r@[nf + 1] == (DestroyStep::Pipeline { handle: self.data.pipeline })
                &&& r@[nf + 2] == (DestroyStep::PipelineLayout {
                    handle: self.data.pipeline_layout,
                })
                &&& r@[nf + 3] == (DestroyStep::RenderPass { handle: self.data.render_pass })
                &&& forall|i: int|
                    0 <= i < nv ==> r@[nf + 4 + i] == (DestroyStep::ImageView {
                        handle: self.data.swapchain_image_views@[i],
                    })
                &&& r@[nf + 4 + nv] == (DestroyStep::Swapchain { handle: self.data.swapchain })
            }),
    {
        let nf = self.data.framebuffers.len();
        let mut steps: Vec<DestroyStep> = Vec::new();
        let mut i: usize = 0;
        while i < nf
            invariant
                nf == self.data.framebuffers@.len(),
                i <= nf,
                steps@.len() == i,
                forall|j: int|
                    0 <= j < i ==> steps@[j] == (DestroyStep::Framebuffer {
                        handle: self.data.framebuffers@[j],
                    }),
            decreases nf - i,
        {
            steps.push(DestroyStep::Framebuffer { handle: self.data.framebuffers[i] });
            i += 1;
        }
        steps.push(DestroyStep::FreeCommandBuffers);
        steps.push(DestroyStep::Pipeline { handle: self.data.pipeline });
        steps.push(DestroyStep::PipelineLayout { handle: self.data.pipeline_layout });
        steps.push(DestroyStep::RenderPass { handle: self.data.render_pass });
        let nv = self.data.swapchain_image_views.len();
        let mut v: usize = 0;
        while v < nv
            invariant
                nf == self.data.framebuffers@.len(),
                nv == self.data.swapchain_image_views@.len(),
                v <= nv,
                steps@.len() == nf + 4 + v,
                forall|j: int|
                    0 <= j < nf ==> steps@[j] == (DestroyStep::Framebuffer {
                        handle: self.data.framebuffers@[j],
                    }),
                steps@[nf as int] == DestroyStep::FreeCommandBuffers,
                steps@[nf + 1] == (DestroyStep::Pipeline { handle: self.data.pipeline }),
                steps@[nf + 2] == (DestroyStep::PipelineLayout {
                    handle: self.data.pipeline_layout,
                }),
                steps@[nf + 3] == (DestroyStep::RenderPass { handle: self.data.render_pass }),
                forall|j: int|
                    0 <= j < v ==> steps@[nf + 4 + j] == (DestroyStep::ImageView {
                        handle: self.data.swapchain_image_views@[j],
                    }),
            decreases nv - v,
        {
            steps.push(DestroyStep::ImageView { handle: self.data.swapchain_image_views[v] });
            v += 1;
        }
        steps.push(DestroyStep::Swapchain { handle: self.data.swapchain });
        steps
    }

    /// The full shutdown plan: the chain teardown first, then each slot's
    /// fence, each slot's render-finished semaphore, each slot's
    /// image-available semaphore, the command pool, the device, the
    /// surface, the validation messenger when one exists, and the
    /// instance last.
    pub fn destroy_vulkan_application(&self, validation_enabled: bool) -> (r: Vec<DestroyStep>)
        ensures
            ({
                let base = self.data.framebuffers@.len() as int + 4
                    + self.data.swapchain_image_views@.len() as int + 1;
                let m = MAX_FRAMES_IN_FLIGHT as int;
                &&& r@.len() == base + 3 * m + 3 + (if validation_enabled {
                    2int
                } else {
                    1int
                })
                &&& forall|i: int|
                    0 <= i < self.data.framebuffers@.len() ==> r@[i]
                        == (DestroyStep::Framebuffer { handle: self.data.framebuffers@[i] })
                &&& r@[self.data.framebuffers@.len() as int] == DestroyStep::FreeCommandBuffers
                &&& r@[self.data.framebuffers@.len() as int + 1] == (DestroyStep::Pipeline {
                    handle: self.data.pipeline,
                })
                &&& r@[self.data.framebuffers@.len() as int + 2] == (DestroyStep::PipelineLayout {
                    handle: self.data.pipeline_layout,
                })
                &&& r@[self.data.framebuffers@.len() as int + 3] == (DestroyStep::RenderPass {
                    handle: self.data.render_pass,
                })
                &&& forall|i: int|
                    0 <= i < self.data.swapchain_image_views@.len() ==> r@[self.data.framebuffers@.len()
                        as int + 4 + i] == (DestroyStep::ImageView {
                        handle: self.data.swapchain_image_views@[i],
                    })
                &&& r@[base - 1] == (DestroyStep::Swapchain { handle: self.data.swapchain })
                &&& forall|s: int|
                    0 <= s < m ==> #[trigger] r@[base + s] == (DestroyStep::InFlightFence {
                        slot: s as usize,
                    })
                &&& forall|s: int|
                    0 <= s < m ==> #[trigger] r@[base + m + s] == (DestroyStep::RenderFinishedSemaphore {
                        slot: s as usize,
                    })
                &&& forall|s: int|
                    0 <= s < m ==> #[trigger] r@[base + 2 * m + s] == (DestroyStep::ImageAvailableSemaphore {
                        slot: s as usize,
                    })
                &&& r@[base + 3 * m] == (DestroyStep::CommandPool {
                    handle: self.data.command_pool,
                })
                &&& r@[base + 3 * m + 1] == DestroyStep::Device
                &&& r@[base + 3 * m + 2] == (DestroyStep::Surface {
                    handle: self.data.surface,
                })
                &&& validation_enabled ==> r@[base + 3 * m + 3] == (DestroyStep::DebugMessenger {
                    handle: self.data.debug_messenger,
                }) && r@[base + 3 * m + 4] == DestroyStep::Instance
                &&& !validation_enabled ==> r@[base + 3 * m + 3] == DestroyStep::Instance
            }),
    {
        let mut steps = self.destroy_swapchain();
        let mut tail: Vec<DestroyStep> = Vec::new();
        let mut s: usize = 0;
        while s < MAX_FRAMES_IN_FLIGHT
            invariant
                s <= MAX_FRAMES_IN_FLIGHT,
                tail@.len() == s,
                forall|j: int|
                    0 <= j < s ==> tail@[j] == (DestroyStep::InFlightFence { slot: j as usize }),
            decreases MAX_FRAMES_IN_FLIGHT - s,
        {
            tail.push(DestroyStep::InFlightFence { slot: s });
            s += 1;
        }
        let mut s: usize = 0;
        while s < MAX_FRAMES_IN_FLIGHT
            invariant
                s <= MAX_FRAMES_IN_FLIGHT,
                tail@.len() == MAX_FRAMES_IN_FLIGHT + s,
                forall|j: int|
                    0 <= j < MAX_FRAMES_IN_FLIGHT ==> tail@[j] == (DestroyStep::InFlightFence {
                        slot: j as usize,
                    }),
                forall|j: int|
                    0 <= j < s ==> #[trigger] tail@[MAX_FRAMES_IN_FLIGHT + j]
                        == (DestroyStep::RenderFinishedSemaphore { slot: j as usize }),
            decreases MAX_FRAMES_IN_FLIGHT - s,
        {
            tail.push(DestroyStep::RenderFinishedSemaphore { slot: s });
            s += 1;
        }
        let mut s: usize = 0;
        while s < MAX_FRAMES_IN_FLIGHT
            invariant
                s <= MAX_FRAMES_IN_FLIGHT,
                tail@.len() == 2 * MAX_FRAMES_IN_FLIGHT + s,
                forall|j: int|
                    0 <= j < MAX_FRAMES_IN_FLIGHT ==> tail@[j] == (DestroyStep::InFlightFence {
                        slot: j as usize,
                    }),
                forall|j: int|
                    0 <= j < MAX_FRAMES_IN_FLIGHT ==> #[trigger] tail@[MAX_FRAMES_IN_FLIGHT + j]
                        == (DestroyStep::RenderFinishedSemaphore { slot: j as usize }),
                forall|j: int|
                    0 <= j < s ==> #[trigger] tail@[2 * MAX_FRAMES_IN_FLIGHT + j]
                        == (DestroyStep::ImageAvailableSemaphore { slot: j as usize }),
            decreases MAX_FRAMES_IN_FLIGHT - s,
        {
            tail.push(DestroyStep::ImageAvailableSemaphore { slot: s });
            s += 1;
        }
        let ghost sync_part = tail@;
        tail.push(DestroyStep::CommandPool { handle: self.data.command_pool });
        tail.push(DestroyStep::Device);
        tail.push(DestroyStep::Surface { handle: self.data.surface });
        if validation_enabled {
            tail.push(DestroyStep::DebugMessenger { handle: self.data.debug_messenger });
        }
        tail.push(DestroyStep::Instance);
        proof {
            assert forall|i: int| 0 <= i < sync_part.len() implies tail@[i] == sync_part[i] by {}
        }
        let ghost swap_part = steps@;
        let ghost tail_part = tail@;
        steps.append(&mut tail);
        proof {
            assert(steps@.len() == swap_part.len() + tail_part.len());
            assert forall|i: int| 0 <= i < swap_part.len() implies steps@[i] == swap_part[i] by {}
            assert forall|i: int|
                0 <= i < tail_part.len() implies #[trigger] steps@[swap_part.len() + i]
                == tail_part[i] by {}
            let base = swap_part.len() as int;
            let m = MAX_FRAMES_IN_FLIGHT as int;
            assert forall|j: int|
                0 <= j < m implies #[trigger] steps@[base + m + j]
                == (DestroyStep::RenderFinishedSemaphore { slot: j as usize }) by {
                assert(steps@[base + (m + j)] == tail_part[m + j]);
                assert(tail_part[m + j] == sync_part[m + j]);
            }
            assert forall|j: int|
                0 <= j < m implies #[trigger] steps@[base + 2 * m + j]
                == (DestroyStep::ImageAvailableSemaphore { slot: j as usize }) by {
                assert(steps@[base + (2 * m + j)] == tail_part[2 * m + j]);
                assert(tail_part[2 * m + j] == sync_part[2 * m + j]);
            }
            assert(steps@[base + (3 * m)] == tail_part[3 * m]);
            assert(steps@[base + (3 * m + 1)] == tail_part[3 * m + 1]);
            assert(steps@[base + (3 * m + 2)] == tail_part[3 * m + 2]);
            assert(steps@[base + (3 * m + 3)] == tail_part[3 * m + 3]);
            if validation_enabled {
                assert(steps@[base + (3 * m + 4)] == tail_part[3 * m + 4]);
            }
        }
        steps
    }
}

/// One recorded command in a per-image command buffer.
#[derive(Clone, Copy, Debug, PartialEq, Eq, Structural)]
pub enum DrawCommand {
    BeginCommandBuffer,
    /// Begin the render pass on this image's framebuffer, rendering to
    /// the whole chain extent, cleared to opaque black.
    BeginRenderPass { render_pass: u64, framebuffer: u64, render_area: Extent2D },
    BindPipeline { pipeline: u64 },
    BindVertexBuffer { buffer: u64 },
    Draw { vertex_count: u32, instance_count: u32, first_vertex: u32, first_instance: u32 },
    EndRenderPass,
    EndCommandBuffer,
}

/// Vertices in the one recorded draw.
pub const DRAW_VERTEX_COUNT: u32 = 3;

/// The commands one image's pre-recorded buffer must hold, in order.
pub open spec fn recorded_commands(
    data: VulkanApplicationData,
    framebuffer: u64,
    vertex_buffer: u64,
) -> Seq<DrawCommand> {
    seq![
        DrawCommand::BeginCommandBuffer,
        DrawCommand::BeginRenderPass {
            render_pass: data.render_pass,
            framebuffer,
            render_area: data.swapchain_extent,
        },
        DrawCommand::BindPipeline { pipeline: data.pipeline },
        DrawCommand::BindVertexBuffer { buffer: vertex_buffer },
        DrawCommand::Draw {
            vertex_count: DRAW_VERTEX_COUNT,
            instance_count: 1,
            first_vertex: 0,
            first_instance: 0,
        },
        DrawCommand::EndRenderPass,
        DrawCommand::EndCommandBuffer,
    ]
}

/// Plans the recording of one command buffer per framebuffer: each begins
/// its buffer, runs the render pass over the whole chain extent on its
/// framebuffer, binds the pipeline and the vertex buffer, draws the fixed
/// triangle once, and closes the pass and the buffer.
pub fn create_command_buffers(data: &VulkanApplicationData, vertex_buffer: u64) -> (r: Vec<
    Vec<DrawCommand>,
>)
    ensures
        r@.len() == data.framebuffers@.len(),
        forall|i: int|
            0 <= i < r@.len() ==> (#[trigger] r@[i])@ == recorded_commands(
                *data,
                data.framebuffers@[i],
                vertex_buffer,
            ),
{
    let mut recordings: Vec<Vec<DrawCommand>> = Vec::new();
    let mut i: usize = 0;
    while i < data.framebuffers.len()
        invariant
            i <= data.framebuffers@.len(),
            recordings@.len() == i,
            forall|j: int|
                0 <= j < i ==> (#[trigger] recordings@[j])@ == recorded_commands(
                    *data,
                    data.framebuffers@[j],
                    vertex_buffer,
                ),
        decreases data.framebuffers@.len() - i,
    {
        let mut commands: Vec<DrawCommand> = Vec::new();
        commands.push(DrawCommand::BeginCommandBuffer);
        commands.push(
            DrawCommand::BeginRenderPass {
                render_pass: data.render_pass,
                framebuffer: data.framebuffers[i],
                render_area: data.swapchain_extent,
            },
        );
        commands.push(DrawCommand::BindPipeline { pipeline: data.pipeline });
        commands.push(DrawCommand::BindVertexBuffer { buffer: vertex_buffer });
        commands.push(
            DrawCommand::Draw {
                vertex_count: DRAW_VERTEX_COUNT,
                instance_count: 1,
                first_vertex: 0,
                first_instance: 0,
            },
        );
        commands.push(DrawCommand::EndRenderPass);
        commands.push(DrawCommand::EndCommandBuffer);
        assert(commands@ =~= recorded_commands(
            *data,
            data.framebuffers@[i as int],
            vertex_buffer,
        ));
        recordings.push(commands);
        i += 1;
    }
    recordings
}

/// An image-claim list of `image_count` empty entries.
fn cleared_image_claims(image_count: usize) -> (r: Vec<Option<usize>>)
    ensures
        r@.len() == image_count,
        forall|i: int| 0 <= i < r@.len() ==> r@[i] is None,
{
    let mut claims: Vec<Option<usize>> = Vec::new();
    let mut i: usize = 0;
    while i < image_count
        invariant
            i <= image_count,
            claims@.len() == i,
            forall|j: int| 0 <= j < i ==> claims@[j] is None,
        decreases image_count - i,
    {
        claims.push(None);
        i += 1;
    }
    claims
}

/// Checks the structural validity of freshly created chain resources.
pub fn swapchain_parts_valid(parts: &SwapchainParts) -> (r: bool)
    ensures
        r == parts_valid(*parts),
{
    parts.swapchain != 0 && parts.images.len() > 0 && parts.image_views.len()
        == parts.images.len() && parts.framebuffers.len() == parts.images.len()
        && parts.command_buffers.len() == parts.images.len()
}

} // verus!

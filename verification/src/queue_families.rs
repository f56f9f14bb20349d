//! Queue family selection.
//!
//! A device exposes a list of queue families; the core needs one family that
//! supports graphics operations and one that can present to the bound window
//! surface (they may coincide). Selection takes the first family with each
//! capability, in hardware order, and fails when either is missing.

use vstd::prelude::*;

use crate::RenderError;

verus! {

/// What the core needs to know about one queue family: which of the two
/// required capabilities it supports.
#[derive(Clone, Copy, Debug, PartialEq, Eq, Structural)]
pub struct QueueFamilyInfo {
    pub supports_graphics: bool,
    pub supports_presentation: bool,
}

/// The chosen pair of queue family indices.
#[derive(Clone, Copy, Debug, PartialEq, Eq, Structural)]
pub struct RequiredQueueFamilies {
    pub graphics_queue_index: u32,
    pub presentation_queue_index: u32,
}

/// Whether some family in `families` supports graphics.
pub open spec fn has_graphics_family(families: Seq<QueueFamilyInfo>) -> bool {
    exists|i: int| 0 <= i < families.len() && families[i].supports_graphics
}

/// Whether some family in `families` can present to the surface.
pub open spec fn has_presentation_family(families: Seq<QueueFamilyInfo>) -> bool {
    exists|i: int| 0 <= i < families.len() && families[i].supports_presentation
}

/// `i` is the first family supporting graphics.
pub open spec fn is_first_graphics_index(families: Seq<QueueFamilyInfo>, i: int) -> bool {
    &&& 0 <= i < families.len()
    &&& families[i].supports_graphics
    &&& forall|j: int| 0 <= j < i ==> !families[j].supports_graphics
}

/// `i` is the first family that can present to the surface.
pub open spec fn is_first_presentation_index(families: Seq<QueueFamilyInfo>, i: int) -> bool {
    &&& 0 <= i < families.len()
    &&& families[i].supports_presentation
    &&& forall|j: int| 0 <= j < i ==> !families[j].supports_presentation
}

/// Whether both required queue family indices were found.
pub fn queue_family_indexes_not_empty(
    graphics_queue_index: Option<u32>,
    presentation_queue_index: Option<u32>,
) -> (r: bool)
    ensures
        r == (graphics_queue_index is Some && presentation_queue_index is Some),
{
    if let (Some(_), Some(_)) = (graphics_queue_index, presentation_queue_index) {
        true
    } else {
        false
    }
}

impl RequiredQueueFamilies {
    /// Picks the first graphics-capable and the first presentation-capable
    /// family, failing with `NoSuitableQueueFamily` exactly when either
    /// capability is missing from every family.
    pub fn get(families: &Vec<QueueFamilyInfo>) -> (r: Result<RequiredQueueFamilies, RenderError>)
        requires
            families@.len() <= u32::MAX,
        ensures
            r matches Ok(q) ==> {
                &&& is_first_graphics_index(families@, q.graphics_queue_index as int)
                &&& is_first_presentation_index(families@, q.presentation_queue_index as int)
            },
            r matches Err(e) ==> {
                &&& e == RenderError::NoSuitableQueueFamily
                &&& !(has_graphics_family(families@) && has_presentation_family(families@))
            },
    {
        let graphics_queue_index = first_index_supporting_graphics(families);
        let presentation_queue_index = first_index_supporting_presentation(families);
        if queue_family_indexes_not_empty(graphics_queue_index, presentation_queue_index) {
            let graphics_queue_index = graphics_queue_index.unwrap();
            let presentation_queue_index = presentation_queue_index.unwrap();
            Ok(RequiredQueueFamilies { graphics_queue_index, presentation_queue_index })
        } else {
            Err(RenderError::NoSuitableQueueFamily)
        }
    }

    /// The queue family indices the swapchain must share its images across:
    /// both indices when they differ (concurrent sharing), none when they
    /// coincide (exclusive use by the one family).
    pub fn shared_queue_indices(&self) -> (r: Vec<u32>)
        ensures
            self.graphics_queue_index != self.presentation_queue_index ==> r@ == seq![
                self.graphics_queue_index,
                self.presentation_queue_index,
            ],
            self.graphics_queue_index == self.presentation_queue_index ==> r@ == Seq::<
                u32,
            >::empty(),
    {
        let mut queue_family_indices: Vec<u32> = Vec::new();
        if self.graphics_queue_index != self.presentation_queue_index {
            queue_family_indices.push(self.graphics_queue_index);
            queue_family_indices.push(self.presentation_queue_index);
            assert(queue_family_indices@ =~= seq![
                self.graphics_queue_index,
                self.presentation_queue_index,
            ]);
        } else {
            assert(queue_family_indices@ =~= Seq::<u32>::empty());
        }
        queue_family_indices
    }

    /// The distinct queue family indices a logical device must create queues
    /// for: one entry when the two families coincide, two otherwise.
    pub fn unique_queue_indices(&self) -> (r: Vec<u32>)
        ensures
            self.graphics_queue_index == self.presentation_queue_index ==> r@ == seq![
                self.graphics_queue_index,
            ],
            self.graphics_queue_index != self.presentation_queue_index ==> r@ == seq![
                self.graphics_queue_index,
                self.presentation_queue_index,
            ],
    {
        let mut unique_indices: Vec<u32> = Vec::new();
        unique_indices.push(self.graphics_queue_index);
        if self.graphics_queue_index != self.presentation_queue_index {
            unique_indices.push(self.presentation_queue_index);
            assert(unique_indices@ =~= seq![
                self.graphics_queue_index,
                self.presentation_queue_index,
            ]);
        } else {
            assert(unique_indices@ =~= seq![self.graphics_queue_index]);
        }
        unique_indices
    }
}

/// The index of the first family with graphics support, if any.
fn first_index_supporting_graphics(families: &Vec<QueueFamilyInfo>) -> (r: Option<u32>)
    requires
        families@.len() <= u32::MAX,
    ensures
        r matches Some(i) ==> is_first_graphics_index(families@, i as int),
        r is None ==> !has_graphics_family(families@),
{
    let mut i: usize = 0;
    while i < families.len()
        invariant
            families@.len() <= u32::MAX,
            i <= families@.len(),
            forall|j: int| 0 <= j < i ==> !families@[j].supports_graphics,
        decreases families@.len() - i,
    {
        if families[i].supports_graphics {
            return Some(i as u32);
        }
        i += 1;
    }
    None
}

/// The index of the first family with presentation support, if any.
fn first_index_supporting_presentation(families: &Vec<QueueFamilyInfo>) -> (r: Option<u32>)
    requires
        families@.len() <= u32::MAX,
    ensures
        r matches Some(i) ==> is_first_presentation_index(families@, i as int),
        r is None ==> !has_presentation_family(families@),
{
    let mut i: usize = 0;
    while i < families.len()
        invariant
            families@.len() <= u32::MAX,
            i <= families@.len(),
            forall|j: int| 0 <= j < i ==> !families@[j].supports_presentation,
        decreases families@.len() - i,
    {
        if families[i].supports_presentation {
            return Some(i as u32);
        }
        i += 1;
    }
    None
}

} // verus!

use vstd::prelude::*;

verus! {

/// What the library needs to know of a queue family of the chosen GPU.
#[derive(Clone, Copy, Debug, PartialEq, Eq, Structural)]
pub struct QueueFamilyInfo {
    pub supports_graphics: bool,
    pub supports_present: bool,
}

/// A family that can both draw and present to the window's surface.
pub open spec fn family_fits(f: QueueFamilyInfo) -> bool {
    f.supports_graphics && f.supports_present
}

/// The first family in `families` that fits, if there is one.
pub open spec fn is_first_fit(families: Seq<QueueFamilyInfo>, i: int) -> bool {
    &&& 0 <= i < families.len()
    &&& family_fits(families[i])
    &&& forall|j: int| 0 <= j < i ==> !family_fits(#[trigger] families[j])
}

/// Picks the queue family to submit to: the first one, in the device's
/// order, that supports graphics and can present to the surface.
pub fn choose_queue_family(families: &Vec<QueueFamilyInfo>) -> (r: Option<usize>)
    ensures
        r matches Some(i) ==> is_first_fit(families@, i as int),
        r is None <==> forall|j: int| 0 <= j < families@.len() ==> !family_fits(#[trigger] families@[j]),
{
    let mut i: usize = 0;
    while i < families.len()
        invariant
            i <= families@.len(),
            forall|j: int| 0 <= j < i ==> !family_fits(#[trigger] families@[j]),
        decreases families@.len() - i,
    {
        let f = families[i];
        if f.supports_graphics && f.supports_present {
            return Some(i);
        }
        i = i + 1;
    }
    None
}

/// What the surface reports it supports, as far as the swapchain's settings
/// depend on it.
#[derive(Clone, Copy, Debug, PartialEq, Eq, Structural)]
pub struct SurfaceSupport {
    pub min_image_count: u32,
    pub format_count: usize,
    pub composite_alpha_count: usize,
}

/// The settings the swapchain is built with: the surface's least image count,
/// the format and composite-alpha mode at the given positions of the
/// surface's supported lists, and the window's size.
#[derive(Clone, Copy, Debug, PartialEq, Eq, Structural)]
pub struct SwapchainConfig {
    pub image_count: u32,
    pub format_index: usize,
    pub composite_alpha_index: usize,
    pub extent: crate::surface::Extent,
}

/// Chooses the swapchain's settings: the first supported format and
/// composite-alpha mode, the least image count, and the window's size.
/// There is none when the surface offers no format or no alpha mode.
pub fn choose_swapchain_config(support: SurfaceSupport, window: crate::surface::Extent) -> (r: Option<
    SwapchainConfig,
>)
    ensures
        r is Some <==> support.format_count > 0 && support.composite_alpha_count > 0,
        r matches Some(c) ==> (c == SwapchainConfig {
            image_count: support.min_image_count,
            format_index: 0,
            composite_alpha_index: 0,
            extent: window,
        }),
{
    if support.format_count == 0 || support.composite_alpha_count == 0 {
        None
    } else {
        Some(
            SwapchainConfig {
                image_count: support.min_image_count,
                format_index: 0,
                composite_alpha_index: 0,
                extent: window,
            },
        )
    }
}

} // verus!

use vstd::prelude::*;

verus! {

/// Pixel dimensions of a window or of a swapchain image.
#[derive(Clone, Copy, Debug, PartialEq, Eq, Structural)]
pub struct Extent {
    pub width: u32,
    pub height: u32,
}

impl Extent {
    /// A surface of at least one pixel each way, which a swapchain can be built for.
    pub open spec fn is_drawable(self) -> bool {
        self.width >= 1 && self.height >= 1
    }
}

/// A presentable image of the swapchain: a number that identifies it, and its size.
#[derive(Clone, Copy, Debug, PartialEq, Eq, Structural)]
pub struct PresentImage {
    pub id: u64,
    pub extent: Extent,
}

/// The render pass's single colour attachment bound to one swapchain image.
#[derive(Clone, Copy, Debug, PartialEq, Eq, Structural)]
pub struct FramebufferBinding {
    pub image: u64,
    pub extent: Extent,
}

/// The dynamic viewport in whole pixels; its origin is the top-left corner and
/// its depth range is the full unit interval.
#[derive(Clone, Copy, Debug, PartialEq, Eq, Structural)]
pub struct Viewport {
    pub width: u32,
    pub height: u32,
}

/// Everything that depends on the surface size, replaced as one record: the
/// viewport and one framebuffer per swapchain image, in image order.
pub struct SurfaceTargets {
    pub viewport: Viewport,
    pub framebuffers: Vec<FramebufferBinding>,
}

/// Mathematical model of `SurfaceTargets`.
pub struct TargetsView {
    pub viewport: Viewport,
    pub framebuffers: Seq<FramebufferBinding>,
}

impl View for SurfaceTargets {
    type V = TargetsView;

    open spec fn view(&self) -> TargetsView {
        TargetsView { viewport: self.viewport, framebuffers: self.framebuffers@ }
    }
}

/// The framebuffer that binds `image`.
pub open spec fn binding_for(image: PresentImage) -> FramebufferBinding {
    FramebufferBinding { image: image.id, extent: image.extent }
}

/// The targets built for a set of swapchain images: the viewport covers the
/// first image, and framebuffer `i` binds image `i`.
pub open spec fn targets_for(images: Seq<PresentImage>) -> TargetsView {
    TargetsView {
        viewport: Viewport { width: images[0].extent.width, height: images[0].extent.height },
        framebuffers: images.map_values(|image: PresentImage| binding_for(image)),
    }
}

/// Builds the viewport and the framebuffers for a freshly built set of
/// swapchain images.
pub fn window_size_dependent_setup(images: &Vec<PresentImage>) -> (t: SurfaceTargets)
    requires
        images@.len() > 0,
    ensures
        t@ == targets_for(images@),
        t.framebuffers@.len() == images@.len(),
        forall|i: int| 0 <= i < images@.len() ==> #[trigger] t.framebuffers@[i].image == images@[i].id,
{
    let first = images[0].extent;
    let viewport = Viewport { width: first.width, height: first.height };
    let mut framebuffers: Vec<FramebufferBinding> = Vec::new();
    let mut i: usize = 0;
    while i < images.len()
        invariant
            i <= images@.len(),
            framebuffers@ == images@.subrange(0, i as int).map_values(
                |image: PresentImage| binding_for(image),
            ),
        decreases images@.len() - i,
    {
        let image = images[i];
        framebuffers.push(FramebufferBinding { image: image.id, extent: image.extent });
        proof {
            assert(images@.subrange(0, i + 1) =~= images@.subrange(0, i as int).push(images@[i as int]));
        }
        i = i + 1;
        proof {
            assert(framebuffers@ =~= images@.subrange(0, i as int).map_values(
                |image: PresentImage| binding_for(image),
            ));
        }
    }
    proof {
        assert(images@.subrange(0, images@.len() as int) =~= images@);
    }
    let t = SurfaceTargets { viewport, framebuffers };
    assert(t@ =~= targets_for(images@)) by {
        assert(t@.framebuffers =~= targets_for(images@).framebuffers);
    }
    t
}

} // verus!

use vstd::prelude::*;
use crate::G_MAX_FRAME_COUNT;

verus! {

/// The presentation surface: a fixed-size ring of presentable images, of
/// which exactly one is "current" at any time. Which image is current is
/// decided by the presentation backend, not by a counter of our own: under
/// flip-model presentation the index sequence need not be round-robin, so
/// the renderer must query the reported index, never compute it.
#[derive(Clone, Copy, Debug, PartialEq, Eq)]
pub struct PresentationSurface {
    /// How many presentable images the surface rotates; fixed at creation.
    pub image_count: usize,
    /// The image the backend last reported as current.
    pub current_image: usize,
}

impl PresentationSurface {
    /// At least one image, at most the hard cap, and the current index
    /// always names one of them.
    pub open spec fn wf(&self) -> bool {
        &&& 1 <= self.image_count <= G_MAX_FRAME_COUNT
        &&& self.current_image < self.image_count
    }

    /// Records a surface the backend created with `image_count` images,
    /// and the image index it initially reports as current.
    pub fn create(image_count: usize, initial_image: usize) -> (r: Self)
        requires
            1 <= image_count <= G_MAX_FRAME_COUNT,
            initial_image < image_count,
        ensures
            r.wf(),
            r.image_count == image_count,
            r.current_image == initial_image,
    {
        PresentationSurface { image_count, current_image: initial_image }
    }

    /// The image to draw into now. Queried fresh each frame, never cached.
    pub fn current_image_index(&self) -> (r: usize)
        ensures
            r == self.current_image,
    {
        self.current_image
    }

    /// The backend swaps the current image out for display and reports
    /// which image is current next. The report is the backend's choice;
    /// the model only records it.
    pub fn present(&mut self, reported_next_image: usize)
        requires
            old(self).wf(),
            reported_next_image < old(self).image_count,
        ensures
            final(self).wf(),
            final(self).image_count == old(self).image_count,
            final(self).current_image == reported_next_image,
    {
        self.current_image = reported_next_image;
    }
}

} // verus!

//! The swapchain and the framebuffers that draw into its images.

use vstd::prelude::*;

verus! {

/// What there is to draw into. `S` is a swapchain and `F` a framebuffer for one of its images.
pub enum Framebuffers<S, F> {
    /// Nothing has been set up.
    NotCreated,
    /// There is a swapchain, but it no longer fits the window.
    Invalid { swapchain: S },
    /// There is a usable swapchain, with one framebuffer for each of its images.
    Valid { swapchain: S, framebuffers: Vec<F> },
}

/// The mathematical view of `Framebuffers`.
#[verifier::ext_equal]
pub enum FramebuffersView<S, F> {
    NotCreated,
    Invalid { swapchain: S },
    Valid { swapchain: S, framebuffers: Seq<F> },
}

impl<S, F> View for Framebuffers<S, F> {
    type V = FramebuffersView<S, F>;

    open spec fn view(&self) -> FramebuffersView<S, F> {
        match *self {
            Framebuffers::NotCreated => FramebuffersView::NotCreated,
            Framebuffers::Invalid { swapchain } => FramebuffersView::Invalid { swapchain },
            Framebuffers::Valid { swapchain, framebuffers } => FramebuffersView::Valid {
                swapchain,
                framebuffers: framebuffers@,
            },
        }
    }
}

impl<S, F> FramebuffersView<S, F> {
    /// The same swapchain, if there is one, but no framebuffers to draw into.
    pub open spec fn invalidated(self) -> Self {
        match self {
            FramebuffersView::Valid { swapchain, .. } => FramebuffersView::Invalid { swapchain },
            other => other,
        }
    }

    /// The swapchain, if there is one.
    pub open spec fn swapchain(self) -> Option<S> {
        match self {
            FramebuffersView::NotCreated => None,
            FramebuffersView::Invalid { swapchain } => Some(swapchain),
            FramebuffersView::Valid { swapchain, .. } => Some(swapchain),
        }
    }
}

impl<S, F> Default for Framebuffers<S, F> {
    fn default() -> (framebuffers: Self)
        ensures
            framebuffers@ == FramebuffersView::<S, F>::NotCreated,
    {
        Framebuffers::NotCreated
    }
}

impl<S, F> Framebuffers<S, F> {
    /// Takes the value out and leaves `NotCreated` behind.
    pub fn take(&mut self) -> (taken: Self)
        ensures
            taken == *old(self),
            final(self)@ == FramebuffersView::<S, F>::NotCreated,
    {
        let mut taken: Self = Framebuffers::NotCreated;
        std::mem::swap(&mut taken, self);
        taken
    }

    /// Drops the framebuffers, if there are any, and keeps the swapchain to be recreated.
    pub fn invalidate(&mut self)
        ensures
            final(self)@ == old(self)@.invalidated(),
    {
        *self = match self.take() {
            Framebuffers::Valid { swapchain, framebuffers: _ } => Framebuffers::Invalid {
                swapchain,
            },
            other => other,
        };
    }
}

/// Invalidating never loses the swapchain, never leaves framebuffers to draw into, and changes
/// nothing the second time.
pub proof fn law_invalidate<S, F>(framebuffers: FramebuffersView<S, F>)
    ensures
        framebuffers.invalidated().swapchain() == framebuffers.swapchain(),
        framebuffers.invalidated() !is Valid,
        framebuffers.invalidated().invalidated() == framebuffers.invalidated(),
{
}

/// Invalidating turns usable framebuffers into their swapchain alone, and leaves a swapchain that
/// is already invalid, or nothing, as it is.
pub proof fn law_invalidate_keeps_the_swapchain_alone<S, F>(framebuffers: FramebuffersView<S, F>)
    ensures
        ({
            let later = framebuffers.invalidated();
            &&& later is NotCreated <==> framebuffers is NotCreated
            &&& later is Invalid <==> framebuffers is Invalid || framebuffers is Valid
            &&& framebuffers is Valid ==> later->Invalid_swapchain
                == framebuffers->Valid_swapchain
            &&& framebuffers is Invalid ==> later->Invalid_swapchain
                == framebuffers->Invalid_swapchain
        }),
        framebuffers.swapchain() is None <==> framebuffers is NotCreated,
        framebuffers is Valid ==> framebuffers.swapchain() == Some(framebuffers->Valid_swapchain),
        framebuffers is Invalid ==> framebuffers.swapchain() == Some(
            framebuffers->Invalid_swapchain,
        ),
{
}

} // verus!

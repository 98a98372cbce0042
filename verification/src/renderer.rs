//! The presentation surface: its descriptor and what to do when it changes
//! size or refuses to hand out an image.
//!
//! The surface itself lives outside this crate. `ScreenRenderer` keeps the
//! descriptor that the presentation chain must be built from and tracks where
//! the surface stands: not yet created, ready, waiting for the chain to be
//! rebuilt after a resize, or recovering from a failed acquisition. Each
//! method takes what happened outside and answers with what to do next.

use vstd::prelude::*;
use crate::gpu::{PresentMode, TextureFormat};

verus! {

/// What the presentation chain is built from.
#[derive(Clone, Copy, Debug, PartialEq, Eq, Structural)]
pub struct SwapChainDescriptor {
    pub width: u32,
    pub height: u32,
    pub format: TextureFormat,
    pub present_mode: PresentMode,
}

/// Where the surface stands.
#[derive(Clone, Copy, Debug, PartialEq, Eq, Structural)]
pub enum SurfaceStatus {
    /// No presentation chain has been created yet.
    Uninitialized,
    /// The chain matches the descriptor; images can be acquired.
    Ready,
    /// The descriptor changed; the chain has to be rebuilt from it.
    Resizing,
    /// An acquisition failed; the chain is rebuilt and the acquisition
    /// retried once.
    Recovering,
}

/// No image could be acquired, even after the chain was rebuilt.
#[derive(Clone, Copy, Debug, PartialEq, Eq, Structural)]
pub struct AcquireFailed;

/// What to do after an attempt to acquire the next image.
#[derive(Clone, Copy, Debug, PartialEq, Eq, Structural)]
pub enum AcquireStep {
    /// An image was acquired: render into it.
    Render,
    /// Rebuild the chain from the descriptor, then try once more.
    RecreateAndRetry(SwapChainDescriptor),
    /// Give up on this frame.
    Fatal(AcquireFailed),
}

/// A surface dimension with zero raised to one.
pub open spec fn clamp_dimension(value: u32) -> u32 {
    if value == 0 {
        1
    } else {
        value
    }
}

/// The descriptor `desc` with its size replaced by `size`, each dimension
/// raised to at least one.
pub open spec fn resized(desc: SwapChainDescriptor, size: (u32, u32)) -> SwapChainDescriptor {
    SwapChainDescriptor {
        width: clamp_dimension(size.0),
        height: clamp_dimension(size.1),
        format: desc.format,
        present_mode: desc.present_mode,
    }
}

/// The status after the chain was built: a surface that waited for its chain
/// is ready, any other stays as it was.
pub open spec fn status_after_creation(status: SurfaceStatus) -> SurfaceStatus {
    match status {
        SurfaceStatus::Uninitialized => SurfaceStatus::Ready,
        SurfaceStatus::Resizing => SurfaceStatus::Ready,
        SurfaceStatus::Ready => SurfaceStatus::Ready,
        SurfaceStatus::Recovering => SurfaceStatus::Recovering,
    }
}

/// Whether images may be acquired in this status.
pub open spec fn can_acquire(status: SurfaceStatus) -> bool {
    status == SurfaceStatus::Ready || status == SurfaceStatus::Recovering
}

/// The status after an acquisition attempt: a success makes the surface
/// ready, a failure leaves it recovering.
pub open spec fn status_after_acquire(status: SurfaceStatus, acquired: bool) -> SurfaceStatus {
    if acquired {
        SurfaceStatus::Ready
    } else {
        SurfaceStatus::Recovering
    }
}

/// What to do after an acquisition attempt: render on success; on the first
/// failure rebuild the chain from `desc` and retry; on a failure of the retry
/// give up.
pub open spec fn acquire_step(
    status: SurfaceStatus,
    desc: SwapChainDescriptor,
    acquired: bool,
) -> AcquireStep {
    if acquired {
        AcquireStep::Render
    } else if status == SurfaceStatus::Recovering {
        AcquireStep::Fatal(AcquireFailed)
    } else {
        AcquireStep::RecreateAndRetry(desc)
    }
}

/// Raises a zero dimension to one.
pub fn clamp(value: u32) -> (clamped: u32)
    ensures
        clamped == clamp_dimension(value),
        clamped >= 1,
{
    if value == 0 {
        1
    } else {
        value
    }
}

/// The descriptor of a presentation surface and the status of its chain.
///
/// Neither dimension of the descriptor is ever zero.
#[derive(Debug)]
pub struct ScreenRenderer {
    swap_chain_desc: SwapChainDescriptor,
    status: SurfaceStatus,
}

impl ScreenRenderer {
    #[verifier::type_invariant]
    spec fn inv(self) -> bool {
        self.swap_chain_desc.width >= 1 && self.swap_chain_desc.height >= 1
    }

    /// The descriptor that the chain is, or is to be, built from.
    pub closed spec fn descriptor(&self) -> SwapChainDescriptor {
        self.swap_chain_desc
    }

    /// Where the surface stands.
    pub closed spec fn surface_status(&self) -> SurfaceStatus {
        self.status
    }

    /// A surface of the given size, format and presentation mode whose chain
    /// has not been created yet. A zero dimension counts as one.
    pub fn new(size: (u32, u32), format: TextureFormat, present_mode: PresentMode) -> (renderer:
        ScreenRenderer)
        ensures
            renderer.descriptor() == (SwapChainDescriptor {
                width: clamp_dimension(size.0),
                height: clamp_dimension(size.1),
                format,
                present_mode,
            }),
            renderer.surface_status() == SurfaceStatus::Uninitialized,
    {
        ScreenRenderer {
            swap_chain_desc: SwapChainDescriptor {
                width: clamp(size.0),
                height: clamp(size.1),
                format,
                present_mode,
            },
            status: SurfaceStatus::Uninitialized,
        }
    }

    /// The current descriptor. Its width and height are at least one.
    pub fn swap_chain_desc(&self) -> (desc: SwapChainDescriptor)
        ensures
            desc == self.descriptor(),
            desc.width >= 1,
            desc.height >= 1,
    {
        proof {
            use_type_invariant(self);
        }
        self.swap_chain_desc
    }

    /// The current status.
    pub fn status(&self) -> (status: SurfaceStatus)
        ensures
            status == self.surface_status(),
    {
        self.status
    }

    /// The colour format of the images that the surface hands out.
    pub fn color_format(&self) -> (format: TextureFormat)
        ensures
            format == self.descriptor().format,
    {
        self.swap_chain_desc.format
    }

    /// Whether an image may be acquired now.
    pub fn is_ready(&self) -> (ready: bool)
        ensures
            ready == can_acquire(self.surface_status()),
    {
        match self.status {
            SurfaceStatus::Ready => true,
            SurfaceStatus::Recovering => true,
            _ => false,
        }
    }

    /// Takes a new surface size. Both dimensions are raised to at least one
    /// and stored; format and presentation mode stay. The surface is then
    /// resizing, and the chain has to be rebuilt from the returned
    /// descriptor before the next image is acquired.
    pub fn resize(&mut self, size: (u32, u32)) -> (desc: SwapChainDescriptor)
        ensures
            final(self).descriptor() == resized(old(self).descriptor(), size),
            final(self).surface_status() == SurfaceStatus::Resizing,
            desc == final(self).descriptor(),
    {
        let desc = SwapChainDescriptor {
            width: clamp(size.0),
            height: clamp(size.1),
            format: self.swap_chain_desc.format,
            present_mode: self.swap_chain_desc.present_mode,
        };
        *self = ScreenRenderer { swap_chain_desc: desc, status: SurfaceStatus::Resizing };
        desc
    }

    /// Records that the chain was built from the current descriptor. A
    /// surface that was uninitialized or resizing is ready afterwards.
    pub fn swap_chain_created(&mut self)
        ensures
            final(self).descriptor() == old(self).descriptor(),
            final(self).surface_status() == status_after_creation(old(self).surface_status()),
    {
        proof {
            use_type_invariant(&*self);
        }
        let status = match self.status {
            SurfaceStatus::Recovering => SurfaceStatus::Recovering,
            _ => SurfaceStatus::Ready,
        };
        *self = ScreenRenderer { swap_chain_desc: self.swap_chain_desc, status };
    }

    /// Takes the outcome of an attempt to acquire the next image and says
    /// what to do.
    ///
    /// A success makes the surface ready and asks to render. The first
    /// failure asks to rebuild the chain from the current descriptor and to
    /// try once more; a failure of that retry is fatal. The descriptor never
    /// changes here.
    pub fn on_acquire(&mut self, acquired: bool) -> (step: AcquireStep)
        requires
            can_acquire(old(self).surface_status()),
        ensures
            final(self).descriptor() == old(self).descriptor(),
            final(self).surface_status() == status_after_acquire(
                old(self).surface_status(),
                acquired,
            ),
            step == acquire_step(old(self).surface_status(), old(self).descriptor(), acquired),
    {
        proof {
            use_type_invariant(&*self);
        }
        let desc = self.swap_chain_desc;
        if acquired {
            *self = ScreenRenderer { swap_chain_desc: desc, status: SurfaceStatus::Ready };
            AcquireStep::Render
        } else {
            let step = match self.status {
                SurfaceStatus::Recovering => AcquireStep::Fatal(AcquireFailed),
                _ => AcquireStep::RecreateAndRetry(desc),
            };
            *self = ScreenRenderer { swap_chain_desc: desc, status: SurfaceStatus::Recovering };
            step
        }
    }
}

/// The status of a surface that was ready and then saw the first `n` of the
/// given acquisition outcomes, `true` for an acquired image.
pub open spec fn status_after(outcomes: Seq<bool>, n: int) -> SurfaceStatus
    decreases n,
{
    if n <= 0 {
        SurfaceStatus::Ready
    } else {
        status_after_acquire(status_after(outcomes, n - 1), outcomes[n - 1])
    }
}

/// What a surface that was ready answers to outcome `i` of the given
/// acquisition outcomes.
pub open spec fn step_at(desc: SwapChainDescriptor, outcomes: Seq<bool>, i: int) -> AcquireStep {
    acquire_step(status_after(outcomes, i), desc, outcomes[i])
}

/// Two failed acquisitions in a row are fatal, and exactly one rebuild and
/// retry lies before the fatal one. Over any run of acquisition attempts on
/// a surface that was ready: an attempt is fatal exactly when it and the
/// attempt before it failed; a failed attempt that is the first, or follows
/// a success, asks for the rebuild from the unchanged descriptor and one
/// retry; every success asks to render.
pub proof fn lemma_retry_once(desc: SwapChainDescriptor, outcomes: Seq<bool>, i: int)
    requires
        0 <= i < outcomes.len(),
    ensures
        step_at(desc, outcomes, i) == AcquireStep::Fatal(AcquireFailed) <==> i >= 1
            && !outcomes[i - 1] && !outcomes[i],
        step_at(desc, outcomes, i) == AcquireStep::RecreateAndRetry(desc) <==> !outcomes[i] && (i
            == 0 || outcomes[i - 1]),
        step_at(desc, outcomes, i) == AcquireStep::Render <==> outcomes[i],
{
    if i >= 1 {
        assert(status_after(outcomes, i) == status_after_acquire(
            status_after(outcomes, i - 1),
            outcomes[i - 1],
        ));
    } else {
        assert(status_after(outcomes, i) == SurfaceStatus::Ready);
    }
}

/// A resize never leaves a zero dimension, and keeps every dimension that is
/// not zero as it is.
pub proof fn lemma_resize_clamps(desc: SwapChainDescriptor, size: (u32, u32))
    ensures
        resized(desc, size).width >= 1,
        resized(desc, size).height >= 1,
        size.0 >= 1 ==> resized(desc, size).width == size.0,
        size.1 >= 1 ==> resized(desc, size).height == size.1,
        size.0 == 0 ==> resized(desc, size).width == 1,
        size.1 == 0 ==> resized(desc, size).height == 1,
        resized(desc, size).format == desc.format,
        resized(desc, size).present_mode == desc.present_mode,
{
}

} // verus!

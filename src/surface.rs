use vstd::prelude::*;

verus! {

/// Invocations in one workgroup of the ray-marching compute pass.
pub const WORKGROUP_SIZE: u32 = 64;

/// Vertices drawn by the full-screen pass: two triangles, positions made in
/// the shader.
pub const FULL_SCREEN_VERTICES: u32 = 6;

/// Size in pixels of the presentable surface and of the intermediate image.
/// Both sides are strictly positive.
#[derive(Clone, Copy, Debug, PartialEq, Eq, Structural)]
pub struct Viewport {
    pub width: u32,
    pub height: u32,
}

impl Viewport {
    pub open spec fn wf(&self) -> bool {
        self.width > 0 && self.height > 0
    }

    /// A viewport of the given size; `None` when a side is zero, since no
    /// surface can be configured at that size.
    pub fn new(width: u32, height: u32) -> (r: Option<Viewport>)
        ensures
            r.is_some() == (width > 0 && height > 0),
            r matches Some(v) ==> v.wf() && v.width == width && v.height == height,
    {
        if width > 0 && height > 0 {
            Some(Viewport { width, height })
        } else {
            None
        }
    }

    /// Takes a new window size. Returns whether the surface, the
    /// intermediate image, its bind group and the camera's aspect must be
    /// rebuilt at the new size: only when both sides are strictly positive.
    /// Otherwise the viewport keeps its size.
    pub fn resize(&mut self, width: u32, height: u32) -> (reconfigure: bool)
        requires
            old(self).wf(),
        ensures
            reconfigure == (width > 0 && height > 0),
            final(self).wf(),
            reconfigure ==> final(self).width == width && final(self).height == height,
            !reconfigure ==> *final(self) == *old(self),
    {
        if width > 0 && height > 0 {
            self.width = width;
            self.height = height;
            true
        } else {
            false
        }
    }

    /// Workgroups of the one-dimensional compute dispatch: enough groups of
    /// `WORKGROUP_SIZE` to cover every pixel.
    pub fn workgroup_count(&self) -> (r: u32)
        requires
            self.width * self.height <= WORKGROUP_SIZE * u32::MAX,
        ensures
            r == (self.width * self.height + WORKGROUP_SIZE - 1) / WORKGROUP_SIZE as int,
            r * WORKGROUP_SIZE >= self.width * self.height,
            r * WORKGROUP_SIZE < self.width * self.height + WORKGROUP_SIZE,
    {
        let pixels: u64 = self.width as u64 * self.height as u64;
        proof {
            assert(self.width as int * self.height as int <= u32::MAX as int * u32::MAX as int)
                by (nonlinear_arith);
        }
        ((pixels + 63) / 64) as u32
    }
}

/// Why the next presentable image could not be had.
#[derive(Clone, Copy, Debug, PartialEq, Eq, Structural)]
pub enum SurfaceFault {
    Lost,
    Outdated,
    OutOfMemory,
    Timeout,
}

/// What the frame loop does after a fault.
#[derive(Clone, Copy, Debug, PartialEq, Eq, Structural)]
pub enum FrameRecovery {
    /// Run the resize path at the current size, then retry next frame.
    Reconfigure,
    /// Leave the run loop.
    Stop,
    /// Drop this frame and change nothing.
    Skip,
}

pub open spec fn recovery_of(fault: SurfaceFault) -> FrameRecovery {
    match fault {
        SurfaceFault::Lost | SurfaceFault::Outdated => FrameRecovery::Reconfigure,
        SurfaceFault::OutOfMemory => FrameRecovery::Stop,
        SurfaceFault::Timeout => FrameRecovery::Skip,
    }
}

/// A lost or outdated surface is reconfigured, running out of memory ends
/// the loop, and a timeout skips the frame.
pub fn recovery_for(fault: SurfaceFault) -> (r: FrameRecovery)
    ensures
        r == recovery_of(fault),
{
    match fault {
        SurfaceFault::Lost | SurfaceFault::Outdated => FrameRecovery::Reconfigure,
        SurfaceFault::OutOfMemory => FrameRecovery::Stop,
        SurfaceFault::Timeout => FrameRecovery::Skip,
    }
}

} // verus!

//! The frame renderer's decision core.
//!
//! The host owns the GPU device, surface and buffers; this module owns every
//! decision the render loop makes between those calls: how a resize changes
//! the stored surface configuration, which mesh a frame draws and with how
//! many indices, and how the outcome of acquiring a presentation image maps
//! to the per-frame status the host acts on.  Each transition is given as a
//! spec function, and the executable methods are proved to follow it.

use vstd::prelude::*;

verus! {

/// The renderer blocks until the previous frame's image has been consumed
/// before acquiring the next: a frame-latency target of one.
pub const DESIRED_FRAME_LATENCY: u32 = 1;

/// Which static mesh the next frame draws.
#[derive(Clone, Copy, Debug, PartialEq, Eq, Structural)]
pub enum ActiveMesh {
    /// The default textured quad geometry.
    Quad,
    /// The generated circle geometry.
    Circle,
}

/// What acquiring the next presentation image reported.
#[derive(Clone, Copy, Debug, PartialEq, Eq, Structural)]
pub enum AcquireOutcome {
    /// An image is ready to be drawn into.
    Ready,
    /// The surface was lost and must be reconfigured.
    Lost,
    /// The surface no longer matches the window and must be reconfigured.
    Outdated,
    /// No image became available in time; the frame is skipped.
    Timeout,
    /// The device is out of memory; rendering cannot continue.
    OutOfMemory,
    /// An unspecified fatal condition; rendering cannot continue.
    OtherFatal,
}

/// Per-frame status handed back to the host.
#[derive(Clone, Copy, Debug, PartialEq, Eq, Structural)]
pub enum FrameStatus {
    /// The frame was handled; request the next redraw.
    Success,
    /// The surface must be reconfigured at the current size before the
    /// next frame.
    RecoverableNeedsResize,
    /// The renderer cannot continue; the host should exit.
    FatalShouldExit,
}

/// The one indexed draw call a successful frame issues.
#[derive(Clone, Copy, Debug, PartialEq, Eq, Structural)]
pub struct DrawCommand {
    pub mesh: ActiveMesh,
    pub index_count: u32,
}

/// What a frame came to: the status for the host, and the draw call to
/// record when an image was acquired.
#[derive(Clone, Copy, Debug, PartialEq, Eq)]
pub struct FrameOutcome {
    pub status: FrameStatus,
    pub draw: Option<DrawCommand>,
}

/// The renderer's mutable state between frames: the stored surface
/// configuration, the mesh toggle, and the index counts of the two static
/// meshes uploaded at initialization.
#[derive(Clone, Copy, Debug, PartialEq, Eq, Structural)]
pub struct Renderer {
    /// Width of the configured surface, in pixels.
    pub width: u32,
    /// Height of the configured surface, in pixels.
    pub height: u32,
    /// Which mesh the next frame draws.
    pub active_mesh: ActiveMesh,
    /// Index count of the default quad mesh.
    pub quad_index_count: u32,
    /// Index count of the generated circle mesh.
    pub circle_index_count: u32,
}

impl Renderer {
    /// The surface is never configured with an empty extent.
    pub open spec fn wf(self) -> bool {
        self.width > 0 && self.height > 0
    }
}

/// Effect of a resize request on the stored configuration: a nonzero
/// extent replaces the stored one and asks the host to reconfigure the
/// surface; a zero dimension means a transient minimized window and
/// changes nothing.
pub open spec fn spec_resize(s: Renderer, width: u32, height: u32) -> (Renderer, bool) {
    if width > 0 && height > 0 {
        (Renderer { width, height, ..s }, true)
    } else {
        (s, false)
    }
}

/// Effect of the input toggle: a pressed signal selects the circle mesh
/// for following frames, a released one the quad.
pub open spec fn spec_input_toggle(s: Renderer, pressed: bool) -> Renderer {
    Renderer {
        active_mesh: if pressed {
            ActiveMesh::Circle
        } else {
            ActiveMesh::Quad
        },
        ..s
    }
}

/// Index count of the mesh the toggle currently selects.
pub open spec fn spec_active_index_count(s: Renderer) -> u32 {
    match s.active_mesh {
        ActiveMesh::Quad => s.quad_index_count,
        ActiveMesh::Circle => s.circle_index_count,
    }
}

/// How the acquire outcome decides the frame: a ready image is drawn with
/// the active mesh over its full index range; a lost or outdated surface
/// asks for reconfiguration; a timeout drops the frame without error; out
/// of memory or an unspecified fault ends the run.
pub open spec fn spec_render_frame(s: Renderer, acquired: AcquireOutcome) -> FrameOutcome {
    match acquired {
        AcquireOutcome::Ready => FrameOutcome {
            status: FrameStatus::Success,
            draw: Some(
                DrawCommand { mesh: s.active_mesh, index_count: spec_active_index_count(s) },
            ),
        },
        AcquireOutcome::Lost | AcquireOutcome::Outdated => FrameOutcome {
            status: FrameStatus::RecoverableNeedsResize,
            draw: None,
        },
        AcquireOutcome::Timeout => FrameOutcome { status: FrameStatus::Success, draw: None },
        AcquireOutcome::OutOfMemory | AcquireOutcome::OtherFatal => FrameOutcome {
            status: FrameStatus::FatalShouldExit,
            draw: None,
        },
    }
}

impl Renderer {
    /// Initializes the renderer over a surface of the window's extent and
    /// the two meshes the host uploaded, drawing the quad until the toggle
    /// says otherwise.
    pub fn new(width: u32, height: u32, quad_index_count: u32, circle_index_count: u32) -> (r:
        Renderer)
        requires
            width > 0,
            height > 0,
        ensures
            r == (Renderer {
                width,
                height,
                active_mesh: ActiveMesh::Quad,
                quad_index_count,
                circle_index_count,
            }),
            r.wf(),
    {
        Renderer { width, height, active_mesh: ActiveMesh::Quad, quad_index_count, circle_index_count }
    }

    /// Applies a resize request; returns whether the host must reconfigure
    /// the surface to the stored extent.
    pub fn resize(&mut self, width: u32, height: u32) -> (reconfigure: bool)
        ensures
            (*final(self), reconfigure) == spec_resize(*old(self), width, height),
            reconfigure <==> width > 0 && height > 0,
            reconfigure ==> final(self).width == width && final(self).height == height,
            !reconfigure ==> *final(self) == *old(self),
            final(self).active_mesh == old(self).active_mesh,
            final(self).quad_index_count == old(self).quad_index_count,
            final(self).circle_index_count == old(self).circle_index_count,
            old(self).wf() ==> final(self).wf(),
    {
        if width > 0 && height > 0 {
            self.width = width;
            self.height = height;
            true
        } else {
            false
        }
    }

    /// Applies the external mesh-toggle signal; it takes effect on the next
    /// frame.
    pub fn input_toggle(&mut self, pressed: bool)
        ensures
            *final(self) == spec_input_toggle(*old(self), pressed),
            final(self).active_mesh == if pressed {
                ActiveMesh::Circle
            } else {
                ActiveMesh::Quad
            },
            final(self).width == old(self).width,
            final(self).height == old(self).height,
            final(self).quad_index_count == old(self).quad_index_count,
            final(self).circle_index_count == old(self).circle_index_count,
    {
        self.active_mesh = if pressed {
            ActiveMesh::Circle
        } else {
            ActiveMesh::Quad
        };
    }

    /// Decides the frame from what acquiring the presentation image
    /// reported.
    pub fn render_frame(&self, acquired: AcquireOutcome) -> (r: FrameOutcome)
        ensures
            r == spec_render_frame(*self, acquired),
            acquired == AcquireOutcome::Ready ==> r.status == FrameStatus::Success && (r.draw
                matches Some(d) && d.mesh == self.active_mesh && d.index_count
                == spec_active_index_count(*self)),
            acquired == AcquireOutcome::Lost || acquired == AcquireOutcome::Outdated ==> r.status
                == FrameStatus::RecoverableNeedsResize && r.draw is None,
            acquired == AcquireOutcome::Timeout ==> r.status == FrameStatus::Success && r.draw
                is None,
            acquired == AcquireOutcome::OutOfMemory || acquired == AcquireOutcome::OtherFatal
                ==> r.status == FrameStatus::FatalShouldExit && r.draw is None,
    {
        match acquired {
            AcquireOutcome::Ready => {
                let index_count = match self.active_mesh {
                    ActiveMesh::Quad => self.quad_index_count,
                    ActiveMesh::Circle => self.circle_index_count,
                };
                FrameOutcome {
                    status: FrameStatus::Success,
                    draw: Some(DrawCommand { mesh: self.active_mesh, index_count }),
                }
            },
            AcquireOutcome::Lost | AcquireOutcome::Outdated => FrameOutcome {
                status: FrameStatus::RecoverableNeedsResize,
                draw: None,
            },
            AcquireOutcome::Timeout => FrameOutcome { status: FrameStatus::Success, draw: None },
            AcquireOutcome::OutOfMemory | AcquireOutcome::OtherFatal => FrameOutcome {
                status: FrameStatus::FatalShouldExit,
                draw: None,
            },
        }
    }
}

/// Picks which of the surface's pixel formats to configure with: the first
/// sRGB one, or the first offered when none is.  `is_srgb` holds, per
/// offered format and in the surface's preference order, whether that
/// format is sRGB.
pub fn select_format_index(is_srgb: &Vec<bool>) -> (r: usize)
    requires
        is_srgb@.len() > 0,
    ensures
        r < is_srgb@.len(),
        (exists|i: int| 0 <= i < is_srgb@.len() && is_srgb@[i]) ==> is_srgb@[r as int] && forall|
            j: int,
        | 0 <= j < r ==> !is_srgb@[j],
        (forall|i: int| 0 <= i < is_srgb@.len() ==> !is_srgb@[i]) ==> r == 0,
{
    let mut k: usize = 0;
    while k < is_srgb.len()
        invariant
            0 <= k <= is_srgb@.len(),
            forall|j: int| 0 <= j < k ==> !is_srgb@[j],
        decreases is_srgb@.len() - k,
    {
        if is_srgb[k] {
            return k;
        }
        k = k + 1;
    }
    0
}

/// Law: a resize with a zero dimension is a no-op — the stored
/// configuration is unchanged and no reconfiguration is requested.
pub proof fn lemma_resize_zero_noop(s: Renderer, width: u32, height: u32)
    requires
        width == 0 || height == 0,
    ensures
        spec_resize(s, width, height) == ((s, false)),
{
}

/// Law: resizing replaces the stored extent rather than accumulating —
/// after two resize requests of which the second is nonzero, the state is
/// as if only the second had happened.
pub proof fn lemma_resize_replaces(s: Renderer, w1: u32, h1: u32, w2: u32, h2: u32)
    requires
        w2 > 0,
        h2 > 0,
    ensures
        spec_resize(spec_resize(s, w1, h1).0, w2, h2).0 == spec_resize(s, w2, h2).0,
{
}

/// Law: a lost surface yields the recoverable status with nothing drawn,
/// and reconfiguring at the stored extent — the resize the host then
/// issues — succeeds and leaves the state as it was.
pub proof fn lemma_lost_frame_recovers(s: Renderer)
    requires
        s.wf(),
    ensures
        spec_render_frame(s, AcquireOutcome::Lost) == (FrameOutcome {
            status: FrameStatus::RecoverableNeedsResize,
            draw: None,
        }),
        spec_resize(s, s.width, s.height) == ((s, true)),
{
}

/// Law: after the toggle selects the circle, a ready frame draws the
/// circle mesh over the circle's index count, not the quad's.
pub proof fn lemma_toggle_selects_circle(s: Renderer)
    ensures
        spec_render_frame(spec_input_toggle(s, true), AcquireOutcome::Ready) == (FrameOutcome {
            status: FrameStatus::Success,
            draw: Some(
                DrawCommand { mesh: ActiveMesh::Circle, index_count: s.circle_index_count },
            ),
        }),
{
}

} // verus!

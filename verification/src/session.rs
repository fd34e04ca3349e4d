//! The GPU session: the stateful core of the host.
//!
//! A session owns the presentation surface, the device, the queue, the
//! pipeline and the vertex buffer; here it is modelled by what the logic
//! reads and decides — the surface configuration, the current size, and the
//! vertex buffer's shape. The host performs the driver calls and keeps its
//! own handles beside this state, consulting it for every decision:
//! which configuration to apply, whether a resize takes effect, and what
//! one frame's render pass contains.

use vstd::prelude::*;

use crate::surface::{configured, Extent, FormatInfo, SurfaceConfig};
use crate::vertex::{triangle_vertices, TRIANGLE_VERTEX_COUNT, VERTEX_STRIDE_BYTES};

verus! {

/// A fatal construction failure: either no adapter compatible with the
/// surface was returned, or the adapter granted no logical device.
#[derive(Clone, Copy, PartialEq, Eq, Structural, Debug)]
pub enum StartupError {
    AdapterUnavailable,
    DeviceUnavailable,
}

/// What acquiring the next surface texture can report instead of a texture.
#[derive(Clone, Copy, PartialEq, Eq, Structural, Debug)]
pub enum SurfaceError {
    Lost,
    Outdated,
    OutOfMemory,
    Timeout,
}

/// Classifies adapter and device acquisition: construction goes ahead only
/// when an adapter compatible with the surface was returned and that
/// adapter granted a logical device with its queue.
pub fn startup_outcome(adapter_found: bool, device_granted: bool) -> (outcome: Result<
    (),
    StartupError,
>)
    ensures
        !adapter_found ==> outcome == Err::<(), StartupError>(StartupError::AdapterUnavailable),
        adapter_found && !device_granted ==> outcome == Err::<(), StartupError>(
            StartupError::DeviceUnavailable,
        ),
        adapter_found && device_granted ==> outcome == Ok::<(), StartupError>(()),
{
    if !adapter_found {
        Err(StartupError::AdapterUnavailable)
    } else if !device_granted {
        Err(StartupError::DeviceUnavailable)
    } else {
        Ok(())
    }
}

/// The session's state, as the logic reads it.
#[derive(Clone, Copy, PartialEq, Eq, Structural, Debug)]
pub struct Session {
    pub config: SurfaceConfig,
    pub size: Extent,
    pub vertex_count: u32,
    pub vertex_buffer_byte_len: u64,
}

/// One session's state after a resize request: a new size with both
/// dimensions strictly positive replaces the stored size and the
/// configuration's width and height; any other request changes nothing.
pub open spec fn resize_spec(s: Session, new_size: Extent) -> Session {
    if new_size.width > 0 && new_size.height > 0 {
        Session {
            size: new_size,
            config: SurfaceConfig { width: new_size.width, height: new_size.height, ..s.config },
            ..s
        }
    } else {
        s
    }
}

impl Session {
    /// Well-formedness: the configuration mirrors the stored size, both
    /// dimensions are positive while the surface is configured, usage and
    /// presentation are as construction fixed them, and the vertex buffer's
    /// byte length is the vertex count times the 24-byte stride.
    pub open spec fn wf(self) -> bool {
        &&& self.config.width == self.size.width
        &&& self.config.height == self.size.height
        &&& self.size.width > 0
        &&& self.size.height > 0
        &&& self.config.render_attachment_usage
        &&& self.config.vsync_present
        &&& self.config.view_format_count == 0
        &&& self.vertex_buffer_byte_len as int == self.vertex_count as int
            * VERTEX_STRIDE_BYTES as int
    }

    /// Constructs the session's state once adapter and device acquisition
    /// succeeded: the configuration is built from the window's initial
    /// inner size and the surface's advertised capabilities, and the vertex
    /// buffer is sized for the constant triangle's upload.
    pub fn new(
        initial_size: Extent,
        formats: &Vec<FormatInfo>,
        alpha_mode_ids: &Vec<u32>,
    ) -> (session: Session)
        requires
            initial_size.width > 0,
            initial_size.height > 0,
            formats@.len() > 0,
            alpha_mode_ids@.len() > 0,
        ensures
            session.wf(),
            session.size == initial_size,
            session.config == configured(initial_size, formats@, alpha_mode_ids@),
            session.vertex_count == TRIANGLE_VERTEX_COUNT,
            session.vertex_buffer_byte_len == TRIANGLE_VERTEX_COUNT as u64 * VERTEX_STRIDE_BYTES,
    {
        let config = crate::surface::build_config(initial_size, formats, alpha_mode_ids);
        let verts = triangle_vertices();
        let vertex_count: u32 = verts.len() as u32;
        let vertex_buffer_byte_len: u64 = (vertex_count as u64) * VERTEX_STRIDE_BYTES;
        Session { config, size: initial_size, vertex_count, vertex_buffer_byte_len }
    }

    /// Applies a resize request: when both dimensions are strictly
    /// positive the stored size and the configuration's width and height
    /// take the new values (the host then reapplies the configuration to
    /// the surface); a request with a zero dimension is a no-op.
    pub fn resize(&mut self, new_size: Extent)
        ensures
            *final(self) == resize_spec(*old(self), new_size),
            new_size.width > 0 && new_size.height > 0 ==> final(self).size == new_size
                && final(self).config.width == new_size.width && final(self).config.height
                == new_size.height,
            new_size.width == 0 || new_size.height == 0 ==> *final(self) == *old(self),
            old(self).wf() ==> final(self).wf(),
    {
        if new_size.width > 0 && new_size.height > 0 {
            self.size = new_size;
            self.config.width = new_size.width;
            self.config.height = new_size.height;
        }
    }

    /// The inert input hook: the pump offers every window event here
    /// before dispatching it, and a handled event would go no further. No
    /// event needs handling yet, so nothing is consumed and nothing
    /// changes.
    pub fn input(&mut self, event: &crate::shell::ShellEvent) -> (handled: bool)
        ensures
            !handled,
            *final(self) == *old(self),
    {
        let _ = event;
        false
    }

    /// The inert per-frame update hook: the pump calls it before each
    /// render, and it deliberately changes nothing. A host that later wants
    /// animation grows it; no cadence policy is fixed here.
    pub fn update(&mut self)
        ensures
            *final(self) == *old(self),
    {
    }

    /// Produces the plan of one frame from the outcome of acquiring the
    /// next surface texture (the acquisition itself is the host's step).
    /// A successful acquisition yields the fixed plan — clear to opaque
    /// white, store the pass, draw the whole triangle once from buffer
    /// slot 0, no depth or stencil attachment — and any acquisition error
    /// is handed back unchanged for the pump to act on.
    pub fn render(&self, acquired: Result<(), SurfaceError>) -> (frame: Result<
        FramePlan,
        SurfaceError,
    >)
        ensures
            acquired is Ok ==> frame == Ok::<FramePlan, SurfaceError>(frame_plan_spec(*self)),
            acquired matches Err(e) ==> frame == Err::<FramePlan, SurfaceError>(e),
    {
        match acquired {
            Ok(_) => Ok(
                FramePlan {
                    clear: ClearColor { red: 1, green: 1, blue: 1, alpha: 1 },
                    store_results: true,
                    first_vertex: 0,
                    vertex_count: self.vertex_count,
                    first_instance: 0,
                    instance_count: 1,
                    vertex_buffer_slot: 0,
                    uses_depth_stencil: false,
                },
            ),
            Err(e) => Err(e),
        }
    }
}

/// The clear color of the render pass, held integrally: the only clear this
/// host issues is opaque white, every channel exactly one unit.
#[derive(Clone, Copy, PartialEq, Eq, Structural, Debug)]
pub struct ClearColor {
    pub red: u32,
    pub green: u32,
    pub blue: u32,
    pub alpha: u32,
}

/// Everything one frame's render pass contains, for the host to execute
/// verbatim: the clear color of the single color attachment, whether the
/// pass's results are stored, and the one draw's vertex and instance
/// ranges and vertex buffer slot.
#[derive(Clone, Copy, PartialEq, Eq, Structural, Debug)]
pub struct FramePlan {
    pub clear: ClearColor,
    pub store_results: bool,
    pub first_vertex: u32,
    pub vertex_count: u32,
    pub first_instance: u32,
    pub instance_count: u32,
    pub vertex_buffer_slot: u32,
    pub uses_depth_stencil: bool,
}

/// The one plan a session renders: clear to opaque white, store, draw its
/// whole vertex range as one instance from slot 0, no depth or stencil.
pub open spec fn frame_plan_spec(s: Session) -> FramePlan {
    FramePlan {
        clear: ClearColor { red: 1, green: 1, blue: 1, alpha: 1 },
        store_results: true,
        first_vertex: 0,
        vertex_count: s.vertex_count,
        first_instance: 0,
        instance_count: 1,
        vertex_buffer_slot: 0,
        uses_depth_stencil: false,
    }
}

/// The session's state after a whole sequence of resize requests, applied
/// in order.
pub open spec fn resize_all(s: Session, sizes: Seq<Extent>) -> Session
    decreases sizes.len(),
{
    if sizes.len() == 0 {
        s
    } else {
        resize_all(resize_spec(s, sizes[0]), sizes.drop_first())
    }
}

/// Law: after any sequence of resize requests all of whose dimensions are
/// strictly positive, the configuration's width and height — and the
/// stored size — are those of the last request.
pub proof fn lemma_resize_sequence_last_wins(s: Session, sizes: Seq<Extent>)
    requires
        sizes.len() > 0,
        forall|i: int|
            0 <= i < sizes.len() ==> (#[trigger] sizes[i]).width > 0 && sizes[i].height > 0,
    ensures
        resize_all(s, sizes).size == sizes.last(),
        resize_all(s, sizes).config.width == sizes.last().width,
        resize_all(s, sizes).config.height == sizes.last().height,
    decreases sizes.len(),
{
    let stepped = resize_spec(s, sizes[0]);
    if sizes.len() == 1 {
        assert(sizes[0].width > 0 && sizes[0].height > 0);
        assert(sizes.drop_first().len() == 0);
        assert(resize_all(stepped, sizes.drop_first()) == stepped);
    } else {
        let rest = sizes.drop_first();
        assert(forall|i: int|
            0 <= i < rest.len() ==> (#[trigger] rest[i]).width > 0 && rest[i].height > 0) by {
            assert(forall|i: int| 0 <= i < rest.len() ==> rest[i] == sizes[i + 1]);
        }
        lemma_resize_sequence_last_wins(stepped, rest);
        assert(rest.last() == sizes.last());
    }
}

/// The last size of the sequence whose dimensions are both strictly
/// positive; nothing when no such size occurs.
pub open spec fn last_positive(sizes: Seq<Extent>) -> Option<Extent>
    decreases sizes.len(),
{
    if sizes.len() == 0 {
        None
    } else if sizes.last().width > 0 && sizes.last().height > 0 {
        Some(sizes.last())
    } else {
        last_positive(sizes.drop_last())
    }
}

/// Appending one more resize to a sequence is the same as resizing the
/// sequence's outcome once more.
proof fn lemma_resize_all_snoc(s: Session, sizes: Seq<Extent>, last: Extent)
    ensures
        resize_all(s, sizes.push(last)) == resize_spec(resize_all(s, sizes), last),
    decreases sizes.len(),
{
    if sizes.len() == 0 {
        assert(sizes.push(last)[0] == last);
        assert(sizes.push(last).drop_first() =~= Seq::<Extent>::empty());
        assert(resize_all(resize_spec(s, last), Seq::<Extent>::empty()) == resize_spec(s, last));
    } else {
        assert(sizes.push(last)[0] == sizes[0]);
        assert(sizes.push(last).drop_first() =~= sizes.drop_first().push(last));
        lemma_resize_all_snoc(resize_spec(s, sizes[0]), sizes.drop_first(), last);
    }
}

/// Law: after any sequence of resize requests, the stored size — and the
/// configuration's width and height — are those of the last request with
/// strictly positive dimensions; when no request had them, the session is
/// unchanged.
pub proof fn lemma_last_positive_resize_wins(s: Session, sizes: Seq<Extent>)
    ensures
        ({
            match last_positive(sizes) {
                Some(sz) => resize_all(s, sizes).size == sz && resize_all(s, sizes).config.width
                    == sz.width && resize_all(s, sizes).config.height == sz.height,
                None => resize_all(s, sizes) == s,
            }
        }),
    decreases sizes.len(),
{
    if sizes.len() > 0 {
        let prefix = sizes.drop_last();
        let last = sizes.last();
        assert(prefix.push(last) =~= sizes);
        lemma_resize_all_snoc(s, prefix, last);
        lemma_last_positive_resize_wins(s, prefix);
    }
}

/// Law: a resize request with a zero width or a zero height leaves the
/// session — its configuration included — unchanged.
pub proof fn lemma_resize_zero_is_noop(s: Session, new_size: Extent)
    requires
        new_size.width == 0 || new_size.height == 0,
    ensures
        resize_spec(s, new_size) == s,
{
}

/// Law: two consecutive resizes with the same size produce the same
/// session as one.
pub proof fn lemma_resize_idempotent(s: Session, new_size: Extent)
    ensures
        resize_spec(resize_spec(s, new_size), new_size) == resize_spec(s, new_size),
{
}

/// Law: every resize preserves well-formedness — in particular the vertex
/// buffer's byte length stays the vertex count times the 24-byte stride.
pub proof fn lemma_resize_preserves_wf(s: Session, new_size: Extent)
    requires
        s.wf(),
    ensures
        resize_spec(s, new_size).wf(),
{
}

/// Law: a well-formed session's vertex buffer byte length equals its
/// vertex count times the 24-byte vertex stride.
pub proof fn lemma_vertex_buffer_byte_len(s: Session)
    requires
        s.wf(),
    ensures
        s.vertex_buffer_byte_len as int == s.vertex_count as int * VERTEX_STRIDE_BYTES as int,
{
}

} // verus!

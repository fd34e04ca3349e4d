//! The render pipeline's fixed configuration.
//!
//! The pipeline is immutable after construction: one vertex stage and one
//! fragment stage out of the embedded shader module, one color target in
//! the surface's chosen format, and fixed-function state that never varies.
//! The host builds the driver's pipeline descriptor from exactly these
//! values and the vertex layout.

use vstd::prelude::*;

use crate::surface::FormatInfo;

verus! {

/// Entry point of the vertex stage in the embedded shader module.
pub fn vs_entry_point() -> (name: &'static str)
    ensures
        name@ == "vs_main"@,
{
    "vs_main"
}

/// Entry point of the fragment stage in the embedded shader module.
pub fn fs_entry_point() -> (name: &'static str)
    ensures
        name@ == "fs_main"@,
{
    "fs_main"
}

/// Every fixed choice of the render pipeline, for the host to translate
/// verbatim into the driver's descriptor.
#[derive(Clone, Copy, PartialEq, Eq, Structural, Debug)]
pub struct PipelineSettings {
    /// The single color target writes the surface's chosen format.
    pub color_target_format: FormatInfo,
    /// REPLACE blending on that target.
    pub blend_replace: bool,
    /// All color channels writable.
    pub write_mask_all: bool,
    /// Primitives are a triangle list, so no strip index format.
    pub topology_triangle_list: bool,
    /// Counter-clockwise triangles are front faces.
    pub front_face_ccw: bool,
    /// Back faces are culled.
    pub cull_back_faces: bool,
    /// Polygons are filled, not outlined.
    pub polygon_fill: bool,
    /// No depth clip disabling.
    pub unclipped_depth: bool,
    /// No conservative rasterization.
    pub conservative_raster: bool,
    /// No depth or stencil state.
    pub has_depth_stencil: bool,
    /// No multisampling: one sample per pixel.
    pub sample_count: u32,
    /// Full sample mask.
    pub sample_mask: u64,
    /// No alpha-to-coverage.
    pub alpha_to_coverage: bool,
    /// No multiview rendering.
    pub has_multiview: bool,
    /// The layout is empty: no bind group layouts ...
    pub bind_group_layout_count: u32,
    /// ... and no push constant ranges.
    pub push_constant_range_count: u32,
    /// The vertex stage consumes exactly one buffer layout: the vertex
    /// record's.
    pub vertex_buffer_layout_count: u32,
}

/// Fixes the pipeline for a chosen color target format: triangle-list
/// topology with counter-clockwise front faces and back-face culling, fill
/// polygon mode, REPLACE blend with all channels writable, one sample with
/// a full mask, and no depth/stencil, conservative rasterization,
/// unclipped depth, alpha-to-coverage, multiview, bind groups or push
/// constants; the one vertex buffer layout is the vertex record's.
pub fn pipeline_settings(color_target_format: FormatInfo) -> (settings: PipelineSettings)
    ensures
        settings.color_target_format == color_target_format,
        settings.blend_replace,
        settings.write_mask_all,
        settings.topology_triangle_list,
        settings.front_face_ccw,
        settings.cull_back_faces,
        settings.polygon_fill,
        !settings.unclipped_depth,
        !settings.conservative_raster,
        !settings.has_depth_stencil,
        settings.sample_count == 1,
        settings.sample_mask == u64::MAX,
        !settings.alpha_to_coverage,
        !settings.has_multiview,
        settings.bind_group_layout_count == 0,
        settings.push_constant_range_count == 0,
        settings.vertex_buffer_layout_count == 1,
{
    PipelineSettings {
        color_target_format,
        blend_replace: true,
        write_mask_all: true,
        topology_triangle_list: true,
        front_face_ccw: true,
        cull_back_faces: true,
        polygon_fill: true,
        unclipped_depth: false,
        conservative_raster: false,
        has_depth_stencil: false,
        sample_count: 1,
        sample_mask: u64::MAX,
        alpha_to_coverage: false,
        has_multiview: false,
        bind_group_layout_count: 0,
        push_constant_range_count: 0,
        vertex_buffer_layout_count: 1,
    }
}

} // verus!

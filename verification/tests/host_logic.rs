use tri_session::pipeline::{fs_entry_point, pipeline_settings, vs_entry_point};
use tri_session::session::{ClearColor, Session, StartupError, SurfaceError};
use tri_session::shell::{dispatch, render_follow_up, RenderFollowUp, ShellAction, ShellEvent};
use tri_session::surface::{build_config, choose_format, Extent, FormatInfo};
use tri_session::vertex::{triangle_vertices, vertex_layout, VertexHalves};

fn formats_with_srgb() -> Vec<FormatInfo> {
    vec![
        FormatInfo { id: 7, srgb: false },
        FormatInfo { id: 9, srgb: true },
        FormatInfo { id: 11, srgb: true },
    ]
}

fn formats_without_srgb() -> Vec<FormatInfo> {
    vec![FormatInfo { id: 7, srgb: false }, FormatInfo { id: 8, srgb: false }]
}

fn session_800_600() -> Session {
    Session::new(
        Extent { width: 800, height: 600 },
        &formats_with_srgb(),
        &vec![4, 5],
    )
}

#[test]
fn vertex_layout_describes_packed_record() {
    let layout = vertex_layout();
    assert_eq!(layout.array_stride, 24);
    assert!(layout.step_per_vertex);
    assert_eq!(layout.attributes.len(), 2);
    assert_eq!(layout.attributes[0].shader_location, 0);
    assert_eq!(layout.attributes[0].offset, 0);
    assert_eq!(layout.attributes[1].shader_location, 1);
    assert_eq!(layout.attributes[1].offset, 12);
}

#[test]
fn triangle_is_the_constant_one() {
    let verts = triangle_vertices();
    assert_eq!(verts.len(), 3);
    // Apex at (0, 1/2) in red, then lower-left in green, lower-right in
    // blue; every component is stored in halves of one unit.
    assert_eq!(verts[0], VertexHalves { x: 0, y: 1, z: 0, red: 2, green: 0, blue: 0 });
    assert_eq!(verts[1], VertexHalves { x: -1, y: -1, z: 0, red: 0, green: 2, blue: 0 });
    assert_eq!(verts[2], VertexHalves { x: 1, y: -1, z: 0, red: 0, green: 0, blue: 2 });
}

#[test]
fn first_srgb_format_wins() {
    let choice = choose_format(&formats_with_srgb());
    assert_eq!(choice, FormatInfo { id: 9, srgb: true });
}

#[test]
fn first_format_wins_when_none_is_srgb() {
    let choice = choose_format(&formats_without_srgb());
    assert_eq!(choice, FormatInfo { id: 7, srgb: false });
}

#[test]
fn configuration_takes_size_format_and_first_alpha_mode() {
    let config = build_config(
        Extent { width: 640, height: 480 },
        &formats_with_srgb(),
        &vec![3, 1],
    );
    assert!(config.render_attachment_usage);
    assert_eq!(config.format, FormatInfo { id: 9, srgb: true });
    assert_eq!(config.width, 640);
    assert_eq!(config.height, 480);
    assert!(config.vsync_present);
    assert_eq!(config.alpha_mode_id, 3);
    assert_eq!(config.view_format_count, 0);
}

#[test]
fn construction_uses_the_initial_inner_size() {
    let session = session_800_600();
    assert_eq!(session.size, Extent { width: 800, height: 600 });
    assert_eq!(session.config.width, 800);
    assert_eq!(session.config.height, 600);
}

#[test]
fn vertex_buffer_holds_three_24_byte_vertices() {
    let session = session_800_600();
    assert_eq!(session.vertex_count, 3);
    assert_eq!(session.vertex_buffer_byte_len, 3 * 24);
}

#[test]
fn resize_updates_the_configuration() {
    let mut session = session_800_600();
    session.resize(Extent { width: 1024, height: 768 });
    assert_eq!(session.config.width, 1024);
    assert_eq!(session.config.height, 768);
    assert_eq!(session.size, Extent { width: 1024, height: 768 });
    let frame = session.render(Ok(()));
    assert!(frame.is_ok());
}

#[test]
fn zero_sized_resizes_are_ignored() {
    let mut session = session_800_600();
    session.resize(Extent { width: 0, height: 600 });
    assert_eq!(session.config.width, 800);
    assert_eq!(session.config.height, 600);
    session.resize(Extent { width: 0, height: 0 });
    assert_eq!(session.config.width, 800);
    assert_eq!(session.config.height, 600);
    session.resize(Extent { width: 1024, height: 768 });
    assert_eq!(session.config.width, 1024);
    assert_eq!(session.config.height, 768);
}

#[test]
fn repeating_a_resize_changes_nothing_more() {
    let mut once = session_800_600();
    once.resize(Extent { width: 1024, height: 768 });
    let mut twice = session_800_600();
    twice.resize(Extent { width: 1024, height: 768 });
    twice.resize(Extent { width: 1024, height: 768 });
    assert_eq!(once, twice);
}

#[test]
fn the_last_of_a_positive_resize_sequence_wins() {
    let mut session = session_800_600();
    for (w, h) in [(320, 200), (640, 480), (1920, 1080)] {
        session.resize(Extent { width: w, height: h });
    }
    assert_eq!(session.config.width, 1920);
    assert_eq!(session.config.height, 1080);
}

#[test]
fn a_frame_clears_to_opaque_white_and_draws_the_triangle_once() {
    let session = session_800_600();
    let frame = session.render(Ok(())).unwrap();
    assert_eq!(frame.clear, ClearColor { red: 1, green: 1, blue: 1, alpha: 1 });
    assert!(frame.store_results);
    assert_eq!(frame.first_vertex, 0);
    assert_eq!(frame.vertex_count, 3);
    assert_eq!(frame.first_instance, 0);
    assert_eq!(frame.instance_count, 1);
    assert_eq!(frame.vertex_buffer_slot, 0);
    assert!(!frame.uses_depth_stencil);
}

#[test]
fn a_lost_surface_is_recovered_by_reconfiguring() {
    let mut session = session_800_600();
    let first = session.render(Err(SurfaceError::Lost));
    assert_eq!(first.unwrap_err(), SurfaceError::Lost);
    assert_eq!(render_follow_up(&first), RenderFollowUp::ReconfigureCurrentSize);
    let current = session.size;
    session.resize(current);
    assert_eq!(session.config.width, 800);
    assert_eq!(session.config.height, 600);
    assert!(session.render(Ok(())).is_ok());
}

#[test]
fn an_outdated_surface_is_recovered_by_reconfiguring() {
    let session = session_800_600();
    let outcome = session.render(Err(SurfaceError::Outdated));
    assert_eq!(render_follow_up(&outcome), RenderFollowUp::ReconfigureCurrentSize);
}

#[test]
fn memory_exhaustion_terminates_the_host() {
    let session = session_800_600();
    let outcome = session.render(Err(SurfaceError::OutOfMemory));
    assert_eq!(render_follow_up(&outcome), RenderFollowUp::Terminate);
}

#[test]
fn a_timeout_only_warns() {
    let session = session_800_600();
    let outcome = session.render(Err(SurfaceError::Timeout));
    assert_eq!(render_follow_up(&outcome), RenderFollowUp::WarnAndContinue);
}

#[test]
fn a_presented_frame_needs_no_follow_up() {
    let session = session_800_600();
    let outcome = session.render(Ok(()));
    assert_eq!(render_follow_up(&outcome), RenderFollowUp::Continue);
}

#[test]
fn escape_and_close_requests_end_the_pump() {
    assert_eq!(dispatch(&ShellEvent::EscapePressed, true), ShellAction::Exit);
    assert_eq!(dispatch(&ShellEvent::CloseRequested, true), ShellAction::Exit);
    assert_eq!(dispatch(&ShellEvent::EscapePressed, false), ShellAction::Ignore);
    assert_eq!(dispatch(&ShellEvent::CloseRequested, false), ShellAction::Ignore);
}

#[test]
fn size_changes_reach_the_session_as_resizes() {
    assert_eq!(
        dispatch(&ShellEvent::Resized { width: 1024, height: 768 }, true),
        ShellAction::Resize { width: 1024, height: 768 },
    );
    assert_eq!(
        dispatch(&ShellEvent::ScaleFactorChanged { width: 900, height: 800 }, true),
        ShellAction::Resize { width: 900, height: 800 },
    );
    assert_eq!(
        dispatch(&ShellEvent::Resized { width: 1024, height: 768 }, false),
        ShellAction::Ignore,
    );
}

#[test]
fn redraws_render_and_are_rearmed_continuously() {
    assert_eq!(dispatch(&ShellEvent::RedrawRequested, true), ShellAction::RenderFrame);
    assert_eq!(dispatch(&ShellEvent::RedrawRequested, false), ShellAction::Ignore);
    assert_eq!(dispatch(&ShellEvent::RedrawEventsCleared, true), ShellAction::RequestRedraw);
    assert_eq!(dispatch(&ShellEvent::RedrawEventsCleared, false), ShellAction::RequestRedraw);
    assert_eq!(dispatch(&ShellEvent::Other, true), ShellAction::Ignore);
}

#[test]
fn startup_fails_without_adapter_or_device() {
    assert_eq!(
        tri_session::session::startup_outcome(false, false),
        Err(StartupError::AdapterUnavailable),
    );
    assert_eq!(
        tri_session::session::startup_outcome(false, true),
        Err(StartupError::AdapterUnavailable),
    );
    assert_eq!(
        tri_session::session::startup_outcome(true, false),
        Err(StartupError::DeviceUnavailable),
    );
    assert_eq!(tri_session::session::startup_outcome(true, true), Ok(()));
}

#[test]
fn the_input_and_update_hooks_are_inert() {
    let mut session = session_800_600();
    let before = session;
    assert!(!session.input(&ShellEvent::Other));
    session.update();
    assert_eq!(session, before);
}

#[test]
fn the_pipeline_is_fixed_function_as_documented() {
    let format = FormatInfo { id: 9, srgb: true };
    let settings = pipeline_settings(format);
    assert_eq!(settings.color_target_format, format);
    assert!(settings.blend_replace);
    assert!(settings.write_mask_all);
    assert!(settings.topology_triangle_list);
    assert!(settings.front_face_ccw);
    assert!(settings.cull_back_faces);
    assert!(settings.polygon_fill);
    assert!(!settings.unclipped_depth);
    assert!(!settings.conservative_raster);
    assert!(!settings.has_depth_stencil);
    assert_eq!(settings.sample_count, 1);
    assert_eq!(settings.sample_mask, u64::MAX);
    assert!(!settings.alpha_to_coverage);
    assert!(!settings.has_multiview);
    assert_eq!(settings.bind_group_layout_count, 0);
    assert_eq!(settings.push_constant_range_count, 0);
    assert_eq!(settings.vertex_buffer_layout_count, 1);
    assert_eq!(vs_entry_point(), "vs_main");
    assert_eq!(fs_entry_point(), "fs_main");
}

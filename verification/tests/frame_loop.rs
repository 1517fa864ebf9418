use hello_wgpu::renderer::{
    select_format_index, AcquireOutcome, ActiveMesh, FrameStatus, Renderer,
};

fn renderer() -> Renderer {
    Renderer::new(800, 600, 9, 144)
}

#[test]
fn resize_zero_width_is_noop() {
    let mut r = renderer();
    assert!(!r.resize(0, 500));
    assert_eq!((r.width, r.height), (800, 600));
}

#[test]
fn resize_zero_height_is_noop() {
    let mut r = renderer();
    assert!(!r.resize(500, 0));
    assert_eq!((r.width, r.height), (800, 600));
}

#[test]
fn resize_replaces_previous_extent() {
    let mut r = renderer();
    assert!(r.resize(800, 600));
    assert!(r.resize(1024, 768));
    assert_eq!((r.width, r.height), (1024, 768));
}

#[test]
fn ready_frame_draws_quad_by_default() {
    let r = renderer();
    let f = r.render_frame(AcquireOutcome::Ready);
    assert_eq!(f.status, FrameStatus::Success);
    let d = f.draw.unwrap();
    assert_eq!(d.mesh, ActiveMesh::Quad);
    assert_eq!(d.index_count, 9);
}

#[test]
fn toggle_then_render_draws_circle_index_count() {
    let mut r = renderer();
    r.input_toggle(true);
    let f = r.render_frame(AcquireOutcome::Ready);
    let d = f.draw.unwrap();
    assert_eq!(d.mesh, ActiveMesh::Circle);
    assert_eq!(d.index_count, 144);
    assert_ne!(d.index_count, 9);
}

#[test]
fn toggle_release_returns_to_quad() {
    let mut r = renderer();
    r.input_toggle(true);
    r.input_toggle(false);
    let f = r.render_frame(AcquireOutcome::Ready);
    assert_eq!(f.draw.unwrap().mesh, ActiveMesh::Quad);
}

#[test]
fn lost_surface_then_resize_at_stored_extent_succeeds() {
    let mut r = renderer();
    let f = r.render_frame(AcquireOutcome::Lost);
    assert_eq!(f.status, FrameStatus::RecoverableNeedsResize);
    assert!(f.draw.is_none());
    let (w, h) = (r.width, r.height);
    assert!(r.resize(w, h));
    assert_eq!((r.width, r.height), (800, 600));
}

#[test]
fn outdated_surface_is_recoverable() {
    let r = renderer();
    let f = r.render_frame(AcquireOutcome::Outdated);
    assert_eq!(f.status, FrameStatus::RecoverableNeedsResize);
    assert!(f.draw.is_none());
}

#[test]
fn timeout_skips_frame_without_error() {
    let r = renderer();
    let f = r.render_frame(AcquireOutcome::Timeout);
    assert_eq!(f.status, FrameStatus::Success);
    assert!(f.draw.is_none());
}

#[test]
fn out_of_memory_is_fatal() {
    let r = renderer();
    let f = r.render_frame(AcquireOutcome::OutOfMemory);
    assert_eq!(f.status, FrameStatus::FatalShouldExit);
    assert!(f.draw.is_none());
}

#[test]
fn other_surface_fault_is_fatal() {
    let r = renderer();
    let f = r.render_frame(AcquireOutcome::OtherFatal);
    assert_eq!(f.status, FrameStatus::FatalShouldExit);
}

#[test]
fn first_srgb_format_is_selected() {
    assert_eq!(select_format_index(&vec![false, true, false, true]), 1);
    assert_eq!(select_format_index(&vec![true, false]), 0);
}

#[test]
fn first_format_is_selected_when_none_is_srgb() {
    assert_eq!(select_format_index(&vec![false, false, false]), 0);
}

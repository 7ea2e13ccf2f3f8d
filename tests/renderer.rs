use canvas_circle::{DrawOp, Paint, Renderer, RendererError};

fn frame(center_x: i128, center_y: i128, radius: u64, width: u32, height: u32) -> Vec<DrawOp> {
    vec![
        DrawOp::SetFillStyle(Paint::White),
        DrawOp::FillRect { x: 0, y: 0, width, height },
        DrawOp::SetFillStyle(Paint::Configured),
        DrawOp::BeginPath,
        DrawOp::Arc { center_x, center_y, radius },
        DrawOp::Fill,
    ]
}

fn renderer(pixel_ratio: u32, color: &str) -> Renderer<&'static str, u8, String> {
    match Renderer::new("surface", Some(7u8), pixel_ratio, color.to_string()) {
        Ok(r) => r,
        Err(e) => panic!("construction failed: {:?}", e),
    }
}

#[test]
fn ratio_two_draws_circle_at_scaled_offsets() {
    let r = renderer(2, "#112233");
    let ops = r.update(10, 10, 640, 480);
    assert_eq!(ops, frame(-5, -5, 100, 640, 480));
    assert_eq!(r.color(), "#112233");
}

#[test]
fn zero_offsets_place_circle_off_surface() {
    let r = renderer(1, "red");
    let ops = r.update(0, 0, 300, 150);
    assert_eq!(ops, frame(-25, -25, 50, 300, 150));
}

#[test]
fn construction_fails_without_context() {
    let r: Result<Renderer<&str, u8, String>, RendererError> =
        Renderer::new("surface", None, 1, "red".to_string());
    assert!(matches!(r, Err(RendererError::ContextUnavailable)));
}

#[test]
fn construction_keeps_its_arguments() {
    let r = renderer(3, "blue");
    assert_eq!(*r.surface(), "surface");
    assert_eq!(*r.context(), 7u8);
    assert_eq!(r.pixel_ratio(), 3);
    assert_eq!(r.color(), "blue");
}

#[test]
fn geometry_scales_with_pixel_ratio() {
    let r = renderer(3, "blue");
    let ops = r.update(7, 40, 100, 100);
    assert_eq!(ops[4], DrawOp::Arc { center_x: 3 * 7 - 25, center_y: 3 * 40 - 25, radius: 150 });
}

#[test]
fn largest_inputs_do_not_overflow() {
    let r = renderer(u32::MAX, "blue");
    let ops = r.update(u32::MAX, 0, u32::MAX, u32::MAX);
    let m = u32::MAX as i128;
    assert_eq!(ops, frame(m * m - 25, -25, u32::MAX as u64 * 50, u32::MAX, u32::MAX));
}

#[test]
fn every_frame_starts_with_full_white_clear() {
    let r = renderer(2, "green");
    for (x, y) in [(0u32, 0u32), (5, 9), (100, 3)] {
        let ops = r.update(x, y, 800, 600);
        assert_eq!(ops[0], DrawOp::SetFillStyle(Paint::White));
        assert_eq!(ops[1], DrawOp::FillRect { x: 0, y: 0, width: 800, height: 600 });
    }
}

#[test]
fn clear_follows_the_current_surface_size() {
    let r = renderer(1, "green");
    assert_eq!(r.update(1, 1, 800, 600)[1], DrawOp::FillRect { x: 0, y: 0, width: 800, height: 600 });
    assert_eq!(r.update(1, 1, 1024, 0)[1], DrawOp::FillRect { x: 0, y: 0, width: 1024, height: 0 });
}

#[test]
fn configured_color_is_active_after_each_frame() {
    let r = renderer(2, "#112233");
    let ops = r.update(10, 10, 640, 480);
    let last_style = ops
        .iter()
        .rev()
        .find_map(|op| match op {
            DrawOp::SetFillStyle(p) => Some(*p),
            _ => None,
        });
    assert_eq!(last_style, Some(Paint::Configured));
    assert_eq!(ops[5], DrawOp::Fill);
}

#[test]
fn same_offsets_give_the_same_frame() {
    let r = renderer(2, "#112233");
    let first = r.update(12, 34, 640, 480);
    let second = r.update(12, 34, 640, 480);
    assert_eq!(first, second);
}

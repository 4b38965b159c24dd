use gfx_triangle::scene::{clear_data, triangle, ClearData, Vertex, FRAGMENT_SRC, SCALE, VERTEX_SRC};
use gfx_triangle::viewport::{dimension, Frame};

fn unit(tenths: i32) -> f32 {
    tenths as f32 / SCALE as f32
}

#[test]
fn triangle_has_three_fixed_vertices() {
    let mesh = triangle();
    assert_eq!(
        mesh,
        vec![
            Vertex { pos: (-5, -5), color: (10, 0, 0) },
            Vertex { pos: (5, -5), color: (0, 10, 0) },
            Vertex { pos: (0, 5), color: (0, 0, 10) },
        ]
    );
}

#[test]
fn triangle_is_the_same_every_time() {
    assert_eq!(triangle(), triangle());
    assert_eq!(triangle().len(), 3);
}

#[test]
fn triangle_in_floating_point() {
    let mesh = triangle();
    let pos: Vec<[f32; 2]> = mesh.iter().map(|v| [unit(v.pos.0), unit(v.pos.1)]).collect();
    let color: Vec<[f32; 3]> =
        mesh.iter().map(|v| [unit(v.color.0), unit(v.color.1), unit(v.color.2)]).collect();
    assert_eq!(pos, vec![[-0.5, -0.5], [0.5, -0.5], [0.0, 0.5]]);
    assert_eq!(color, vec![[1.0, 0.0, 0.0], [0.0, 1.0, 0.0], [0.0, 0.0, 1.0]]);
}

#[test]
fn clear_is_gray_without_depth_or_stencil() {
    let clear = clear_data();
    assert_eq!(clear, ClearData { color: Some((3, 3, 3, 10)), depth: None, stencil: None });
    assert_eq!(clear.depth, None);
    assert_eq!(clear.stencil, None);
}

#[test]
fn clear_color_in_floating_point() {
    let (r, g, b, a) = clear_data().color.unwrap();
    assert_eq!([unit(r), unit(g), unit(b), unit(a)], [0.3f32, 0.3, 0.3, 1.0]);
}

#[test]
fn scale_is_ten() {
    assert_eq!(SCALE, 10);
}

#[test]
fn shaders_are_glsl_150() {
    assert!(VERTEX_SRC.trim_start().starts_with("#version 150 core"));
    assert!(FRAGMENT_SRC.trim_start().starts_with("#version 150 core"));
    assert!(VERTEX_SRC.contains("in vec2 pos;"));
    assert!(VERTEX_SRC.contains("in vec3 color;"));
    assert!(VERTEX_SRC.contains("gl_Position = vec4(pos, 0.0, 1.0);"));
    assert!(FRAGMENT_SRC.contains("o_Color = v_Color;"));
}

#[test]
fn dimension_keeps_sizes_in_range() {
    assert_eq!(dimension(0), 0);
    assert_eq!(dimension(640), 640);
    assert_eq!(dimension(480), 480);
    assert_eq!(dimension(65535), 65535);
}

#[test]
fn dimension_wraps_out_of_range() {
    assert_eq!(dimension(65536), 0);
    assert_eq!(dimension(65536 + 7), 7);
    assert_eq!(dimension(-1), 65535);
    assert_eq!(dimension(i32::MIN), 0);
    assert_eq!(dimension(i32::MAX), 65535);
}

#[test]
fn frame_new_keeps_both_sides() {
    assert_eq!(Frame::new(640, 480), Frame { width: 640, height: 480 });
}

#[test]
fn frame_of_window_takes_the_window_size() {
    assert_eq!(Frame::of_window(640, 480), Frame { width: 640, height: 480 });
    assert_eq!(Frame::of_window(-1, 65536), Frame { width: 65535, height: 0 });
}

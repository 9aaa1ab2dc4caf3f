use my_graphics::commands::{white, Color, Point, SCALAR_ONE, SCALAR_ZERO};
use my_graphics::renderer::Renderer;

fn pt(x: f32, y: f32) -> Point {
    [x.to_bits(), y.to_bits()]
}

fn rgba(r: f32, g: f32, b: f32, a: f32) -> Color {
    [r.to_bits(), g.to_bits(), b.to_bits(), a.to_bits()]
}

const WHITE_TEX: u64 = 1;

#[test]
fn new_renderer_state() {
    let r = Renderer::new(WHITE_TEX);
    assert_eq!(r.vertex_capacity(), 1024);
    assert_eq!(r.current_color(), white());
    assert_eq!(r.current_texture(), WHITE_TEX);
    assert_eq!(r.font_family(), "sans-serif");
    assert!(r.vertices().is_empty());
    assert!(r.batches().is_empty());
    assert!(r.text_draws().is_empty());
}

#[test]
fn triangle_vertices_and_uvs() {
    let mut r = Renderer::new(WHITE_TEX);
    let red = rgba(1.0, 0.0, 0.0, 1.0);
    r.set_color(red);
    r.draw_triangle(pt(0.0, 0.0), pt(10.0, 0.0), pt(0.0, 10.0));
    let vs = r.vertices();
    assert_eq!(vs.len(), 3);
    assert_eq!(vs[0].position, pt(0.0, 0.0));
    assert_eq!(vs[1].position, pt(10.0, 0.0));
    assert_eq!(vs[2].position, pt(0.0, 10.0));
    assert_eq!(vs[0].tex_coords, [SCALAR_ZERO, SCALAR_ZERO]);
    assert_eq!(vs[1].tex_coords, [SCALAR_ZERO, SCALAR_ONE]);
    assert_eq!(vs[2].tex_coords, [SCALAR_ONE, SCALAR_ONE]);
    for v in vs {
        assert_eq!(v.color, red);
    }
    let bs = r.batches();
    assert_eq!(bs.len(), 1);
    assert_eq!((bs[0].texture, bs[0].start, bs[0].end), (WHITE_TEX, 0, 3));
}

#[test]
fn same_texture_merges_into_one_batch() {
    let mut r = Renderer::new(WHITE_TEX);
    r.set_color(rgba(1.0, 0.0, 0.0, 1.0));
    r.draw_triangle(pt(0.0, 0.0), pt(1.0, 0.0), pt(0.0, 1.0));
    r.set_color(rgba(0.0, 1.0, 0.0, 1.0));
    r.draw_triangle(pt(0.0, 0.0), pt(1.0, 0.0), pt(0.0, 1.0));
    assert_eq!(r.batches().len(), 1);
    assert_eq!(r.batches()[0].end, 6);
}

#[test]
fn texture_change_starts_a_batch() {
    let mut r = Renderer::new(WHITE_TEX);
    r.draw_triangle(pt(0.0, 0.0), pt(1.0, 0.0), pt(0.0, 1.0));
    assert!(r.set_picture("a.png", Some(7)));
    assert_eq!(r.current_color(), white());
    assert_eq!(r.current_texture(), 7);
    r.draw_triangle(pt(0.0, 0.0), pt(1.0, 0.0), pt(0.0, 1.0));
    r.draw_triangle(pt(0.0, 0.0), pt(1.0, 0.0), pt(0.0, 1.0));
    r.set_color(rgba(0.5, 0.5, 0.5, 1.0));
    assert_eq!(r.current_texture(), WHITE_TEX);
    r.draw_triangle(pt(0.0, 0.0), pt(1.0, 0.0), pt(0.0, 1.0));
    let got: Vec<(u64, u32, u32)> = r.batches().iter().map(|b| (b.texture, b.start, b.end)).collect();
    assert_eq!(got, vec![(WHITE_TEX, 0, 3), (7, 3, 9), (WHITE_TEX, 9, 12)]);
}

#[test]
fn characters_and_font() {
    let mut r = Renderer::new(WHITE_TEX);
    r.set_font("serif");
    assert_eq!(r.font_family(), "serif");
    let blue = rgba(0.0, 0.0, 1.0, 1.0);
    r.set_color(blue);
    r.draw_char('A', pt(5.0, 6.0), 24.0f32.to_bits());
    let ts = r.text_draws();
    assert_eq!(ts.len(), 1);
    assert_eq!(ts[0].character, 'A');
    assert_eq!(ts[0].pos, pt(5.0, 6.0));
    assert_eq!(ts[0].size, 24.0f32.to_bits());
    assert_eq!(ts[0].color, blue);
    assert_eq!(ts[0].family, "serif");
    // A later change of font applies to later characters only.
    r.set_font("monospace");
    r.draw_char('B', pt(6.0, 6.0), 24.0f32.to_bits());
    let ts = r.text_draws();
    assert_eq!(ts[0].family, "serif");
    assert_eq!(ts[1].family, "monospace");
}

#[test]
fn capacity_grows_only_when_needed() {
    let mut r = Renderer::new(WHITE_TEX);
    r.draw_triangle(pt(0.0, 0.0), pt(1.0, 0.0), pt(0.0, 1.0));
    assert!(!r.reserve_vertex_buffer());
    assert_eq!(r.vertex_capacity(), 1024);
    for _ in 0..400 {
        r.draw_triangle(pt(0.0, 0.0), pt(1.0, 0.0), pt(0.0, 1.0));
    }
    assert_eq!(r.vertices().len(), 1203);
    assert!(r.reserve_vertex_buffer());
    assert_eq!(r.vertex_capacity(), 2048);
    for _ in 0..1000 {
        r.draw_triangle(pt(0.0, 0.0), pt(1.0, 0.0), pt(0.0, 1.0));
    }
    assert_eq!(r.vertices().len(), 4203);
    assert!(r.reserve_vertex_buffer());
    assert_eq!(r.vertex_capacity(), 4203);
    assert_eq!(r.batches().len(), 1);
}

#[test]
fn clear_frame_keeps_state() {
    let mut r = Renderer::new(WHITE_TEX);
    assert!(r.set_picture("p.png", Some(3)));
    r.draw_triangle(pt(0.0, 0.0), pt(1.0, 0.0), pt(0.0, 1.0));
    r.draw_char('x', pt(0.0, 0.0), 16.0f32.to_bits());
    r.clear_frame();
    assert!(r.vertices().is_empty());
    assert!(r.batches().is_empty());
    assert!(r.text_draws().is_empty());
    assert_eq!(r.current_texture(), 3);
    assert_eq!(r.current_color(), white());
    r.draw_triangle(pt(0.0, 0.0), pt(1.0, 0.0), pt(0.0, 1.0));
    assert_eq!((r.batches()[0].texture, r.batches()[0].start), (3, 0));
}

#[test]
fn pictures_are_loaded_once_and_reused() {
    let mut r = Renderer::new(WHITE_TEX);
    assert_eq!(r.picture("a.png"), None);
    assert!(r.set_picture("a.png", Some(7)));
    assert_eq!(r.picture("a.png"), Some(7));
    r.set_color(rgba(1.0, 0.0, 0.0, 1.0));
    // Already loaded: the texture made before is used again.
    assert!(r.set_picture("a.png", Some(99)));
    assert_eq!(r.current_texture(), 7);
    assert_eq!(r.current_color(), white());
    assert!(r.set_picture("b.png", Some(8)));
    assert_eq!(r.picture("b.png"), Some(8));
    assert_eq!(r.picture("a.png"), Some(7));
}

#[test]
fn failed_picture_changes_nothing() {
    let mut r = Renderer::new(WHITE_TEX);
    let red = rgba(1.0, 0.0, 0.0, 1.0);
    r.set_color(red);
    assert!(!r.set_picture("missing.png", None));
    assert_eq!(r.current_color(), red);
    assert_eq!(r.current_texture(), WHITE_TEX);
    assert_eq!(r.picture("missing.png"), None);
}

use my_graphics::commands::{Color, DrawCmd, Point};
use my_graphics::text::TextLayouts;

fn pt(x: f32, y: f32) -> Point {
    [x.to_bits(), y.to_bits()]
}

fn rgba(r: f32, g: f32, b: f32, a: f32) -> Color {
    [r.to_bits(), g.to_bits(), b.to_bits(), a.to_bits()]
}

fn text(s: &str, c: Color) -> DrawCmd {
    DrawCmd::Text { text: s.to_string(), pos: pt(0.0, 0.0), color: c }
}

#[test]
fn new_texts_are_laid_out_once() {
    let red = rgba(1.0, 0.0, 0.0, 1.0);
    let blue = rgba(0.0, 0.0, 1.0, 1.0);
    let frame = vec![
        text("hello", red),
        DrawCmd::Line { p1: pt(0.0, 0.0), p2: pt(1.0, 1.0), color: red },
        text("hello", red),
        text("hello", blue),
        text("world", red),
    ];
    let mut layouts = TextLayouts::new();
    assert_eq!(layouts.plan(&frame), vec![0, 3, 4]);
    assert_eq!(layouts.slot(&"hello".to_string(), red), Some(0));
    assert_eq!(layouts.slot(&"hello".to_string(), blue), Some(1));
    assert_eq!(layouts.slot(&"world".to_string(), red), Some(2));
    assert_eq!(layouts.slot(&"world".to_string(), blue), None);
    // The same frame again reuses every layout.
    assert!(layouts.plan(&frame).is_empty());
}

#[test]
fn later_frames_add_only_new_layouts() {
    let red = rgba(1.0, 0.0, 0.0, 1.0);
    let green = rgba(0.0, 1.0, 0.0, 1.0);
    let mut layouts = TextLayouts::new();
    assert_eq!(layouts.plan(&vec![text("a", red)]), vec![0]);
    assert_eq!(layouts.plan(&vec![text("b", red), text("a", red), text("a", green)]), vec![0, 2]);
    assert_eq!(layouts.slot(&"a".to_string(), red), Some(0));
    assert_eq!(layouts.slot(&"b".to_string(), red), Some(1));
    assert_eq!(layouts.slot(&"a".to_string(), green), Some(2));
    assert!(layouts.plan(&vec![]).is_empty());
}

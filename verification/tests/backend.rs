use my_graphics::backend::SurfaceSize;

#[test]
fn resize_takes_a_real_size() {
    let mut s = SurfaceSize::new(800, 600, 1.0f32.to_bits());
    assert!(s.resize(1600, 1200, 2.0f32.to_bits()));
    assert_eq!((s.width, s.height, s.scale_factor), (1600, 1200, 2.0f32.to_bits()));
}

#[test]
fn resize_to_nothing_is_ignored() {
    let mut s = SurfaceSize::new(800, 600, 1.0f32.to_bits());
    assert!(!s.resize(0, 600, 2.0f32.to_bits()));
    assert!(!s.resize(800, 0, 2.0f32.to_bits()));
    assert!(!s.resize(0, 0, 2.0f32.to_bits()));
    assert_eq!((s.width, s.height, s.scale_factor), (800, 600, 1.0f32.to_bits()));
}

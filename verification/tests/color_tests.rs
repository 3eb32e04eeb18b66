use gpuburden::color::Color;

#[test]
fn new_sets_all_channels() {
    let c = Color::new(1, 2, 3, 4);
    assert_eq!(c.r, 1);
    assert_eq!(c.g, 2);
    assert_eq!(c.b, 3);
    assert_eq!(c.a, 4);
}

#[test]
fn new_mono_repeats_one_value() {
    let c = Color::new_mono(7, 200);
    assert_eq!(c.r, 7);
    assert_eq!(c.g, 7);
    assert_eq!(c.b, 7);
    assert_eq!(c.a, 200);
}

#[test]
fn from_tuple_matches_new() {
    let c = Color::from_tuple((10, 20, 30), 40);
    assert_eq!(c, Color::new(10, 20, 30, 40));
}

#[test]
fn wayland_color_packs_argb() {
    // a=0: the packed value is plain r<<16 | g<<8 | b.
    let c = Color::new(16, 32, 48, 0);
    assert_eq!(c.get_wayland_color(), 0x0010_2030);
}

#[test]
fn wayland_color_wraps_negative_for_high_alpha() {
    // Full white with full alpha is all bits set: -1 in two's complement.
    let c = Color::new(255, 255, 255, 255);
    assert_eq!(c.get_wayland_color(), -1);
}

#[test]
fn wayland_color_opaque_blue() {
    // 0xFF0000FF as a signed 32-bit value.
    let c = Color::new(0, 0, 255, 255);
    assert_eq!(c.get_wayland_color(), -16776961);
}

#[test]
fn wayland_color_alpha_boundary() {
    // a=127 keeps the sign bit clear; a=128 sets it.
    assert_eq!(Color::new(0, 0, 0, 127).get_wayland_color(), 0x7F00_0000);
    assert_eq!(Color::new(0, 0, 0, 128).get_wayland_color(), i32::MIN);
}

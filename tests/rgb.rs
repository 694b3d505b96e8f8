use std::cmp::Ordering;

use cichlid::{uint16x2_t, uint8x4_t, uqadd16, uqadd8, uqsub16, uqsub8, ColorRGB, HSV};

#[test]
fn construction_and_accessors() {
    let c = ColorRGB::from_color_code(0x8A2BE2);
    assert_eq!((c.red(), c.green(), c.blue()), (0x8A, 0x2B, 0xE2));
    assert_eq!(ColorRGB::from(0x12345678u32), ColorRGB::new(0x34, 0x56, 0x78));
    assert_eq!(ColorRGB::from((1u8, 2u8, 3u8)), ColorRGB::new(1, 2, 3));
    assert_eq!(ColorRGB::from(HSV::new(0, 255, 255)), ColorRGB::new(255, 0, 0));
    let mut d = c;
    d.clear();
    assert_eq!(d, ColorRGB::new(0, 0, 0));
}

#[test]
fn saturating_operators() {
    let red = ColorRGB::new(255, 0, 0);
    let blue = ColorRGB::new(0, 0, 255);
    let mut purple = red + blue;
    assert_eq!(purple, ColorRGB::new(255, 0, 255));
    purple.scale(128);
    assert_eq!(purple, ColorRGB::new(128, 0, 128));
    assert_eq!(purple * 2, red + blue);
    assert_eq!(ColorRGB::new(200, 100, 50) + ColorRGB::new(100, 100, 100), ColorRGB::new(255, 200, 150));
    assert_eq!(ColorRGB::new(200, 100, 50) - ColorRGB::new(100, 150, 50), ColorRGB::new(100, 0, 0));
    assert_eq!(ColorRGB::new(200, 100, 50) / 3, ColorRGB::new(66, 33, 16));
    assert_eq!(ColorRGB::new(200, 100, 50) % 7, ColorRGB::new(4, 2, 1));
    assert_eq!(ColorRGB::new(1, 200, 30) & ColorRGB::new(5, 100, 30), ColorRGB::new(1, 100, 30));
    assert_eq!(ColorRGB::new(1, 200, 30) | ColorRGB::new(5, 100, 30), ColorRGB::new(5, 200, 30));
    assert_eq!(-ColorRGB::new(0, 55, 255), ColorRGB::new(255, 200, 0));
    assert!(!ColorRGB::new(0, 0, 1));
    assert!(!(!ColorRGB::new(0, 0, 0)));
}

#[test]
fn scaling_and_fading() {
    let mut c = ColorRGB::new(255, 128, 1);
    c.fade_to_black_by(64);
    assert_eq!(c, ColorRGB::new(191, 96, 0));
    let mut c = ColorRGB::new(255, 128, 100);
    c.scale_from_other(ColorRGB::new(127, 255, 0));
    assert_eq!(c, ColorRGB::new(127, 128, 0));
    let mut c = ColorRGB::new(10, 20, 30);
    c.modify_all(|x| x + 1);
    assert_eq!(c, ColorRGB::new(11, 21, 31));
}

#[test]
fn brightness_measures() {
    assert_eq!(ColorRGB::new(255, 255, 255).luma(), 255);
    assert_eq!(ColorRGB::new(100, 50, 200).luma(), 70);
    assert_eq!(ColorRGB::new(255, 255, 255).avg_light(), 255);
    assert_eq!(ColorRGB::new(90, 30, 60).avg_light(), 60);
}

#[test]
fn maximize_brightness_keeps_ratio() {
    let mut c = ColorRGB::new(100, 50, 25);
    c.maximize_brightness();
    assert_eq!(c, ColorRGB::new(255, 127, 63));
    let mut near = ColorRGB::new(254, 0, 0);
    near.maximize_brightness();
    assert_eq!(near, ColorRGB::new(255, 0, 0));
    let mut dim = ColorRGB::new(3, 2, 1);
    dim.maximize_brightness();
    assert_eq!(dim, ColorRGB::new(255, 170, 85));
    let mut black = ColorRGB::new(0, 0, 0);
    black.maximize_brightness();
    assert_eq!(black, ColorRGB::new(0, 0, 0));
    let mut full = ColorRGB::new(255, 1, 0);
    full.maximize_brightness();
    assert_eq!(full, ColorRGB::new(255, 1, 0));
}

#[test]
fn pixel_blend_endpoints() {
    let a = ColorRGB::new(10, 20, 30);
    let b = ColorRGB::new(200, 100, 0);
    let mut c = a;
    c.blend(b, 0);
    assert_eq!(c, a);
    c.blend(b, 255);
    assert_eq!(c, b);
    let mut d = ColorRGB::new(10, 0, 255);
    d.blend(ColorRGB::new(200, 255, 0), 128);
    assert_eq!(d, ColorRGB::new(105, 128, 127));
}

#[test]
fn saturating_lanes() {
    let r = uqadd8(uint8x4_t(250, 1, 0, 128), uint8x4_t(10, 1, 0, 128));
    assert_eq!((r.0, r.1, r.2, r.3), (255, 2, 0, 255));
    let r = uqsub8(uint8x4_t(250, 1, 0, 128), uint8x4_t(10, 2, 0, 127));
    assert_eq!((r.0, r.1, r.2, r.3), (240, 0, 0, 1));
    let r = uqadd16(uint16x2_t(65000, 1), uint16x2_t(1000, 1));
    assert_eq!((r.0, r.1), (65535, 2));
    let r = uqsub16(uint16x2_t(5, 1000), uint16x2_t(6, 1));
    assert_eq!((r.0, r.1), (0, 999));
}

#[test]
fn compound_assignment_operators() {
    let mut c = ColorRGB::new(200, 100, 50);
    c += ColorRGB::new(100, 100, 100);
    assert_eq!(c, ColorRGB::new(255, 200, 150));
    c -= ColorRGB::new(255, 50, 200);
    assert_eq!(c, ColorRGB::new(0, 150, 0));
    c += 10u8;
    assert_eq!(c, ColorRGB::new(10, 160, 10));
    c -= 20u8;
    assert_eq!(c, ColorRGB::new(0, 140, 0));
    c *= 2;
    assert_eq!(c, ColorRGB::new(0, 255, 0));
    c |= ColorRGB::new(5, 5, 5);
    assert_eq!(c, ColorRGB::new(5, 255, 5));
    c &= 100u8;
    assert_eq!(c, ColorRGB::new(5, 100, 5));
    c |= 7u8;
    assert_eq!(c, ColorRGB::new(7, 100, 7));
    c &= ColorRGB::new(255, 50, 0);
    assert_eq!(c, ColorRGB::new(7, 50, 0));
    c /= 3;
    assert_eq!(c, ColorRGB::new(2, 16, 0));
    let mut d = ColorRGB::new(255, 128, 7);
    d >>= 2;
    assert_eq!(d, ColorRGB::new(63, 32, 1));
    assert_eq!(ColorRGB::from([9u8, 8, 7]), ColorRGB::new(9, 8, 7));
    assert_eq!(HSV::from([9u8, 8, 7]), HSV::new(9, 8, 7));
}

#[test]
fn colors_order_by_channel_sum() {
    assert!(ColorRGB::new(1, 2, 3) < ColorRGB::new(0, 0, 7));
    assert!(ColorRGB::new(255, 0, 0) > ColorRGB::new(100, 100, 54));
    assert_eq!(ColorRGB::new(1, 2, 3).partial_cmp(&ColorRGB::new(3, 2, 1)), Some(Ordering::Equal));
    assert_eq!(ColorRGB::new(255, 255, 255).partial_cmp(&ColorRGB::new(0, 0, 0)), Some(Ordering::Greater));
}

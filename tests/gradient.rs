use cichlid::prelude::{
    GradientFill, GradientFillRGB, GradientFillRGBToInclusive, GradientFillToInclusive,
};
use cichlid::{
    hsv_gradient, hsv_gradient_inclusive_end, rgb_gradient, ColorRGB, GradientDirection,
    HueDirection, ThreePointLerp, HSV,
};

#[test]
fn gradient_gradient_sweep_test() {
    let start: HSV = HSV::new(0, 100, 50);
    let end: HSV = HSV::new(100, 200, 100);
    let mut out: [HSV; 5] = [HSV::new(0, 0, 0); 5];

    let dir = GradientDirection::Shortest;
    out.gradient_fill(start, end, dir);
    assert_eq!(*out.last().unwrap(), HSV::new(80, 180, 90));
    out.gradient_fill_to_inclusive(start, end, dir);
    assert_eq!(*out.last().unwrap(), end);

    let dir = GradientDirection::Forward;
    out.gradient_fill(start, end, dir);
    assert_eq!(*out.last().unwrap(), HSV::new(80, 180, 90));
    out.gradient_fill_to_inclusive(start, end, dir);
    assert_eq!(*out.last().unwrap(), end);

    let dir = GradientDirection::Backwards;
    out.gradient_fill(start, end, dir);
    out.gradient_fill_to_inclusive(start, end, dir);
    assert_eq!(*out.last().unwrap(), end);

    let dir = GradientDirection::Longest;
    out.gradient_fill(start, end, dir);
    out.gradient_fill_to_inclusive(start, end, dir);
    assert_eq!(*out.last().unwrap(), end);

    hsv_gradient(start, end, GradientDirection::Shortest, &mut out);
    assert_eq!(*out.last().unwrap(), HSV::new(80, 180, 90));
    hsv_gradient_inclusive_end(start, end, GradientDirection::Shortest, &mut out);
    assert_eq!(*out.last().unwrap(), end);
}

#[test]
fn gradient_sweep_every_element() {
    let start: HSV = HSV::new(0, 100, 50);
    let end: HSV = HSV::new(100, 200, 100);
    let mut out: [HSV; 5] = [HSV::new(0, 0, 0); 5];
    out.gradient_fill(start, end, GradientDirection::Shortest);
    assert_eq!(
        out,
        [
            HSV::new(0, 100, 50),
            HSV::new(20, 120, 60),
            HSV::new(40, 140, 70),
            HSV::new(60, 160, 80),
            HSV::new(80, 180, 90)
        ]
    );
    out.gradient_fill(start, end, GradientDirection::Backwards);
    assert_eq!(out[1].h, 224);
}

#[test]
fn gradient_of_nothing_changes_nothing() {
    let mut empty: [HSV; 0] = [];
    empty.gradient_fill(HSV::new(1, 2, 3), HSV::new(4, 5, 6), GradientDirection::Longest);
    empty.gradient_fill_to_inclusive(HSV::new(1, 2, 3), HSV::new(4, 5, 6), GradientDirection::Forward);
    let mut empty_rgb: [ColorRGB; 0] = [];
    empty_rgb.gradient_fill_rgb(ColorRGB::new(1, 2, 3), ColorRGB::new(4, 5, 6));
    empty_rgb.gradient_fill_rgb_to_inclusive(ColorRGB::new(1, 2, 3), ColorRGB::new(4, 5, 6));
    assert!(empty.is_empty() && empty_rgb.is_empty());
}

#[test]
fn rgb_gradient_of_one_is_start() {
    let mut one = [ColorRGB::new(9, 9, 9)];
    rgb_gradient(ColorRGB::new(10, 20, 30), ColorRGB::new(200, 100, 0), &mut one);
    assert_eq!(one[0], ColorRGB::new(10, 20, 30));
}

#[test]
fn rgb_gradient_values() {
    let mut out = [ColorRGB::new(0, 0, 0); 4];
    out.gradient_fill_rgb(ColorRGB::new(0, 100, 255), ColorRGB::new(255, 0, 0));
    assert_eq!(
        out,
        [
            ColorRGB::new(0, 100, 255),
            ColorRGB::new(63, 75, 191),
            ColorRGB::new(127, 50, 127),
            ColorRGB::new(191, 25, 63)
        ]
    );
    out.gradient_fill_rgb_to_inclusive(ColorRGB::new(0, 100, 255), ColorRGB::new(255, 0, 0));
    assert_eq!(out[3], ColorRGB::new(255, 0, 0));
    assert_eq!(out[0], ColorRGB::new(0, 100, 255));
}

#[test]
fn gradient_into_rgb_pixels() {
    let mut colors = [ColorRGB::new(0, 0, 0); 80];
    let start = HSV::new(130, 200, 251);
    let end = HSV::new(206, 100, 255);
    colors.gradient_fill_to_inclusive(start, end, GradientDirection::Shortest);
    assert_eq!(*colors.last().unwrap(), ColorRGB::from(end));
    assert_eq!(colors[0], ColorRGB::from(start));
}

#[test]
fn gray_endpoint_takes_other_hue() {
    let mut out = [HSV::new(0, 0, 0); 3];
    out.gradient_fill(HSV::new(10, 0, 200), HSV::new(120, 255, 255), GradientDirection::Forward);
    assert_eq!(out[0].h, 120);
    assert_eq!(out[2].h, 120);
}

#[test]
fn hue_distance_ranges() {
    let dirs = [
        GradientDirection::Forward,
        GradientDirection::Backwards,
        GradientDirection::Shortest,
        GradientDirection::Longest,
    ];
    for dir in dirs.iter() {
        for start in 0..=255u8 {
            for end in (0..=255u8).step_by(5) {
                let diff = end.wrapping_sub(start);
                let d = dir.into_hue_distance(start, end);
                match dir.into_hue_direction(diff) {
                    HueDirection::Forward => assert!(d >= 0 && d <= 32640),
                    HueDirection::Backwards => assert!(d >= -32640 && d <= 0),
                }
            }
        }
    }
    assert_eq!(GradientDirection::Forward.into_hue_distance(0, 255), 32640);
    assert_eq!(GradientDirection::Backwards.into_hue_distance(0, 1), -32640);
    assert_eq!(GradientDirection::Shortest.into_hue_distance(0, 200), -7168);
    assert_eq!(GradientDirection::Longest.into_hue_distance(0, 100), -19968);
}

#[test]
fn direction_resolution() {
    assert_eq!(GradientDirection::Shortest.into_hue_direction(128), HueDirection::Backwards);
    assert_eq!(GradientDirection::Shortest.into_hue_direction(127), HueDirection::Forward);
    assert_eq!(GradientDirection::Longest.into_hue_direction(127), HueDirection::Backwards);
    assert_eq!(GradientDirection::Longest.into_hue_direction(128), HueDirection::Forward);
    assert_eq!(GradientDirection::Shortest.force_direction(200), GradientDirection::Backwards);
    assert_eq!(GradientDirection::Longest.force_direction(200), GradientDirection::Forward);
    assert_eq!(GradientDirection::Backwards.force_direction(1), GradientDirection::Backwards);
    assert_eq!(GradientDirection::from(HueDirection::Forward), GradientDirection::Forward);
}

#[test]
fn three_point_lerp_steps_and_wraps() {
    let mut lerp = ThreePointLerp::new()
        .set_lerp_from_diff(0, 10, 20)
        .set_lerp_from_distance(1, 250, 0x0400)
        .set_lerp_from_diff(2, 100, 0)
        .modify_delta(|d| d / 10)
        .modify_delta(|d| d.wrapping_mul(2));
    assert_eq!(lerp.delta, [256, 204, -2560]);
    assert_eq!(lerp.lerp(), (10, 250, 100));
    assert_eq!(lerp.next(), Some((10, 250, 100)));
    assert_eq!(lerp.next(), Some((11, 250, 90)));
    for _ in 0..8 {
        lerp.next();
    }
    assert_eq!(lerp.lerp(), (20, 1, 0));
}

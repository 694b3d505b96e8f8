use cichlid::prelude::{ColorIterMut, RainbowFill, RainbowFillSingleCycle};
use cichlid::{ColorRGB, HSV};

fn black() -> ColorRGB {
    ColorRGB::from_color_code(0x000000)
}
fn red() -> ColorRGB {
    ColorRGB::from_color_code(0xFF0000)
}
fn blue_violet() -> ColorRGB {
    ColorRGB::from_color_code(0x8A2BE2)
}
fn yellow() -> ColorRGB {
    ColorRGB::from_color_code(0xFFFF00)
}
fn purple() -> ColorRGB {
    ColorRGB::from_color_code(0x800080)
}
fn gold() -> ColorRGB {
    ColorRGB::from_color_code(0xFFD700)
}

fn total(p: &[ColorRGB]) -> u32 {
    p.iter().map(|c| c.r as u32 + c.g as u32 + c.b as u32).sum()
}

#[test]
fn blur_blur_test() {
    let mut arr = [black(), red(), blue_violet(), yellow()];

    println!("{:?}", arr);
    for _ in 0..4 {
        arr.blur(64);
        println!("{:?}", arr);
    }
}

#[test]
fn mod_blur_test() {
    let mut arr = [black(), red(), blue_violet(), yellow()];

    for _ in 0..4 {
        arr.blur(64);
    }
}

#[test]
fn slice_color_itermut_test() {
    let mut colors = [purple(); 50];
    let color_slice = &mut colors[0..40];
    color_slice.blur(20);
    color_slice.clear();
    color_slice.iter().for_each(|c| assert_eq!(*c, black()));
}

#[test]
fn color_itermut_test() {
    let mut colors = [gold(); 50];
    for i in 0..=255 {
        colors.blur(i);
    }
}

#[test]
fn blur_test_long() {
    let mut arr = [blue_violet(); 256];

    for _ in 0..4 {
        arr.blur(64);
    }
}

#[test]
fn blur_pass_values() {
    let mut arr = [black(), red(), blue_violet(), yellow()];
    arr.blur(64);
    assert_eq!(
        arr,
        [
            ColorRGB::new(32, 0, 0),
            ColorRGB::new(240, 5, 29),
            ColorRGB::new(152, 69, 198),
            ColorRGB::new(223, 223, 0)
        ]
    );
    for _ in 0..3 {
        arr.blur(64);
    }
    assert_eq!(
        arr,
        [
            ColorRGB::new(79, 2, 14),
            ColorRGB::new(214, 30, 75),
            ColorRGB::new(166, 110, 132),
            ColorRGB::new(150, 150, 0)
        ]
    );
}

#[test]
fn blur_brightness_bounded_by_one_per_channel() {
    let mut arr = [ColorRGB::new(128, 128, 128); 5];
    let before = total(&arr);
    arr.blur(2);
    let after = total(&arr);
    assert_eq!((before, after), (1920, 1929));
    assert!(after <= before + 3 * 5);

    let mut colors = [gold(), red(), blue_violet(), yellow(), purple(), black()];
    for amount in 0..=255u8 {
        let before = total(&colors);
        colors.blur(amount);
        assert!(total(&colors) <= before + 3 * colors.len() as u32);
    }
    let mut empty: [ColorRGB; 0] = [];
    empty.blur(100);
}

#[test]
fn fill_clear_and_fade() {
    let mut colors = [ColorRGB::from_color_code(0xFFEBCD); 10];
    ColorIterMut::fill(&mut colors[..], yellow());
    colors.iter().for_each(|c| assert_eq!(*c, yellow()));
    colors.clear();
    colors.iter().for_each(|c| assert_eq!(*c, black()));

    let mut fading = [ColorRGB::new(255, 128, 1); 3];
    fading.fade_to_black(64);
    fading.iter().for_each(|c| assert_eq!(*c, ColorRGB::new(191, 96, 0)));
}

#[test]
fn slice_blend_truncates() {
    let mut colors = [ColorRGB::new(255, 0, 100); 4];
    ColorIterMut::blend(&mut colors[..], ColorRGB::new(0, 255, 200), 128);
    colors.iter().for_each(|c| assert_eq!(*c, ColorRGB::new(126, 127, 149)));
    let mut same = [ColorRGB::new(100, 100, 100); 2];
    ColorIterMut::blend(&mut same[..], ColorRGB::new(200, 200, 200), 0);
    assert_eq!(same[0], ColorRGB::new(99, 99, 99));
}

#[test]
fn rainbow_fill_steps() {
    let mut hues = [HSV::new(0, 0, 0); 6];
    hues.rainbow_fill(250, 0x0180);
    let got: Vec<u8> = hues.iter().map(|c| c.h).collect();
    assert_eq!(got, vec![250, 251, 253, 254, 0, 1]);
    assert!(hues.iter().all(|c| c.s == 255 && c.v == 255));

    let mut pixels = [black(); 2];
    pixels.rainbow_fill_with_sat_val(96, 0, 255, 255);
    assert_eq!(pixels, [ColorRGB::new(0, 255, 0), ColorRGB::new(0, 255, 0)]);
}

#[test]
fn rainbow_fill_single_cycle_spans_wheel() {
    let mut hues = [HSV::new(0, 0, 0); 4];
    hues.rainbow_fill_single_cycle(0);
    let got: Vec<u8> = hues.iter().map(|c| c.h).collect();
    assert_eq!(got, vec![0, 63, 127, 191]);

    let mut three = [HSV::new(0, 0, 0); 3];
    three.rainbow_fill_single_cycle(200);
    let got: Vec<u8> = three.iter().map(|c| c.h).collect();
    assert_eq!(got, vec![200, 29, 114]);

    let mut empty: [HSV; 0] = [];
    empty.rainbow_fill_single_cycle(5);
}

use cichlid::prelude::ScalingInt;
use cichlid::{
    blend16, blend8, brighten16_lin, brighten16_raw, brighten16_video, brighten8_lin,
    brighten8_raw, brighten8_video, dim16_lin, dim16_raw, dim16_video, dim8_lin, dim8_raw,
    dim8_video, nscale16, nscale16x2, nscale16x3, nscale16x4, nscale8, nscale8x2, nscale8x3,
    nscale8x4, scale16, scale16_video, scale8, scale8_video,
};

#[test]
fn scale8_full_scale_is_identity_and_zero_clears() {
    for x in 0..=255u8 {
        assert_eq!(scale8(x, 255), x);
        assert_eq!(scale8(x, 0), 0);
        assert_eq!(scale8(x, 127), x / 2);
    }
}

#[test]
fn scale8_method_examples() {
    assert_eq!(100u8.scale(255), 100);
    assert_eq!(100u8.scale(0), 0);
    assert_eq!(100u8.scale(255 / 2), 50);
    assert_eq!(scale8(200, 100), 78);
}

#[test]
fn scale8_video_never_collapses_nonzero_inputs() {
    for x in 0..=255u8 {
        for s in 0..=255u8 {
            let r = scale8_video(x, s);
            assert_eq!(r == 0, x == 0 || s == 0);
        }
    }
    assert_eq!(100u8.scale_video(255), 100u8.scale(255));
    assert_ne!(1u8.scale_video(1), 1u8.scale(1));
    assert_eq!(scale8_video(1, 1), 1);
}

#[test]
fn dim_and_brighten_values() {
    assert_eq!(255u8.dim_raw(), 255);
    assert_eq!((255u8 / 2).dim_raw(), 63);
    assert_eq!(255u8.dim_raw(), 255u8.dim_video());
    assert_ne!(30u8.dim_raw(), 30u8.dim_video());
    assert_eq!(dim8_raw(128), 64);
    assert_eq!(dim8_video(1), 1);
    let lin: Vec<u8> = [0u8, 1, 2, 127, 128, 200, 255].iter().map(|&x| dim8_lin(x)).collect();
    assert_eq!(lin, vec![0, 1, 1, 64, 64, 157, 255]);
    let raw: Vec<u8> = [0u8, 1, 128, 200, 255].iter().map(|&x| brighten8_raw(x)).collect();
    assert_eq!(raw, vec![0, 2, 192, 243, 255]);
    let video: Vec<u8> = [0u8, 1, 128, 200, 255].iter().map(|&x| brighten8_video(x)).collect();
    assert_eq!(video, vec![0, 2, 191, 243, 255]);
    let blin: Vec<u8> = [0u8, 1, 128, 200, 255].iter().map(|&x| brighten8_lin(x)).collect();
    assert_eq!(blin, vec![0, 2, 191, 227, 255]);
}

#[test]
fn brighten_raw_mirrors_dim_raw() {
    for x in 0..=255u8 {
        assert_eq!(brighten8_raw(x), 255 - dim8_raw(255 - x));
        assert_eq!(x.brighten_raw(), 255 - (255 - x).dim_raw());
        assert_eq!(x.brighten_video(), 255 - (255 - x).dim_video());
        assert_eq!(x.brighten_lin(), 255 - (255 - x).dim_lin());
    }
}

#[test]
fn blend8_endpoints_and_midpoint() {
    for a in 0..=255u8 {
        for b in 0..=255u8 {
            assert_eq!(blend8(a, b, 0), a);
            assert_eq!(blend8(a, b, 255), b);
        }
    }
    assert_eq!(blend8(10, 200, 128), 105);
    assert_eq!(0u8.blend(255, 128), 128);
}

#[test]
fn nscale8_in_place() {
    let (mut a, mut b, mut c, mut d) = (255u8, 128u8, 64u8, 1u8);
    nscale8(&mut a, 127);
    assert_eq!(a, 127);
    let mut a = 255u8;
    nscale8x2(&mut a, &mut b, 127);
    assert_eq!((a, b), (127, 64));
    let (mut a, mut b) = (255u8, 128u8);
    nscale8x3(&mut a, &mut b, &mut c, 127);
    assert_eq!((a, b, c), (127, 64, 32));
    let (mut a, mut b, mut c) = (255u8, 128u8, 64u8);
    nscale8x4(&mut a, &mut b, &mut c, &mut d, 127);
    assert_eq!((a, b, c, d), (127, 64, 32, 0));
}

#[test]
fn scale16_family() {
    assert_eq!(scale16(1000, 65535), 1000);
    assert_eq!(scale16(1000, 32767), 500);
    assert_eq!(scale16(65535, 65535), 65535);
    assert_eq!(scale16(1000, 0), 0);
    assert_eq!(scale16_video(1, 1), 1);
    assert_eq!(scale16_video(0, 65535), 0);
    assert_eq!(dim16_raw(65535), 65535);
    assert_eq!(dim16_video(1), 1);
    assert_eq!(dim16_lin(2), 1);
    assert_eq!(dim16_lin(32768), 16384);
    assert_eq!(brighten16_raw(65535), 65535);
    assert_eq!(brighten16_raw(0), 0);
    assert_eq!(brighten16_video(0), 0);
    assert_eq!(brighten16_lin(65535), 65535);
    assert_eq!(blend16(1000, 60000, 32768), 30500);
    assert_eq!(blend16(7, 9, 0), 7);
    assert_eq!(blend16(7, 9, 65535), 9);
    assert_eq!(1000u16.scale(32767), 500);
    let (mut a, mut b, mut c, mut d) = (65535u16, 2u16, 4u16, 6u16);
    nscale16(&mut a, 32767);
    assert_eq!(a, 32767);
    nscale16x2(&mut b, &mut c, 32767);
    assert_eq!((b, c), (1, 2));
    let (mut a, mut b) = (65535u16, 65535u16);
    nscale16x3(&mut a, &mut b, &mut d, 0);
    assert_eq!((a, b, d), (0, 0, 0));
    let (mut a, mut b, mut c, mut d) = (100u16, 200u16, 300u16, 400u16);
    nscale16x4(&mut a, &mut b, &mut c, &mut d, 65535);
    assert_eq!((a, b, c, d), (100, 200, 300, 400));
}

use cichlid::{aligned_split_u32, batch_scale, batch_scale_bytes, scale_post, scale8};

fn rand_change(seed: &mut u64) -> u64 {
    *seed ^= *seed >> 12;
    *seed ^= *seed << 25;
    *seed ^= *seed >> 27;
    seed.wrapping_mul(2685_8216_5773_6338_717)
}

fn collapse_u64(x: u64) -> u8 {
    ((x >> 15) ^ (x >> 40) ^ x) as u8
}

#[test]
fn test_batch_scale_array() {
    const BUF_LEN: usize = 2048;
    let mut buffer = [0u8; BUF_LEN];
    let mut buf_batch = [0u8; BUF_LEN];
    let mut buf_reg = [0u8; BUF_LEN];

    buffer.iter_mut().enumerate().for_each(|(i, p)| *p = i as u8);

    buf_batch.clone_from_slice(&buffer);
    buf_reg.clone_from_slice(&buffer);

    for scale in 0..=255 {
        batch_scale_bytes(&mut buf_batch, scale);

        buf_reg.iter_mut().for_each(|v| *v = scale_post(*v, (scale as u16) + 1));

        buf_reg.iter().zip(buf_batch.iter()).enumerate().for_each(|(i, bytes)| {
            if bytes.0 != bytes.1 {
                panic!(
                    "i: {:4} ({:3}) - reg: {:4}, batch: {:4}  - scale: {}",
                    i,
                    i % 256,
                    bytes.0,
                    bytes.1,
                    scale
                );
            }
        });

        buf_batch.clone_from_slice(&buffer);
        buf_reg.clone_from_slice(&buffer);
    }
}

#[test]
fn test_batch_scale_many_buf_len() {
    for it in 0..=5000 {
        let buffer: Vec<u8> = (0..).take(it).map(|b| b as u8).collect();

        let mut buf_batch = buffer.clone();
        let mut buf_reg = buffer.clone();

        for scale in 0..=255 {
            batch_scale_bytes(&mut buf_batch, scale);
            buf_reg.iter_mut().for_each(|v| *v = scale_post(*v, (scale as u16) + 1));

            buf_reg.iter().zip(buf_batch.iter()).enumerate().for_each(|(i, bytes)| {
                if bytes.0 != bytes.1 {
                    panic!(
                        "it: {}, i: {:4} ({:3}) - reg: {:4}, batch: {:4}  - scale: {}",
                        it,
                        i,
                        i % 256,
                        bytes.0,
                        bytes.1,
                        scale
                    );
                }
            });

            buf_batch = buffer.clone();
            buf_reg = buffer.clone();
        }
    }
}

#[test]
fn test_batch_scale_many_alignment() {
    let mut seed: u64 = 11140122341;
    (0..).take(40).for_each(|_| {
        rand_change(&mut seed);
    });

    for it in 30..=4903 {
        rand_change(&mut seed);
        let buffer: Vec<u8> =
            (0..).take(it).map(|_| rand_change(&mut seed)).map(|x| collapse_u64(x)).collect();

        let mut buf_batch = buffer.clone();
        let mut buf_reg = buffer.clone();

        for scale in 0..=255 {
            let post_start: usize = (it / 1) % 4;
            let post_end: usize = buf_reg.len() - ((it - 1) % 11);

            batch_scale_bytes(&mut buf_batch[post_start..post_end], scale);

            buf_reg[post_start..post_end]
                .iter_mut()
                .for_each(|v| *v = scale_post(*v, (scale as u16) + 1));

            buf_reg.iter().zip(buf_batch.iter()).enumerate().take(2390).for_each(|(i, bytes)| {
                if bytes.0 != bytes.1 {
                    panic!(
                        "it: {}, i: {:4} ({:3}) - reg: {:4}, batch: {:4}  - scale: {}",
                        it,
                        i,
                        i % 256,
                        bytes.0,
                        bytes.1,
                        scale
                    );
                }
            });

            buf_batch = buffer.clone();
            buf_reg = buffer.clone();
        }
    }
}

#[test]
fn batch_scale_bytes_matches_scale8() {
    let mut buf: Vec<u8> = (0..=255u8).collect();
    batch_scale_bytes(&mut buf, 127);
    for (i, b) in buf.iter().enumerate() {
        assert_eq!(*b, scale8(i as u8, 127));
    }
    let mut empty: Vec<u8> = Vec::new();
    batch_scale_bytes(&mut empty, 10);
    assert!(empty.is_empty());
}

#[test]
fn batch_scale_word_lanes() {
    assert_eq!(batch_scale(0xFFFF_FFFF, 256), 0xFFFF_FFFF);
    assert_eq!(batch_scale(0xFF80_4001, 128), 0x7F40_2000);
    assert_eq!(batch_scale(0x1234_5678, 1), 0);
}

#[test]
fn aligned_split_regions() {
    assert_eq!(aligned_split_u32(0x1000, 8), (8, 0, 0));
    assert_eq!(aligned_split_u32(0x1000, 0), (0, 0, 0));
    assert_eq!(aligned_split_u32(0x1000, 23), (0, 20, 3));
    assert_eq!(aligned_split_u32(0x1001, 23), (3, 20, 0));
    assert_eq!(aligned_split_u32(0x1002, 23), (2, 20, 1));
    assert_eq!(aligned_split_u32(0x1003, 9), (1, 8, 0));
    assert_eq!(scale_post(255, 256), 255);
    assert_eq!(scale_post(255, 1), 0);
}

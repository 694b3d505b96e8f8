//! Fast integer sine and cosine by piecewise-linear approximation.

use vstd::prelude::*;

verus! {

/// Start of each of the eight sections of the 16-bit sine quarter wave.
pub open spec fn sin16_base(section: int) -> int {
    if section == 0 {
        0
    } else if section == 1 {
        6393
    } else if section == 2 {
        12539
    } else if section == 3 {
        18204
    } else if section == 4 {
        23170
    } else if section == 5 {
        27245
    } else if section == 6 {
        30273
    } else {
        32137
    }
}

/// Slope of each of the eight sections of the 16-bit sine quarter wave.
pub open spec fn sin16_slope(section: int) -> int {
    if section == 0 {
        49
    } else if section == 1 {
        48
    } else if section == 2 {
        44
    } else if section == 3 {
        38
    } else if section == 4 {
        31
    } else if section == 5 {
        23
    } else if section == 6 {
        14
    } else {
        4
    }
}

/// The 16-bit sine of `theta`, a full turn being 65536: a quarter wave of
/// eight linear sections, mirrored in the second and fourth quarters and
/// negated in the second half of the turn.
pub open spec fn sin16_spec(theta: u16) -> int {
    let quarter_offset: int = (theta as int % 16384) / 8;
    let offset = if (theta / 16384) % 2 == 1 {
        2047 - quarter_offset
    } else {
        quarter_offset
    };
    let section = offset / 256;
    let y = sin16_slope(section) * ((offset % 256) / 2) + sin16_base(section);
    if theta >= 32768 {
        -y
    } else {
        y
    }
}

/// Start of each of the four sections of the 8-bit sine quarter wave.
pub open spec fn sin8_base(section: int) -> int {
    if section == 0 {
        0
    } else if section == 1 {
        49
    } else if section == 2 {
        90
    } else {
        117
    }
}

/// Slope, in sixteenths, of each of the four sections of the 8-bit sine quarter wave.
pub open spec fn sin8_slope(section: int) -> int {
    if section == 0 {
        49
    } else if section == 1 {
        41
    } else if section == 2 {
        27
    } else {
        10
    }
}

/// The 8-bit sine of `theta`, a full turn being 256, centered on 128.
///
/// The quarter wave has four linear sections; the product of slope and
/// offset is taken modulo 256, and a quarter-wave value above 127 reads as
/// negative, as in the byte arithmetic this approximation was made with.
pub open spec fn sin8_spec(theta: u8) -> u8 {
    let mirrored = (theta / 64) % 2 == 1;
    let offset = if mirrored {
        (255 - theta) % 64
    } else {
        theta as int % 64
    };
    let offset_two = if mirrored {
        offset % 16 + 1
    } else {
        offset % 16
    };
    let section = offset / 16;
    let v = (sin8_slope(section) * offset_two) % 256 / 16 + sin8_base(section);
    let y = if v > 127 {
        v - 256
    } else {
        v
    };
    let signed = if theta >= 128 {
        -y
    } else {
        y
    };
    ((signed + 128) % 256) as u8
}

fn sin16_table(section: u16) -> (r: (u16, u16))
    requires
        section < 8,
    ensures
        r.0 == sin16_base(section as int),
        r.1 == sin16_slope(section as int),
{
    match section {
        0 => (0, 49),
        1 => (6393, 48),
        2 => (12539, 44),
        3 => (18204, 38),
        4 => (23170, 31),
        5 => (27245, 23),
        6 => (30273, 14),
        _ => (32137, 4),
    }
}

fn sin8_table(section: u8) -> (r: (u8, u8))
    requires
        section < 4,
    ensures
        r.0 == sin8_base(section as int),
        r.1 == sin8_slope(section as int),
{
    match section {
        0 => (0, 49),
        1 => (49, 41),
        2 => (90, 27),
        _ => (117, 10),
    }
}

/// The sine of a two-byte angle.
pub fn sin16(theta: u16) -> (r: i16)
    ensures
        r == sin16_spec(theta),
        -32645 <= r <= 32645,
{
    let quarter_offset: u16 = (theta % 16384) / 8;
    let offset: u16 = if (theta / 16384) % 2 == 1 {
        2047 - quarter_offset
    } else {
        quarter_offset
    };
    let section: u16 = offset / 256;
    let (b, m) = sin16_table(section);
    let secoffset8: u16 = (offset % 256) / 2;
    let y: i16 = (m * secoffset8 + b) as i16;
    if theta >= 32768 {
        -y
    } else {
        y
    }
}

/// The cosine of a two-byte angle.
pub fn cos16(theta: u16) -> (r: i16)
    ensures
        r == sin16_spec(theta.wrapping_add(16384)),
{
    sin16(theta.wrapping_add(16384))
}

/// The sine of a one-byte angle, centered on 128.
pub fn sin8(theta: u8) -> (r: u8)
    ensures
        r == sin8_spec(theta),
{
    let mirrored: bool = (theta / 64) % 2 == 1;
    let offset: u8 = if mirrored {
        (255 - theta) % 64
    } else {
        theta % 64
    };
    let offset_two: u8 = if mirrored {
        offset % 16 + 1
    } else {
        offset % 16
    };
    let section: u8 = offset / 16;
    let (b, m16) = sin8_table(section);
    let mx: u8 = (((m16 as u16) * (offset_two as u16)) % 256 / 16) as u8;
    let v: i16 = (mx + b) as i16;
    let y: i16 = if v > 127 {
        v - 256
    } else {
        v
    };
    let signed: i16 = if theta >= 128 {
        -y
    } else {
        y
    };
    (((signed + 128) as u16) % 256) as u8
}

/// The cosine of a one-byte angle, centered on 128.
pub fn cos8(theta: u8) -> (r: u8)
    ensures
        r == sin8_spec(theta.wrapping_add(64)),
{
    sin8(theta.wrapping_add(64))
}

/// Sine and cosine of an integer angle, a full turn being the type's range.
pub trait Trig<Signed> {
    fn sin(self) -> Signed;

    fn cos(self) -> Signed;
}

impl Trig<u8> for u8 {
    fn sin(self) -> (r: u8)
        ensures
            r == sin8_spec(self),
    {
        sin8(self)
    }

    fn cos(self) -> (r: u8)
        ensures
            r == sin8_spec(self.wrapping_add(64)),
    {
        cos8(self)
    }
}

impl Trig<i16> for u16 {
    fn sin(self) -> (r: i16)
        ensures
            r == sin16_spec(self),
    {
        sin16(self)
    }

    fn cos(self) -> (r: i16)
        ensures
            r == sin16_spec(self.wrapping_add(16384)),
    {
        cos16(self)
    }
}

} // verus!

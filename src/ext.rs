//! Saturating lane arithmetic on packed bytes and half-words.
//!
//! These are the portable forms of the single-instruction saturating adds
//! and subtracts of DSP-capable processors: each lane is computed on its
//! own and held at its type's bounds.

use vstd::prelude::*;

use crate::rgb::{sat_add8, sat_sub8};

verus! {

/// Four byte lanes.
#[allow(non_camel_case_types)]
#[derive(Clone, Copy, Debug)]
pub struct uint8x4_t(pub u8, pub u8, pub u8, pub u8);

/// Two half-word lanes.
#[allow(non_camel_case_types)]
#[derive(Clone, Copy, Debug)]
pub struct uint16x2_t(pub u16, pub u16);

/// `a + b`, held at 65535.
pub open spec fn sat_add16(a: u16, b: u16) -> u16 {
    if a + b > 65535 {
        65535
    } else {
        (a + b) as u16
    }
}

/// `a - b`, held at 0.
pub open spec fn sat_sub16(a: u16, b: u16) -> u16 {
    if a - b < 0 {
        0
    } else {
        (a - b) as u16
    }
}

/// Lane-wise saturating addition of four bytes.
pub fn uqadd8(a: uint8x4_t, b: uint8x4_t) -> (r: uint8x4_t)
    ensures
        r.0 == sat_add8(a.0, b.0),
        r.1 == sat_add8(a.1, b.1),
        r.2 == sat_add8(a.2, b.2),
        r.3 == sat_add8(a.3, b.3),
{
    uint8x4_t(
        a.0.saturating_add(b.0),
        a.1.saturating_add(b.1),
        a.2.saturating_add(b.2),
        a.3.saturating_add(b.3),
    )
}

/// Lane-wise saturating addition of two half-words.
pub fn uqadd16(a: uint16x2_t, b: uint16x2_t) -> (r: uint16x2_t)
    ensures
        r.0 == sat_add16(a.0, b.0),
        r.1 == sat_add16(a.1, b.1),
{
    uint16x2_t(a.0.saturating_add(b.0), a.1.saturating_add(b.1))
}

/// Lane-wise saturating subtraction of four bytes.
pub fn uqsub8(a: uint8x4_t, b: uint8x4_t) -> (r: uint8x4_t)
    ensures
        r.0 == sat_sub8(a.0, b.0),
        r.1 == sat_sub8(a.1, b.1),
        r.2 == sat_sub8(a.2, b.2),
        r.3 == sat_sub8(a.3, b.3),
{
    uint8x4_t(
        a.0.saturating_sub(b.0),
        a.1.saturating_sub(b.1),
        a.2.saturating_sub(b.2),
        a.3.saturating_sub(b.3),
    )
}

/// Lane-wise saturating subtraction of two half-words.
pub fn uqsub16(a: uint16x2_t, b: uint16x2_t) -> (r: uint16x2_t)
    ensures
        r.0 == sat_sub16(a.0, b.0),
        r.1 == sat_sub16(a.1, b.1),
{
    uint16x2_t(a.0.saturating_sub(b.0), a.1.saturating_sub(b.1))
}

} // verus!

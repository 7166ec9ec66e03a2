//! Decoding of the 9-byte packed analog-stick calibration records.
//!
//! A record packs six 12-bit fields into nine bytes, two fields per three
//! bytes: the first field of a pair is the low byte combined with the low
//! nibble of the middle byte; the second is the high nibble of the middle
//! byte combined with the last byte shifted left four. The left and right
//! sticks use the same packing but assign the decoded pairs to different
//! fields.

use vstd::prelude::*;

verus! {

/// The first 12-bit field of a 3-byte group: byte `a` plus the low nibble of
/// `b` as the high bits.
pub open spec fn lo12(a: u8, b: u8) -> u32 {
    (a + (b % 16) * 256) as u32
}

/// The second 12-bit field of a 3-byte group: the high nibble of `b` plus
/// byte `c` shifted left four.
pub open spec fn hi12(b: u8, c: u8) -> u32 {
    (b / 16 + c * 16) as u32
}

/// The decoding of a 9-byte left-stick record: above-center extents, then
/// centers, then below-center extents.
pub open spec fn spec_l_cal(b: Seq<u8>) -> StickCalibration {
    StickCalibration {
        h_max_above_center: lo12(b[0], b[1]),
        v_max_above_center: hi12(b[1], b[2]),
        h_center: lo12(b[3], b[4]),
        v_center: hi12(b[4], b[5]),
        h_max_below_center: lo12(b[6], b[7]),
        v_max_below_center: hi12(b[7], b[8]),
    }
}

/// The decoding of a 9-byte right-stick record: centers, then below-center
/// extents, then above-center extents.
pub open spec fn spec_r_cal(b: Seq<u8>) -> StickCalibration {
    StickCalibration {
        h_center: lo12(b[0], b[1]),
        v_center: hi12(b[1], b[2]),
        h_max_below_center: lo12(b[3], b[4]),
        v_max_below_center: hi12(b[4], b[5]),
        h_max_above_center: lo12(b[6], b[7]),
        v_max_above_center: hi12(b[7], b[8]),
    }
}

/// Calibration reference values for one analog stick: the centers of both
/// axes and the maximal extents above and below each center. All six fields
/// are 12-bit values; the record is immutable once decoded.
#[derive(Debug, Clone)]
pub struct StickCalibration {
    pub h_center: u32,
    pub v_center: u32,
    pub h_max_above_center: u32,
    pub v_max_above_center: u32,
    pub h_max_below_center: u32,
    pub v_max_below_center: u32,
}

impl StickCalibration {
    /// All fields fit in 12 bits.
    pub open spec fn wf(self) -> bool {
        &&& self.h_center < 0x1000
        &&& self.v_center < 0x1000
        &&& self.h_max_above_center < 0x1000
        &&& self.v_max_above_center < 0x1000
        &&& self.h_max_below_center < 0x1000
        &&& self.v_max_below_center < 0x1000
    }

    /// Decodes a left-stick record: the three byte groups hold, in order,
    /// the above-center extents, the centers, and the below-center extents.
    pub fn l_from_bytes(bytes: &[u8; 9]) -> (r: Self)
        ensures
            r.h_max_above_center == lo12(bytes[0], bytes[1]),
            r.v_max_above_center == hi12(bytes[1], bytes[2]),
            r.h_center == lo12(bytes[3], bytes[4]),
            r.v_center == hi12(bytes[4], bytes[5]),
            r.h_max_below_center == lo12(bytes[6], bytes[7]),
            r.v_max_below_center == hi12(bytes[7], bytes[8]),
            r == spec_l_cal(bytes@),
            r.wf(),
    {
        let h_max_above_center = unpack_lo12(bytes[0], bytes[1]);
        let v_max_above_center = unpack_hi12(bytes[1], bytes[2]);
        let h_center = unpack_lo12(bytes[3], bytes[4]);
        let v_center = unpack_hi12(bytes[4], bytes[5]);
        let h_max_below_center = unpack_lo12(bytes[6], bytes[7]);
        let v_max_below_center = unpack_hi12(bytes[7], bytes[8]);

        Self {
            h_center,
            v_center,
            h_max_above_center,
            v_max_above_center,
            h_max_below_center,
            v_max_below_center,
        }
    }

    /// Decodes a right-stick record: the three byte groups hold, in order,
    /// the centers, the below-center extents, and the above-center extents.
    pub fn r_from_bytes(bytes: &[u8; 9]) -> (r: Self)
        ensures
            r.h_center == lo12(bytes[0], bytes[1]),
            r.v_center == hi12(bytes[1], bytes[2]),
            r.h_max_below_center == lo12(bytes[3], bytes[4]),
            r.v_max_below_center == hi12(bytes[4], bytes[5]),
            r.h_max_above_center == lo12(bytes[6], bytes[7]),
            r.v_max_above_center == hi12(bytes[7], bytes[8]),
            r == spec_r_cal(bytes@),
            r.wf(),
    {
        let h_center = unpack_lo12(bytes[0], bytes[1]);
        let v_center = unpack_hi12(bytes[1], bytes[2]);
        let h_max_below_center = unpack_lo12(bytes[3], bytes[4]);
        let v_max_below_center = unpack_hi12(bytes[4], bytes[5]);
        let h_max_above_center = unpack_lo12(bytes[6], bytes[7]);
        let v_max_above_center = unpack_hi12(bytes[7], bytes[8]);

        Self {
            h_center,
            v_center,
            h_max_above_center,
            v_max_above_center,
            h_max_below_center,
            v_max_below_center,
        }
    }
}

/// Extracts the first 12-bit field of a 3-byte group.
fn unpack_lo12(a: u8, b: u8) -> (r: u32)
    ensures
        r == lo12(a, b),
        r < 0x1000,
{
    let r = ((b as u32) << 8u32) & 0xF00 | (a as u32);
    assert(r == (a as u32) + ((b as u32) % 16) * 256 && r < 0x1000) by (bit_vector)
        requires
            r == ((b as u32) << 8u32) & 0xF00 | (a as u32),
    ;
    r
}

/// Extracts the second 12-bit field of a 3-byte group.
fn unpack_hi12(b: u8, c: u8) -> (r: u32)
    ensures
        r == hi12(b, c),
        r < 0x1000,
{
    let r = ((c as u32) << 4u32) | ((b as u32) >> 4u32);
    assert(r == (b as u32) / 16 + (c as u32) * 16 && r < 0x1000) by (bit_vector)
        requires
            r == ((c as u32) << 4u32) | ((b as u32) >> 4u32),
    ;
    r
}

} // verus!

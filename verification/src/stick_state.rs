//! Bounded analog-stick state and its named-direction presets.

use vstd::prelude::*;
use vstd::string::StringExecFns;
use vstd::string::StringSliceAdditionalSpecFns;

use crate::controller::bytes_eq;
use crate::stick_calibration::StickCalibration;

verus! {

/// A named stick mutation the command layer can request: one of the five
/// calibration-relative presets, or a direct write of one axis.
#[derive(Debug, Clone, Copy, PartialEq, Eq, Hash, Structural)]
pub enum StickDirection {
    Center,
    Up,
    Down,
    Left,
    Right,
    Vertical,
    Horizontal,
}

impl StickDirection {
    /// Parses a direction name as the command layer spells it: the preset
    /// names in full, and `"v"` / `"h"` for the direct axis writes.
    pub fn from_str(s: &str) -> (r: Option<StickDirection>)
        ensures
            ({
                let b = s.spec_bytes();
                if b == "center".spec_bytes() {
                    r == Some(StickDirection::Center)
                } else if b == "up".spec_bytes() {
                    r == Some(StickDirection::Up)
                } else if b == "down".spec_bytes() {
                    r == Some(StickDirection::Down)
                } else if b == "left".spec_bytes() {
                    r == Some(StickDirection::Left)
                } else if b == "right".spec_bytes() {
                    r == Some(StickDirection::Right)
                } else if b == "v".spec_bytes() {
                    r == Some(StickDirection::Vertical)
                } else if b == "h".spec_bytes() {
                    r == Some(StickDirection::Horizontal)
                } else {
                    r is None
                }
            }),
    {
        let b = s.as_bytes();
        if bytes_eq(b, "center".as_bytes()) {
            Some(StickDirection::Center)
        } else if bytes_eq(b, "up".as_bytes()) {
            Some(StickDirection::Up)
        } else if bytes_eq(b, "down".as_bytes()) {
            Some(StickDirection::Down)
        } else if bytes_eq(b, "left".as_bytes()) {
            Some(StickDirection::Left)
        } else if bytes_eq(b, "right".as_bytes()) {
            Some(StickDirection::Right)
        } else if bytes_eq(b, "v".as_bytes()) {
            Some(StickDirection::Vertical)
        } else if bytes_eq(b, "h".as_bytes()) {
            Some(StickDirection::Horizontal)
        } else {
            None
        }
    }
}

/// Raised when an axis value does not fit in 12 bits.
#[derive(Debug, Clone, PartialEq, Eq, Structural)]
pub struct InvalidStickValue;

impl InvalidStickValue {
    /// The error message shown to the command layer.
    pub fn message(&self) -> (r: String)
        ensures
            r@ == "Stick values must be in [0,4096}"@,
    {
        String::from_str("Stick values must be in [0,4096}")
    }
}

/// Raised when a calibration-relative preset is requested on a stick that
/// has no calibration attached.
#[derive(Debug, Clone, PartialEq, Eq, Structural)]
pub struct NoCalibrationDataAvailable;

impl NoCalibrationDataAvailable {
    /// The error message shown to the command layer.
    pub fn message(&self) -> (r: String)
        ensures
            r@ == "No calibration data available"@,
    {
        String::from_str("No calibration data available")
    }
}

/// The momentary position of one analog stick: a pair of 12-bit axis values
/// and an optional calibration record for the named-direction presets.
#[derive(Debug, Clone)]
pub struct StickState {
    pub h_stick: u32,
    pub v_stick: u32,
    pub calibration: Option<StickCalibration>,
}

impl StickState {
    /// Both axis values fit in 12 bits. Direct writes keep this; the
    /// calibration presets keep it whenever the calibration itself is
    /// well-formed.
    pub open spec fn wf(self) -> bool {
        self.h_stick < 0x1000 && self.v_stick < 0x1000
    }

    pub open spec fn h(self) -> u32 {
        self.h_stick
    }

    pub open spec fn v(self) -> u32 {
        self.v_stick
    }

    pub open spec fn cal(self) -> Option<StickCalibration> {
        self.calibration
    }

    /// Builds a stick state; absent values default to zero. Fails with
    /// `InvalidStickValue` iff a given axis value does not fit in 12 bits.
    pub fn new(h: Option<u32>, v: Option<u32>, calibration: Option<StickCalibration>) -> (r:
        Result<Self, InvalidStickValue>)
        ensures
            ({
                let hv = if h is Some { h->0 } else { 0u32 };
                let vv = if v is Some { v->0 } else { 0u32 };
                if hv >= 0x1000 || vv >= 0x1000 {
                    r == Err::<Self, InvalidStickValue>(InvalidStickValue)
                } else {
                    r matches Ok(s) && s.h_stick == hv && s.v_stick == vv && s.calibration
                        == calibration && s.wf()
                }
            }),
    {
        let h = match h {
            Some(x) => x,
            None => 0,
        };
        let v = match v {
            Some(x) => x,
            None => 0,
        };
        if h >= 0x1000 || v >= 0x1000 {
            Err(InvalidStickValue)
        } else {
            Ok(Self { h_stick: h, v_stick: v, calibration })
        }
    }

    /// Sets the horizontal axis; fails with `InvalidStickValue` iff the
    /// value does not fit in 12 bits, leaving the state unchanged.
    pub fn set_h(&mut self, val: u32) -> (r: Result<(), InvalidStickValue>)
        ensures
            val >= 0x1000 ==> r == Err::<(), InvalidStickValue>(InvalidStickValue) && *final(self)
                == *old(self),
            val < 0x1000 ==> r == Ok::<(), InvalidStickValue>(()) && *final(self) == (StickState {
                h_stick: val,
                ..*old(self)
            }),
    {
        if val >= 0x1000 {
            Err(InvalidStickValue)
        } else {
            self.h_stick = val;
            Ok(())
        }
    }

    pub fn get_h(&self) -> (r: u32)
        ensures
            r == self.h_stick,
    {
        self.h_stick
    }

    /// Sets the vertical axis; fails with `InvalidStickValue` iff the value
    /// does not fit in 12 bits, leaving the state unchanged.
    pub fn set_v(&mut self, val: u32) -> (r: Result<(), InvalidStickValue>)
        ensures
            val >= 0x1000 ==> r == Err::<(), InvalidStickValue>(InvalidStickValue) && *final(self)
                == *old(self),
            val < 0x1000 ==> r == Ok::<(), InvalidStickValue>(()) && *final(self) == (StickState {
                v_stick: val,
                ..*old(self)
            }),
    {
        if val >= 0x1000 {
            Err(InvalidStickValue)
        } else {
            self.v_stick = val;
            Ok(())
        }
    }

    pub fn get_v(&self) -> (r: u32)
        ensures
            r == self.v_stick,
    {
        self.v_stick
    }

    /// Moves both axes to their calibration centers; fails with
    /// `NoCalibrationDataAvailable` iff no calibration is attached.
    pub fn set_center(&mut self) -> (r: Result<(), NoCalibrationDataAvailable>)
        ensures
            old(self).calibration matches Some(c) ==> r == Ok::<(), NoCalibrationDataAvailable>(())
                && *final(self) == (StickState {
                h_stick: c.h_center,
                v_stick: c.v_center,
                ..*old(self)
            }),
            old(self).calibration is None ==> r == Err::<(), NoCalibrationDataAvailable>(
                NoCalibrationDataAvailable,
            ) && *final(self) == *old(self),
    {
        match &self.calibration {
            Some(calib_data) => {
                self.h_stick = calib_data.h_center;
                self.v_stick = calib_data.v_center;
                Ok(())
            },
            None => Err(NoCalibrationDataAvailable),
        }
    }

    /// Reports whether both axes lie within an inclusive window of `radius`
    /// (default zero) around their calibration centers, or nothing when no
    /// calibration is attached.
    pub fn is_center(&self, radius: Option<u32>) -> (r: Option<bool>)
        requires
            ({
                let rad = if radius is Some { radius->0 } else { 0u32 };
                self.calibration matches Some(c) ==> rad <= c.h_center && rad <= c.v_center
                    && c.h_center + rad <= u32::MAX && c.v_center + rad <= u32::MAX
            }),
        ensures
            ({
                let rad = if radius is Some { radius->0 } else { 0u32 };
                match self.calibration {
                    Some(c) => r == Some(
                        c.h_center - rad <= self.h_stick <= c.h_center + rad && c.v_center - rad
                            <= self.v_stick <= c.v_center + rad,
                    ),
                    None => r is None,
                }
            }),
    {
        match &self.calibration {
            Some(calibration) => {
                let radius = match radius {
                    Some(x) => x,
                    None => 0,
                };
                let h_is_center = calibration.h_center - radius <= self.h_stick && self.h_stick
                    <= calibration.h_center + radius;
                let v_is_center = calibration.v_center - radius <= self.v_stick && self.v_stick
                    <= calibration.v_center + radius;
                Some(h_is_center && v_is_center)
            },
            None => None,
        }
    }

    /// Moves the stick to the up preset: horizontal center, vertical center
    /// plus the above-center extent. Fails with `NoCalibrationDataAvailable`
    /// iff no calibration is attached.
    pub fn set_up(&mut self) -> (r: Result<(), NoCalibrationDataAvailable>)
        requires
            old(self).calibration matches Some(c) ==> c.v_center + c.v_max_above_center
                <= u32::MAX,
        ensures
            old(self).calibration matches Some(c) ==> r == Ok::<(), NoCalibrationDataAvailable>(())
                && *final(self) == (StickState {
                h_stick: c.h_center,
                v_stick: (c.v_center + c.v_max_above_center) as u32,
                ..*old(self)
            }),
            old(self).calibration is None ==> r == Err::<(), NoCalibrationDataAvailable>(
                NoCalibrationDataAvailable,
            ) && *final(self) == *old(self),
    {
        match &self.calibration {
            Some(calib_data) => {
                self.h_stick = calib_data.h_center;
                self.v_stick = calib_data.v_center + calib_data.v_max_above_center;
                Ok(())
            },
            None => Err(NoCalibrationDataAvailable),
        }
    }

    /// Moves the stick to the down preset: horizontal center, vertical
    /// center minus the below-center extent. Fails with
    /// `NoCalibrationDataAvailable` iff no calibration is attached.
    pub fn set_down(&mut self) -> (r: Result<(), NoCalibrationDataAvailable>)
        requires
            old(self).calibration matches Some(c) ==> c.v_max_below_center <= c.v_center,
        ensures
            old(self).calibration matches Some(c) ==> r == Ok::<(), NoCalibrationDataAvailable>(())
                && *final(self) == (StickState {
                h_stick: c.h_center,
                v_stick: (c.v_center - c.v_max_below_center) as u32,
                ..*old(self)
            }),
            old(self).calibration is None ==> r == Err::<(), NoCalibrationDataAvailable>(
                NoCalibrationDataAvailable,
            ) && *final(self) == *old(self),
    {
        match &self.calibration {
            Some(calib_data) => {
                self.h_stick = calib_data.h_center;
                self.v_stick = calib_data.v_center - calib_data.v_max_below_center;
                Ok(())
            },
            None => Err(NoCalibrationDataAvailable),
        }
    }

    /// Moves the stick to the left preset: vertical center, horizontal
    /// center minus the below-center extent. Fails with
    /// `NoCalibrationDataAvailable` iff no calibration is attached.
    pub fn set_left(&mut self) -> (r: Result<(), NoCalibrationDataAvailable>)
        requires
            old(self).calibration matches Some(c) ==> c.h_max_below_center <= c.h_center,
        ensures
            old(self).calibration matches Some(c) ==> r == Ok::<(), NoCalibrationDataAvailable>(())
                && *final(self) == (StickState {
                h_stick: (c.h_center - c.h_max_below_center) as u32,
                v_stick: c.v_center,
                ..*old(self)
            }),
            old(self).calibration is None ==> r == Err::<(), NoCalibrationDataAvailable>(
                NoCalibrationDataAvailable,
            ) && *final(self) == *old(self),
    {
        match &self.calibration {
            Some(calib_data) => {
                self.h_stick = calib_data.h_center - calib_data.h_max_below_center;
                self.v_stick = calib_data.v_center;
                Ok(())
            },
            None => Err(NoCalibrationDataAvailable),
        }
    }

    /// Moves the stick to the right preset. Like the left preset this
    /// subtracts an extent from the horizontal center — here the
    /// above-center extent — mirroring the device's recorded behaviour
    /// rather than adding it.
    pub fn set_right(&mut self) -> (r: Result<(), NoCalibrationDataAvailable>)
        requires
            old(self).calibration matches Some(c) ==> c.h_max_above_center <= c.h_center,
        ensures
            old(self).calibration matches Some(c) ==> r == Ok::<(), NoCalibrationDataAvailable>(())
                && *final(self) == (StickState {
                h_stick: (c.h_center - c.h_max_above_center) as u32,
                v_stick: c.v_center,
                ..*old(self)
            }),
            old(self).calibration is None ==> r == Err::<(), NoCalibrationDataAvailable>(
                NoCalibrationDataAvailable,
            ) && *final(self) == *old(self),
    {
        match &self.calibration {
            Some(calib_data) => {
                self.h_stick = calib_data.h_center - calib_data.h_max_above_center;
                self.v_stick = calib_data.v_center;
                Ok(())
            },
            None => Err(NoCalibrationDataAvailable),
        }
    }

    /// Attaches (or replaces) the calibration record.
    pub fn set_calibration(&mut self, calibration: StickCalibration)
        ensures
            *final(self) == (StickState { calibration: Some(calibration), ..*old(self) }),
    {
        self.calibration = Some(calibration);
    }

    /// Returns the attached calibration, or `NoCalibrationDataAvailable`
    /// when none is.
    pub fn get_calibration(&self) -> (r: Result<&StickCalibration, NoCalibrationDataAvailable>)
        ensures
            match self.calibration {
                Some(c) => r matches Ok(rc) && *rc == c,
                None => r == Err::<&StickCalibration, NoCalibrationDataAvailable>(
                    NoCalibrationDataAvailable,
                ),
            },
    {
        match &self.calibration {
            Some(c) => Ok(c),
            None => Err(NoCalibrationDataAvailable),
        }
    }

    /// Serializes the stick position to its 3-byte report encoding: the low
    /// eight bits of `h`, then the low nibble of `v` shifted into the high
    /// nibble, then the high eight bits of `v`. The parsing direction
    /// (`From<&[u8; 3]>`) reads `h`'s high bits from byte 1's low nibble,
    /// which this encoding leaves empty, so `h` does not round-trip above
    /// its low byte; `v` does (see `lemma_stick_encode_decode`).
    pub fn as_bytes(&self) -> (r: [u8; 3])
        ensures
            r[0] == self.h_stick % 256,
            r[1] == (self.v_stick % 16) * 16,
            r[2] == (self.v_stick / 16) % 256,
            self.wf() ==> r[2] == self.v_stick / 16,
    {
        let byte_0 = #[verifier::truncate] (self.h_stick as u8);
        let v8 = #[verifier::truncate] (self.v_stick as u8);
        let byte_1 = (v8 & 0xF) << 4u8;
        let byte_2 = #[verifier::truncate] ((self.v_stick >> 4u32) as u8);
        proof {
            let h = self.h_stick;
            let v = self.v_stick;
            assert((h as u8) == h % 256) by (bit_vector);
            assert((v as u8) & 0xF == v % 16 && ((v as u8) & 0xF) << 4u8 == (v % 16) * 16)
                by (bit_vector);
            assert(((v >> 4u32) as u8) == (v / 16) % 256 && (v < 0x1000 ==> ((v >> 4u32) as u8) == v
                / 16)) by (bit_vector);
        }
        [byte_0, byte_1, byte_2]
    }
}

/// Encode then decode: for an in-bounds stick, the vertical axis survives
/// exactly, while the horizontal axis keeps only its low byte — the
/// serializer leaves byte 1's low nibble empty where the parser reads `h`'s
/// high bits. The asymmetry between the two directions is deliberate.
pub proof fn lemma_stick_encode_decode(s: StickState)
    requires
        s.wf(),
    ensures
        ({
            // The bytes `as_bytes` ensures, fed through the parse formulas
            // that `From<&[u8; 3]>` ensures.
            let b0 = (s.h_stick % 256) as u8;
            let b1 = ((s.v_stick % 16) * 16) as u8;
            let b2 = (s.v_stick / 16) as u8;
            &&& (b0 + (b1 % 16) * 256) as u32 == s.h_stick % 256
            &&& (b1 / 16 + b2 * 16) as u32 == s.v_stick
        }),
{
    let v = s.v_stick;
    assert(((v % 16) * 16) % 16 == 0 && ((v % 16) * 16) / 16 == v % 16) by (nonlinear_arith);
    assert((v / 16) * 16 + v % 16 == v) by (nonlinear_arith);
}

/// Parses a stick position from its 3-byte wire encoding: `h` is the first
/// byte plus the low nibble of the second; `v` is the high nibble of the
/// second byte plus the third byte shifted left four. No calibration is
/// attached.
impl From<&[u8; 3]> for StickState {
    fn from(value: &[u8; 3]) -> (r: Self) {
        let h_stick = (value[0] as u32) | (((value[1] as u32) & 0xF) << 8u32);
        let v_stick = ((value[1] as u32) >> 4u32) | ((value[2] as u32) << 4u32);
        proof {
            let b0 = value[0];
            let b1 = value[1];
            let b2 = value[2];
            assert(((b0 as u32) | (((b1 as u32) & 0xF) << 8u32)) == b0 + (b1 % 16) * 256 && (((
            b1 as u32) >> 4u32) | ((b2 as u32) << 4u32)) == b1 / 16 + b2 * 16 && b0 + (b1 % 16)
                * 256 < 0x1000 && b1 / 16 + b2 * 16 < 0x1000) by (bit_vector);
        }
        Self { h_stick, v_stick, calibration: None }
    }
}

impl vstd::std_specs::convert::FromSpecImpl<&[u8; 3]> for StickState {
    open spec fn obeys_from_spec() -> bool {
        true
    }

    open spec fn from_spec(value: &[u8; 3]) -> StickState {
        StickState {
            h_stick: (value[0] + (value[1] % 16) * 256) as u32,
            v_stick: (value[1] / 16 + value[2] * 16) as u32,
            calibration: None,
        }
    }
}

/// Applies one direction command to a stick: the five presets move it
/// relative to its calibration, and the two direct forms write the given
/// value to one axis. Returns the resulting `(h, v)` pair; fails with
/// `InvalidStickValue` iff a direct write is given a value that does not fit
/// in 12 bits.
pub fn set_stick(stick: &mut StickState, direction: StickDirection, value: Option<u32>) -> (r:
    Result<(u32, u32), InvalidStickValue>)
    requires
        !(direction is Vertical || direction is Horizontal) ==> old(stick).calibration is Some,
        (direction is Vertical || direction is Horizontal) ==> value is Some,
        old(stick).calibration matches Some(c) ==> c.wf(),
        direction is Down ==> (old(stick).calibration->0).v_max_below_center <= (old(
            stick,
        ).calibration->0).v_center,
        direction is Left ==> (old(stick).calibration->0).h_max_below_center <= (old(
            stick,
        ).calibration->0).h_center,
        direction is Right ==> (old(stick).calibration->0).h_max_above_center <= (old(
            stick,
        ).calibration->0).h_center,
    ensures
        match direction {
            StickDirection::Center => ({
                let c = old(stick).calibration->0;
                r == Ok::<(u32, u32), InvalidStickValue>((c.h_center, c.v_center)) && *final(stick)
                    == (StickState { h_stick: c.h_center, v_stick: c.v_center, ..*old(stick) })
            }),
            StickDirection::Up => ({
                let c = old(stick).calibration->0;
                let vv = (c.v_center + c.v_max_above_center) as u32;
                r == Ok::<(u32, u32), InvalidStickValue>((c.h_center, vv)) && *final(stick) == (
                StickState { h_stick: c.h_center, v_stick: vv, ..*old(stick) })
            }),
            StickDirection::Down => ({
                let c = old(stick).calibration->0;
                let vv = (c.v_center - c.v_max_below_center) as u32;
                r == Ok::<(u32, u32), InvalidStickValue>((c.h_center, vv)) && *final(stick) == (
                StickState { h_stick: c.h_center, v_stick: vv, ..*old(stick) })
            }),
            StickDirection::Left => ({
                let c = old(stick).calibration->0;
                let hv = (c.h_center - c.h_max_below_center) as u32;
                r == Ok::<(u32, u32), InvalidStickValue>((hv, c.v_center)) && *final(stick) == (
                StickState { h_stick: hv, v_stick: c.v_center, ..*old(stick) })
            }),
            StickDirection::Right => ({
                let c = old(stick).calibration->0;
                let hv = (c.h_center - c.h_max_above_center) as u32;
                r == Ok::<(u32, u32), InvalidStickValue>((hv, c.v_center)) && *final(stick) == (
                StickState { h_stick: hv, v_stick: c.v_center, ..*old(stick) })
            }),
            StickDirection::Horizontal => ({
                let val = value->0;
                if val >= 0x1000 {
                    r == Err::<(u32, u32), InvalidStickValue>(InvalidStickValue) && *final(stick)
                        == *old(stick)
                } else {
                    r == Ok::<(u32, u32), InvalidStickValue>((val, old(stick).v_stick)) && *final(stick) == (StickState { h_stick: val, ..*old(stick) })
                }
            }),
            StickDirection::Vertical => ({
                let val = value->0;
                if val >= 0x1000 {
                    r == Err::<(u32, u32), InvalidStickValue>(InvalidStickValue) && *final(stick)
                        == *old(stick)
                } else {
                    r == Ok::<(u32, u32), InvalidStickValue>((old(stick).h_stick, val)) && *final(stick) == (StickState { v_stick: val, ..*old(stick) })
                }
            }),
        },
{
    match direction {
        StickDirection::Center => {
            let _ = stick.set_center();
        },
        StickDirection::Up => {
            let _ = stick.set_up();
        },
        StickDirection::Down => {
            let _ = stick.set_down();
        },
        StickDirection::Left => {
            let _ = stick.set_left();
        },
        StickDirection::Right => {
            let _ = stick.set_right();
        },
        StickDirection::Horizontal => {
            let val = match value {
                Some(x) => x,
                None => 0,
            };
            stick.set_h(val)?;
        },
        StickDirection::Vertical => {
            let val = match value {
                Some(x) => x,
                None => 0,
            };
            stick.set_v(val)?;
        },
    }
    Ok((stick.get_h(), stick.get_v()))
}

} // verus!

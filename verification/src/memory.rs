//! The factory-memory blob and the calibration records stored in it.
//!
//! The blob is a flat byte image. Factory stick calibration lives at fixed
//! offsets; user calibration is present only when its two marker bytes are
//! set, and then shadows the factory record.

use vstd::prelude::*;
use vstd::slice::slice_subrange;
use vstd::string::StringExecFns;
use vstd::slice::slice_to_vec;

verus! {

/// Offset of the 9-byte factory left-stick calibration record.
pub const FACTORY_L_CALIBRATION_OFFSET: usize = 0x603D;

/// Offset of the 9-byte factory right-stick calibration record.
pub const FACTORY_R_CALIBRATION_OFFSET: usize = 0x6046;

/// Offset of the 2-byte marker that announces user left-stick calibration.
pub const USER_L_MARKER_OFFSET: usize = 0x8010;

/// Offset of the 2-byte marker that announces user right-stick calibration.
pub const USER_R_MARKER_OFFSET: usize = 0x801B;

/// Every offset a calibration read touches lies below this bound.
pub const CALIBRATION_DATA_END: usize = 0x8026;

/// The default factory-memory image size.
pub const DEFAULT_FLASH_SIZE: usize = 0x80000;

/// The default left-stick calibration written into a fresh image.
pub open spec fn l_cal_pattern() -> Seq<u8> {
    seq![0x00u8, 0x07u8, 0x70u8, 0x00u8, 0x08u8, 0x80u8, 0x00u8, 0x07u8, 0x70u8]
}

/// The default right-stick calibration written into a fresh image.
pub open spec fn r_cal_pattern() -> Seq<u8> {
    seq![0x00u8, 0x08u8, 0x80u8, 0x00u8, 0x07u8, 0x70u8, 0x00u8, 0x07u8, 0x70u8]
}

/// Raised when a supplied memory image does not have the expected size;
/// carries the given and the expected size.
#[derive(Debug, Clone, PartialEq, Eq, Structural)]
pub struct SizeMismatch(pub usize, pub usize);

impl SizeMismatch {
    /// The error message shown to the command layer. The offending sizes are
    /// carried in the error's fields.
    pub fn message(&self) -> (r: String)
        ensures
            r@ == "Given data size does not match expected size"@,
    {
        String::from_str("Given data size does not match expected size")
    }
}

/// A factory-memory image: either a caller-supplied dump or a fresh all-0xFF
/// image seeded with the default stick calibration.
#[derive(Debug, Clone)]
pub struct FlashMemory {
    pub data: Vec<u8>,
}

impl FlashMemory {
    /// The image is large enough for every calibration read.
    pub open spec fn wf(self) -> bool {
        self.data@.len() >= CALIBRATION_DATA_END
    }

    /// Builds an image. A supplied dump is taken as-is and must match the
    /// expected size (default 0x80000), else `SizeMismatch`; absent a dump,
    /// an all-0xFF image of that size is created. The default calibration
    /// patterns are written when requested — always, for a fresh image.
    pub fn new(
        spi_flash_memory_data: Option<&[u8]>,
        default_stick_cal: Option<bool>,
        size: Option<usize>,
    ) -> (r: Result<Self, SizeMismatch>)
        requires
            ({
                let sz = if size is Some { size->0 } else { DEFAULT_FLASH_SIZE };
                let cal = if spi_flash_memory_data is Some {
                    default_stick_cal is Some && default_stick_cal->0
                } else {
                    true
                };
                let len_ok = match spi_flash_memory_data {
                    Some(d) => d@.len() == sz,
                    None => true,
                };
                cal && len_ok ==> sz >= FACTORY_R_CALIBRATION_OFFSET + 9
            }),
        ensures
            ({
                let sz = if size is Some { size->0 } else { DEFAULT_FLASH_SIZE };
                let cal = if spi_flash_memory_data is Some {
                    default_stick_cal is Some && default_stick_cal->0
                } else {
                    true
                };
                let base = match spi_flash_memory_data {
                    Some(d) => d@,
                    None => Seq::new(sz as nat, |i: int| 0xFFu8),
                };
                if base.len() != sz {
                    r == Err::<FlashMemory, SizeMismatch>(SizeMismatch(base.len() as usize, sz))
                } else {
                    r matches Ok(m) && m.data@.len() == sz && forall|i: int|
                        0 <= i < sz ==> m.data@[i] == (if cal && FACTORY_L_CALIBRATION_OFFSET <= i
                            < FACTORY_L_CALIBRATION_OFFSET + 9 {
                            l_cal_pattern()[i - FACTORY_L_CALIBRATION_OFFSET]
                        } else if cal && FACTORY_R_CALIBRATION_OFFSET <= i
                            < FACTORY_R_CALIBRATION_OFFSET + 9 {
                            r_cal_pattern()[i - FACTORY_R_CALIBRATION_OFFSET]
                        } else {
                            base[i]
                        })
                }
            }),
    {
        let size = match size {
            Some(s) => s,
            None => DEFAULT_FLASH_SIZE,
        };
        let (mut data, default_cal): (Vec<u8>, bool) = match spi_flash_memory_data {
            Some(d) => (
                slice_to_vec(d),
                match default_stick_cal {
                    Some(b) => b,
                    None => false,
                },
            ),
            None => (vec![0xFF; size], true),
        };
        if data.len() != size {
            return Err(SizeMismatch(data.len(), size));
        }
        if default_cal {
            let l_pattern: [u8; 9] = [0x00, 0x07, 0x70, 0x00, 0x08, 0x80, 0x00, 0x07, 0x70];
            let r_pattern: [u8; 9] = [0x00, 0x08, 0x80, 0x00, 0x07, 0x70, 0x00, 0x07, 0x70];
            let ghost before = data@;
            let mut k: usize = 0;
            while k < 9
                invariant
                    0 <= k <= 9,
                    data@.len() == before.len() == size >= FACTORY_R_CALIBRATION_OFFSET + 9,
                    l_pattern@ == l_cal_pattern(),
                    r_pattern@ == r_cal_pattern(),
                    forall|i: int|
                        0 <= i < size ==> data@[i] == (if FACTORY_L_CALIBRATION_OFFSET <= i
                            < FACTORY_L_CALIBRATION_OFFSET + k {
                            l_cal_pattern()[i - FACTORY_L_CALIBRATION_OFFSET]
                        } else if FACTORY_R_CALIBRATION_OFFSET <= i < FACTORY_R_CALIBRATION_OFFSET
                            + k {
                            r_cal_pattern()[i - FACTORY_R_CALIBRATION_OFFSET]
                        } else {
                            before[i]
                        }),
                decreases 9 - k,
            {
                data[FACTORY_L_CALIBRATION_OFFSET + k] = l_pattern[k];
                data[FACTORY_R_CALIBRATION_OFFSET + k] = r_pattern[k];
                k += 1;
            }
        }
        Ok(Self { data })
    }

    /// A copy of the image with byte-identical contents.
    pub fn duplicate(&self) -> (r: Self)
        ensures
            r.data@ == self.data@,
    {
        let data = self.data.clone();
        proof {
            assert(data@ =~= self.data@);
        }
        Self { data }
    }

    /// The 9-byte factory left-stick calibration record.
    pub fn get_factory_l_stick_calibration(&self) -> (r: &[u8])
        requires
            self.wf(),
        ensures
            r@ == self.data@.subrange(
                FACTORY_L_CALIBRATION_OFFSET as int,
                FACTORY_L_CALIBRATION_OFFSET + 9,
            ),
            r@.len() == 9,
    {
        slice_subrange(
            self.data.as_slice(),
            FACTORY_L_CALIBRATION_OFFSET,
            FACTORY_L_CALIBRATION_OFFSET + 9,
        )
    }

    /// The 9-byte factory right-stick calibration record.
    pub fn get_factory_r_stick_calibration(&self) -> (r: &[u8])
        requires
            self.wf(),
        ensures
            r@ == self.data@.subrange(
                FACTORY_R_CALIBRATION_OFFSET as int,
                FACTORY_R_CALIBRATION_OFFSET + 9,
            ),
            r@.len() == 9,
    {
        slice_subrange(
            self.data.as_slice(),
            FACTORY_R_CALIBRATION_OFFSET,
            FACTORY_R_CALIBRATION_OFFSET + 9,
        )
    }

    /// Whether the user left-stick calibration marker bytes are set.
    pub open spec fn has_user_l_calibration(self) -> bool {
        self.data@[USER_L_MARKER_OFFSET as int] == 0xB2 && self.data@[USER_L_MARKER_OFFSET + 1]
            == 0xA1
    }

    /// Whether the user right-stick calibration marker bytes are set.
    pub open spec fn has_user_r_calibration(self) -> bool {
        self.data@[USER_R_MARKER_OFFSET as int] == 0xB2 && self.data@[USER_R_MARKER_OFFSET + 1]
            == 0xA1
    }

    /// The 9-byte user left-stick calibration record, present iff its marker
    /// bytes are set.
    pub fn get_user_l_stick_calibration(&self) -> (r: Option<&[u8]>)
        requires
            self.wf(),
        ensures
            self.has_user_l_calibration() ==> (r matches Some(b) && b@ == self.data@.subrange(
                USER_L_MARKER_OFFSET + 2,
                USER_L_MARKER_OFFSET + 11,
            ) && b@.len() == 9),
            !self.has_user_l_calibration() ==> r is None,
    {
        if self.data[USER_L_MARKER_OFFSET] == 0xB2 && self.data[USER_L_MARKER_OFFSET + 1] == 0xA1 {
            Some(
                slice_subrange(
                    self.data.as_slice(),
                    USER_L_MARKER_OFFSET + 2,
                    USER_L_MARKER_OFFSET + 11,
                ),
            )
        } else {
            None
        }
    }

    /// The 9-byte user right-stick calibration record, present iff its
    /// marker bytes are set.
    pub fn get_user_r_stick_calibration(&self) -> (r: Option<&[u8]>)
        requires
            self.wf(),
        ensures
            self.has_user_r_calibration() ==> (r matches Some(b) && b@ == self.data@.subrange(
                USER_R_MARKER_OFFSET + 2,
                USER_R_MARKER_OFFSET + 11,
            ) && b@.len() == 9),
            !self.has_user_r_calibration() ==> r is None,
    {
        if self.data[USER_R_MARKER_OFFSET] == 0xB2 && self.data[USER_R_MARKER_OFFSET + 1] == 0xA1 {
            Some(
                slice_subrange(
                    self.data.as_slice(),
                    USER_R_MARKER_OFFSET + 2,
                    USER_R_MARKER_OFFSET + 11,
                ),
            )
        } else {
            None
        }
    }
}

} // verus!

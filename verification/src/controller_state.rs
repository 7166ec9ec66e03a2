//! The per-session aggregate of everything one emulated controller holds.

use vstd::prelude::*;
use vstd::pervasive::unreached;

use crate::button_state::ButtonState;
use crate::button_state::spec_available_buttons;
use crate::controller::Controller;
use crate::memory::FACTORY_L_CALIBRATION_OFFSET;
use crate::memory::FACTORY_R_CALIBRATION_OFFSET;
use crate::memory::FlashMemory;
use crate::memory::USER_L_MARKER_OFFSET;
use crate::memory::USER_R_MARKER_OFFSET;
use crate::nfc_tag::NFCTag;
use crate::stick_calibration::StickCalibration;
use crate::stick_calibration::spec_l_cal;
use crate::stick_calibration::spec_r_cal;
use crate::stick_state::StickState;

verus! {

/// The 9 calibration bytes the left stick is built from: the user record
/// when its marker is set, the factory record otherwise.
pub open spec fn spec_l_cal_bytes(f: FlashMemory) -> Seq<u8> {
    if f.has_user_l_calibration() {
        f.data@.subrange(USER_L_MARKER_OFFSET + 2, USER_L_MARKER_OFFSET + 11)
    } else {
        f.data@.subrange(FACTORY_L_CALIBRATION_OFFSET as int, FACTORY_L_CALIBRATION_OFFSET + 9)
    }
}

/// The 9 calibration bytes the right stick is built from: the user record
/// when its marker is set, the factory record otherwise.
pub open spec fn spec_r_cal_bytes(f: FlashMemory) -> Seq<u8> {
    if f.has_user_r_calibration() {
        f.data@.subrange(USER_R_MARKER_OFFSET + 2, USER_R_MARKER_OFFSET + 11)
    } else {
        f.data@.subrange(FACTORY_R_CALIBRATION_OFFSET as int, FACTORY_R_CALIBRATION_OFFSET + 9)
    }
}

/// The stick state a variant starts with when a memory image is present:
/// calibration decoded from the image, stick centered on it.
pub open spec fn spec_initial_stick(cal: StickCalibration) -> StickState {
    StickState { h_stick: cal.h_center, v_stick: cal.v_center, calibration: Some(cal) }
}

/// What a freshly built session state looks like for a variant and an
/// optional memory image: every button unset, the variant's sticks present
/// and centered on the image's calibration (or at zero without an image),
/// no tag loaded, and the image kept.
pub open spec fn spec_fresh_state(
    r: ControllerState,
    controller: Controller,
    spi_flash: Option<FlashMemory>,
) -> bool {
    &&& r.controller == controller
    &&& r.nfc_content is None
    &&& r.spi_flash == spi_flash
    &&& r.button_state.controller == controller
    &&& r.button_state.pressed@ == Seq::new(spec_available_buttons(controller).len(), |i: int| false)
    &&& match (controller, spi_flash) {
        (Controller::JoyconR, _) => r.l_stick_state is None,
        (_, Some(f)) => r.l_stick_state == Some(spec_initial_stick(spec_l_cal(spec_l_cal_bytes(f)))),
        (_, None) => r.l_stick_state == Some(
            StickState { h_stick: 0u32, v_stick: 0u32, calibration: None },
        ),
    }
    &&& match (controller, spi_flash) {
        (Controller::JoyconL, _) => r.r_stick_state is None,
        (_, Some(f)) => r.r_stick_state == Some(spec_initial_stick(spec_r_cal(spec_r_cal_bytes(f)))),
        (_, None) => r.r_stick_state == Some(
            StickState { h_stick: 0u32, v_stick: 0u32, calibration: None },
        ),
    }
    &&& r.wf()
}

/// Everything one emulated controller session owns: its variant, button
/// flags, the stick states the variant has, an optionally loaded tag, and
/// the optional factory-memory image the sticks were calibrated from.
pub struct ControllerState {
    pub controller: Controller,
    pub nfc_content: Option<NFCTag>,
    pub spi_flash: Option<FlashMemory>,
    pub button_state: ButtonState,
    pub l_stick_state: Option<StickState>,
    pub r_stick_state: Option<StickState>,
}

impl ControllerState {
    /// The pieces agree with the variant: the button flags belong to it,
    /// exactly the sticks it has exist, and every present stick is in
    /// bounds.
    pub open spec fn wf(self) -> bool {
        &&& self.button_state.wf()
        &&& self.button_state.controller == self.controller
        &&& self.l_stick_state is Some <==> !(self.controller is JoyconR)
        &&& self.r_stick_state is Some <==> !(self.controller is JoyconL)
        &&& (self.l_stick_state matches Some(s) ==> s.wf())
        &&& (self.r_stick_state matches Some(s) ==> s.wf())
    }

    /// Builds the session state for a variant: every button unset, and — for
    /// the stick(s) the variant has — calibration taken from the user record
    /// of the supplied memory image when marked, else its factory record,
    /// with the stick centered on it; without an image the sticks start at
    /// zero with no calibration.
    pub fn new(controller: Controller, spi_flash: Option<FlashMemory>) -> (r: Self)
        requires
            spi_flash matches Some(f) ==> f.wf(),
        ensures
            spec_fresh_state(r, controller, spi_flash),
    {
        let button_state = ButtonState::new(controller);

        let has_l_stick = match controller {
            Controller::ProController | Controller::JoyconL => true,
            Controller::JoyconR => false,
        };
        let l_stick_state: Option<StickState> = if has_l_stick {
            let calibration = match &spi_flash {
                Some(flash) => {
                    let bytes = match flash.get_user_l_stick_calibration() {
                        Some(user) => user,
                        None => flash.get_factory_l_stick_calibration(),
                    };
                    let record: [u8; 9] = [
                        bytes[0],
                        bytes[1],
                        bytes[2],
                        bytes[3],
                        bytes[4],
                        bytes[5],
                        bytes[6],
                        bytes[7],
                        bytes[8],
                    ];
                    proof {
                        assert(record@ =~= spec_l_cal_bytes(spi_flash->0));
                    }
                    Some(StickCalibration::l_from_bytes(&record))
                },
                None => None,
            };
            let mut stick = match StickState::new(None, None, calibration) {
                Ok(s) => s,
                Err(_) => unreached(),
            };
            let _ = stick.set_center();
            Some(stick)
        } else {
            None
        };

        let has_r_stick = match controller {
            Controller::ProController | Controller::JoyconR => true,
            Controller::JoyconL => false,
        };
        let r_stick_state: Option<StickState> = if has_r_stick {
            let calibration = match &spi_flash {
                Some(flash) => {
                    let bytes = match flash.get_user_r_stick_calibration() {
                        Some(user) => user,
                        None => flash.get_factory_r_stick_calibration(),
                    };
                    let record: [u8; 9] = [
                        bytes[0],
                        bytes[1],
                        bytes[2],
                        bytes[3],
                        bytes[4],
                        bytes[5],
                        bytes[6],
                        bytes[7],
                        bytes[8],
                    ];
                    proof {
                        assert(record@ =~= spec_r_cal_bytes(spi_flash->0));
                    }
                    Some(StickCalibration::r_from_bytes(&record))
                },
                None => None,
            };
            let mut stick = match StickState::new(None, None, calibration) {
                Ok(s) => s,
                Err(_) => unreached(),
            };
            let _ = stick.set_center();
            Some(stick)
        } else {
            None
        };

        Self {
            controller,
            nfc_content: None,
            spi_flash,
            button_state,
            l_stick_state,
            r_stick_state,
        }
    }

    /// The variant this session emulates.
    pub fn get_controller(&self) -> (r: Controller)
        ensures
            r == self.controller,
    {
        self.controller
    }

    /// The factory-memory image the session was built from, if any.
    pub fn get_flash_memory(&self) -> (r: Option<&FlashMemory>)
        ensures
            match self.spi_flash {
                Some(f) => r matches Some(rf) && *rf == f,
                None => r is None,
            },
    {
        self.spi_flash.as_ref()
    }

    /// Loads (or replaces) the tag the co-processor reports.
    pub fn set_nfc(&mut self, data: NFCTag)
        ensures
            *final(self) == (ControllerState { nfc_content: Some(data), ..*old(self) }),
    {
        self.nfc_content = Some(data);
    }

    /// The currently loaded tag, if any.
    pub fn get_nfc(&self) -> (r: Option<&NFCTag>)
        ensures
            match self.nfc_content {
                Some(t) => r matches Some(rt) && *rt == t,
                None => r is None,
            },
    {
        self.nfc_content.as_ref()
    }
}

} // verus!

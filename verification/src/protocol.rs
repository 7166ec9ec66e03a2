//! The top-level orchestrator for one emulated session: pairing state, the
//! per-subcommand pacing schedule, and the assembly of full input reports.

use vstd::prelude::*;

use crate::controller::Controller;
use crate::controller_state::ControllerState;
use crate::mcu::DEFAULT_MESSAGE_LENGTH;
use crate::mcu::no_response_message;
use crate::mcu::spec_pack;
use crate::memory::FlashMemory;
use crate::memory::SizeMismatch;

verus! {

/// Where the host's pairing flow stands, as the orchestrator tracks it.
#[derive(Debug, Clone, Copy, PartialEq, Eq, Hash, Structural)]
pub enum SwitchState {
    Standard,
    GripMenu,
    AwaitingMaxSlots,
}

/// How soon an acknowledged subcommand may be reported again: after the
/// given number of seconds (an exact fraction), or never.
#[derive(Debug, Clone, Copy, PartialEq, Eq, Structural)]
pub enum ReportDelay {
    /// Repeat after `numerator / denominator` seconds.
    Seconds { numerator: u64, denominator: u64 },
    /// Never repeat.
    Never,
}

/// The fixed pacing schedule: full-report requests repeat after one second,
/// device-info requests are never repeated, and the two report-mode ids
/// repeat once per 60 Hz tick. Unknown ids have no scheduled repeat.
pub open spec fn spec_subcommand_delay(id: u8) -> Option<ReportDelay> {
    if id == 0x3F {
        Some(ReportDelay::Seconds { numerator: 1u64, denominator: 1u64 })
    } else if id == 0x21 {
        Some(ReportDelay::Never)
    } else if id == 0x30 || id == 0x31 {
        Some(ReportDelay::Seconds { numerator: 1u64, denominator: 60u64 })
    } else {
        None
    }
}

/// Looks up the pacing entry for a subcommand acknowledgement id.
pub fn subcommand_delay(id: u8) -> (r: Option<ReportDelay>)
    ensures
        r == spec_subcommand_delay(id),
{
    if id == 0x3F {
        Some(ReportDelay::Seconds { numerator: 1, denominator: 1 })
    } else if id == 0x21 {
        Some(ReportDelay::Never)
    } else if id == 0x30 || id == 0x31 {
        Some(ReportDelay::Seconds { numerator: 1, denominator: 60 })
    } else {
        None
    }
}

/// The full outbound input report: the 3 button bytes, then the bytes of
/// each stick the variant has, then the co-processor's response frame — or
/// the fixed "no response" sentinel when none is queued.
pub open spec fn spec_report(
    buttons: Seq<u8>,
    l_stick: Option<[u8; 3]>,
    r_stick: Option<[u8; 3]>,
    mcu_frame: Option<Seq<u8>>,
) -> Seq<u8> {
    let l = match l_stick {
        Some(b) => b@,
        None => Seq::<u8>::empty(),
    };
    let r = match r_stick {
        Some(b) => b@,
        None => Seq::<u8>::empty(),
    };
    let m = match mcu_frame {
        Some(f) => f,
        None => spec_pack(seq![0xFFu8], 0, DEFAULT_MESSAGE_LENGTH as int),
    };
    buttons + l + r + m
}

/// Concatenates one full input report from its parts: button bytes, the
/// stick bytes that exist, and the co-processor frame or the "no response"
/// sentinel.
pub fn assemble_report(
    buttons: &[u8; 3],
    l_stick: Option<[u8; 3]>,
    r_stick: Option<[u8; 3]>,
    mcu_frame: Option<&Vec<u8>>,
) -> (r: Vec<u8>)
    ensures
        r@ == spec_report(
            buttons@,
            l_stick,
            r_stick,
            match mcu_frame {
                Some(f) => Some(f@),
                None => None,
            },
        ),
{
    let mut report: Vec<u8> = Vec::new();
    report.extend_from_slice(buttons.as_slice());
    match &l_stick {
        Some(b) => report.extend_from_slice(b.as_slice()),
        None => (),
    }
    match &r_stick {
        Some(b) => report.extend_from_slice(b.as_slice()),
        None => (),
    }
    match mcu_frame {
        Some(f) => report.extend_from_slice(f.as_slice()),
        None => {
            let sentinel = no_response_message();
            report.extend_from_slice(sentinel.as_slice());
        },
    }
    proof {
        assert(report@ =~= spec_report(
            buttons@,
            l_stick,
            r_stick,
            match mcu_frame {
                Some(f) => Some(f@),
                None => None,
            },
        ));
    }
    report
}

/// The per-session orchestrator: owns the variant, the session state, the
/// optional factory-memory image, and the pairing flag.
pub struct ControllerProtocol {
    pub controller: Controller,
    pub controller_state: ControllerState,
    pub spi_flash: Option<FlashMemory>,
    pub is_pairing: bool,
}

impl ControllerProtocol {
    /// Builds the orchestrator for a variant: pairing unless a reconnect
    /// was requested, with a fresh session state calibrated from the
    /// supplied memory image.
    pub fn new(controller: Controller, spi_flash: Option<FlashMemory>, reconnect: Option<bool>) -> (
        r: Result<Self, SizeMismatch>)
        requires
            spi_flash matches Some(f) ==> f.wf(),
        ensures
            r matches Ok(p) && p.controller == controller && p.is_pairing == !(reconnect is Some
                && reconnect->0) && crate::controller_state::spec_fresh_state(
                p.controller_state,
                controller,
                spi_flash,
            ) && ({
                match (p.spi_flash, spi_flash) {
                    (Some(a), Some(b)) => a.data@ == b.data@,
                    (None, None) => true,
                    _ => false,
                }
            }),
    {
        let reconnect = match reconnect {
            Some(b) => b,
            None => false,
        };
        let flash_copy: Option<FlashMemory> = match &spi_flash {
            Some(f) => Some(f.duplicate()),
            None => None,
        };
        Ok(
            Self {
                controller,
                spi_flash: flash_copy,
                is_pairing: !reconnect,
                controller_state: ControllerState::new(controller, spi_flash),
            },
        )
    }
}

} // verus!

//! Emulation core for a wireless game controller with three hardware
//! variants: a left-half controller, a right-half controller, and a combined
//! pad. Covers the binary input-report layout for buttons and analog sticks,
//! factory/user calibration decoding, and the auxiliary NFC co-processor's
//! power and poll state machine with its checksum-framed response messages.

pub mod button_state;
pub mod controller;
pub mod controller_state;
pub mod mcu;
pub mod memory;
pub mod nfc_tag;
pub mod protocol;
pub mod stick_calibration;
pub mod stick_state;

pub use button_state::ButtonState;
pub use button_state::ButtonStateError;
pub use controller::Controller;
pub use controller::UnknownController;
pub use controller_state::ControllerState;
pub use mcu::MCUPowerState;
pub use mcu::MicroControllerUnit;
pub use mcu::NFCState;
pub use memory::FlashMemory;
pub use memory::SizeMismatch;
pub use protocol::ControllerProtocol;
pub use protocol::SwitchState;
pub use nfc_tag::NFCTag;
pub use nfc_tag::NFCTagType;
pub use stick_calibration::StickCalibration;
pub use stick_state::InvalidStickValue;
pub use stick_state::NoCalibrationDataAvailable;
pub use stick_state::StickDirection;
pub use stick_state::StickState;

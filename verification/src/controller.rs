//! The closed set of emulated controller variants.

use vstd::prelude::*;
use vstd::string::StringExecFns;
use vstd::string::StringSliceAdditionalSpecFns;

verus! {

/// One of the three hardware variants a session emulates. The variant is
/// fixed for the life of a session and decides which buttons and sticks
/// exist and how the device identifies itself on the wire.
#[derive(Debug, Clone, Copy, PartialEq, Eq, Hash, Structural)]
pub enum Controller {
    JoyconL,
    JoyconR,
    ProController,
}

impl Controller {
    /// The identifier byte the device reports for this variant.
    pub fn id_byte(&self) -> (r: u8)
        ensures
            r == self.spec_id_byte(),
    {
        match self {
            Controller::JoyconL => 0x01,
            Controller::JoyconR => 0x02,
            Controller::ProController => 0x03,
        }
    }

    pub open spec fn spec_id_byte(self) -> u8 {
        match self {
            Controller::JoyconL => 0x01,
            Controller::JoyconR => 0x02,
            Controller::ProController => 0x03,
        }
    }

    /// Parses the variant from its session-configuration identifier.
    /// Fails with `UnknownController` on any other string.
    pub fn from_str(s: &str) -> (r: Result<Controller, UnknownController>)
        ensures
            ({
                let b = s.spec_bytes();
                if b == "JOYCON_L".spec_bytes() {
                    r == Ok::<Controller, UnknownController>(Controller::JoyconL)
                } else if b == "JOYCON_R".spec_bytes() {
                    r == Ok::<Controller, UnknownController>(Controller::JoyconR)
                } else if b == "PRO_CONTROLLER".spec_bytes() {
                    r == Ok::<Controller, UnknownController>(Controller::ProController)
                } else {
                    r matches Err(e) && e.0@ == s@
                }
            }),
    {
        if bytes_eq(s.as_bytes(), "JOYCON_L".as_bytes()) {
            Ok(Controller::JoyconL)
        } else if bytes_eq(s.as_bytes(), "JOYCON_R".as_bytes()) {
            Ok(Controller::JoyconR)
        } else if bytes_eq(s.as_bytes(), "PRO_CONTROLLER".as_bytes()) {
            Ok(Controller::ProController)
        } else {
            Err(UnknownController(s.to_owned()))
        }
    }

    /// The human-readable name of the variant.
    pub fn display_name(&self) -> (r: String)
        ensures
            self is JoyconL ==> r@ == "Joy-Con (L)"@,
            self is JoyconR ==> r@ == "Joy-Con (R)"@,
            self is ProController ==> r@ == "Pro Controller"@,
    {
        match self {
            Controller::JoyconL => String::from_str("Joy-Con (L)"),
            Controller::JoyconR => String::from_str("Joy-Con (R)"),
            Controller::ProController => String::from_str("Pro Controller"),
        }
    }
}

/// Raised when a variant identifier cannot be parsed; carries the offending
/// string.
#[derive(Debug, Clone)]
pub struct UnknownController(pub String);

impl UnknownController {
    /// The error message shown to the command layer.
    pub fn message(&self) -> (r: String)
        ensures
            r@ == "Unknown controller: "@ + self.0@,
    {
        let mut m = String::from_str("Unknown controller: ");
        m.append(self.0.as_str());
        m
    }
}

/// Compares two byte slices for element-wise equality.
pub(crate) fn bytes_eq(a: &[u8], b: &[u8]) -> (r: bool)
    ensures
        r == (a@ == b@),
{
    if a.len() != b.len() {
        assert(a@ != b@);
        return false;
    }
    let n = a.len();
    let mut i: usize = 0;
    while i < n
        invariant
            n == a@.len() == b@.len(),
            0 <= i <= n,
            forall|j: int| 0 <= j < i ==> a@[j] == b@[j],
        decreases n - i,
    {
        if a[i] != b[i] {
            return false;
        }
        i += 1;
    }
    assert(a@ =~= b@);
    true
}

} // verus!

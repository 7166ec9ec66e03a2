//! Validated button flags for one controller variant and their 3-byte
//! input-report bitmap.
//!
//! Each variant owns a fixed, ordered set of button names; no other name can
//! ever be set. Lookups are case-insensitive: names are folded to lower case
//! on entry. Internally the flags are a vector of booleans parallel to the
//! variant's name list.

use vstd::prelude::*;
use vstd::string::StringSliceAdditionalSpecFns;
use vstd::std_specs::iter::IteratorSpec;
use vstd::utf8::encode_utf8;

use crate::controller_state::ControllerState;

use crate::controller::Controller;
use crate::controller::bytes_eq;

verus! {

/// ASCII lower-casing of one character: `A`..`Z` fold to `a`..`z`,
/// everything else is unchanged.
pub open spec fn lower_char(c: char) -> char {
    if 65 <= c as int <= 90 {
        ((c as int + 32) as char)
    } else {
        c
    }
}

/// A name lower-cased character by character, as validation and error
/// reporting see it.
pub open spec fn lower_chars(s: Seq<char>) -> Seq<char> {
    s.map_values(|c: char| lower_char(c))
}

/// The index of the first occurrence of `n` in `names`, or `-1` when it does
/// not occur.
pub open spec fn find_name(names: Seq<Seq<u8>>, n: Seq<u8>) -> int
    decreases names.len(),
{
    if names.len() == 0 {
        -1
    } else if names[0] == n {
        0
    } else {
        let sub = find_name(names.subrange(1, names.len() as int), n);
        if sub == -1 {
            -1
        } else {
            sub + 1
        }
    }
}

/// `find_name` returns the first match: if nothing before `i` matches and
/// `names[i]` does, the result is `i`; if nothing matches at all, it is `-1`.
pub proof fn lemma_find_name_first(names: Seq<Seq<u8>>, n: Seq<u8>, i: int)
    requires
        0 <= i <= names.len(),
        forall|j: int| 0 <= j < i ==> names[j] != n,
    ensures
        i < names.len() && names[i] == n ==> find_name(names, n) == i,
        i == names.len() ==> find_name(names, n) == -1,
    decreases names.len(),
{
    if names.len() > 0 {
        if names[0] == n {
        } else {
            let rest = names.subrange(1, names.len() as int);
            lemma_find_name_first(rest, n, if i == 0 {
                0
            } else {
                i - 1
            });
        }
    }
}

/// The name lists, in report order, for each variant.
pub open spec fn spec_available_buttons(c: Controller) -> Seq<Seq<u8>> {
    match c {
        Controller::ProController => seq![
            "y".spec_bytes(),
            "x".spec_bytes(),
            "b".spec_bytes(),
            "a".spec_bytes(),
            "r".spec_bytes(),
            "zr".spec_bytes(),
            "minus".spec_bytes(),
            "plus".spec_bytes(),
            "r_stick".spec_bytes(),
            "l_stick".spec_bytes(),
            "home".spec_bytes(),
            "capture".spec_bytes(),
            "down".spec_bytes(),
            "up".spec_bytes(),
            "right".spec_bytes(),
            "left".spec_bytes(),
            "l".spec_bytes(),
            "zl".spec_bytes(),
        ],
        Controller::JoyconR => seq![
            "y".spec_bytes(),
            "x".spec_bytes(),
            "b".spec_bytes(),
            "a".spec_bytes(),
            "sr".spec_bytes(),
            "sl".spec_bytes(),
            "r".spec_bytes(),
            "zr".spec_bytes(),
            "plus".spec_bytes(),
            "r_stick".spec_bytes(),
            "home".spec_bytes(),
        ],
        Controller::JoyconL => seq![
            "minus".spec_bytes(),
            "l_stick".spec_bytes(),
            "capture".spec_bytes(),
            "down".spec_bytes(),
            "up".spec_bytes(),
            "right".spec_bytes(),
            "left".spec_bytes(),
            "sr".spec_bytes(),
            "sl".spec_bytes(),
            "l".spec_bytes(),
            "zl".spec_bytes(),
        ],
    }
}

/// Raised by button commands.
#[derive(Debug, Clone)]
pub enum ButtonStateError {
    /// An empty batch command names no button at all.
    NoButtonsGiven,
    /// The named button does not exist on the given variant.
    ButtonNotAvailable(String, Controller),
}

/// The pressed flags of every button of one controller variant, serialized
/// on demand into the 3-byte input-report bitmap.
#[derive(Debug, Clone)]
pub struct ButtonState {
    pub controller: Controller,
    pub pressed: Vec<bool>,
}

impl ButtonState {
    /// One flag per name of the variant's fixed button list.
    pub open spec fn wf(self) -> bool {
        self.pressed@.len() == spec_available_buttons(self.controller).len()
    }

    /// Whether the button at `idx` of the variant's name list is pressed.
    pub open spec fn spec_pressed(self, idx: int) -> bool {
        0 <= idx < self.pressed@.len() && self.pressed@[idx]
    }

    /// Creates the state for a variant with every button unset.
    pub fn new(controller: Controller) -> (r: Self)
        ensures
            r.controller == controller,
            r.pressed@ == Seq::new(spec_available_buttons(controller).len(), |i: int| false),
            r.wf(),
    {
        let n = match controller {
            Controller::ProController => 18,
            Controller::JoyconR => 11,
            Controller::JoyconL => 11,
        };
        let pressed = vec![false; n];
        proof {
            assert(pressed@ =~= Seq::new(spec_available_buttons(controller).len(), |i: int| false));
        }
        Self { controller, pressed }
    }

    /// The variant's fixed, ordered button-name list (18 names on the
    /// combined pad, 11 on either half).
    pub fn get_available_buttons(&self) -> (r: Vec<&'static str>)
        ensures
            r@.len() == spec_available_buttons(self.controller).len(),
            forall|i: int|
                0 <= i < r@.len() ==> r@[i].spec_bytes() == spec_available_buttons(
                    self.controller,
                )[i],
            self.controller is ProController ==> r@.len() == 18,
            self.controller is JoyconR ==> r@.len() == 11,
            self.controller is JoyconL ==> r@.len() == 11,
    {
        match self.controller {
            Controller::ProController => {
                let r = vec![
                    "y",
                    "x",
                    "b",
                    "a",
                    "r",
                    "zr",
                    "minus",
                    "plus",
                    "r_stick",
                    "l_stick",
                    "home",
                    "capture",
                    "down",
                    "up",
                    "right",
                    "left",
                    "l",
                    "zl",
                ];
                r
            },
            Controller::JoyconR => {
                let r = vec![
                    "y",
                    "x",
                    "b",
                    "a",
                    "sr",
                    "sl",
                    "r",
                    "zr",
                    "plus",
                    "r_stick",
                    "home",
                ];
                r
            },
            Controller::JoyconL => {
                let r = vec![
                    "minus",
                    "l_stick",
                    "capture",
                    "down",
                    "up",
                    "right",
                    "left",
                    "sr",
                    "sl",
                    "l",
                    "zl",
                ];
                r
            },
        }
    }

    /// Finds an already-lower-cased name in the variant's list, or nothing
    /// when it is not an available button.
    fn find_lowered(&self, lowered: &str) -> (r: Option<usize>)
        ensures
            ({
                let idx = find_name(
                    spec_available_buttons(self.controller),
                    lowered.spec_bytes(),
                );
                match r {
                    Some(i) => idx == i && i < spec_available_buttons(self.controller).len(),
                    None => idx == -1,
                }
            }),
    {
        let names = self.get_available_buttons();
        let bytes = lowered.as_bytes();
        let n = names.len();
        let mut i: usize = 0;
        while i < n
            invariant
                n == names@.len() == spec_available_buttons(self.controller).len(),
                0 <= i <= n,
                bytes@ == lowered.spec_bytes(),
                forall|k: int|
                    0 <= k < n ==> names@[k].spec_bytes() == spec_available_buttons(
                        self.controller,
                    )[k],
                forall|j: int|
                    0 <= j < i ==> spec_available_buttons(self.controller)[j] != bytes@,
            decreases n - i,
        {
            if bytes_eq(bytes, names[i].as_bytes()) {
                proof {
                    lemma_find_name_first(
                        spec_available_buttons(self.controller),
                        bytes@,
                        i as int,
                    );
                }
                return Some(i);
            }
            i += 1;
        }
        proof {
            lemma_find_name_first(spec_available_buttons(self.controller), bytes@, n as int);
        }
        None
    }

    /// Sets or clears one button's flag. The name is folded to lower case;
    /// fails with `ButtonNotAvailable` — carrying the folded name and
    /// leaving the state unchanged — iff the folded name is not in the
    /// variant's list.
    pub fn set_button(&mut self, button: &str, pushed: bool) -> (r: Result<(), ButtonStateError>)
        requires
            old(self).wf(),
        ensures
            final(self).controller == old(self).controller,
            final(self).wf(),
            ({
                let idx = find_name(
                    spec_available_buttons(old(self).controller),
                    encode_utf8(lower_chars(button@)),
                );
                if idx >= 0 {
                    r == Ok::<(), ButtonStateError>(()) && final(self).pressed@ == old(
                        self,
                    ).pressed@.update(idx, pushed)
                } else {
                    (r matches Err(ButtonStateError::ButtonNotAvailable(n, c)) && n@ == lower_chars(
                        button@,
                    ) && c == old(self).controller) && final(self).pressed@ == old(self).pressed@
                }
            }),
    {
        let lowered = lowercase(button);
        match self.find_lowered(lowered.as_str()) {
            Some(i) => {
                self.pressed[i] = pushed;
                Ok(())
            },
            None => Err(ButtonStateError::ButtonNotAvailable(lowered, self.controller)),
        }
    }

    /// Reads one button's flag under the same case-insensitive validation as
    /// `set_button`.
    pub fn get_button(&self, button: &str) -> (r: Result<bool, ButtonStateError>)
        requires
            self.wf(),
        ensures
            ({
                let idx = find_name(
                    spec_available_buttons(self.controller),
                    encode_utf8(lower_chars(button@)),
                );
                if idx >= 0 {
                    r == Ok::<bool, ButtonStateError>(self.pressed@[idx])
                } else {
                    r matches Err(ButtonStateError::ButtonNotAvailable(n, c)) && n@ == lower_chars(
                        button@,
                    ) && c == self.controller
                }
            }),
    {
        let lowered = lowercase(button);
        match self.find_lowered(lowered.as_str()) {
            Some(i) => Ok(self.pressed[i]),
            None => Err(ButtonStateError::ButtonNotAvailable(lowered, self.controller)),
        }
    }

    /// Unsets every button.
    pub fn clear(&mut self)
        ensures
            final(self).controller == old(self).controller,
            final(self).pressed@ == Seq::new(old(self).pressed@.len(), |i: int| false),
    {
        let n = self.pressed.len();
        let mut i: usize = 0;
        while i < n
            invariant
                n == self.pressed@.len(),
                0 <= i <= n,
                self.controller == old(self).controller,
                forall|j: int| 0 <= j < i ==> self.pressed@[j] == false,
            decreases n - i,
        {
            self.pressed[i] = false;
            i += 1;
        }
        proof {
            assert(self.pressed@ =~= Seq::new(old(self).pressed@.len(), |i: int| false));
        }
    }
}

/// The outcome of applying a batch of button names to the flags from
/// position `i` on: the final flag vector and the position of the first
/// unavailable name, or `-1` when every name is valid. Names after the
/// first unavailable one are not applied.
pub open spec fn spec_apply_buttons(
    c: Controller,
    pressed: Seq<bool>,
    names: Seq<Seq<char>>,
    pushed: bool,
    i: int,
) -> (Seq<bool>, int)
    decreases names.len() - i,
{
    if i < 0 || i >= names.len() {
        (pressed, -1)
    } else {
        let idx = find_name(spec_available_buttons(c), encode_utf8(lower_chars(names[i])));
        if idx >= 0 {
            spec_apply_buttons(c, pressed.update(idx, pushed), names, pushed, i + 1)
        } else {
            (pressed, i)
        }
    }
}

/// Presses every named button of a batch. An empty batch fails with
/// `NoButtonsGiven`; an unavailable name stops the batch there with
/// `ButtonNotAvailable` (names before it stay applied).
pub fn button_press(controller_state: &mut ControllerState, buttons: &[String]) -> (r: Result<
    (),
    ButtonStateError,
>)
    requires
        old(controller_state).button_state.wf(),
    ensures
        apply_buttons_post(*old(controller_state), *final(controller_state), buttons@, true, r),
{
    apply_buttons(controller_state, buttons, true)
}

/// Releases every named button of a batch. Validation and failure
/// behaviour match `button_press`.
pub fn button_release(controller_state: &mut ControllerState, buttons: &[String]) -> (r: Result<
    (),
    ButtonStateError,
>)
    requires
        old(controller_state).button_state.wf(),
    ensures
        apply_buttons_post(*old(controller_state), *final(controller_state), buttons@, false, r),
{
    apply_buttons(controller_state, buttons, false)
}

/// What a batched press or release guarantees: nothing happens on an empty
/// batch, and otherwise the flag vector is the fold of the (lower-cased)
/// names over the variant's list, stopped at the first unavailable name.
pub open spec fn apply_buttons_post(
    pre: ControllerState,
    post: ControllerState,
    buttons: Seq<String>,
    pushed: bool,
    r: Result<(), ButtonStateError>,
) -> bool {
    &&& post == (ControllerState { button_state: post.button_state, ..pre })
    &&& post.button_state.controller == pre.button_state.controller
    &&& ({
        if buttons.len() == 0 {
            r == Err::<(), ButtonStateError>(ButtonStateError::NoButtonsGiven)
                && post.button_state.pressed@ == pre.button_state.pressed@
        } else {
            let names = buttons.map_values(|s: String| s@);
            let (flags, fail) = spec_apply_buttons(
                pre.button_state.controller,
                pre.button_state.pressed@,
                names,
                pushed,
                0,
            );
            post.button_state.pressed@ == flags && if fail == -1 {
                r == Ok::<(), ButtonStateError>(())
            } else {
                r matches Err(ButtonStateError::ButtonNotAvailable(n, c)) && n@ == lower_chars(
                    buttons[fail]@,
                ) && c == pre.button_state.controller
            }
        }
    })
}

/// Applies one batch of names with a shared flag value.
fn apply_buttons(controller_state: &mut ControllerState, buttons: &[String], pushed: bool) -> (r:
    Result<(), ButtonStateError>)
    requires
        old(controller_state).button_state.wf(),
    ensures
        apply_buttons_post(*old(controller_state), *final(controller_state), buttons@, pushed, r),
{
    if buttons.is_empty() {
        return Err(ButtonStateError::NoButtonsGiven);
    }
    let ghost names = buttons@.map_values(|s: String| s@);
    let ghost c = controller_state.button_state.controller;
    let ghost goal = spec_apply_buttons(
        c,
        controller_state.button_state.pressed@,
        names,
        pushed,
        0,
    );
    let n = buttons.len();
    let mut i: usize = 0;
    while i < n
        invariant
            0 <= i <= n,
            n == buttons@.len(),
            names == buttons@.map_values(|s: String| s@),
            controller_state.button_state.wf(),
            c == controller_state.button_state.controller,
            *controller_state == (ControllerState {
                button_state: controller_state.button_state,
                ..*old(controller_state)
            }),
            controller_state.button_state.controller == old(
                controller_state,
            ).button_state.controller,
            goal == spec_apply_buttons(
                c,
                controller_state.button_state.pressed@,
                names,
                pushed,
                i as int,
            ),
            goal == spec_apply_buttons(
                c,
                old(controller_state).button_state.pressed@,
                names,
                pushed,
                0,
            ),
        decreases n - i,
    {
        let button = &buttons[i];
        match controller_state.button_state.set_button(button.as_str(), pushed) {
            Ok(()) => {},
            Err(e) => {
                return Err(e);
            },
        }
        i += 1;
    }
    Ok(())
}

/// `mask` when the flag is set, zero otherwise.
pub open spec fn bit_if(b: bool, mask: u8) -> u8 {
    if b {
        mask
    } else {
        0
    }
}

/// Byte 0 of the report bitmap: the right-side cluster. On the combined
/// pad: y, x, b, a on the high bits, r and zr on the low two. The right
/// half adds sr (0x08) and sl (0x04). All zero on the left-half variant,
/// which has none of these buttons. Flag indices follow the variant's name
/// list.
pub open spec fn spec_byte0(s: ButtonState) -> u8 {
    match s.controller {
        Controller::ProController => bit_if(s.spec_pressed(0), 0x80) | bit_if(
            s.spec_pressed(1),
            0x40,
        ) | bit_if(s.spec_pressed(2), 0x20) | bit_if(s.spec_pressed(3), 0x10) | bit_if(
            s.spec_pressed(4),
            0x02,
        ) | bit_if(s.spec_pressed(5), 0x01),
        Controller::JoyconR => bit_if(s.spec_pressed(0), 0x80) | bit_if(s.spec_pressed(1), 0x40)
            | bit_if(s.spec_pressed(2), 0x20) | bit_if(s.spec_pressed(3), 0x10) | bit_if(
            s.spec_pressed(4),
            0x08,
        ) | bit_if(s.spec_pressed(5), 0x04) | bit_if(s.spec_pressed(6), 0x02) | bit_if(
            s.spec_pressed(7),
            0x01,
        ),
        Controller::JoyconL => 0,
    }
}

/// Byte 1 of the report bitmap: the shared middle cluster — minus (0x80),
/// plus (0x40), the stick clicks (0x20, 0x10), home (0x08) and capture
/// (0x04). A button a variant does not own can never be pressed, so its
/// bit stays zero: the right half has no minus, capture or left-stick
/// click, the left half no plus, home or right-stick click.
pub open spec fn spec_byte1(s: ButtonState) -> u8 {
    match s.controller {
        Controller::ProController => bit_if(s.spec_pressed(6), 0x80) | bit_if(
            s.spec_pressed(7),
            0x40,
        ) | bit_if(s.spec_pressed(8), 0x20) | bit_if(s.spec_pressed(9), 0x10) | bit_if(
            s.spec_pressed(10),
            0x08,
        ) | bit_if(s.spec_pressed(11), 0x04),
        Controller::JoyconR => bit_if(s.spec_pressed(8), 0x40) | bit_if(s.spec_pressed(9), 0x20)
            | bit_if(s.spec_pressed(10), 0x08),
        Controller::JoyconL => bit_if(s.spec_pressed(0), 0x80) | bit_if(s.spec_pressed(1), 0x10)
            | bit_if(s.spec_pressed(2), 0x04),
    }
}

/// Byte 2 of the report bitmap: the left-side cluster — down, up, right,
/// left on the high bits, l and zl on the low two; the left half adds sr
/// (0x08) and sl (0x04). All zero on the right-half variant.
pub open spec fn spec_byte2(s: ButtonState) -> u8 {
    match s.controller {
        Controller::ProController => bit_if(s.spec_pressed(12), 0x80) | bit_if(
            s.spec_pressed(13),
            0x40,
        ) | bit_if(s.spec_pressed(14), 0x20) | bit_if(s.spec_pressed(15), 0x10) | bit_if(
            s.spec_pressed(16),
            0x02,
        ) | bit_if(s.spec_pressed(17), 0x01),
        Controller::JoyconR => 0,
        Controller::JoyconL => bit_if(s.spec_pressed(3), 0x80) | bit_if(s.spec_pressed(4), 0x40)
            | bit_if(s.spec_pressed(5), 0x20) | bit_if(s.spec_pressed(6), 0x10) | bit_if(
            s.spec_pressed(7),
            0x08,
        ) | bit_if(s.spec_pressed(8), 0x04) | bit_if(s.spec_pressed(9), 0x02) | bit_if(
            s.spec_pressed(10),
            0x01,
        ),
    }
}

/// The full 3-byte report bitmap of a button state.
pub open spec fn spec_report_bitmap(s: ButtonState) -> Seq<u8> {
    seq![spec_byte0(s), spec_byte1(s), spec_byte2(s)]
}

impl ButtonState {
    /// Serializes the flags into the exact 3-byte input-report bitmap the
    /// host expects (byte 0: right-side cluster, byte 1: shared middle
    /// cluster, byte 2: left-side cluster).
    #[verifier::rlimit(60)]
    pub fn as_bytes(&self) -> (r: [u8; 3])
        requires
            self.wf(),
        ensures
            r@ == spec_report_bitmap(*self),
            r[0] == spec_byte0(*self),
            r[1] == spec_byte1(*self),
            r[2] == spec_byte2(*self),
    {
        let result: [u8; 3] = match self.controller {
            Controller::ProController => {
                let b0 = flag(self.pressed[0], 0x80) | flag(self.pressed[1], 0x40) | flag(
                    self.pressed[2],
                    0x20,
                ) | flag(self.pressed[3], 0x10) | flag(self.pressed[4], 0x02) | flag(
                    self.pressed[5],
                    0x01,
                );
                let b1 = flag(self.pressed[6], 0x80) | flag(self.pressed[7], 0x40) | flag(
                    self.pressed[8],
                    0x20,
                ) | flag(self.pressed[9], 0x10) | flag(self.pressed[10], 0x08) | flag(
                    self.pressed[11],
                    0x04,
                );
                let b2 = flag(self.pressed[12], 0x80) | flag(self.pressed[13], 0x40) | flag(
                    self.pressed[14],
                    0x20,
                ) | flag(self.pressed[15], 0x10) | flag(self.pressed[16], 0x02) | flag(
                    self.pressed[17],
                    0x01,
                );
                [b0, b1, b2]
            },
            Controller::JoyconR => {
                let b0 = flag(self.pressed[0], 0x80) | flag(self.pressed[1], 0x40) | flag(
                    self.pressed[2],
                    0x20,
                ) | flag(self.pressed[3], 0x10) | flag(self.pressed[4], 0x08) | flag(
                    self.pressed[5],
                    0x04,
                ) | flag(self.pressed[6], 0x02) | flag(self.pressed[7], 0x01);
                let b1 = flag(self.pressed[8], 0x40) | flag(self.pressed[9], 0x20) | flag(
                    self.pressed[10],
                    0x08,
                );
                [b0, b1, 0]
            },
            Controller::JoyconL => {
                let b1 = flag(self.pressed[0], 0x80) | flag(self.pressed[1], 0x10) | flag(
                    self.pressed[2],
                    0x04,
                );
                let b2 = flag(self.pressed[3], 0x80) | flag(self.pressed[4], 0x40) | flag(
                    self.pressed[5],
                    0x20,
                ) | flag(self.pressed[6], 0x10) | flag(self.pressed[7], 0x08) | flag(
                    self.pressed[8],
                    0x04,
                ) | flag(self.pressed[9], 0x02) | flag(self.pressed[10], 0x01);
                [0, b1, b2]
            },
        };
        proof {
            assert(result@ =~= spec_report_bitmap(*self));
        }
        result
    }
}

/// After `clear`, the report bitmap of any variant is all-zero bytes.
pub proof fn lemma_cleared_bitmap_is_zero(s: ButtonState)
    requires
        s.wf(),
        forall|i: int| 0 <= i < s.pressed@.len() ==> !s.pressed@[i],
    ensures
        spec_report_bitmap(s) =~= seq![0u8, 0u8, 0u8],
{
    assert(0u8 | 0u8 == 0u8) by (bit_vector);
}

/// `mask` when the flag is set, zero otherwise.
fn flag(b: bool, mask: u8) -> (r: u8)
    ensures
        r == bit_if(b, mask),
{
    if b {
        mask
    } else {
        0
    }
}

/// Folds one character to lower case.
fn exec_lower_char(c: char) -> (r: char)
    ensures
        r == lower_char(c),
{
    let code = c as u32;
    if 65 <= code && code <= 90 {
        ((code + 32) as u8) as char
    } else {
        c
    }
}

/// Relies on `String::push`: appends exactly the one given character.
#[verifier::external_body]
fn push_char(s: &mut String, c: char)
    ensures
        final(s)@ == old(s)@ + seq![c],
{
    s.push(c);
}

/// Folds a name to lower case, character by character.
fn lowercase(s: &str) -> (r: String)
    ensures
        r@ == lower_chars(s@),
{
    let ghost total = s@;
    let mut out = String::new();
    let mut it = s.chars();
    let ghost mut done: int = 0;
    proof {
        assert(it.remaining() =~= total.subrange(0, total.len() as int));
    }
    loop
        invariant
            0 <= done <= total.len(),
            it.remaining() == total.subrange(done, total.len() as int),
            out@ == lower_chars(total.take(done)),
        ensures
            done == total.len(),
            out@ == lower_chars(total.take(done)),
        decreases total.len() - done,
    {
        match it.next() {
            Some(c) => {
                proof {
                    assert(c == total[done]);
                }
                let low = exec_lower_char(c);
                push_char(&mut out, low);
                proof {
                    done = done + 1;
                    assert(it.remaining() =~= total.subrange(done, total.len() as int));
                    assert(out@ =~= lower_chars(total.take(done)));
                }
            },
            None => {
                proof {
                    assert(it.remaining().len() == 0);
                    assert(done == total.len());
                }
                break ;
            },
        }
    }
    proof {
        assert(total.take(total.len() as int) =~= total);
    }
    out
}

} // verus!

//! The auxiliary NFC co-processor: power state, the tag-polling state
//! machine, checksum-framed response messages, and the bounded outgoing
//! response queue.

use vstd::prelude::*;
use vstd::slice::slice_subrange;
use vstd::slice::slice_to_vec;

use crate::controller_state::ControllerState;
use crate::nfc_tag::spec_uid;

verus! {

/// Response frames the co-processor emits are this long unless a caller
/// asks otherwise.
pub const DEFAULT_MESSAGE_LENGTH: usize = 313;

/// A response queue holds at most this many frames; `queue_response` drops
/// overflow.
pub const MAX_RESPONSE_QUEUE_LEN: usize = 4;

/// The checksum the co-processor's peer verifies on every frame: the 8-bit
/// SMBUS CRC of the frame's preceding bytes. A function of the input bytes
/// alone.
pub uninterp spec fn crc8_smbus_of(data: Seq<u8>) -> u8;

/// Relies on the `crc` crate's `Crc::<u8>::checksum` with the fixed
/// `CRC_8_SMBUS` algorithm: the result depends on the input bytes alone.
#[verifier::external_body]
pub fn mcu_crc(data: &[u8]) -> (r: u8)
    ensures
        r == crc8_smbus_of(data@),
{
    let crc_calculator = crc::Crc::<u8>::new(&crc::CRC_8_SMBUS);
    crc_calculator.checksum(data)
}

/// The bytes `pack_message` produces: the input padded with `bg` up to
/// length `len` — an over-long input is kept whole — with the final byte
/// replaced by the checksum of everything before it.
pub open spec fn spec_pack(data: Seq<u8>, bg: u8, len: int) -> Seq<u8>
    recommends
        len >= 1,
{
    let padded = if data.len() >= len {
        data
    } else {
        data + Seq::new((len - data.len()) as nat, |i: int| bg)
    };
    let total = padded.len() as int;
    padded.update(total - 1, crc8_smbus_of(padded.take(total - 1)))
}

/// Frames a message: copies `data`, pads it to the frame length (default
/// 313) with the fill byte (default 0) — an over-long message is still
/// copied whole — and overwrites the final byte with the checksum of the
/// preceding bytes. Every co-processor response goes through this one
/// primitive.
pub fn pack_message(data: &[u8], background: Option<u8>, length: Option<usize>) -> (r: Vec<u8>)
    requires
        length matches Some(l) ==> l >= 1,
    ensures
        ({
            let bg = if background is Some {
                background->0
            } else {
                0u8
            };
            let len = if length is Some {
                length->0 as int
            } else {
                DEFAULT_MESSAGE_LENGTH as int
            };
            r@ == spec_pack(data@, bg, len) && r@.len() == (if data@.len() >= len {
                data@.len() as int
            } else {
                len
            })
        }),
{
    let length = match length {
        Some(l) => l,
        None => DEFAULT_MESSAGE_LENGTH,
    };
    let background = match background {
        Some(b) => b,
        None => 0,
    };
    let mut buf: Vec<u8> = slice_to_vec(data);
    if buf.len() < length {
        buf.resize(length, background);
        proof {
            assert(buf@ =~= data@ + Seq::new((length - data@.len()) as nat, |i: int| background));
        }
    }
    let buf_len_without_checksum = buf.len() - 1;
    let checksum = mcu_crc(slice_subrange(buf.as_slice(), 0, buf_len_without_checksum));
    proof {
        assert(buf@.subrange(0, buf_len_without_checksum as int) =~= buf@.take(
            buf@.len() as int - 1,
        ));
    }
    buf[buf_len_without_checksum] = checksum;
    buf
}

/// The co-processor's power state, reported in status frames.
#[derive(Debug, Clone, Copy, PartialEq, Eq, Hash, Structural)]
pub enum MCUPowerState {
    Suspended,
    Ready,
    ReadyUpdate,
    ConfiguredNFC,
}

impl MCUPowerState {
    /// The byte this power state is reported as.
    pub open spec fn spec_byte(self) -> u8 {
        match self {
            MCUPowerState::Suspended => 0x00,
            MCUPowerState::Ready => 0x01,
            MCUPowerState::ReadyUpdate => 0x02,
            MCUPowerState::ConfiguredNFC => 0x04,
        }
    }

    /// The byte this power state is reported as.
    pub fn as_byte(&self) -> (r: u8)
        ensures
            r == self.spec_byte(),
    {
        match self {
            MCUPowerState::Suspended => 0x00,
            MCUPowerState::Ready => 0x01,
            MCUPowerState::ReadyUpdate => 0x02,
            MCUPowerState::ConfiguredNFC => 0x04,
        }
    }
}

/// The tag-polling state machine's states. `Idle` is the quiescent state
/// (reported as byte 0); the write-path states are driven by request
/// handling outside the poll tick.
#[derive(Debug, Clone, Copy, PartialEq, Eq, Hash, Structural)]
pub enum NFCState {
    Idle,
    Poll,
    PendingRead,
    Writing,
    AwaitingWrite,
    ProcessingWrite,
    PollAgain,
}

impl NFCState {
    /// The byte this poll state is reported as.
    pub open spec fn spec_byte(self) -> u8 {
        match self {
            NFCState::Idle => 0x00,
            NFCState::Poll => 0x01,
            NFCState::PendingRead => 0x02,
            NFCState::Writing => 0x03,
            NFCState::AwaitingWrite => 0x04,
            NFCState::ProcessingWrite => 0x05,
            NFCState::PollAgain => 0x09,
        }
    }

    /// The byte this poll state is reported as.
    pub fn as_byte(&self) -> (r: u8)
        ensures
            r == self.spec_byte(),
    {
        match self {
            NFCState::Idle => 0x00,
            NFCState::Poll => 0x01,
            NFCState::PendingRead => 0x02,
            NFCState::Writing => 0x03,
            NFCState::AwaitingWrite => 0x04,
            NFCState::ProcessingWrite => 0x05,
            NFCState::PollAgain => 0x09,
        }
    }
}

/// The identifier of the "tag removed" sentinel payload (all-zero bytes).
pub open spec fn spec_removal_uid() -> Seq<u8> {
    seq![0u8, 0u8, 0u8, 0u8, 0u8, 0u8, 0u8]
}

/// An identifier option as the sequences the specifications speak of.
pub open spec fn uid_view(u: Option<[u8; 7]>) -> Option<Seq<u8>> {
    match u {
        Some(a) => Some(a@),
        None => None,
    }
}

/// The emulated co-processor. Stepped synchronously once per report tick;
/// mutated in place for the whole session.
pub struct MicroControllerUnit {
    pub power_state: MCUPowerState,
    pub nfc_state: NFCState,
    pub nfc_counter: i32,
    pub last_poll_uid: Option<[u8; 7]>,
    pub pending_active_remove: u32,
    pub remove_nfc_after_write: bool,
    pub controller: ControllerState,
    pub seq_no: u32,
    pub ack_seq_no: u32,
    pub received_data: Vec<u8>,
    pub response_queue: Vec<Vec<u8>>,
}

/// Whether a poll tick substitutes the "tag removed" sentinel for the
/// loaded tag: only while polling, only while forced removals are pending,
/// and only when removal-after-write is on or no tag is loaded.
pub open spec fn spec_substitutes_removal(m: MicroControllerUnit) -> bool {
    &&& (m.nfc_state is Poll || m.nfc_state is PollAgain)
    &&& (m.remove_nfc_after_write || m.controller.nfc_content is None)
    &&& m.pending_active_remove > 0
}

/// The identifier a poll tick works with: the sentinel's when a forced
/// removal is substituted, else the loaded tag's, else nothing.
pub open spec fn spec_effective_uid(m: MicroControllerUnit) -> Option<Seq<u8>> {
    if spec_substitutes_removal(m) {
        Some(spec_removal_uid())
    } else {
        match m.controller.nfc_content {
            Some(t) => Some(spec_uid(t.data@)),
            None => None,
        }
    }
}

/// One step of the poll state machine: the next state and the next
/// remembered identifier, given the state, the poll counter after this
/// tick's decrement, the effective identifier, and the last-seen one.
pub open spec fn spec_next_nfc_state(
    st: NFCState,
    counter_after: int,
    eff: Option<Seq<u8>>,
    last: Option<Seq<u8>>,
) -> (NFCState, Option<Seq<u8>>) {
    if st is ProcessingWrite && counter_after <= 0 {
        (NFCState::Idle, last)
    } else if st is Poll {
        match eff {
            Some(u) => if last == Some(u) {
                (NFCState::PollAgain, last)
            } else {
                (NFCState::Poll, Some(u))
            },
            None => (NFCState::Poll, None),
        }
    } else if st is PollAgain {
        match eff {
            Some(u) => if last != Some(u) {
                (NFCState::Poll, Some(u))
            } else {
                (NFCState::PollAgain, last)
            },
            None => (NFCState::Poll, None),
        }
    } else {
        (st, last)
    }
}

/// The poll-status frame for a tick: with a tag at hand outside the
/// quiescent state, the long header carrying the sequence number, the new
/// state byte and the tag identifier; otherwise the short header with the
/// new state byte. Both framed to the default length.
pub open spec fn spec_nfc_frame(st: NFCState, eff: Option<Seq<u8>>, seq_no: u32) -> Seq<u8> {
    match eff {
        Some(u) => if !(st is Idle) {
            spec_pack(
                seq![0x2au8, 0x00u8, 0x05u8, (seq_no % 256) as u8, 0x09u8, 0x31u8, st.spec_byte(), 0x00u8, 0x00u8, 0x00u8, 0x01u8, 0x01u8, 0x02u8, 0x00u8, 0x07u8]
                    + u,
                0,
                DEFAULT_MESSAGE_LENGTH as int,
            )
        } else {
            spec_short_nfc_frame(st)
        },
        None => spec_short_nfc_frame(st),
    }
}

/// The tag-less poll-status frame: the short header with the state byte.
pub open spec fn spec_short_nfc_frame(st: NFCState) -> Seq<u8> {
    spec_pack(
        seq![0x2au8, 0x00u8, 0x05u8, 0x00u8, 0x00u8, 0x09u8, 0x31u8, st.spec_byte()],
        0,
        DEFAULT_MESSAGE_LENGTH as int,
    )
}

/// The power-status frame: the fixed "no response" sentinel while
/// suspended, the status header plus the power byte while ready or
/// configured.
pub open spec fn spec_status_frame(p: MCUPowerState) -> Option<Seq<u8>> {
    match p {
        MCUPowerState::Suspended => Some(
            spec_pack(seq![0xFFu8], 0, DEFAULT_MESSAGE_LENGTH as int),
        ),
        MCUPowerState::Ready | MCUPowerState::ConfiguredNFC => Some(
            spec_pack(
                seq![0x01u8, 0x00u8, 0x00u8, 0x00u8, 0x08u8, 0x00u8, 0x1bu8, p.spec_byte()],
                0,
                DEFAULT_MESSAGE_LENGTH as int,
            ),
        ),
        MCUPowerState::ReadyUpdate => None,
    }
}

impl MicroControllerUnit {
    /// Creates the co-processor for a session: suspended, quiescent, with
    /// empty buffers and counters at zero.
    pub fn new(controller: ControllerState) -> (r: Self)
        ensures
            r.power_state is Suspended,
            r.nfc_state is Idle,
            r.nfc_counter == 0,
            r.last_poll_uid is None,
            r.pending_active_remove == 0,
            r.remove_nfc_after_write == true,
            r.controller == controller,
            r.seq_no == 0,
            r.ack_seq_no == 0,
            r.received_data@.len() == 0,
            r.response_queue@.len() == 0,
    {
        Self {
            controller,
            power_state: MCUPowerState::Suspended,
            nfc_state: NFCState::Idle,
            nfc_counter: 0,
            last_poll_uid: None,
            pending_active_remove: 0,
            remove_nfc_after_write: true,
            seq_no: 0,
            ack_seq_no: 0,
            received_data: Vec::new(),
            response_queue: Vec::new(),
        }
    }

    /// Empties the outgoing response queue.
    pub fn flush_response_queue(&mut self)
        ensures
            *final(self) == (MicroControllerUnit {
                response_queue: final(self).response_queue,
                ..*old(self)
            }),
            final(self).response_queue@.len() == 0,
    {
        self.response_queue = Vec::new();
    }

    /// Queues a response frame while fewer than the maximal number of
    /// frames are waiting; otherwise drops it, leaving the queued frames
    /// untouched.
    pub fn queue_response(&mut self, resp: &[u8])
        ensures
            *final(self) == (MicroControllerUnit {
                response_queue: final(self).response_queue,
                ..*old(self)
            }),
            old(self).response_queue@.len() < MAX_RESPONSE_QUEUE_LEN ==> final(self).response_queue.deep_view() == old(self).response_queue.deep_view().push(resp@),
            old(self).response_queue@.len() >= MAX_RESPONSE_QUEUE_LEN ==> final(self).response_queue == old(self).response_queue,
    {
        if self.response_queue.len() < MAX_RESPONSE_QUEUE_LEN {
            let frame = slice_to_vec(resp);
            self.response_queue.push(frame);
            proof {
                assert(self.response_queue.deep_view() =~~= old(
                    self,
                ).response_queue.deep_view().push(resp@));
            }
        }
    }

    /// Queues a response frame unconditionally, even past the bound.
    pub fn force_queue_response(&mut self, resp: &[u8])
        ensures
            *final(self) == (MicroControllerUnit {
                response_queue: final(self).response_queue,
                ..*old(self)
            }),
            final(self).response_queue.deep_view() == old(
                self,
            ).response_queue.deep_view().push(resp@),
    {
        let frame = slice_to_vec(resp);
        self.response_queue.push(frame);
        proof {
            assert(self.response_queue.deep_view() =~~= old(self).response_queue.deep_view().push(
                resp@,
            ));
        }
    }

    /// Accepted for interface parity; the removal behaviour is fixed for
    /// the session, so the request is ignored and the state left unchanged.
    pub fn set_remove_nfc_after_read(&mut self, _value: bool)
        ensures
            *final(self) == *old(self),
    {
    }

    /// The power-status frame for the current power state: the "no
    /// response" sentinel while suspended, the status header with the power
    /// byte while ready or configured, and nothing while updating.
    pub fn get_status_data(&self) -> (r: Option<Vec<u8>>)
        ensures
            match spec_status_frame(self.power_state) {
                Some(f) => r matches Some(v) && v@ == f,
                None => r is None,
            },
    {
        match self.power_state {
            MCUPowerState::Suspended => {
                let payload: [u8; 1] = [0xFF];
                let msg = pack_message(payload.as_slice(), None, None);
                proof {
                    assert(payload@ =~= seq![0xFFu8]);
                }
                Some(msg)
            },
            MCUPowerState::Ready | MCUPowerState::ConfiguredNFC => {
                let payload: [u8; 8] = [
                    0x01,
                    0x00,
                    0x00,
                    0x00,
                    0x08,
                    0x00,
                    0x1b,
                    self.power_state.as_byte(),
                ];
                let msg = pack_message(payload.as_slice(), None, None);
                proof {
                    assert(payload@ =~= seq![
                        0x01u8,
                        0x00u8,
                        0x00u8,
                        0x00u8,
                        0x08u8,
                        0x00u8,
                        0x1bu8,
                        self.power_state.spec_byte(),
                    ]);
                }
                Some(msg)
            },
            MCUPowerState::ReadyUpdate => None,
        }
    }

    /// One poll tick: decrements the poll counter, substitutes the "tag
    /// removed" sentinel while a forced removal is pending, steps the poll
    /// state machine with de-duplication on the tag identifier, and builds
    /// the framed poll-status response.
    pub fn get_nfc_status_data(&mut self) -> (r: Vec<u8>)
        requires
            old(self).nfc_counter > i32::MIN,
            old(self).controller.nfc_content matches Some(t) ==> t.wf(),
        ensures
            ({
                let m = *old(self);
                let eff = spec_effective_uid(m);
                let step = spec_next_nfc_state(
                    m.nfc_state,
                    m.nfc_counter - 1,
                    eff,
                    uid_view(m.last_poll_uid),
                );
                &&& *final(self) == (MicroControllerUnit {
                    nfc_counter: (m.nfc_counter - 1) as i32,
                    pending_active_remove: if spec_substitutes_removal(m) {
                        (m.pending_active_remove - 1) as u32
                    } else {
                        m.pending_active_remove
                    },
                    nfc_state: step.0,
                    last_poll_uid: final(self).last_poll_uid,
                    ..m
                })
                &&& final(self).nfc_state == step.0
                &&& uid_view(final(self).last_poll_uid) == step.1
                &&& r@ == spec_nfc_frame(step.0, eff, m.seq_no)
            }),
    {
        self.nfc_counter = self.nfc_counter - 1;

        let substitute = (self.nfc_state == NFCState::Poll || self.nfc_state == NFCState::PollAgain)
            && (self.remove_nfc_after_write || self.controller.nfc_content.is_none())
            && self.pending_active_remove > 0;

        let effective_uid: Option<[u8; 7]> = if substitute {
            self.pending_active_remove = self.pending_active_remove - 1;
            Some([0, 0, 0, 0, 0, 0, 0])
        } else {
            match &self.controller.nfc_content {
                Some(tag) => Some(tag.get_uid()),
                None => None,
            }
        };
        proof {
            assert(uid_view(effective_uid) == spec_effective_uid(*old(self)));
        }

        if self.nfc_state == NFCState::ProcessingWrite && self.nfc_counter <= 0 {
            self.nfc_state = NFCState::Idle;
        } else if self.nfc_state == NFCState::Poll {
            match &effective_uid {
                Some(uid) => {
                    let seen = match &self.last_poll_uid {
                        Some(last) => uid_eq(last, uid),
                        None => false,
                    };
                    if seen {
                        self.nfc_state = NFCState::PollAgain;
                    } else {
                        self.last_poll_uid = Some(*uid);
                    }
                },
                None => {
                    self.last_poll_uid = None;
                },
            }
        } else if self.nfc_state == NFCState::PollAgain {
            match &effective_uid {
                Some(uid) => {
                    let seen = match &self.last_poll_uid {
                        Some(last) => uid_eq(last, uid),
                        None => false,
                    };
                    if !seen {
                        self.nfc_state = NFCState::Poll;
                        self.last_poll_uid = Some(*uid);
                    }
                },
                None => {
                    self.nfc_state = NFCState::Poll;
                    self.last_poll_uid = None;
                },
            }
        }

        let state_byte = self.nfc_state.as_byte();
        let long_form = match &effective_uid {
            Some(_) => !(self.nfc_state == NFCState::Idle),
            None => false,
        };
        if long_form {
            let uid = match effective_uid {
                Some(u) => u,
                None => [0, 0, 0, 0, 0, 0, 0],
            };
            let seq_byte = #[verifier::truncate] (self.seq_no as u8);
            proof {
                let s = self.seq_no;
                assert((s as u8) == s % 256) by (bit_vector);
            }
            let payload: [u8; 22] = [
                0x2a,
                0x00,
                0x05,
                seq_byte,
                0x09,
                0x31,
                state_byte,
                0x00,
                0x00,
                0x00,
                0x01,
                0x01,
                0x02,
                0x00,
                0x07,
                uid[0],
                uid[1],
                uid[2],
                uid[3],
                uid[4],
                uid[5],
                uid[6],
            ];
            let msg = pack_message(payload.as_slice(), None, None);
            proof {
                assert(payload@ =~= seq![
                    0x2au8,
                    0x00u8,
                    0x05u8,
                    ((self.seq_no % 256) as u8),
                    0x09u8,
                    0x31u8,
                    self.nfc_state.spec_byte(),
                    0x00u8,
                    0x00u8,
                    0x00u8,
                    0x01u8,
                    0x01u8,
                    0x02u8,
                    0x00u8,
                    0x07u8,
                ] + uid@);
            }
            msg
        } else {
            let payload: [u8; 8] = [0x2a, 0x00, 0x05, 0x00, 0x00, 0x09, 0x31, state_byte];
            let msg = pack_message(payload.as_slice(), None, None);
            proof {
                assert(payload@ =~= seq![
                    0x2au8,
                    0x00u8,
                    0x05u8,
                    0x00u8,
                    0x00u8,
                    0x09u8,
                    0x31u8,
                    self.nfc_state.spec_byte(),
                ]);
            }
            msg
        }
    }
}

/// The fixed "no response" frame: a single 0xFF byte, framed to the default
/// length. Computed on demand and identical for the life of the process.
pub fn no_response_message() -> (r: Vec<u8>)
    ensures
        r@ == spec_pack(seq![0xFFu8], 0, DEFAULT_MESSAGE_LENGTH as int),
{
    let payload: [u8; 1] = [0xFF];
    let msg = pack_message(payload.as_slice(), None, None);
    proof {
        assert(payload@ =~= seq![0xFFu8]);
    }
    msg
}

/// The fixed "tag removed" sentinel: an all-zero payload of the supported
/// family's size, reported in place of a real tag while a forced removal is
/// pending.
pub fn removal_tag() -> (r: crate::nfc_tag::NFCTag)
    ensures
        r.data@ == Seq::new(540, |i: int| 0u8),
        r.tag_type is Amiibo,
        r.source is None,
        spec_uid(r.data@) == spec_removal_uid(),
{
    let data = vec![0u8; 540];
    let tag = crate::nfc_tag::NFCTag::new(data.as_slice(), None, None);
    proof {
        assert(tag.data@ =~= Seq::new(540, |i: int| 0u8));
        assert(spec_uid(tag.data@) =~= spec_removal_uid());
    }
    tag
}

/// Compares two tag identifiers element-wise.
fn uid_eq(a: &[u8; 7], b: &[u8; 7]) -> (r: bool)
    ensures
        r == (a@ == b@),
{
    let r = a[0] == b[0] && a[1] == b[1] && a[2] == b[2] && a[3] == b[3] && a[4] == b[4] && a[5]
        == b[5] && a[6] == b[6];
    proof {
        if r {
            assert(a@ =~= b@);
        }
    }
    r
}

/// Poll de-duplication: a fresh identifier keeps the machine polling and is
/// remembered; the same identifier on the next tick moves it to the
/// poll-again state; and from there only a changed identifier or a removed
/// tag returns it to polling.
pub proof fn lemma_nfc_poll_dedup(u: Seq<u8>, counter: int)
    ensures
        spec_next_nfc_state(NFCState::Poll, counter, Some(u), Option::<Seq<u8>>::None) == (
            NFCState::Poll,
            Some(u),
        ),
        spec_next_nfc_state(NFCState::Poll, counter, Some(u), Some(u)) == (
            NFCState::PollAgain,
            Some(u),
        ),
        spec_next_nfc_state(NFCState::PollAgain, counter, Some(u), Some(u)) == (
            NFCState::PollAgain,
            Some(u),
        ),
        forall|u2: Seq<u8>|
            u2 != u ==> spec_next_nfc_state(NFCState::PollAgain, counter, Some(u2), Some(u)) == (
                NFCState::Poll,
                Some(u2),
            ),
        spec_next_nfc_state(NFCState::PollAgain, counter, Option::<Seq<u8>>::None, Some(u)) == (
            NFCState::Poll,
            Option::<Seq<u8>>::None,
        ),
{
}

} // verus!

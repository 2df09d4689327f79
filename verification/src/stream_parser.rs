//! The stream parser: a caller-supplied output buffer plus one decode state,
//! fed one byte at a time.

use vstd::prelude::*;
use vstd::slice::slice_subrange;

use crate::protocol::{emission, next_state, spec_byte_type, ByteType, DecodeState};

verus! {

/// The concrete decode state. `ExpectSysExData(n)` records the index of the
/// last buffer slot written, so the bytes accumulated so far are
/// `message_buffer[0..=n]`; every other in-progress message is carried in
/// the variant itself, never in the buffer.
#[derive(Clone, Copy)]
enum MidiState {
    ExpectAnyByte,
    ExpectOneDataByte(u8),
    ExpectFirstDataByte(u8),
    ExpectSecondDataByte(u8, u8),
    ExpectOneRunningByte(u8),
    ExpectTwoRunningBytes(u8),
    ExpectSysExData(usize),
}

/// An incremental MIDI stream parser. Owns a fixed-capacity output buffer
/// (at least 3 bytes, the largest non-system-exclusive message) and the
/// current decode state; [`StreamParser::push`] advances the state one byte
/// at a time and hands back each message the moment it completes.
pub struct StreamParser {
    message_buffer: Vec<u8>,
    state: MidiState,
}

/// The abstract value of a [`StreamParser`]: its decode state and the
/// capacity of its output buffer.
pub struct ParserView {
    pub state: DecodeState,
    pub capacity: nat,
}

impl View for StreamParser {
    type V = ParserView;

    closed spec fn view(&self) -> ParserView {
        ParserView {
            state: match self.state {
                MidiState::ExpectAnyByte => DecodeState::Idle,
                MidiState::ExpectOneDataByte(st) => DecodeState::AwaitingOneDataByte {
                    status: st,
                },
                MidiState::ExpectFirstDataByte(st) => DecodeState::AwaitingFirstOfTwoDataBytes {
                    status: st,
                },
                MidiState::ExpectSecondDataByte(st, b1) => DecodeState::AwaitingSecondOfTwoDataBytes {
                    status: st,
                    first: b1,
                },
                MidiState::ExpectOneRunningByte(st) => DecodeState::RunningOneDataByte {
                    status: st,
                },
                MidiState::ExpectTwoRunningBytes(st) => DecodeState::RunningTwoDataBytes {
                    status: st,
                },
                MidiState::ExpectSysExData(n) => DecodeState::InSysEx {
                    acc: self.message_buffer@.subrange(0, n as int + 1),
                },
            },
            capacity: self.message_buffer@.len(),
        }
    }
}

/// Holds when pushing `byte` in state `s` stays inside a buffer of the given
/// capacity. Only a system-exclusive accumulation writes past the first
/// three slots: the next data, stop or interleaved pass-through byte lands
/// one past the bytes accumulated so far, so a slot must be free for it.
/// Sizing the buffer to the longest expected system-exclusive message is the
/// caller's obligation; the parser does not defend against overflow itself.
pub open spec fn room_for(s: DecodeState, byte: u8, capacity: nat) -> bool {
    match s {
        DecodeState::InSysEx { acc } => (spec_byte_type(byte) is DataByte || spec_byte_type(
            byte,
        ) is SysExStopByte || spec_byte_type(byte) is PassThroughByte) ==> acc.len() < capacity,
        _ => true,
    }
}

impl StreamParser {
    /// The concrete counterpart of well-formedness: the index of the last
    /// buffer slot a system-exclusive accumulation wrote lies inside the
    /// buffer.
    pub closed spec fn inv(&self) -> bool {
        self.state matches MidiState::ExpectSysExData(n) ==> n as int + 1
            <= self.message_buffer@.len()
    }

    /// Well-formedness: the buffer holds at least one whole channel message,
    /// and a system-exclusive accumulation fits in the buffer.
    pub open spec fn wf(&self) -> bool {
        &&& self.inv()
        &&& self@.capacity >= 3
        &&& (self@.state matches DecodeState::InSysEx { acc } ==> 1 <= acc.len()
            <= self@.capacity)
    }

    /// Builds a parser around `message_buffer`, which must hold at least 3
    /// bytes; for system-exclusive messages its length bounds the largest
    /// decodable message.
    pub fn new(message_buffer: Vec<u8>) -> (r: StreamParser)
        requires
            message_buffer@.len() >= 3,
        ensures
            r.wf(),
            r@.state == DecodeState::Idle,
            r@.capacity == message_buffer@.len(),
    {
        StreamParser { message_buffer, state: MidiState::ExpectAnyByte }
    }

    /// Builds a parser around `message_buffer`, or returns `None` when the
    /// buffer is too short: construction succeeds exactly when the buffer
    /// holds at least 3 bytes.
    pub fn try_new(message_buffer: Vec<u8>) -> (r: Option<StreamParser>)
        ensures
            message_buffer@.len() >= 3 ==> (r matches Some(p) && p.wf() && p@.state
                == DecodeState::Idle && p@.capacity == message_buffer@.len()),
            message_buffer@.len() < 3 ==> r is None,
    {
        if message_buffer.len() < 3 {
            None
        } else {
            Some(Self::new(message_buffer))
        }
    }

    /// Classifies one raw byte into its role.
    fn get_byte_type(byte: u8) -> (r: ByteType)
        ensures
            r == spec_byte_type(byte),
    {
        if byte < 0x80 {
            ByteType::DataByte(byte)
        } else if 0xc0 <= byte && byte <= 0xdf {
            ByteType::StatusByteOne(byte)
        } else if byte < 0xf0 {
            ByteType::StatusByteTwo(byte)
        } else if byte == 0xf0 {
            ByteType::SysExStartByte(byte)
        } else if byte == 0xf1 || byte == 0xf3 {
            ByteType::StatusByteOne(byte)
        } else if byte == 0xf2 {
            ByteType::StatusByteTwo(byte)
        } else if byte == 0xf7 {
            ByteType::SysExStopByte(byte)
        } else if byte == 0xf4 || byte == 0xf5 {
            ByteType::UndefinedByte
        } else {
            ByteType::PassThroughByte(byte)
        }
    }

    /// Pushes one byte. Returns `None` while no message is complete, or a
    /// read-only view of the bytes composing exactly one complete message,
    /// taken from the output buffer and valid until the next push. The new
    /// decode state and the emitted message are exactly those of the
    /// protocol's transition table.
    pub fn push(&mut self, byte: u8) -> (r: Option<&[u8]>)
        requires
            old(self).wf(),
            room_for(old(self)@.state, byte, old(self)@.capacity),
        ensures
            final(self).wf(),
            final(self)@.capacity == old(self)@.capacity,
            final(self)@.state == next_state(old(self)@.state, byte),
            (match r {
                Some(m) => emission(old(self)@.state, byte) == Some(m@),
                None => emission(old(self)@.state, byte) is None,
            }),
    {
        let byte_type = Self::get_byte_type(byte);
        match (self.state, byte_type) {
            (MidiState::ExpectFirstDataByte(s), ByteType::DataByte(b)) => {
                self.state = MidiState::ExpectSecondDataByte(s, b);
                None
            },
            (MidiState::ExpectSecondDataByte(s, b1), ByteType::DataByte(b2)) => {
                self.message_buffer[0] = s;
                self.message_buffer[1] = b1;
                self.message_buffer[2] = b2;
                self.state = MidiState::ExpectTwoRunningBytes(s);
                proof {
                    assert(self.message_buffer@.subrange(0, 3) =~= seq![s, b1, b2]);
                }
                Some(slice_subrange(self.message_buffer.as_slice(), 0, 3))
            },
            (MidiState::ExpectOneDataByte(s), ByteType::DataByte(b)) => {
                self.message_buffer[0] = s;
                self.message_buffer[1] = b;
                self.state = MidiState::ExpectOneRunningByte(s);
                proof {
                    assert(self.message_buffer@.subrange(0, 2) =~= seq![s, b]);
                }
                Some(slice_subrange(self.message_buffer.as_slice(), 0, 2))
            },
            (MidiState::ExpectOneRunningByte(s), ByteType::DataByte(b)) => {
                self.message_buffer[0] = s;
                self.message_buffer[1] = b;
                proof {
                    assert(self.message_buffer@.subrange(0, 2) =~= seq![s, b]);
                }
                Some(slice_subrange(self.message_buffer.as_slice(), 0, 2))
            },
            (MidiState::ExpectTwoRunningBytes(s), ByteType::DataByte(b)) => {
                self.state = MidiState::ExpectSecondDataByte(s, b);
                None
            },
            (MidiState::ExpectSysExData(n), ByteType::DataByte(b)) => {
                // Reading the executable length bounds the accumulation by
                // usize, so the verifier sees that n + 1 cannot overflow.
                let _len: usize = self.message_buffer.len();
                let n1: usize = n + 1;
                self.message_buffer[n1] = b;
                self.state = MidiState::ExpectSysExData(n1);
                proof {
                    assert(self.message_buffer@.subrange(0, n1 as int + 1) =~= old(
                        self,
                    ).message_buffer@.subrange(0, n as int + 1).push(b));
                }
                None
            },
            (MidiState::ExpectSysExData(n), ByteType::SysExStopByte(b)) => {
                // As above: the executable length shows n + 1 fits in usize.
                let _len: usize = self.message_buffer.len();
                let n1: usize = n + 1;
                self.message_buffer[n1] = b;
                self.state = MidiState::ExpectAnyByte;
                proof {
                    assert(self.message_buffer@.subrange(0, n1 as int + 1) =~= old(
                        self,
                    ).message_buffer@.subrange(0, n as int + 1).push(b));
                }
                Some(slice_subrange(self.message_buffer.as_slice(), 0, n1 + 1))
            },
            (_, ByteType::StatusByteOne(s)) => {
                self.state = MidiState::ExpectOneDataByte(s);
                None
            },
            (_, ByteType::StatusByteTwo(s)) => {
                self.state = MidiState::ExpectFirstDataByte(s);
                None
            },
            (_, ByteType::SysExStartByte(s)) => {
                self.message_buffer[0] = s;
                self.state = MidiState::ExpectSysExData(0);
                proof {
                    assert(self.message_buffer@.subrange(0, 1) =~= seq![s]);
                }
                None
            },
            (MidiState::ExpectSysExData(n), ByteType::PassThroughByte(b)) => {
                // A real-time byte must not disturb the accumulated
                // system-exclusive prefix in the buffer, so it is staged in
                // the first free slot instead of slot 0. As above, the
                // executable length shows n + 1 fits in usize.
                let _len: usize = self.message_buffer.len();
                let n1: usize = n + 1;
                self.message_buffer[n1] = b;
                proof {
                    assert(self.message_buffer@.subrange(0, n as int + 1) =~= old(
                        self,
                    ).message_buffer@.subrange(0, n as int + 1));
                    assert(self.message_buffer@.subrange(n1 as int, n1 as int + 1) =~= seq![b]);
                }
                Some(slice_subrange(self.message_buffer.as_slice(), n1, n1 + 1))
            },
            (_, ByteType::PassThroughByte(b)) => {
                self.message_buffer[0] = b;
                proof {
                    assert(self.message_buffer@.subrange(0, 1) =~= seq![b]);
                }
                Some(slice_subrange(self.message_buffer.as_slice(), 0, 1))
            },
            (_, ByteType::UndefinedByte) => None,
            _ => {
                self.state = MidiState::ExpectAnyByte;
                None
            },
        }
    }
}

} // verus!

//! The MIDI transport protocol itself: how a raw byte is classified, and how
//! the decode state advances and emits messages, one pushed byte at a time.
//!
//! [`next_state`] and [`emission`] together form the transition table that
//! [`crate::stream_parser::StreamParser::push`] is proved to implement. The
//! proof functions at the end of this module state the protocol-level laws
//! that follow from that table.

use vstd::prelude::*;

verus! {

/// The semantic role of one raw input byte. Every byte value has exactly one
/// role; `Undefined` is itself a role (the two reserved status bytes), not an
/// error. Variants carry the raw byte so the parser can store it without
/// re-reading input.
#[derive(Clone, Copy)]
pub enum ByteType {
    /// A status byte expecting exactly one following data byte.
    StatusByteOne(u8),
    /// A status byte expecting exactly two following data bytes.
    StatusByteTwo(u8),
    /// A plain data byte (high bit clear).
    DataByte(u8),
    /// A single-byte system real-time/common message, emitted immediately.
    PassThroughByte(u8),
    /// Start of a system-exclusive message (0xF0).
    SysExStartByte(u8),
    /// End of a system-exclusive message (0xF7).
    SysExStopByte(u8),
    /// A reserved, unassigned status byte (0xF4 or 0xF5).
    UndefinedByte,
}

/// Classifies one raw byte into its role.
///
/// Bit 7 distinguishes status bytes (0x80..=0xFF) from data bytes
/// (0x00..=0x7F); for channel messages the high nibble picks the length, and
/// the 0xF0..=0xFF system range is classified byte by byte.
pub open spec fn spec_byte_type(byte: u8) -> ByteType {
    if byte < 0x80 {
        ByteType::DataByte(byte)
    } else if 0xc0 <= byte && byte <= 0xdf {
        // Program Change, Channel Pressure
        ByteType::StatusByteOne(byte)
    } else if byte < 0xf0 {
        // Note Off/On, Poly Pressure, Control Change (0x80..=0xbf),
        // Pitch Bend (0xe0..=0xef)
        ByteType::StatusByteTwo(byte)
    } else if byte == 0xf0 {
        ByteType::SysExStartByte(byte)
    } else if byte == 0xf1 || byte == 0xf3 {
        // MIDI Time Code, Song Select
        ByteType::StatusByteOne(byte)
    } else if byte == 0xf2 {
        // Song Position Pointer
        ByteType::StatusByteTwo(byte)
    } else if byte == 0xf7 {
        ByteType::SysExStopByte(byte)
    } else if byte == 0xf4 || byte == 0xf5 {
        ByteType::UndefinedByte
    } else {
        // 0xf6 (Tune Request) and 0xf8..=0xff (system real-time)
        ByteType::PassThroughByte(byte)
    }
}

/// The decode state of the stream parser, carrying exactly the bytes already
/// accumulated for the in-progress message.
#[verifier::ext_equal]
pub enum DecodeState {
    /// No bytes accumulated; the initial state.
    Idle,
    /// A status requiring one data byte has been seen.
    AwaitingOneDataByte { status: u8 },
    /// A status requiring two data bytes has been seen; none received yet.
    AwaitingFirstOfTwoDataBytes { status: u8 },
    /// The first of two data bytes has been received.
    AwaitingSecondOfTwoDataBytes { status: u8, first: u8 },
    /// A complete one-data-byte message was just emitted; its status still
    /// applies to following data bytes (running status).
    RunningOneDataByte { status: u8 },
    /// A complete two-data-byte message was just emitted; its status still
    /// applies to following data byte pairs (running status).
    RunningTwoDataBytes { status: u8 },
    /// Inside a system-exclusive message; `acc` is every byte accumulated so
    /// far, the 0xF0 start byte included.
    InSysEx { acc: Seq<u8> },
}

/// The state after pushing `byte` in state `s`. Total: every pair yields a
/// state. A status byte restates the context whatever was in progress;
/// pass-through and undefined bytes leave the state untouched; a data byte
/// with no status context (and a stray stop byte) resets to `Idle`.
pub open spec fn next_state(s: DecodeState, byte: u8) -> DecodeState {
    match spec_byte_type(byte) {
        ByteType::StatusByteOne(st) => DecodeState::AwaitingOneDataByte { status: st },
        ByteType::StatusByteTwo(st) => DecodeState::AwaitingFirstOfTwoDataBytes { status: st },
        ByteType::SysExStartByte(st) => DecodeState::InSysEx { acc: seq![st] },
        ByteType::PassThroughByte(_) => s,
        ByteType::UndefinedByte => s,
        ByteType::SysExStopByte(_) => DecodeState::Idle,
        ByteType::DataByte(b) => match s {
            DecodeState::AwaitingOneDataByte { status } => DecodeState::RunningOneDataByte {
                status,
            },
            DecodeState::AwaitingFirstOfTwoDataBytes { status } => DecodeState::AwaitingSecondOfTwoDataBytes {
                status,
                first: b,
            },
            DecodeState::AwaitingSecondOfTwoDataBytes { status, first } => DecodeState::RunningTwoDataBytes {
                status,
            },
            DecodeState::RunningOneDataByte { status } => DecodeState::RunningOneDataByte {
                status,
            },
            DecodeState::RunningTwoDataBytes { status } => DecodeState::AwaitingSecondOfTwoDataBytes {
                status,
                first: b,
            },
            DecodeState::InSysEx { acc } => DecodeState::InSysEx { acc: acc.push(b) },
            DecodeState::Idle => DecodeState::Idle,
        },
    }
}

/// The message, if any, completed by pushing `byte` in state `s`: `None`
/// while a message is still accumulating, or the full byte sequence of
/// exactly one message.
pub open spec fn emission(s: DecodeState, byte: u8) -> Option<Seq<u8>> {
    match spec_byte_type(byte) {
        ByteType::PassThroughByte(b) => Some(seq![b]),
        ByteType::SysExStopByte(b) => match s {
            DecodeState::InSysEx { acc } => Some(acc.push(b)),
            _ => None,
        },
        ByteType::DataByte(b) => match s {
            DecodeState::AwaitingOneDataByte { status } => Some(seq![status, b]),
            DecodeState::AwaitingSecondOfTwoDataBytes { status, first } => Some(
                seq![status, first, b],
            ),
            DecodeState::RunningOneDataByte { status } => Some(seq![status, b]),
            _ => None,
        },
        _ => None,
    }
}

/// The state after pushing every byte of `bytes` in order, starting from `s`.
pub open spec fn run(s: DecodeState, bytes: Seq<u8>) -> DecodeState
    decreases bytes.len(),
{
    if bytes.len() == 0 {
        s
    } else {
        run(next_state(s, bytes[0]), bytes.drop_first())
    }
}

/// Holds when pushing every byte of `bytes` in order, starting from `s`,
/// completes no message.
pub open spec fn silent(s: DecodeState, bytes: Seq<u8>) -> bool
    decreases bytes.len(),
{
    bytes.len() == 0 || (emission(s, bytes[0]) is None && silent(
        next_state(s, bytes[0]),
        bytes.drop_first(),
    ))
}

/// Law: a two-data-byte status (a channel message with high nibble 0x8,
/// 0x9, 0xA, 0xB or 0xE, or Song Position Pointer 0xF2) followed by two
/// data bytes completes nothing until the second data byte, which emits
/// exactly `[status, d1, d2]` and leaves the status running — whatever was
/// in progress before the status byte.
pub proof fn lemma_two_data_byte_message(s: DecodeState, status: u8, d1: u8, d2: u8)
    requires
        spec_byte_type(status) is StatusByteTwo,
        d1 < 0x80,
        d2 < 0x80,
    ensures
        emission(s, status) is None,
        emission(next_state(s, status), d1) is None,
        emission(next_state(next_state(s, status), d1), d2) == Some(seq![status, d1, d2]),
        next_state(next_state(next_state(s, status), d1), d2) == (DecodeState::RunningTwoDataBytes {
            status,
        }),
{
}

/// Law: a one-data-byte status (a channel message with high nibble 0xC or
/// 0xD, or 0xF1/0xF3) followed by one data byte completes nothing until the
/// data byte, which emits exactly `[status, d]` and leaves the status
/// running — whatever was in progress before the status byte.
pub proof fn lemma_one_data_byte_message(s: DecodeState, status: u8, d: u8)
    requires
        spec_byte_type(status) is StatusByteOne,
        d < 0x80,
    ensures
        emission(s, status) is None,
        emission(next_state(s, status), d) == Some(seq![status, d]),
        next_state(next_state(s, status), d) == (DecodeState::RunningOneDataByte { status }),
{
}

/// Law (running status): after a complete two-data-byte message, two more
/// data bytes without a new status byte emit `[status, d1, d2]` under the
/// same status, and the status keeps running.
pub proof fn lemma_running_status_two_data_bytes(status: u8, d1: u8, d2: u8)
    requires
        d1 < 0x80,
        d2 < 0x80,
    ensures
        emission(DecodeState::RunningTwoDataBytes { status }, d1) is None,
        emission(next_state(DecodeState::RunningTwoDataBytes { status }, d1), d2) == Some(
            seq![status, d1, d2],
        ),
        next_state(next_state(DecodeState::RunningTwoDataBytes { status }, d1), d2)
            == (DecodeState::RunningTwoDataBytes { status }),
{
}

/// Law (running status): after a complete one-data-byte message, one more
/// data byte without a new status byte emits `[status, d]` at once, and the
/// status keeps running.
pub proof fn lemma_running_status_one_data_byte(status: u8, d: u8)
    requires
        d < 0x80,
    ensures
        emission(DecodeState::RunningOneDataByte { status }, d) == Some(seq![status, d]),
        next_state(DecodeState::RunningOneDataByte { status }, d) == (
        DecodeState::RunningOneDataByte { status }),
{
}

/// Law: a pass-through byte (0xF6, or 0xF8..=0xFF) emits itself as a
/// single-byte message at once, in every state, and leaves the surrounding
/// accumulation state untouched.
pub proof fn lemma_pass_through(s: DecodeState, byte: u8)
    requires
        byte == 0xf6 || byte >= 0xf8,
    ensures
        emission(s, byte) == Some(seq![byte]),
        next_state(s, byte) == s,
{
}

/// Law: an undefined byte (0xF4 or 0xF5) emits nothing, in every state, and
/// leaves the prior accumulation state untouched.
pub proof fn lemma_undefined(s: DecodeState, byte: u8)
    requires
        byte == 0xf4 || byte == 0xf5,
    ensures
        emission(s, byte) is None,
        next_state(s, byte) == s,
{
}

/// Law: a bare data byte with no preceding status emits nothing and leaves
/// the parser idle, able to decode the next well-formed message.
pub proof fn lemma_bare_data_byte(d: u8)
    requires
        d < 0x80,
    ensures
        emission(DecodeState::Idle, d) is None,
        next_state(DecodeState::Idle, d) == DecodeState::Idle,
{
}

/// From inside a system-exclusive message with `acc` accumulated, a run of
/// data bytes emits nothing and appends them all to the accumulation.
proof fn lemma_sysex_accumulates(acc: Seq<u8>, data: Seq<u8>)
    requires
        forall|i: int| 0 <= i < data.len() ==> data[i] < 0x80,
    ensures
        silent(DecodeState::InSysEx { acc }, data),
        run(DecodeState::InSysEx { acc }, data) == (DecodeState::InSysEx { acc: acc + data }),
    decreases data.len(),
{
    if data.len() == 0 {
        assert(acc + data =~= acc);
    } else {
        let b = data[0];
        lemma_sysex_accumulates(acc.push(b), data.drop_first());
        assert(acc.push(b) + data.drop_first() =~= acc + data);
    }
}

/// Law (system-exclusive): pushing `[0xF0, data..., 0xF7]`, with any run of
/// data bytes in between, emits nothing until the stop byte, which emits the
/// full bracketed sequence and leaves the parser idle.
pub proof fn lemma_system_exclusive(s: DecodeState, data: Seq<u8>)
    requires
        forall|i: int| 0 <= i < data.len() ==> data[i] < 0x80,
    ensures
        silent(s, seq![0xf0u8] + data),
        run(s, seq![0xf0u8] + data) == (DecodeState::InSysEx { acc: seq![0xf0u8] + data }),
        emission(run(s, seq![0xf0u8] + data), 0xf7) == Some(
            seq![0xf0u8] + data + seq![0xf7u8],
        ),
        next_state(run(s, seq![0xf0u8] + data), 0xf7) == DecodeState::Idle,
{
    let stream = seq![0xf0u8] + data;
    assert(stream[0] == 0xf0u8);
    assert(stream.drop_first() =~= data);
    lemma_sysex_accumulates(seq![0xf0u8], data);
    assert((seq![0xf0u8] + data).push(0xf7u8) =~= seq![0xf0u8] + data + seq![0xf7u8]);
}

} // verus!

use midi_stream::stream_parser::StreamParser;

fn parser_with_capacity(capacity: usize) -> StreamParser {
    let message_buffer: Vec<u8> = vec![0; capacity];
    StreamParser::new(message_buffer)
}

#[test]
fn construction_needs_three_bytes() {
    assert!(StreamParser::try_new(vec![]).is_none());
    assert!(StreamParser::try_new(vec![0; 1]).is_none());
    assert!(StreamParser::try_new(vec![0; 2]).is_none());
    assert!(StreamParser::try_new(vec![0; 3]).is_some());
    assert!(StreamParser::try_new(vec![0; 64]).is_some());
}

#[test]
fn parser_from_try_new_parses() {
    let mut midi = StreamParser::try_new(vec![0; 3]).unwrap();
    assert_eq!(None, midi.push(0x80));
    assert_eq!(None, midi.push(60));
    assert_eq!(midi.push(100).unwrap(), &[0x80, 60, 100]);
}

#[test]
fn every_two_data_byte_status_nibble() {
    // One status from each two-data-byte class: Note Off, Note On,
    // Poly Pressure, Control Change, Pitch Bend, Song Position Pointer.
    for status in [0x85u8, 0x90, 0xa1, 0xb7, 0xe0, 0xf2] {
        let mut midi = parser_with_capacity(3);
        assert_eq!(None, midi.push(status));
        assert_eq!(None, midi.push(12));
        assert_eq!(midi.push(34).unwrap(), &[status, 12, 34]);
    }
}

#[test]
fn every_one_data_byte_status_class() {
    // Program Change, Channel Pressure, MIDI Time Code, Song Select.
    for status in [0xc3u8, 0xd7, 0xf1, 0xf3] {
        let mut midi = parser_with_capacity(3);
        assert_eq!(None, midi.push(status));
        assert_eq!(midi.push(10).unwrap(), &[status, 10]);
    }
}

#[test]
fn every_pass_through_byte_is_immediate() {
    for byte in [0xf6u8, 0xf8, 0xf9, 0xfa, 0xfb, 0xfc, 0xfd, 0xfe, 0xff] {
        let mut midi = parser_with_capacity(3);
        assert_eq!(midi.push(byte).unwrap(), &[byte]);
    }
}

#[test]
fn undefined_bytes_do_not_disturb_accumulation() {
    let mut midi = parser_with_capacity(3);
    assert_eq!(None, midi.push(0x90));
    assert_eq!(None, midi.push(0xf4));
    assert_eq!(None, midi.push(66));
    assert_eq!(None, midi.push(0xf5));
    assert_eq!(midi.push(44).unwrap(), &[0x90, 66, 44]);
}

#[test]
fn bare_data_byte_then_resynchronize() {
    let mut midi = parser_with_capacity(3);
    assert_eq!(None, midi.push(42));
    assert_eq!(None, midi.push(0x90));
    assert_eq!(None, midi.push(66));
    assert_eq!(midi.push(44).unwrap(), &[0x90, 66, 44]);
}

#[test]
fn sysex_with_empty_payload() {
    let mut midi = parser_with_capacity(3);
    assert_eq!(None, midi.push(0xf0));
    assert_eq!(midi.push(0xf7).unwrap(), &[0xf0, 0xf7]);
}

#[test]
fn pass_through_does_not_disturb_sysex() {
    let mut midi = parser_with_capacity(8);
    assert_eq!(None, midi.push(0xf0));
    assert_eq!(None, midi.push(1));
    assert_eq!(None, midi.push(2));
    assert_eq!(midi.push(0xf8).unwrap(), &[0xf8]);
    assert_eq!(None, midi.push(3));
    assert_eq!(midi.push(0xf7).unwrap(), &[0xf0, 1, 2, 3, 0xf7]);
}

#[test]
fn status_byte_abandons_partial_sysex() {
    let mut midi = parser_with_capacity(5);
    assert_eq!(None, midi.push(0xf0));
    assert_eq!(None, midi.push(55));
    assert_eq!(None, midi.push(0x90));
    assert_eq!(None, midi.push(66));
    assert_eq!(midi.push(44).unwrap(), &[0x90, 66, 44]);
}

#[test]
fn stray_sysex_stop_emits_nothing() {
    let mut midi = parser_with_capacity(3);
    assert_eq!(None, midi.push(0xf7));
    assert_eq!(None, midi.push(0xc1));
    assert_eq!(midi.push(7).unwrap(), &[0xc1, 7]);
}

#[test]
fn new_status_replaces_pending_status() {
    let mut midi = parser_with_capacity(3);
    assert_eq!(None, midi.push(0x90));
    assert_eq!(None, midi.push(0xc2));
    assert_eq!(midi.push(9).unwrap(), &[0xc2, 9]);
}

#[test]
fn running_status_repeats_many_times() {
    let mut midi = parser_with_capacity(3);
    assert_eq!(None, midi.push(0xd4));
    assert_eq!(midi.push(1).unwrap(), &[0xd4, 1]);
    assert_eq!(midi.push(2).unwrap(), &[0xd4, 2]);
    assert_eq!(midi.push(3).unwrap(), &[0xd4, 3]);
}

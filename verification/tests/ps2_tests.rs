use neotron_bmc::ps2::Ps2Decoder;

/// Builds the 11 wire bits of one PS/2 frame for `byte`: start bit 0, the
/// eight data bits least-significant first, odd parity, stop bit 1.
fn frame_bits(byte: u8) -> [bool; 11] {
    let mut bits = [false; 11];
    for i in 0..8 {
        bits[1 + i] = (byte >> i) & 1 == 1;
    }
    bits[9] = byte.count_ones() % 2 == 0;
    bits[10] = true;
    bits
}

fn feed(decoder: &mut Ps2Decoder, bits: &[bool]) -> Option<u16> {
    let mut word = None;
    for &b in bits {
        if let Some(w) = decoder.add_bit(b) {
            word = Some(w);
        }
    }
    word
}

#[test]
fn valid_frame_reconstructs_byte() {
    let mut decoder = Ps2Decoder::new();
    let word = feed(&mut decoder, &frame_bits(0x2A)).expect("11 bits make a word");
    assert_eq!(Ps2Decoder::check_word(word), Some(0x2A));
}

#[test]
fn every_byte_round_trips() {
    for byte in 0..=255u8 {
        let mut decoder = Ps2Decoder::new();
        let word = feed(&mut decoder, &frame_bits(byte)).unwrap();
        assert_eq!(Ps2Decoder::check_word(word), Some(byte));
    }
}

#[test]
fn word_is_emitted_only_on_the_eleventh_bit() {
    let mut decoder = Ps2Decoder::new();
    let bits = frame_bits(0x77);
    for &b in &bits[..10] {
        assert_eq!(decoder.add_bit(b), None);
    }
    assert!(decoder.add_bit(bits[10]).is_some());
}

#[test]
fn corrupted_parity_is_rejected() {
    let mut bits = frame_bits(0x2A);
    bits[9] = !bits[9];
    let mut decoder = Ps2Decoder::new();
    let word = feed(&mut decoder, &bits).unwrap();
    assert_eq!(Ps2Decoder::check_word(word), None);
}

#[test]
fn bad_start_bit_is_rejected() {
    let mut bits = frame_bits(0x00);
    bits[0] = true;
    let mut decoder = Ps2Decoder::new();
    let word = feed(&mut decoder, &bits).unwrap();
    assert_eq!(Ps2Decoder::check_word(word), None);
}

#[test]
fn bad_stop_bit_is_rejected() {
    let mut bits = frame_bits(0x00);
    bits[10] = false;
    let mut decoder = Ps2Decoder::new();
    let word = feed(&mut decoder, &bits).unwrap();
    assert_eq!(Ps2Decoder::check_word(word), None);
}

#[test]
fn decoder_resets_between_frames() {
    let mut decoder = Ps2Decoder::new();
    let w1 = feed(&mut decoder, &frame_bits(0x12)).unwrap();
    let w2 = feed(&mut decoder, &frame_bits(0xF0)).unwrap();
    assert_eq!(Ps2Decoder::check_word(w1), Some(0x12));
    assert_eq!(Ps2Decoder::check_word(w2), Some(0xF0));
}

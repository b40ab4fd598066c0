use nsf_player::nsf_header::{parse_nsf, trim_trailing_nuls, ParseError};

fn sample_header() -> Vec<u8> {
    let mut b: Vec<u8> = vec![0u8; 128];
    b[0..5].copy_from_slice(b"NESM\x1a");
    b[0x05] = 1;
    b[0x06] = 3;
    b[0x07] = 2;
    b[0x08] = 0x00;
    b[0x09] = 0x80;
    b[0x0A] = 0x34;
    b[0x0B] = 0x92;
    b[0x0C] = 0xCD;
    b[0x0D] = 0xAB;
    b[0x0E..0x0E + 4].copy_from_slice(b"Song");
    b[0x2E..0x2E + 6].copy_from_slice(b"Artist");
    b[0x4E..0x4E + 32].copy_from_slice(b"Copyright holder with 32 chars!!");
    b[0x6E] = 0x1A;
    b[0x6F] = 0x41;
    for i in 0..8 {
        b[0x70 + i] = (i as u8) * 3 + 1;
    }
    b[0x78] = 0x20;
    b[0x79] = 0x4E;
    b[0x7A] = 0x02;
    b[0x7B] = 0x05;
    b[0x7C] = 0x77;
    b[0x7D] = 0x56;
    b[0x7E] = 0x34;
    b[0x7F] = 0x12;
    b
}

#[test]
fn parse_reads_every_field_at_its_offset() {
    let b = sample_header();
    let h = parse_nsf(&b).unwrap();
    assert_eq!(h.version_num, 1);
    assert_eq!(h.total_songs, 3);
    assert_eq!(h.starting_song, 2);
    assert_eq!(h.load_address, 0x8000);
    assert_eq!(h.init_address, 0x9234);
    assert_eq!(h.play_address, 0xABCD);
    assert_eq!(h.song_name, b"Song".to_vec());
    assert_eq!(h.artist_name, b"Artist".to_vec());
    assert_eq!(h.copyright_holder, b"Copyright holder with 32 chars!!".to_vec());
    assert_eq!(h.play_speed_ntsc, 0x411A);
    assert_eq!(h.bankswitch_init, [1, 4, 7, 10, 13, 16, 19, 22]);
    assert_eq!(h.play_speed_pal, 0x4E20);
    assert_eq!(h.pal_ntsc_bits, 2);
    assert_eq!(h.sound_chip_support, 5);
    assert_eq!(h.nsf2_reserved, 0x77);
    assert_eq!(h.data_length, 0x123456);
}

#[test]
fn parse_ignores_bytes_after_the_header() {
    let mut b = sample_header();
    b.extend_from_slice(&[0xA9, 0x00, 0x60]);
    let h = parse_nsf(&b).unwrap();
    assert_eq!(h.play_address, 0xABCD);
}

#[test]
fn parse_rejects_wrong_signature() {
    let mut b = sample_header();
    b[0] = b'X';
    assert_eq!(parse_nsf(&b).unwrap_err(), ParseError::BadMagic);
    let mut c = sample_header();
    c[4] = 0x1B;
    assert_eq!(parse_nsf(&c).unwrap_err(), ParseError::BadMagic);
}

#[test]
fn parse_rejects_64_byte_buffer_as_truncated() {
    let b = sample_header();
    assert_eq!(parse_nsf(&b[..64]).unwrap_err(), ParseError::Truncated);
    assert_eq!(parse_nsf(&b[..127]).unwrap_err(), ParseError::Truncated);
}

#[test]
fn parse_short_buffers() {
    assert_eq!(parse_nsf(&[]).unwrap_err(), ParseError::Truncated);
    assert_eq!(parse_nsf(b"NE").unwrap_err(), ParseError::Truncated);
    assert_eq!(parse_nsf(b"NX").unwrap_err(), ParseError::BadMagic);
}

#[test]
fn song_name_padding_is_trimmed() {
    let mut b = sample_header();
    let mut field = [0u8; 32];
    field[..4].copy_from_slice(b"Test");
    b[0x0E..0x0E + 32].copy_from_slice(&field);
    let h = parse_nsf(&b).unwrap();
    assert_eq!(h.song_name, b"Test".to_vec());
    assert_eq!(h.song_name.len(), 4);
}

#[test]
fn empty_text_field_gives_empty_name() {
    let mut b = sample_header();
    for i in 0..32 {
        b[0x2E + i] = 0;
    }
    let h = parse_nsf(&b).unwrap();
    assert!(h.artist_name.is_empty());
}

#[test]
fn embedded_nul_is_malformed_text() {
    let mut b = sample_header();
    b[0x0E..0x0E + 5].copy_from_slice(b"Ab\0cd");
    assert_eq!(parse_nsf(&b).unwrap_err(), ParseError::MalformedText);
}

#[test]
fn trim_keeps_bytes_before_the_trailing_run() {
    assert_eq!(trim_trailing_nuls(b"ab\0c\0\0"), b"ab\0c");
    assert_eq!(trim_trailing_nuls(b"abc"), b"abc");
    assert_eq!(trim_trailing_nuls(&[0, 0, 0]), b"");
    assert_eq!(trim_trailing_nuls(&[]), b"");
}

use nsf_player::wav::wav_bytes;

fn u32_at(b: &[u8], off: usize) -> u32 {
    u32::from_le_bytes([b[off], b[off + 1], b[off + 2], b[off + 3]])
}

fn u16_at(b: &[u8], off: usize) -> u16 {
    u16::from_le_bytes([b[off], b[off + 1]])
}

#[test]
fn one_second_tone_file_size() {
    let rate = 44_100u32;
    let samples: Vec<i16> = (0..rate)
        .map(|i| {
            let t = i as f64 / rate as f64;
            ((2.0 * std::f64::consts::PI * 440.0 * t).sin() * 32767.0) as i16
        })
        .collect();
    let w = wav_bytes(&samples, rate);
    assert_eq!(u32_at(&w, 4), 4 + 8 + 16 + 8 + 88200);
    assert_eq!(&w[36..40], b"data");
    let data_len = u32_at(&w, 40) as usize;
    assert_eq!(data_len, 88200);
    assert_eq!(data_len / 2, 44100);
    assert_eq!(w.len(), 44 + 88200);
}

#[test]
fn wav_header_layout() {
    let w = wav_bytes(&[1, -1, 0x1234], 22_050);
    assert_eq!(&w[0..4], b"RIFF");
    assert_eq!(&w[8..12], b"WAVE");
    assert_eq!(&w[12..16], b"fmt ");
    assert_eq!(u32_at(&w, 16), 16);
    assert_eq!(u16_at(&w, 20), 1);
    assert_eq!(u16_at(&w, 22), 1);
    assert_eq!(u32_at(&w, 24), 22_050);
    assert_eq!(u32_at(&w, 28), 44_100);
    assert_eq!(u16_at(&w, 32), 2);
    assert_eq!(u16_at(&w, 34), 16);
    assert_eq!(u32_at(&w, 40), 6);
    assert_eq!(&w[44..], &[0x01, 0x00, 0xFF, 0xFF, 0x34, 0x12]);
}

#[test]
fn empty_wav_is_header_only() {
    let w = wav_bytes(&[], 44_100);
    assert_eq!(w.len(), 44);
    assert_eq!(u32_at(&w, 4), 36);
    assert_eq!(u32_at(&w, 40), 0);
}

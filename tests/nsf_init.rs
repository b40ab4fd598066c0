use nsf_player::nsf_header::parse_nsf;
use nsf_player::nsf_init::init_writes;

fn header_bytes(play_lo: u8, play_hi: u8) -> Vec<u8> {
    let mut b = vec![0u8; 128];
    b[0..5].copy_from_slice(b"NESM\x1a");
    b[0x0C] = play_lo;
    b[0x0D] = play_hi;
    for i in 0..8 {
        b[0x70 + i] = 0x10 + i as u8;
    }
    b
}

#[test]
fn init_writes_follow_the_setup_order() {
    let h = parse_nsf(&header_bytes(0x03, 0x80)).unwrap();
    let w = init_writes(&h, 0xFD);
    assert_eq!(w.len(), 0x800 + 0x2000 + 0x14 + 3 + 8 + 2);
    assert_eq!(w[0], (0x0000, 0));
    assert_eq!(w[0x7FF], (0x07FF, 0));
    assert_eq!(w[0x800], (0x6000, 0));
    assert_eq!(w[0x27FF], (0x7FFF, 0));
    assert_eq!(w[0x2800], (0x4000, 0));
    assert_eq!(w[0x2813], (0x4013, 0));
    assert_eq!(&w[0x2814..0x2817], &[(0x4015, 0x00), (0x4015, 0x0F), (0x4017, 0x40)]);
    let banks: Vec<(u16, u8)> = (0..8).map(|i| (0x5FF8 + i as u16, 0x10 + i as u8)).collect();
    assert_eq!(&w[0x2817..0x281F], &banks[..]);
    assert_eq!(&w[0x281F..], &[(0x01FE, 0x02), (0x01FF, 0x80)]);
}

#[test]
fn init_return_address_wraps_at_zero() {
    let h = parse_nsf(&header_bytes(0x00, 0x00)).unwrap();
    let w = init_writes(&h, 0x00);
    assert_eq!(&w[w.len() - 2..], &[(0x0101, 0xFF), (0x0102, 0xFF)]);
}

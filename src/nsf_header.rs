use vstd::prelude::*;
use vstd::slice::slice_subrange;
use vstd::slice::slice_to_vec;

verus! {

/// Size of the fixed header that precedes the program data of an NSF file.
pub const NSF_HEADER_LEN: usize = 128;

/// Width of each of the three text fields of the header.
pub const NSF_TEXT_LEN: usize = 32;

/// Offsets of the header fields.
pub const OFS_VERSION: usize = 0x05;
pub const OFS_TOTAL_SONGS: usize = 0x06;
pub const OFS_STARTING_SONG: usize = 0x07;
pub const OFS_LOAD_ADDRESS: usize = 0x08;
pub const OFS_INIT_ADDRESS: usize = 0x0A;
pub const OFS_PLAY_ADDRESS: usize = 0x0C;
pub const OFS_SONG_NAME: usize = 0x0E;
pub const OFS_ARTIST_NAME: usize = 0x2E;
pub const OFS_COPYRIGHT_HOLDER: usize = 0x4E;
pub const OFS_PLAY_SPEED_NTSC: usize = 0x6E;
pub const OFS_BANKSWITCH_INIT: usize = 0x70;
pub const OFS_PLAY_SPEED_PAL: usize = 0x78;
pub const OFS_PAL_NTSC_BITS: usize = 0x7A;
pub const OFS_SOUND_CHIP_SUPPORT: usize = 0x7B;
pub const OFS_NSF2_RESERVED: usize = 0x7C;
pub const OFS_DATA_LENGTH: usize = 0x7D;

/// The signature "NESM" followed by 0x1A.
pub open spec fn nsf_magic() -> Seq<u8> {
    seq![0x4Eu8, 0x45u8, 0x53u8, 0x4Du8, 0x1Au8]
}

/// The bytes that are present match the signature (a buffer shorter than the
/// signature matches when it is a prefix of it).
pub open spec fn has_magic(b: Seq<u8>) -> bool {
    forall|i: int| 0 <= i < 5 && i < b.len() ==> b[i] == #[trigger] nsf_magic()[i]
}

/// `s` without its trailing run of NUL bytes.
pub open spec fn trim_nuls(s: Seq<u8>) -> Seq<u8>
    decreases s.len(),
{
    if s.len() > 0 && s.last() == 0 {
        trim_nuls(s.drop_last())
    } else {
        s
    }
}

/// Little-endian 16-bit value at `off`.
pub open spec fn le16(b: Seq<u8>, off: int) -> int {
    b[off] + 256 * b[off + 1]
}

/// Little-endian 24-bit value at `off`.
pub open spec fn le24(b: Seq<u8>, off: int) -> int {
    b[off] + 256 * b[off + 1] + 65536 * b[off + 2]
}

/// The 32-byte text field at `off`, trailing NULs dropped.
pub open spec fn text_field(b: Seq<u8>, off: int) -> Seq<u8> {
    trim_nuls(b.subrange(off, off + 32))
}

/// A text field is well formed when no NUL is left inside its used part.
pub open spec fn text_ok(b: Seq<u8>, off: int) -> bool {
    !text_field(b, off).contains(0u8)
}

pub open spec fn texts_ok(b: Seq<u8>) -> bool {
    text_ok(b, OFS_SONG_NAME as int) && text_ok(b, OFS_ARTIST_NAME as int) && text_ok(
        b,
        OFS_COPYRIGHT_HOLDER as int,
    )
}

/// Why a buffer is not an NSF header.
#[derive(Debug, Clone, Copy, PartialEq, Eq, Structural)]
pub enum ParseError {
    /// The first five bytes are not "NESM\x1A".
    BadMagic,
    /// Fewer than 128 bytes.
    Truncated,
    /// A text field holds a NUL before its trailing padding.
    MalformedText,
}

/// The decoded 128-byte header of an NSF file. All multi-byte values are
/// little endian in the file; text fields have their NUL padding removed.
#[derive(Debug)]
pub struct NsfHeader {
    pub version_num: u8,
    pub total_songs: u8,
    pub starting_song: u8,
    pub load_address: u16,
    pub init_address: u16,
    pub play_address: u16,
    pub song_name: Vec<u8>,
    pub artist_name: Vec<u8>,
    pub copyright_holder: Vec<u8>,
    pub play_speed_ntsc: u16,
    pub bankswitch_init: [u8; 8],
    pub play_speed_pal: u16,
    pub pal_ntsc_bits: u8,
    pub sound_chip_support: u8,
    pub nsf2_reserved: u8,
    pub data_length: u32,
}

/// Every field of `h` is the value stored at its offset in `b`.
pub open spec fn header_matches(h: NsfHeader, b: Seq<u8>) -> bool {
    &&& h.version_num == b[OFS_VERSION as int]
    &&& h.total_songs == b[OFS_TOTAL_SONGS as int]
    &&& h.starting_song == b[OFS_STARTING_SONG as int]
    &&& h.load_address == le16(b, OFS_LOAD_ADDRESS as int)
    &&& h.init_address == le16(b, OFS_INIT_ADDRESS as int)
    &&& h.play_address == le16(b, OFS_PLAY_ADDRESS as int)
    &&& h.song_name@ == text_field(b, OFS_SONG_NAME as int)
    &&& h.artist_name@ == text_field(b, OFS_ARTIST_NAME as int)
    &&& h.copyright_holder@ == text_field(b, OFS_COPYRIGHT_HOLDER as int)
    &&& h.play_speed_ntsc == le16(b, OFS_PLAY_SPEED_NTSC as int)
    &&& h.bankswitch_init@ == b.subrange(OFS_BANKSWITCH_INIT as int, OFS_BANKSWITCH_INIT + 8)
    &&& h.play_speed_pal == le16(b, OFS_PLAY_SPEED_PAL as int)
    &&& h.pal_ntsc_bits == b[OFS_PAL_NTSC_BITS as int]
    &&& h.sound_chip_support == b[OFS_SOUND_CHIP_SUPPORT as int]
    &&& h.nsf2_reserved == b[OFS_NSF2_RESERVED as int]
    &&& h.data_length == le24(b, OFS_DATA_LENGTH as int)
}

/// Drops the trailing run of NUL bytes.
pub fn trim_trailing_nuls(input: &[u8]) -> (r: &[u8])
    ensures
        r@ == trim_nuls(input@),
{
    let mut length: usize = input.len();
    proof {
        assert(input@.subrange(0, length as int) =~= input@);
    }
    while length > 0 && input[length - 1] == 0
        invariant
            length <= input@.len(),
            trim_nuls(input@.subrange(0, length as int)) == trim_nuls(input@),
        decreases length,
    {
        proof {
            assert(input@.subrange(0, length as int).drop_last() =~= input@.subrange(
                0,
                length - 1,
            ));
        }
        length = length - 1;
    }
    proof {
        assert(trim_nuls(input@.subrange(0, length as int)) == input@.subrange(0, length as int));
    }
    slice_subrange(input, 0, length)
}

fn contains_nul(s: &[u8]) -> (r: bool)
    ensures
        r == s@.contains(0u8),
{
    let mut i: usize = 0;
    while i < s.len()
        invariant
            i <= s@.len(),
            forall|k: int| 0 <= k < i ==> s@[k] != 0,
        decreases s@.len() - i,
    {
        if s[i] == 0 {
            proof {
                assert(s@[i as int] == 0u8);
            }
            return true;
        }
        i = i + 1;
    }
    false
}

fn read_le16(b: &[u8], off: usize) -> (r: u16)
    requires
        off + 1 < b@.len(),
    ensures
        r == le16(b@, off as int),
{
    (b[off] as u16) + (b[off + 1] as u16) * 256
}

/// The text field at `off`, or `None` when it is malformed.
fn read_text(b: &[u8], off: usize) -> (r: Option<Vec<u8>>)
    requires
        off + 32 <= b@.len(),
    ensures
        match r {
            Some(t) => text_ok(b@, off as int) && t@ == text_field(b@, off as int),
            None => !text_ok(b@, off as int),
        },
{
    // The slice's length bounds `off + NSF_TEXT_LEN`.
    let _ = b.len();
    let field = slice_subrange(b, off, off + NSF_TEXT_LEN);
    let used = trim_trailing_nuls(field);
    if contains_nul(used) {
        None
    } else {
        Some(slice_to_vec(used))
    }
}

/// Decodes an NSF header from the start of `input`.
pub fn parse_nsf(input: &[u8]) -> (r: Result<NsfHeader, ParseError>)
    ensures
        match r {
            Ok(h) => has_magic(input@) && input@.len() >= 128 && texts_ok(input@)
                && header_matches(h, input@),
            Err(ParseError::BadMagic) => !has_magic(input@),
            Err(ParseError::Truncated) => has_magic(input@) && input@.len() < 128,
            Err(ParseError::MalformedText) => has_magic(input@) && input@.len() >= 128
                && !texts_ok(input@),
        },
{
    let magic: [u8; 5] = [0x4E, 0x45, 0x53, 0x4D, 0x1A];
    proof {
        assert(magic@ =~= nsf_magic());
    }
    let mut i: usize = 0;
    while i < 5 && i < input.len()
        invariant
            i <= 5,
            magic@ == nsf_magic(),
            forall|k: int| 0 <= k < i && k < input@.len() ==> input@[k] == nsf_magic()[k],
        decreases 5 - i,
    {
        if input[i] != magic[i] {
            return Err(ParseError::BadMagic);
        }
        i = i + 1;
    }
    if input.len() < NSF_HEADER_LEN {
        return Err(ParseError::Truncated);
    }
    let song_name = match read_text(input, OFS_SONG_NAME) {
        Some(t) => t,
        None => return Err(ParseError::MalformedText),
    };
    let artist_name = match read_text(input, OFS_ARTIST_NAME) {
        Some(t) => t,
        None => return Err(ParseError::MalformedText),
    };
    let copyright_holder = match read_text(input, OFS_COPYRIGHT_HOLDER) {
        Some(t) => t,
        None => return Err(ParseError::MalformedText),
    };
    let o = OFS_BANKSWITCH_INIT;
    let bankswitch_init: [u8; 8] = [
        input[o],
        input[o + 1],
        input[o + 2],
        input[o + 3],
        input[o + 4],
        input[o + 5],
        input[o + 6],
        input[o + 7],
    ];
    proof {
        assert(bankswitch_init@ =~= input@.subrange(o as int, o + 8));
    }
    let d = OFS_DATA_LENGTH;
    let data_length = (input[d] as u32) + (input[d + 1] as u32) * 256 + (input[d + 2] as u32)
        * 65536;
    Ok(
        NsfHeader {
            version_num: input[OFS_VERSION],
            total_songs: input[OFS_TOTAL_SONGS],
            starting_song: input[OFS_STARTING_SONG],
            load_address: read_le16(input, OFS_LOAD_ADDRESS),
            init_address: read_le16(input, OFS_INIT_ADDRESS),
            play_address: read_le16(input, OFS_PLAY_ADDRESS),
            song_name,
            artist_name,
            copyright_holder,
            play_speed_ntsc: read_le16(input, OFS_PLAY_SPEED_NTSC),
            bankswitch_init,
            play_speed_pal: read_le16(input, OFS_PLAY_SPEED_PAL),
            pal_ntsc_bits: input[OFS_PAL_NTSC_BITS],
            sound_chip_support: input[OFS_SOUND_CHIP_SUPPORT],
            nsf2_reserved: input[OFS_NSF2_RESERVED],
            data_length,
        },
    )
}

} // verus!

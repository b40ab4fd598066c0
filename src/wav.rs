use vstd::prelude::*;

verus! {

/// Size of the RIFF/WAVE header that precedes the sample data.
pub const WAV_HEADER_LEN: usize = 44;

pub open spec fn le16_bytes(x: int) -> Seq<u8> {
    seq![(x % 256) as u8, ((x / 256) % 256) as u8]
}

pub open spec fn le32_bytes(x: int) -> Seq<u8> {
    seq![
        (x % 256) as u8,
        ((x / 256) % 256) as u8,
        ((x / 65536) % 256) as u8,
        ((x / 16777216) % 256) as u8,
    ]
}

/// A signed sample as its two's-complement 16-bit pattern.
pub open spec fn sample_bits(s: i16) -> int {
    if s < 0 {
        s + 65536
    } else {
        s as int
    }
}

/// The samples as little-endian 16-bit words.
pub open spec fn pcm_bytes(samples: Seq<i16>) -> Seq<u8>
    decreases samples.len(),
{
    if samples.len() == 0 {
        Seq::empty()
    } else {
        pcm_bytes(samples.drop_last()) + le16_bytes(sample_bits(samples.last()))
    }
}

/// Header of a 16-bit mono PCM WAVE file holding `num_samples` samples:
/// the RIFF chunk, the "fmt " chunk and the start of the "data" chunk.
pub open spec fn wav_header(sample_rate: int, num_samples: int) -> Seq<u8> {
    let data_len = 2 * num_samples;
    seq![0x52u8, 0x49, 0x46, 0x46]
        + le32_bytes(4 + (8 + 16) + (8 + data_len))
        + seq![0x57u8, 0x41, 0x56, 0x45]
        + seq![0x66u8, 0x6D, 0x74, 0x20]
        + le32_bytes(16)
        + le16_bytes(1)
        + le16_bytes(1)
        + le32_bytes(sample_rate)
        + le32_bytes(2 * sample_rate)
        + le16_bytes(2)
        + le16_bytes(16)
        + seq![0x64u8, 0x61, 0x74, 0x61]
        + le32_bytes(data_len)
}

fn push_le16(out: &mut Vec<u8>, x: u16)
    ensures
        final(out)@ == old(out)@ + le16_bytes(x as int),
{
    out.push((x % 256) as u8);
    out.push((x / 256) as u8);
    proof {
        assert(final(out)@ =~= old(out)@ + le16_bytes(x as int));
    }
}

fn push_le32(out: &mut Vec<u8>, x: u32)
    ensures
        final(out)@ == old(out)@ + le32_bytes(x as int),
{
    out.push((x % 256) as u8);
    out.push(((x / 256) % 256) as u8);
    out.push(((x / 65536) % 256) as u8);
    out.push((x / 16777216) as u8);
    proof {
        assert(final(out)@ =~= old(out)@ + le32_bytes(x as int));
    }
}

fn push_tag(out: &mut Vec<u8>, a: u8, b: u8, c: u8, d: u8)
    ensures
        final(out)@ == old(out)@ + seq![a, b, c, d],
{
    out.push(a);
    out.push(b);
    out.push(c);
    out.push(d);
    proof {
        assert(final(out)@ =~= old(out)@ + seq![a, b, c, d]);
    }
}

/// A complete 16-bit mono PCM WAVE file holding `samples` at `sample_rate`.
pub fn wav_bytes(samples: &[i16], sample_rate: u32) -> (r: Vec<u8>)
    requires
        36 + 2 * samples@.len() <= u32::MAX,
        2 * sample_rate <= u32::MAX,
    ensures
        r@ == wav_header(sample_rate as int, samples@.len() as int) + pcm_bytes(samples@),
        r@.len() == WAV_HEADER_LEN + 2 * samples@.len(),
{
    let data_len: u32 = 2 * (samples.len() as u32);
    let mut out: Vec<u8> = Vec::new();
    push_tag(&mut out, 0x52, 0x49, 0x46, 0x46);
    push_le32(&mut out, 4 + (8 + 16) + (8 + data_len));
    push_tag(&mut out, 0x57, 0x41, 0x56, 0x45);
    push_tag(&mut out, 0x66, 0x6D, 0x74, 0x20);
    push_le32(&mut out, 16);
    push_le16(&mut out, 1);
    push_le16(&mut out, 1);
    push_le32(&mut out, sample_rate);
    push_le32(&mut out, 2 * sample_rate);
    push_le16(&mut out, 2);
    push_le16(&mut out, 16);
    push_tag(&mut out, 0x64, 0x61, 0x74, 0x61);
    push_le32(&mut out, data_len);
    let ghost header = out@;
    proof {
        assert(header =~= wav_header(sample_rate as int, samples@.len() as int));
        assert(samples@.take(0) =~= Seq::<i16>::empty());
    }
    let mut i: usize = 0;
    while i < samples.len()
        invariant
            i <= samples@.len(),
            header == wav_header(sample_rate as int, samples@.len() as int),
            out@ == header + pcm_bytes(samples@.take(i as int)),
        decreases samples@.len() - i,
    {
        let s = samples[i];
        let bits: u16 = if s < 0 {
            (s as i32 + 65536) as u16
        } else {
            s as u16
        };
        push_le16(&mut out, bits);
        proof {
            assert(samples@.take(i + 1).drop_last() =~= samples@.take(i as int));
            assert(out@ =~= header + pcm_bytes(samples@.take(i + 1)));
        }
        i = i + 1;
    }
    proof {
        assert(samples@.take(i as int) =~= samples@);
        lemma_pcm_bytes_len(samples@);
    }
    out
}

/// Two bytes per sample.
pub proof fn lemma_pcm_bytes_len(samples: Seq<i16>)
    ensures
        pcm_bytes(samples).len() == 2 * samples.len(),
    decreases samples.len(),
{
    if samples.len() > 0 {
        lemma_pcm_bytes_len(samples.drop_last());
    }
}

} // verus!

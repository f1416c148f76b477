//! PCM WAV encoding: a 44-byte RIFF header followed by the samples as
//! little-endian 16-bit words — mono, 48 kHz, 16 bits per sample, the
//! format the tone generator emits.
use vstd::prelude::*;

verus! {

/// Samples per second of the encoded stream.
pub const WAV_SAMPLE_RATE: u32 = 48000;

/// Bytes per second of the encoded stream: rate times channels times
/// bytes per sample.
pub const WAV_BYTE_RATE: u32 = 96000;

/// The two little-endian bytes of `x` (meaningful for `0 <= x < 2^16`).
pub open spec fn spec_le16(x: int) -> Seq<u8> {
    seq![(x % 256) as u8, ((x / 256) % 256) as u8]
}

/// The four little-endian bytes of `x` (meaningful for `0 <= x < 2^32`).
pub open spec fn spec_le32(x: int) -> Seq<u8> {
    seq![
        (x % 256) as u8,
        ((x / 256) % 256) as u8,
        ((x / 65536) % 256) as u8,
        ((x / 16777216) % 256) as u8,
    ]
}

/// The unsigned 16-bit two's-complement encoding of a sample.
pub open spec fn spec_i16_bits(x: i16) -> int {
    if x >= 0 {
        x as int
    } else {
        x + 65536
    }
}

/// One sample as its two little-endian bytes.
pub open spec fn spec_sample_le(x: i16) -> Seq<u8> {
    spec_le16(spec_i16_bits(x))
}

/// All samples, each as its two little-endian bytes, in order.
pub open spec fn spec_samples_bytes(s: Seq<i16>) -> Seq<u8>
    decreases s.len(),
{
    if s.len() == 0 {
        Seq::<u8>::empty()
    } else {
        spec_sample_le(s[0]) + spec_samples_bytes(s.drop_first())
    }
}

/// The 44-byte RIFF/fmt/data header for `n` mono 16-bit samples at
/// 48 kHz.
pub open spec fn spec_wav_header(n: int) -> Seq<u8> {
    seq![82u8, 73u8, 70u8, 70u8]  // "RIFF"
     + spec_le32(36 + 2 * n) + seq![87u8, 65u8, 86u8, 69u8]  // "WAVE"
     + seq![102u8, 109u8, 116u8, 32u8]  // "fmt "
     + spec_le32(16)  // PCM fmt chunk size
     + spec_le16(1)  // PCM format tag
     + spec_le16(1)  // channels
     + spec_le32(WAV_SAMPLE_RATE as int) + spec_le32(WAV_BYTE_RATE as int) + spec_le16(2)  // block align
     + spec_le16(16)  // bits per sample
     + seq![100u8, 97u8, 116u8, 97u8]  // "data"
     + spec_le32(2 * n)
}

/// A whole WAV file: the header, then the samples.
pub open spec fn spec_wav_bytes(s: Seq<i16>) -> Seq<u8> {
    spec_wav_header(s.len() as int) + spec_samples_bytes(s)
}

/// Appending a sample appends its two bytes.
pub proof fn lemma_samples_bytes_push(s: Seq<i16>, x: i16)
    ensures
        spec_samples_bytes(s.push(x)) == spec_samples_bytes(s) + spec_sample_le(x),
    decreases s.len(),
{
    if s.len() == 0 {
        assert(s.push(x).drop_first() =~= Seq::<i16>::empty());
        assert(s.push(x)[0] == x);
        assert(spec_samples_bytes(Seq::<i16>::empty()) =~= Seq::<u8>::empty());
        assert(spec_samples_bytes(s.push(x)) =~= spec_sample_le(x));
        assert(spec_samples_bytes(s) + spec_sample_le(x) =~= spec_sample_le(x));
    } else {
        assert(s.push(x).drop_first() =~= s.drop_first().push(x));
        assert(s.push(x)[0] == s[0]);
        lemma_samples_bytes_push(s.drop_first(), x);
        assert(spec_samples_bytes(s) + spec_sample_le(x) =~= spec_sample_le(s[0]) + (
        spec_samples_bytes(s.drop_first()) + spec_sample_le(x)));
    }
}

/// Appends the two little-endian bytes of `x`.
fn push_u16_le(buf: &mut Vec<u8>, x: u16)
    ensures
        final(buf)@ == old(buf)@ + spec_le16(x as int),
{
    buf.push((x % 256) as u8);
    buf.push((x / 256) as u8);
    proof {
        assert(buf@ =~= old(buf)@ + spec_le16(x as int));
    }
}

/// Appends the four little-endian bytes of `x`.
fn push_u32_le(buf: &mut Vec<u8>, x: u32)
    ensures
        final(buf)@ == old(buf)@ + spec_le32(x as int),
{
    buf.push((x % 256) as u8);
    buf.push((x / 256 % 256) as u8);
    buf.push((x / 65536 % 256) as u8);
    buf.push((x / 16777216) as u8);
    proof {
        assert(buf@ =~= old(buf)@ + spec_le32(x as int));
    }
}

/// Encodes mono 16-bit samples at 48 kHz as a complete WAV file:
/// exactly the 44-byte header followed by every sample as two
/// little-endian bytes.
pub fn encode_wav_pcm16(samples: &Vec<i16>) -> (r: Vec<u8>)
    requires
        2 * samples@.len() + 36 <= u32::MAX,
    ensures
        r@ == spec_wav_bytes(samples@),
        r@.len() == 44 + 2 * samples@.len(),
{
    let n = samples.len();
    let subchunk2: u32 = 2 * (n as u32);
    let chunk: u32 = 36 + subchunk2;
    let mut buf: Vec<u8> = Vec::new();
    buf.push(82);
    buf.push(73);
    buf.push(70);
    buf.push(70);
    push_u32_le(&mut buf, chunk);
    buf.push(87);
    buf.push(65);
    buf.push(86);
    buf.push(69);
    buf.push(102);
    buf.push(109);
    buf.push(116);
    buf.push(32);
    push_u32_le(&mut buf, 16);
    push_u16_le(&mut buf, 1);
    push_u16_le(&mut buf, 1);
    push_u32_le(&mut buf, WAV_SAMPLE_RATE);
    push_u32_le(&mut buf, WAV_BYTE_RATE);
    push_u16_le(&mut buf, 2);
    push_u16_le(&mut buf, 16);
    buf.push(100);
    buf.push(97);
    buf.push(116);
    buf.push(97);
    push_u32_le(&mut buf, subchunk2);
    proof {
        assert(buf@ =~= spec_wav_header(n as int));
    }
    let ghost header = buf@;
    let mut i: usize = 0;
    while i < n
        invariant
            i <= n,
            n == samples@.len(),
            buf@ == header + spec_samples_bytes(samples@.take(i as int)),
            header == spec_wav_header(n as int),
            header.len() == 44,
        decreases n - i,
    {
        let s = samples[i];
        let wide: i32 = s as i32;
        let bits: u32 = if wide < 0 {
            (wide + 65536) as u32
        } else {
            wide as u32
        };
        buf.push((bits % 256) as u8);
        buf.push((bits / 256) as u8);
        proof {
            assert(samples@.take(i as int).push(samples@[i as int]) =~= samples@.take(i + 1));
            lemma_samples_bytes_push(samples@.take(i as int), samples@[i as int]);
            assert(buf@ =~= header + spec_samples_bytes(samples@.take(i as int)) + spec_sample_le(
                samples@[i as int],
            ));
        }
        i = i + 1;
    }
    proof {
        assert(samples@.take(n as int) =~= samples@);
        lemma_samples_bytes_len(samples@);
    }
    buf
}

/// The sample block is two bytes per sample.
pub proof fn lemma_samples_bytes_len(s: Seq<i16>)
    ensures
        spec_samples_bytes(s).len() == 2 * s.len(),
    decreases s.len(),
{
    if s.len() > 0 {
        lemma_samples_bytes_len(s.drop_first());
    }
}

} // verus!

//! WAV container codec for 32-bit IEEE-float samples.
//!
//! `encode_wav` produces a self-contained WAV file: a RIFF header with a
//! WAVEFORMATEXTENSIBLE `fmt ` chunk carrying the float subformat tag,
//! followed by one `data` chunk holding each sample as four little-endian
//! bytes.  Samples are carried as `u32` bit encodings of the float frames;
//! the codec never interprets them, which is what makes the round trip
//! bit-for-bit.  `decode_wav` accepts exactly the containers this encoder
//! produces and returns the sample sequence unchanged
//! ([`lemma_wav_round_trip`]).

use vstd::prelude::*;
use vstd::bytes::{
    spec_u16_to_le_bytes, spec_u16_from_le_bytes, spec_u32_to_le_bytes, spec_u32_from_le_bytes,
    u16_to_le_bytes, u32_to_le_bytes, u16_from_le_bytes, u32_from_le_bytes,
    lemma_auto_spec_u16_to_from_le_bytes, lemma_auto_spec_u32_to_from_le_bytes,
};
use vstd::slice::slice_subrange;

verus! {

/// A decoded WAV file: the samples (32-bit float encodings) and the two
/// format parameters the container carries.
pub struct WavAudio {
    pub samples: Vec<u32>,
    pub sample_rate: u32,
    pub channels: u16,
}

pub open spec fn riff_tag() -> Seq<u8> {
    seq![0x52u8, 0x49u8, 0x46u8, 0x46u8]
}

pub open spec fn wave_tag() -> Seq<u8> {
    seq![0x57u8, 0x41u8, 0x56u8, 0x45u8]
}

pub open spec fn fmt_tag() -> Seq<u8> {
    seq![0x66u8, 0x6du8, 0x74u8, 0x20u8]
}

pub open spec fn data_tag() -> Seq<u8> {
    seq![0x64u8, 0x61u8, 0x74u8, 0x61u8]
}

/// The WAVEFORMATEXTENSIBLE subformat identifier for IEEE-float PCM.
pub open spec fn float_subformat_guid() -> Seq<u8> {
    seq![
        0x03u8,
        0x00u8,
        0x00u8,
        0x00u8,
        0x00u8,
        0x00u8,
        0x10u8,
        0x00u8,
        0x80u8,
        0x00u8,
        0x00u8,
        0xaau8,
        0x00u8,
        0x38u8,
        0x9bu8,
        0x71u8,
    ]
}

/// A mask with `c` low bits set.
pub open spec fn mask_bits(c: int) -> int
    decreases c,
{
    if c <= 0 {
        0
    } else {
        2 * mask_bits(c - 1) + 1
    }
}

/// The speaker-position mask written for `channels` channels: one bit per
/// channel, capped at the 18 assignable positions.
pub open spec fn channel_mask_spec(channels: u16) -> u32 {
    if channels as int > 18 {
        0x3FFFFu32
    } else {
        mask_bits(channels as int) as u32
    }
}

/// Two to the power `c`, for the mask bound below.
spec fn pow2i(c: int) -> int
    decreases c,
{
    if c <= 0 {
        1
    } else {
        2 * pow2i(c - 1)
    }
}

proof fn lemma_mask_bits_pow(c: int)
    requires
        0 <= c,
    ensures
        mask_bits(c) + 1 == pow2i(c),
        0 <= mask_bits(c),
    decreases c,
{
    if c > 0 {
        lemma_mask_bits_pow(c - 1);
    }
}

proof fn lemma_pow2i_pos(c: int)
    ensures
        pow2i(c) >= 1,
    decreases c,
{
    if c > 0 {
        lemma_pow2i_pos(c - 1);
    }
}

proof fn lemma_pow2i_mono(a: int, b: int)
    requires
        0 <= a <= b,
    ensures
        pow2i(a) <= pow2i(b),
    decreases b,
{
    if a < b {
        lemma_pow2i_mono(a, b - 1);
        lemma_pow2i_pos(b - 1);
    }
}

proof fn lemma_mask_bits_bound(c: int)
    requires
        0 <= c <= 18,
    ensures
        0 <= mask_bits(c) <= 0x3FFFF,
{
    lemma_mask_bits_pow(c);
    lemma_pow2i_mono(c, 18);
    assert(pow2i(18) == 0x40000) by {
        reveal_with_fuel(pow2i, 20);
    }
}

fn channel_mask(channels: u16) -> (r: u32)
    ensures
        r == channel_mask_spec(channels),
{
    let c: u16 = if channels > 18 {
        18
    } else {
        channels
    };
    let mut m: u32 = 0;
    let mut k: u16 = 0;
    proof {
        lemma_mask_bits_bound(c as int);
    }
    while k < c
        invariant
            0 <= k <= c <= 18,
            m == mask_bits(k as int),
            0 <= mask_bits(c as int) <= 0x3FFFF,
            0 <= mask_bits(k as int) <= 0x3FFFF,
        decreases c - k,
    {
        proof {
            lemma_mask_bits_bound(k + 1);
        }
        m = 2 * m + 1;
        k += 1;
    }
    if channels > 18 {
        proof {
            lemma_mask_bits_bound(18);
        }
        assert(mask_bits(18) == 0x3FFFF) by {
            reveal_with_fuel(mask_bits, 20);
        }
    }
    m
}

/// The machine limits under which a buffer can be encoded: sizes must fit
/// the container's 32-bit length fields and 16-bit block-align field.
pub open spec fn encodable(n_samples: int, sample_rate: u32, channels: u16) -> bool {
    &&& 0 <= n_samples
    &&& 1 <= channels as int
    &&& 1 <= sample_rate as int
    &&& 4 * channels as int <= 0xFFFF
    &&& 4 * channels as int * sample_rate as int <= 0xFFFFFFFF
    &&& 4 * n_samples + 60 <= 0xFFFFFFFF
}

/// The 68-byte container header for `n_samples` samples.
pub open spec fn wav_header(n_samples: int, sample_rate: u32, channels: u16) -> Seq<u8> {
    riff_tag() + spec_u32_to_le_bytes((4 * n_samples + 60) as u32) + wave_tag() + fmt_tag()
        + spec_u32_to_le_bytes(40u32) + spec_u16_to_le_bytes(0xFFFEu16) + spec_u16_to_le_bytes(
        channels,
    ) + spec_u32_to_le_bytes(sample_rate) + spec_u32_to_le_bytes(
        (4 * channels as int * sample_rate as int) as u32,
    ) + spec_u16_to_le_bytes((4 * channels as int) as u16) + spec_u16_to_le_bytes(32u16)
        + spec_u16_to_le_bytes(22u16) + spec_u16_to_le_bytes(32u16) + spec_u32_to_le_bytes(
        channel_mask_spec(channels),
    ) + float_subformat_guid() + data_tag() + spec_u32_to_le_bytes((4 * n_samples) as u32)
}

/// The data chunk's payload: each sample as four little-endian bytes.
pub open spec fn sample_bytes(samples: Seq<u32>) -> Seq<u8>
    decreases samples.len(),
{
    if samples.len() == 0 {
        Seq::<u8>::empty()
    } else {
        spec_u32_to_le_bytes(samples[0]) + sample_bytes(samples.skip(1))
    }
}

/// The whole container.
pub open spec fn wav_bytes(samples: Seq<u32>, sample_rate: u32, channels: u16) -> Seq<u8> {
    wav_header(samples.len() as int, sample_rate, channels) + sample_bytes(samples)
}

proof fn lemma_sample_bytes_len(samples: Seq<u32>)
    ensures
        sample_bytes(samples).len() == 4 * samples.len(),
    decreases samples.len(),
{
    lemma_auto_spec_u32_to_from_le_bytes();
    if samples.len() > 0 {
        lemma_sample_bytes_len(samples.skip(1));
    }
}

proof fn lemma_sample_bytes_push(samples: Seq<u32>, x: u32)
    ensures
        sample_bytes(samples.push(x)) == sample_bytes(samples) + spec_u32_to_le_bytes(x),
    decreases samples.len(),
{
    if samples.len() == 0 {
        assert(samples.push(x).skip(1) =~= Seq::<u32>::empty());
        assert(samples.push(x)[0] == x);
        assert(sample_bytes(Seq::<u32>::empty()) == Seq::<u8>::empty());
        assert(sample_bytes(samples.push(x)) == spec_u32_to_le_bytes(x) + sample_bytes(
            samples.push(x).skip(1),
        ));
        assert(sample_bytes(samples.push(x)) =~= sample_bytes(samples) + spec_u32_to_le_bytes(x));
    } else {
        lemma_sample_bytes_push(samples.skip(1), x);
        assert(samples.push(x).skip(1) =~= samples.skip(1).push(x));
        assert(samples.push(x)[0] == samples[0]);
        assert(sample_bytes(samples.push(x)) == spec_u32_to_le_bytes(samples[0]) + sample_bytes(
            samples.skip(1).push(x),
        ));
        assert(sample_bytes(samples.push(x)) =~= sample_bytes(samples) + spec_u32_to_le_bytes(x));
    }
}

fn push_u16(out: &mut Vec<u8>, x: u16)
    ensures
        final(out)@ == old(out)@ + spec_u16_to_le_bytes(x),
{
    let mut b = u16_to_le_bytes(x);
    out.append(&mut b);
}

fn push_u32(out: &mut Vec<u8>, x: u32)
    ensures
        final(out)@ == old(out)@ + spec_u32_to_le_bytes(x),
{
    let mut b = u32_to_le_bytes(x);
    out.append(&mut b);
}

/// Whether the limits of [`encodable`] hold, checked at run time.
pub fn encodable_check(n_samples: usize, sample_rate: u32, channels: u16) -> (r: bool)
    ensures
        r == encodable(n_samples as int, sample_rate, channels),
{
    proof {
        assert((4 * (channels as u64)) * (sample_rate as u64) <= 0x3FFFC * 0xFFFFFFFFu64)
            by (nonlinear_arith)
            requires
                channels as u64 <= 0xFFFF,
                sample_rate as u64 <= 0xFFFFFFFF,
        ;
    }
    let block: u64 = 4 * (channels as u64);
    1 <= channels && 1 <= sample_rate && block <= 0xFFFF && block * (sample_rate as u64)
        <= 0xFFFFFFFF && 4 * (n_samples as u128) + 60 <= 0xFFFFFFFF
}

fn build_header(n_samples: usize, sample_rate: u32, channels: u16) -> (r: Vec<u8>)
    requires
        encodable(n_samples as int, sample_rate, channels),
    ensures
        r@ == wav_header(n_samples as int, sample_rate, channels),
        r@.len() == 68,
{
    proof {
        lemma_auto_spec_u16_to_from_le_bytes();
        lemma_auto_spec_u32_to_from_le_bytes();
    }
    let data_len: u32 = (4 * (n_samples as u64)) as u32;
    let file_size: u32 = data_len + 60;
    let bytes_per_sec: u32 = (4 * (channels as u64) * (sample_rate as u64)) as u32;
    let block_align: u16 = 4 * channels;
    let mut out: Vec<u8> = Vec::new();
    out.push(0x52);
    out.push(0x49);
    out.push(0x46);
    out.push(0x46);
    push_u32(&mut out, file_size);
    out.push(0x57);
    out.push(0x41);
    out.push(0x56);
    out.push(0x45);
    out.push(0x66);
    out.push(0x6d);
    out.push(0x74);
    out.push(0x20);
    push_u32(&mut out, 40);
    push_u16(&mut out, 0xFFFE);
    push_u16(&mut out, channels);
    push_u32(&mut out, sample_rate);
    push_u32(&mut out, bytes_per_sec);
    push_u16(&mut out, block_align);
    push_u16(&mut out, 32);
    push_u16(&mut out, 22);
    push_u16(&mut out, 32);
    push_u32(&mut out, channel_mask(channels));
    out.push(0x03);
    out.push(0x00);
    out.push(0x00);
    out.push(0x00);
    out.push(0x00);
    out.push(0x00);
    out.push(0x10);
    out.push(0x00);
    out.push(0x80);
    out.push(0x00);
    out.push(0x00);
    out.push(0xaa);
    out.push(0x00);
    out.push(0x38);
    out.push(0x9b);
    out.push(0x71);
    out.push(0x64);
    out.push(0x61);
    out.push(0x74);
    out.push(0x61);
    push_u32(&mut out, data_len);
    proof {
        assert(out@ =~= wav_header(n_samples as int, sample_rate, channels));
    }
    out
}

/// Encodes the sample buffer as a complete WAV container.
pub fn encode_wav(samples: &Vec<u32>, sample_rate: u32, channels: u16) -> (r: Vec<u8>)
    requires
        encodable(samples@.len() as int, sample_rate, channels),
    ensures
        r@ == wav_bytes(samples@, sample_rate, channels),
{
    let mut out = build_header(samples.len(), sample_rate, channels);
    let ghost header = out@;
    let mut i: usize = 0;
    while i < samples.len()
        invariant
            0 <= i <= samples@.len(),
            out@ == header + sample_bytes(samples@.take(i as int)),
            header == wav_header(samples@.len() as int, sample_rate, channels),
        decreases samples@.len() - i,
    {
        push_u32(&mut out, samples[i]);
        proof {
            lemma_sample_bytes_push(samples@.take(i as int), samples@[i as int]);
            assert(samples@.take(i as int).push(samples@[i as int]) =~= samples@.take(i + 1));
        }
        i += 1;
    }
    proof {
        assert(samples@.take(samples@.len() as int) =~= samples@);
    }
    out
}

/// The samples read back from a data chunk payload, four bytes at a time.
pub open spec fn decode_samples_spec(d: Seq<u8>) -> Seq<u32>
    decreases d.len(),
{
    if d.len() < 4 {
        Seq::<u32>::empty()
    } else {
        seq![spec_u32_from_le_bytes(d.take(4))] + decode_samples_spec(d.skip(4))
    }
}

/// What decoding means: the bytes are accepted exactly when they are the
/// encoding of some buffer under the limits of [`encodable`], and then the
/// buffer and format parameters are read back.
pub open spec fn wav_decode_spec(b: Seq<u8>) -> Option<(Seq<u32>, u32, u16)> {
    if b.len() < 68 {
        None
    } else {
        let channels = spec_u16_from_le_bytes(b.subrange(22, 24));
        let rate = spec_u32_from_le_bytes(b.subrange(24, 28));
        let data_len = spec_u32_from_le_bytes(b.subrange(64, 68)) as int;
        if data_len % 4 == 0 && b.len() == 68 + data_len && encodable(data_len / 4, rate, channels)
            && b.take(68) == wav_header(data_len / 4, rate, channels) {
            Some((decode_samples_spec(b.skip(68)), rate, channels))
        } else {
            None
        }
    }
}

proof fn lemma_decode_sample_bytes(samples: Seq<u32>)
    ensures
        decode_samples_spec(sample_bytes(samples)) == samples,
    decreases samples.len(),
{
    lemma_auto_spec_u32_to_from_le_bytes();
    lemma_sample_bytes_len(samples);
    if samples.len() == 0 {
        assert(decode_samples_spec(sample_bytes(samples)) =~= samples);
    } else {
        lemma_decode_sample_bytes(samples.skip(1));
        lemma_sample_bytes_len(samples.skip(1));
        let d = sample_bytes(samples);
        assert(d.take(4) =~= spec_u32_to_le_bytes(samples[0]));
        assert(d.skip(4) =~= sample_bytes(samples.skip(1)));
        assert(decode_samples_spec(d) =~= samples);
    }
}

/// Decoding inverts encoding: for every buffer within the machine limits,
/// the container reads back bit-for-bit as the buffer it was made from,
/// with the same format parameters.
pub proof fn lemma_wav_round_trip(samples: Seq<u32>, sample_rate: u32, channels: u16)
    requires
        encodable(samples.len() as int, sample_rate, channels),
    ensures
        wav_decode_spec(wav_bytes(samples, sample_rate, channels)) == Some(
            (samples, sample_rate, channels),
        ),
{
    lemma_auto_spec_u16_to_from_le_bytes();
    lemma_auto_spec_u32_to_from_le_bytes();
    lemma_sample_bytes_len(samples);
    let n = samples.len() as int;
    let b = wav_bytes(samples, sample_rate, channels);
    let h = wav_header(n, sample_rate, channels);
    assert(h.len() == 68);
    assert(b.len() == 68 + 4 * n);
    assert(b.subrange(22, 24) =~= spec_u16_to_le_bytes(channels));
    assert(b.subrange(24, 28) =~= spec_u32_to_le_bytes(sample_rate));
    assert(b.subrange(64, 68) =~= spec_u32_to_le_bytes((4 * n) as u32));
    assert(spec_u32_from_le_bytes(b.subrange(64, 68)) == (4 * n) as u32);
    assert(b.take(68) =~= h);
    assert(b.skip(68) =~= sample_bytes(samples));
    lemma_decode_sample_bytes(samples);
}

/// Decodes a WAV container produced by [`encode_wav`].  Returns `None` for
/// any byte sequence that is not exactly such a container.
#[verifier::loop_isolation(false)]
pub fn decode_wav(bytes: &Vec<u8>) -> (r: Option<WavAudio>)
    ensures
        match r {
            Some(w) => wav_decode_spec(bytes@) == Some((w.samples@, w.sample_rate, w.channels)),
            None => wav_decode_spec(bytes@) is None,
        },
{
    proof {
        lemma_auto_spec_u16_to_from_le_bytes();
        lemma_auto_spec_u32_to_from_le_bytes();
    }
    if bytes.len() < 68 {
        return None;
    }
    let s = bytes.as_slice();
    let channels = u16_from_le_bytes(slice_subrange(s, 22, 24));
    let rate = u32_from_le_bytes(slice_subrange(s, 24, 28));
    let data_len = u32_from_le_bytes(slice_subrange(s, 64, 68));
    if data_len % 4 != 0 {
        return None;
    }
    if bytes.len() - 68 != data_len as usize {
        return None;
    }
    let n_samples = (data_len / 4) as usize;
    proof {
        assert(4 * (n_samples as int) == data_len as int);
        assert(bytes@.len() == 68 + 4 * (n_samples as int));
    }
    if !encodable_check(n_samples, rate, channels) {
        return None;
    }
    let expected = build_header(n_samples, rate, channels);
    let mut i: usize = 0;
    while i < 68
        invariant
            0 <= i <= 68,
            bytes@.len() >= 68,
            expected@.len() == 68,
            forall|j: int| 0 <= j < i ==> bytes@[j] == expected@[j],
        decreases 68 - i,
    {
        if bytes[i] != expected[i] {
            assert(bytes@.take(68)[i as int] != expected@[i as int]);
            assert(bytes@.take(68) != wav_header(data_len as int / 4, rate, channels));
            return None;
        }
        i += 1;
    }
    assert(bytes@.take(68) =~= expected@);
    let ghost data = bytes@.skip(68);
    let mut samples: Vec<u32> = Vec::new();
    let mut k: usize = 0;
    proof {
        assert(data.skip(0) =~= data);
        assert(Seq::<u32>::empty() + decode_samples_spec(data) =~= decode_samples_spec(data));
    }
    while k < n_samples
        invariant
            0 <= k <= n_samples,
            bytes@.len() == 68 + 4 * n_samples,
            samples@.len() == k,
            data == bytes@.skip(68),
            samples@ + decode_samples_spec(data.skip(4 * k as int)) == decode_samples_spec(data),
        decreases n_samples - k,
    {
        let off = 68 + 4 * k;
        let x = u32_from_le_bytes(slice_subrange(s, off, off + 4));
        proof {
            let rest = data.skip(4 * k as int);
            assert(rest.len() >= 4);
            assert(rest.take(4) =~= bytes@.subrange(off as int, off + 4));
            assert(rest.skip(4) =~= data.skip(4 * (k + 1) as int));
            assert(samples@.push(x) + decode_samples_spec(data.skip(4 * (k + 1) as int)) =~= samples@
                + (seq![spec_u32_from_le_bytes(rest.take(4))] + decode_samples_spec(rest.skip(4))));
        }
        samples.push(x);
        k += 1;
    }
    proof {
        assert(data.skip(4 * n_samples as int).len() < 4);
        assert(samples@ + decode_samples_spec(data.skip(4 * n_samples as int)) =~= samples@);
        assert(samples@ == decode_samples_spec(data));
    }
    Some(WavAudio { samples, sample_rate: rate, channels })
}

} // verus!

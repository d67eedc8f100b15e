//! Audio framing: which capture backend a source names, how loopback
//! capture batches the bytes it reads, and the 16-bit PCM WAV encoding used
//! to upload audio to cloud recognisers.
//!
//! Samples arrive as floating point; the application converts them to
//! 16-bit integers (clamped to [-1, 1] and scaled by `i16::MAX`) before they
//! reach this module.
use vstd::prelude::*;

use crate::text::str_eq;

verus! {

/// Where audio is captured from.
#[derive(PartialEq, Eq, Structural)]
pub enum CaptureSource {
    /// Whatever plays through the default output device (loopback).
    SystemLoopback,
    /// The default microphone.
    Microphone,
}

/// The backend for a source setting: `system` selects loopback capture of
/// the default output device, anything else the default microphone.
pub fn capture_source(source: &str) -> (r: CaptureSource)
    ensures
        r == (if source@ == "system"@ {
            CaptureSource::SystemLoopback
        } else {
            CaptureSource::Microphone
        }),
{
    if str_eq(source, "system") {
        CaptureSource::SystemLoopback
    } else {
        CaptureSource::Microphone
    }
}

/// Frames handed on per loopback batch, at most.
pub const LOOPBACK_FRAMES_PER_BATCH: usize = 512;

/// How many queued bytes the next loopback batch takes: whole frames, at
/// most `LOOPBACK_FRAMES_PER_BATCH` of them, at least one.
pub open spec fn spec_loopback_batch_len(queued: int, bytes_per_frame: int) -> int {
    let frames = queued / bytes_per_frame;
    let capped = if frames < 512 { frames } else { 512 };
    bytes_per_frame * (if capped < 1 { 1 } else { capped })
}

/// The number of bytes to drain from the loopback queue for the next batch,
/// while at least one whole frame is queued.
pub fn loopback_batch_len(queued: usize, bytes_per_frame: usize) -> (r: usize)
    requires
        bytes_per_frame > 0,
        queued >= bytes_per_frame,
    ensures
        r == spec_loopback_batch_len(queued as int, bytes_per_frame as int),
        bytes_per_frame <= r <= queued,
        r % bytes_per_frame == 0,
{
    let frames = queued / bytes_per_frame;
    let capped = if frames < LOOPBACK_FRAMES_PER_BATCH {
        frames
    } else {
        LOOPBACK_FRAMES_PER_BATCH
    };
    let frames_taken = if capped < 1 {
        1
    } else {
        capped
    };
    proof {
        vstd::arithmetic::div_mod::lemma_fundamental_div_mod(queued as int, bytes_per_frame as int);
        assert(frames >= 1) by (nonlinear_arith)
            requires
                queued >= bytes_per_frame,
                bytes_per_frame > 0,
                frames == queued / bytes_per_frame,
        ;
        assert(1 <= frames_taken <= frames);
        assert(bytes_per_frame * frames_taken <= bytes_per_frame * frames) by (nonlinear_arith)
            requires
                frames_taken <= frames,
                bytes_per_frame > 0,
        ;
        assert((bytes_per_frame * frames_taken) % (bytes_per_frame as int) == 0) by {
            vstd::arithmetic::div_mod::lemma_mod_multiples_basic(
                frames_taken as int,
                bytes_per_frame as int,
            );
            vstd::arithmetic::mul::lemma_mul_is_commutative(
                frames_taken as int,
                bytes_per_frame as int,
            );
        }
        assert(bytes_per_frame <= bytes_per_frame * frames_taken) by (nonlinear_arith)
            requires
                frames_taken >= 1,
                bytes_per_frame > 0,
        ;
    }
    bytes_per_frame * frames_taken
}

/// The little-endian bytes of a 16-bit value.
pub open spec fn u16_le(x: u16) -> Seq<u8> {
    seq![(x % 256) as u8, (x / 256) as u8]
}

/// The little-endian bytes of a 32-bit value.
pub open spec fn u32_le(x: u32) -> Seq<u8> {
    seq![(x % 256) as u8, ((x / 256) % 256) as u8, ((x / 65536) % 256) as u8, (x / 16777216) as u8]
}

/// The samples as little-endian two's-complement 16-bit values.
pub open spec fn pcm16_data(samples: Seq<i16>) -> Seq<u8>
    decreases samples.len(),
{
    if samples.len() == 0 {
        Seq::empty()
    } else {
        pcm16_data(samples.drop_last()) + u16_le(samples.last() as u16)
    }
}

/// The size field of the data chunk, for `n` samples.
pub open spec fn wav_data_size(n: nat) -> u32 {
    (n * 2) as u32
}

/// The 44-byte header of a mono 16-bit PCM WAV file of `n` samples.
pub open spec fn wav_header(n: nat, sample_rate: u32) -> Seq<u8> {
    seq![82u8, 73, 70, 70] + u32_le((36 + wav_data_size(n)) as u32) + seq![87u8, 65, 86, 69] + seq![
        102u8,
        109,
        116,
        32,
    ] + u32_le(16) + u16_le(1) + u16_le(1) + u32_le(sample_rate) + u32_le((sample_rate * 2) as u32)
        + u16_le(2) + u16_le(16) + seq![100u8, 97, 116, 97] + u32_le(wav_data_size(n))
}

fn push_u16_le(out: &mut Vec<u8>, x: u16)
    ensures
        final(out)@ == old(out)@ + u16_le(x),
{
    out.push((x % 256) as u8);
    out.push((x / 256) as u8);
    assert(final(out)@ =~= old(out)@ + u16_le(x));
}

fn push_u32_le(out: &mut Vec<u8>, x: u32)
    ensures
        final(out)@ == old(out)@ + u32_le(x),
{
    out.push((x % 256) as u8);
    out.push(((x / 256) % 256) as u8);
    out.push(((x / 65536) % 256) as u8);
    out.push((x / 16777216) as u8);
    assert(final(out)@ =~= old(out)@ + u32_le(x));
}

fn push_tag(out: &mut Vec<u8>, a: u8, b: u8, c: u8, d: u8)
    ensures
        final(out)@ == old(out)@ + seq![a, b, c, d],
{
    out.push(a);
    out.push(b);
    out.push(c);
    out.push(d);
    assert(final(out)@ =~= old(out)@ + seq![a, b, c, d]);
}

/// Encodes mono 16-bit samples as a PCM WAV file, for uploading to cloud
/// recognisers that expect a standard audio file rather than raw PCM.
pub fn encode_wav_pcm16(samples: &[i16], sample_rate: u32) -> (r: Vec<u8>)
    requires
        samples@.len() * 2 <= usize::MAX,
        sample_rate * 2 <= u32::MAX,
        36 + wav_data_size(samples@.len()) <= u32::MAX,
    ensures
        r@ == wav_header(samples@.len(), sample_rate) + pcm16_data(samples@),
{
    let num_samples = samples.len();
    let byte_rate = sample_rate * 2;
    let data_size = (num_samples * 2) as u32;
    let riff_size = 36 + data_size;
    let mut out: Vec<u8> = Vec::new();
    push_tag(&mut out, 82, 73, 70, 70);
    push_u32_le(&mut out, riff_size);
    push_tag(&mut out, 87, 65, 86, 69);
    push_tag(&mut out, 102, 109, 116, 32);
    push_u32_le(&mut out, 16);
    push_u16_le(&mut out, 1);
    push_u16_le(&mut out, 1);
    push_u32_le(&mut out, sample_rate);
    push_u32_le(&mut out, byte_rate);
    push_u16_le(&mut out, 2);
    push_u16_le(&mut out, 16);
    push_tag(&mut out, 100, 97, 116, 97);
    push_u32_le(&mut out, data_size);
    let ghost header = out@;
    assert(header =~= wav_header(samples@.len(), sample_rate));
    let mut i: usize = 0;
    while i < num_samples
        invariant
            num_samples == samples@.len(),
            i <= num_samples,
            out@ == header + pcm16_data(samples@.take(i as int)),
        decreases num_samples - i,
    {
        proof {
            assert(samples@.take(i + 1).drop_last() =~= samples@.take(i as int));
        }
        let s = samples[i];
        push_u16_le(&mut out, s as u16);
        i = i + 1;
        assert(out@ =~= header + pcm16_data(samples@.take(i as int)));
    }
    assert(samples@.take(num_samples as int) =~= samples@);
    out
}

/// Two bytes per sample.
pub proof fn lemma_pcm16_data_len(samples: Seq<i16>)
    ensures
        pcm16_data(samples).len() == 2 * samples.len(),
    decreases samples.len(),
{
    if samples.len() > 0 {
        lemma_pcm16_data_len(samples.drop_last());
    }
}

/// A WAV file of `n` samples is `44 + 2n` bytes long; its RIFF size field
/// counts every byte after the first eight, and its data size field the
/// sample bytes.
pub proof fn lemma_wav_layout(samples: Seq<i16>, sample_rate: u32)
    requires
        36 + samples.len() * 2 <= u32::MAX,
    ensures
        (wav_header(samples.len(), sample_rate) + pcm16_data(samples)).len() == 44 + 2
            * samples.len(),
        wav_header(samples.len(), sample_rate).subrange(4, 8) == u32_le(
            ((wav_header(samples.len(), sample_rate) + pcm16_data(samples)).len() - 8) as u32,
        ),
        wav_header(samples.len(), sample_rate).subrange(40, 44) == u32_le(
            (2 * samples.len()) as u32,
        ),
{
    lemma_pcm16_data_len(samples);
    let h = wav_header(samples.len(), sample_rate);
    assert(h.len() == 44);
    assert(h.subrange(4, 8) =~= u32_le((36 + wav_data_size(samples.len())) as u32));
    assert(h.subrange(40, 44) =~= u32_le(wav_data_size(samples.len())));
}

} // verus!

//! The WAV container encoder.
//!
//! A complete file is a fixed 44-byte header followed by every sample as two
//! little-endian bytes: the RIFF master tag with a size field of thirty-six
//! plus the data size, the WAVE format tag, the sixteen-byte fmt block
//! describing linear mono 16-bit PCM at the given sample rate, and the data
//! block with its size field. The spec states the exact byte sequence, and
//! the encoder is proved to produce it.

use vstd::prelude::*;

verus! {

/// A value's two low bytes, little-endian.
pub open spec fn le2(v: nat) -> Seq<u8> {
    seq![(v % 256) as u8, ((v / 256) % 256) as u8]
}

/// A value's four low bytes, little-endian.
pub open spec fn le4(v: nat) -> Seq<u8> {
    seq![
        (v % 256) as u8,
        ((v / 256) % 256) as u8,
        ((v / 0x1_0000) % 256) as u8,
        ((v / 0x100_0000) % 256) as u8,
    ]
}

/// A 16-bit sample read as its unsigned two's-complement encoding.
pub open spec fn pcm16(s: i16) -> nat {
    if s < 0 {
        (s + 0x1_0000) as nat
    } else {
        s as nat
    }
}

/// The data block's bytes: each sample in order, two little-endian bytes
/// apiece.
pub open spec fn pcm_data(samples: Seq<i16>) -> Seq<u8>
    decreases samples.len(),
{
    if samples.len() == 0 {
        Seq::empty()
    } else {
        pcm_data(samples.drop_last()) + le2(pcm16(samples.last()))
    }
}

/// The 44-byte header for a mono 16-bit file holding `sample_count` samples:
/// RIFF tag, master size field, WAVE tag, fmt tag, fmt block size sixteen,
/// format code one (linear PCM), one channel, the sample rate, the byte rate
/// of twice the sample rate, block alignment two, bit depth sixteen, data
/// tag, and the data size of two bytes per sample.
pub open spec fn wav_header(sample_count: nat, sample_rate: u32) -> Seq<u8> {
    seq![0x52u8, 0x49u8, 0x46u8, 0x46u8] + le4(36 + 2 * sample_count)
        + seq![0x57u8, 0x41u8, 0x56u8, 0x45u8] + seq![0x66u8, 0x6Du8, 0x74u8, 0x20u8] + le4(16)
        + le2(1) + le2(1) + le4(sample_rate as nat) + le4(2 * (sample_rate as nat)) + le2(2)
        + le2(16) + seq![0x64u8, 0x61u8, 0x74u8, 0x61u8] + le4(2 * sample_count)
}

/// A complete file: the header, then the data block's bytes.
pub open spec fn wav_bytes(samples: Seq<i16>, sample_rate: u32) -> Seq<u8> {
    wav_header(samples.len(), sample_rate) + pcm_data(samples)
}

fn push_u16_le(bytes: &mut Vec<u8>, v: u16)
    ensures
        final(bytes)@ == old(bytes)@ + le2(v as nat),
{
    bytes.push((v % 256) as u8);
    bytes.push(((v / 256) % 256) as u8);
    proof {
        assert(bytes@ =~= old(bytes)@ + le2(v as nat));
    }
}

fn push_u32_le(bytes: &mut Vec<u8>, v: u32)
    ensures
        final(bytes)@ == old(bytes)@ + le4(v as nat),
{
    bytes.push((v % 256) as u8);
    bytes.push(((v / 256) % 256) as u8);
    bytes.push(((v / 0x1_0000) % 256) as u8);
    bytes.push(((v / 0x100_0000) % 256) as u8);
    proof {
        assert(bytes@ =~= old(bytes)@ + le4(v as nat));
    }
}

/// Converts PCM samples to a complete WAV file as a byte array.
#[verifier::rlimit(30)]
pub fn to_bytes(samples: &Vec<i16>, sample_rate: u32) -> (bytes: Vec<u8>)
    requires
        36 + 2 * samples@.len() <= 0xFFFF_FFFF,
        2 * sample_rate <= 0xFFFF_FFFF,
    ensures
        bytes@ == wav_bytes(samples@, sample_rate),
{
    let n: u32 = samples.len() as u32;
    let data_size: u32 = 2 * n;
    let file_size: u32 = 36 + data_size;
    let byte_rate: u32 = 2 * sample_rate;
    let mut bytes: Vec<u8> = Vec::new();
    bytes.push(0x52);
    bytes.push(0x49);
    bytes.push(0x46);
    bytes.push(0x46);
    push_u32_le(&mut bytes, file_size);
    bytes.push(0x57);
    bytes.push(0x41);
    bytes.push(0x56);
    bytes.push(0x45);
    bytes.push(0x66);
    bytes.push(0x6D);
    bytes.push(0x74);
    bytes.push(0x20);
    push_u32_le(&mut bytes, 16);
    push_u16_le(&mut bytes, 1);
    push_u16_le(&mut bytes, 1);
    push_u32_le(&mut bytes, sample_rate);
    push_u32_le(&mut bytes, byte_rate);
    push_u16_le(&mut bytes, 2);
    push_u16_le(&mut bytes, 16);
    bytes.push(0x64);
    bytes.push(0x61);
    bytes.push(0x74);
    bytes.push(0x61);
    push_u32_le(&mut bytes, data_size);
    proof {
        assert(bytes@ =~= wav_header(samples@.len(), sample_rate));
        assert(bytes@ =~= wav_header(samples@.len(), sample_rate) + pcm_data(
            samples@.subrange(0, 0),
        ));
    }
    let mut i: usize = 0;
    while i < samples.len()
        invariant
            0 <= i <= samples@.len(),
            bytes@ == wav_header(samples@.len(), sample_rate) + pcm_data(
                samples@.subrange(0, i as int),
            ),
        decreases samples@.len() - i,
    {
        let s: i16 = samples[i];
        let v: i32 = s as i32;
        let w: i32 = if v < 0 {
            v + 0x1_0000
        } else {
            v
        };
        bytes.push((w % 256) as u8);
        bytes.push(((w / 256) % 256) as u8);
        proof {
            let prefix = samples@.subrange(0, i as int);
            let extended = samples@.subrange(0, i + 1);
            assert(extended.drop_last() =~= prefix);
            assert(extended.last() == samples@[i as int]);
            assert(bytes@ =~= wav_header(samples@.len(), sample_rate) + pcm_data(extended));
        }
        i = i + 1;
    }
    proof {
        assert(samples@.subrange(0, samples@.len() as int) =~= samples@);
    }
    bytes
}

proof fn lemma_pcm_data_len(samples: Seq<i16>)
    ensures
        pcm_data(samples).len() == 2 * samples.len(),
    decreases samples.len(),
{
    if samples.len() > 0 {
        lemma_pcm_data_len(samples.drop_last());
    }
}

/// Law: whatever the samples and the rate, the container consists of the
/// 44-byte header followed by two bytes per sample, its data-size field
/// (bytes 40 to 43) records twice the sample count, and its master size
/// field (bytes 4 to 7) records thirty-six more than that.
pub proof fn lemma_container_layout(samples: Seq<i16>, sample_rate: u32)
    ensures
        wav_bytes(samples, sample_rate).len() == 44 + 2 * samples.len(),
        wav_bytes(samples, sample_rate).subrange(40, 44) == le4(2 * samples.len()),
        wav_bytes(samples, sample_rate).subrange(4, 8) == le4(36 + 2 * samples.len()),
{
    lemma_pcm_data_len(samples);
    assert(wav_header(samples.len(), sample_rate).len() == 44);
    assert(wav_bytes(samples, sample_rate).subrange(40, 44) =~= le4(2 * samples.len()));
    assert(wav_bytes(samples, sample_rate).subrange(4, 8) =~= le4(36 + 2 * samples.len()));
}

} // verus!

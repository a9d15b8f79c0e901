//! The spoken response to a wake-up: which phrase to say, the file it is
//! stored in, and the WAV framing of generated 16-bit PCM audio.
use vstd::prelude::*;
use rand::seq::SliceRandom;
use std::path::PathBuf;

verus! {

/// `std::path::PathBuf`, carried through as an opaque value.
#[verifier::external_type_specification]
#[verifier::external_body]
pub struct ExPathBuf(PathBuf);

// ---------------------------------------------------------------------
// Models
// ---------------------------------------------------------------------

/// The little-endian bytes of a 16-bit value.
pub open spec fn le16(x: u16) -> Seq<u8> {
    seq![(x % 256) as u8, (x / 256) as u8]
}

/// The little-endian bytes of a 32-bit value.
pub open spec fn le32(x: u32) -> Seq<u8> {
    seq![
        (x % 256) as u8,
        ((x / 256) % 256) as u8,
        ((x / 65536) % 256) as u8,
        (x / 16777216) as u8,
    ]
}

/// Signed 16-bit samples as little-endian two's-complement bytes.
pub open spec fn pcm16_bytes(samples: Seq<i16>) -> Seq<u8>
    decreases samples.len(),
{
    if samples.len() == 0 {
        seq![]
    } else {
        pcm16_bytes(samples.drop_last()) + le16(samples.last() as u16)
    }
}

/// The 32-bit size field of a data chunk: the length, truncated to 32 bits.
pub open spec fn data_size(pcm: Seq<u8>) -> u32 {
    pcm.len() as u32
}

/// Whether the header fields of a WAV file for these arguments fit their
/// widths (otherwise building it overflows).
pub open spec fn wav_fields_fit(pcm: Seq<u8>, sample_rate: u32, channels: u16, bits_per_sample: u16) -> bool {
    &&& data_size(pcm) + 36 <= u32::MAX
    &&& sample_rate * channels * (bits_per_sample / 8) <= u32::MAX
    &&& channels * (bits_per_sample / 8) <= u16::MAX
}

/// A canonical 44-byte RIFF/WAVE header for uncompressed PCM, followed by `pcm`.
pub open spec fn wav_bytes(pcm: Seq<u8>, sample_rate: u32, channels: u16, bits_per_sample: u16) -> Seq<u8> {
    let size = data_size(pcm);
    let block_align = (channels * (bits_per_sample / 8)) as u16;
    let byte_rate = (sample_rate * channels * (bits_per_sample / 8)) as u32;
    seq![82u8, 73, 70, 70] + le32((36 + size) as u32) + seq![87u8, 65, 86, 69] + seq![
        102u8,
        109,
        116,
        32,
    ] + le32(16) + le16(1) + le16(channels) + le32(sample_rate) + le32(byte_rate) + le16(
        block_align,
    ) + le16(bits_per_sample) + seq![100u8, 97, 116, 97] + le32(size) + pcm
}

// ---------------------------------------------------------------------
// Trusted boundary
// ---------------------------------------------------------------------

/// Calls `rand::seq::SliceRandom::choose` with the thread-local generator:
/// `None` for an empty slice, otherwise one of its elements. Which one is
/// left open, as it rests on chance.
#[verifier::external_body]
fn choose_random<'a>(items: &'a [String]) -> (r: Option<&'a String>)
    ensures
        r is None <==> items@.len() == 0,
        r matches Some(x) ==> exists|i: int| 0 <= i < items@.len() && items@[i] == *x,
{
    items.choose(&mut rand::thread_rng())
}

// ---------------------------------------------------------------------
// Byte encoding
// ---------------------------------------------------------------------

fn push_le16(v: &mut Vec<u8>, x: u16)
    ensures
        final(v)@ == old(v)@ + le16(x),
{
    v.push((x % 256) as u8);
    v.push((x / 256) as u8);
    assert(final(v)@ =~= old(v)@ + le16(x));
}

fn push_le32(v: &mut Vec<u8>, x: u32)
    ensures
        final(v)@ == old(v)@ + le32(x),
{
    v.push((x % 256) as u8);
    v.push(((x / 256) % 256) as u8);
    v.push(((x / 65536) % 256) as u8);
    v.push((x / 16777216) as u8);
    assert(final(v)@ =~= old(v)@ + le32(x));
}

fn push_bytes(v: &mut Vec<u8>, w: &[u8])
    ensures
        final(v)@ == old(v)@ + w@,
{
    let mut k: usize = 0;
    while k < w.len()
        invariant
            k <= w@.len(),
            v@ == old(v)@ + w@.take(k as int),
        decreases w@.len() - k,
    {
        v.push(w[k]);
        assert(w@.take(k + 1) =~= w@.take(k as int).push(w@[k as int]));
        k = k + 1;
    }
    assert(w@.take(w@.len() as int) =~= w@);
}

/// Signed 16-bit samples as little-endian bytes, two per sample.
pub fn pcm16_le_bytes(samples: &[i16]) -> (bytes: Vec<u8>)
    ensures
        bytes@ == pcm16_bytes(samples@),
{
    let mut bytes: Vec<u8> = Vec::new();
    let mut i: usize = 0;
    assert(samples@.take(0) =~= Seq::<i16>::empty());
    while i < samples.len()
        invariant
            i <= samples@.len(),
            bytes@ == pcm16_bytes(samples@.take(i as int)),
        decreases samples@.len() - i,
    {
        assert(samples@.take(i + 1).drop_last() =~= samples@.take(i as int));
        push_le16(&mut bytes, samples[i] as u16);
        i = i + 1;
    }
    assert(samples@.take(samples@.len() as int) =~= samples@);
    bytes
}

// ---------------------------------------------------------------------
// The player
// ---------------------------------------------------------------------

/// Plays the spoken response to a wake-up: one of `wake_sounds`, from an
/// MP3 file named after it in `resource_dir` when there is one.
#[derive(Clone)]
pub struct TtsPlayer {
    pub wake_sounds: Vec<String>,
    pub resource_dir: Option<PathBuf>,
}

/// The phrase said when no response phrases are configured.
pub open spec fn default_wake_response() -> Seq<char> {
    "在呢"@
}

impl TtsPlayer {
    /// A player with the given response phrases and no resource directory.
    pub fn new(wake_sounds: Vec<String>) -> (p: Self)
        ensures
            p.wake_sounds@ == wake_sounds@,
            p.resource_dir is None,
    {
        TtsPlayer { wake_sounds, resource_dir: None }
    }

    /// The same player, taking its audio files from `resource_dir`.
    pub fn with_resource_dir(self, resource_dir: PathBuf) -> (p: Self)
        ensures
            p.wake_sounds@ == self.wake_sounds@,
            p.resource_dir == Some(resource_dir),
    {
        TtsPlayer { wake_sounds: self.wake_sounds, resource_dir: Some(resource_dir) }
    }

    /// The phrase to say: one of the configured phrases picked at random,
    /// or the default phrase when none is configured.
    pub fn choose_wake_response(&self) -> (r: String)
        ensures
            self.wake_sounds@.len() == 0 ==> r@ == default_wake_response(),
            self.wake_sounds@.len() > 0 ==> exists|i: int|
                0 <= i < self.wake_sounds@.len() && r@ == #[trigger] self.wake_sounds@[i]@,
    {
        match choose_random(self.wake_sounds.as_slice()) {
            Some(s) => {
                let c = s.clone();
                proof {
                    let i = choose|i: int|
                        0 <= i < self.wake_sounds@.len() && self.wake_sounds@[i] == *s;
                    assert(c@ == self.wake_sounds@[i]@);
                }
                c
            },
            None => String::from_str("在呢"),
        }
    }

    /// The name of the MP3 file holding `response`.
    pub fn wake_audio_file_name(response: &str) -> (r: String)
        ensures
            r@ == response@ + ".mp3"@,
    {
        let mut r = String::from_str(response);
        r.append(".mp3");
        r
    }

    /// A WAV file holding 16-bit PCM `pcm_data` with the given format.
    pub fn create_wav_file(pcm_data: &[u8], sample_rate: u32, channels: u16, bits_per_sample: u16) -> (wav: Vec<u8>)
        requires
            wav_fields_fit(pcm_data@, sample_rate, channels, bits_per_sample),
        ensures
            wav@ == wav_bytes(pcm_data@, sample_rate, channels, bits_per_sample),
    {
        let subchunk2_size = pcm_data.len() as u32;
        let chunk_size = 36 + subchunk2_size;
        let bytes_per_sample = bits_per_sample / 8;
        proof {
            assert(sample_rate * channels <= sample_rate * channels * bytes_per_sample
                || bytes_per_sample == 0) by (nonlinear_arith);
            assert(channels as int * bytes_per_sample as int <= sample_rate as int * channels as int
                * bytes_per_sample as int || sample_rate == 0) by (nonlinear_arith);
        }
        let byte_rate: u32 = if bytes_per_sample == 0 {
            0
        } else {
            sample_rate * (channels as u32) * (bytes_per_sample as u32)
        };
        let block_align: u16 = channels * bytes_per_sample;
        assert(subchunk2_size == data_size(pcm_data@));
        assert(byte_rate == (sample_rate * channels * (bits_per_sample / 8)) as u32);
        assert(block_align == (channels * (bits_per_sample / 8)) as u16);
        let mut wav: Vec<u8> = Vec::new();
        push_bytes(&mut wav, &[82u8, 73, 70, 70]);
        push_le32(&mut wav, chunk_size);
        push_bytes(&mut wav, &[87u8, 65, 86, 69]);
        push_bytes(&mut wav, &[102u8, 109, 116, 32]);
        push_le32(&mut wav, 16);
        push_le16(&mut wav, 1);
        push_le16(&mut wav, channels);
        push_le32(&mut wav, sample_rate);
        push_le32(&mut wav, byte_rate);
        push_le16(&mut wav, block_align);
        push_le16(&mut wav, bits_per_sample);
        push_bytes(&mut wav, &[100u8, 97, 116, 97]);
        push_le32(&mut wav, subchunk2_size);
        push_bytes(&mut wav, pcm_data);
        assert(wav@ =~= wav_bytes(pcm_data@, sample_rate, channels, bits_per_sample));
        wav
    }
}

/// The header of a created WAV file is 44 bytes long, its RIFF size field
/// is the file length less 8, and the samples follow the header unchanged.
pub proof fn law_wav_layout(pcm: Seq<u8>, sample_rate: u32, channels: u16, bits_per_sample: u16)
    requires
        wav_fields_fit(pcm, sample_rate, channels, bits_per_sample),
        pcm.len() <= u32::MAX,
    ensures
        wav_bytes(pcm, sample_rate, channels, bits_per_sample).len() == 44 + pcm.len() as int,
        wav_bytes(pcm, sample_rate, channels, bits_per_sample).subrange(
            44,
            44 + pcm.len() as int,
        ) == pcm,
        wav_bytes(pcm, sample_rate, channels, bits_per_sample).subrange(4, 8) == le32(
            (44 + pcm.len() - 8) as u32,
        ),
        wav_bytes(pcm, sample_rate, channels, bits_per_sample).subrange(40, 44) == le32(
            pcm.len() as u32,
        ),
{
    let w = wav_bytes(pcm, sample_rate, channels, bits_per_sample);
    assert(w.subrange(44, 44 + pcm.len() as int) =~= pcm);
    assert(w.subrange(4, 8) =~= le32((44 + pcm.len() - 8) as u32));
    assert(w.subrange(40, 44) =~= le32(pcm.len() as u32));
}

} // verus!

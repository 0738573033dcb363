//! Audio as the host sees it: the file a provider hands out, the blocks a decoder yields,
//! and the identifier that holds one decoding session together.

use vstd::prelude::*;

verus! {

/// A length of time in whole seconds and nanoseconds.
#[derive(Debug, Clone, Copy, PartialEq, Eq, Hash, Structural)]
pub struct TimeSpan {
    pub secs: u64,
    pub nanos: u32,
}

/// Scopes one decoding session across the calls that start, feed and end it.
#[derive(Debug, Clone, Copy, PartialEq, Eq, Hash, Structural)]
pub struct PlaybackId(pub u128);

/// Whether the bits are those of an identifier that was drawn at random: of the 128 bits,
/// read with the first byte of the identifier on top, the four that give the version say
/// four, and the two that give the variant say one and zero. The other 122 are free.
pub open spec fn is_random_id(bits: u128) -> bool {
    bits & 0x0000_0000_0000_f000_c000_0000_0000_0000u128
        == 0x0000_0000_0000_4000_8000_0000_0000_0000u128
}

/// `uuid::Uuid::new_v4`, read by `Uuid::as_u128`: 128 bits drawn at random, but for the
/// version and the variant, which the call sets to those of a random identifier.
#[verifier::external_body]
fn random_bits() -> (r: u128)
    ensures
        is_random_id(r),
{
    uuid::Uuid::new_v4().as_u128()
}

impl PlaybackId {
    /// A fresh identifier, drawn at random.
    pub fn new() -> (r: PlaybackId)
        ensures
            is_random_id(r.0),
    {
        PlaybackId(random_bits())
    }
}

/// The raw bytes of a track, with a hint at their format where the provider has one.
#[derive(Debug, PartialEq, Eq)]
pub struct AudioFile {
    pub data: Vec<u8>,
    pub format_hint: Option<String>,
}

/// What an `AudioFile` stands for.
pub struct AudioFileView {
    pub data: Seq<u8>,
    pub format_hint: Option<Seq<char>>,
}

impl View for AudioFile {
    type V = AudioFileView;

    open spec fn view(&self) -> AudioFileView {
        AudioFileView {
            data: self.data@,
            format_hint: match self.format_hint {
                Some(s) => Some(s@),
                None => None,
            },
        }
    }
}

impl Clone for AudioFile {
    fn clone(&self) -> (res: Self)
        ensures
            res@ == self@,
    {
        AudioFile {
            data: crate::ident::copy_bytes(&self.data),
            format_hint: match &self.format_hint {
                Some(s) => Some(s.clone()),
                None => None,
            },
        }
    }
}

/// A run of decoded samples, interleaved by channel. Each sample is the IEEE-754 bit
/// pattern of a single-precision number.
#[derive(Debug, PartialEq, Eq)]
pub struct AudioBlock {
    pub samples: Vec<u32>,
    pub sample_rate: u32,
    pub channel_count: u16,
}

/// What an `AudioBlock` stands for.
pub struct AudioBlockView {
    pub samples: Seq<u32>,
    pub sample_rate: u32,
    pub channel_count: u16,
}

impl View for AudioBlock {
    type V = AudioBlockView;

    open spec fn view(&self) -> AudioBlockView {
        AudioBlockView {
            samples: self.samples@,
            sample_rate: self.sample_rate,
            channel_count: self.channel_count,
        }
    }
}


fn copy_samples(v: &Vec<u32>) -> (res: Vec<u32>)
    ensures
        res@ == v@,
{
    let mut out: Vec<u32> = Vec::new();
    let mut i: usize = 0;
    while i < v.len()
        invariant
            i <= v.len(),
            out@ == v@.subrange(0, i as int),
        decreases v.len() - i,
    {
        out.push(v[i]);
        i += 1;
    }
    assert(v@.subrange(0, v.len() as int) == v@);
    out
}

impl Clone for AudioBlock {
    fn clone(&self) -> (res: Self)
        ensures
            res@ == self@,
    {
        AudioBlock {
            samples: copy_samples(&self.samples),
            sample_rate: self.sample_rate,
            channel_count: self.channel_count,
        }
    }
}

/// Whether every channel has `frames` samples.
pub open spec fn is_planar(channels: Seq<Vec<u32>>, frames: nat) -> bool {
    forall|c: int| 0 <= c < channels.len() ==> (#[trigger] channels[c])@.len() == frames
}

/// Whether `samples` holds the samples of the channels frame by frame: all channels of
/// the first frame, then all of the second, and so on.
pub open spec fn is_interleaved(samples: Seq<u32>, channels: Seq<Vec<u32>>, frames: nat) -> bool {
    &&& samples.len() == frames * channels.len()
    &&& forall|f: int, c: int|
        0 <= f < frames && 0 <= c < channels.len() ==> samples[f * channels.len() + c]
            == #[trigger] channels[c]@[f]
}

/// Weaves the samples of the channels into one run, frame by frame. Where the channels
/// are not all as long as the first, or their samples together are more than can be
/// counted, there is no such run.
pub fn interleave(channels: &Vec<Vec<u32>>) -> (r: Option<Vec<u32>>)
    ensures
        match r {
            Some(samples) => channels@.len() > 0 ==> (is_planar(channels@, channels@[0]@.len())
                && is_interleaved(samples@, channels@, channels@[0]@.len())),
            None => channels@.len() > 0 && (!is_planar(channels@, channels@[0]@.len())
                || channels@[0]@.len() * channels@.len() > usize::MAX),
        },
        channels@.len() == 0 ==> (r matches Some(samples) && samples@.len() == 0),
{
    let n = channels.len();
    if n == 0 {
        return Some(Vec::new());
    }
    let frames = channels[0].len();
    let mut c: usize = 0;
    while c < n
        invariant
            c <= n == channels@.len(),
            frames == channels@[0]@.len(),
            forall|k: int| 0 <= k < c ==> (#[trigger] channels@[k])@.len() == frames,
        decreases n - c,
    {
        if channels[c].len() != frames {
            return None;
        }
        c += 1;
    }
    if frames.checked_mul(n).is_none() {
        return None;
    }
    let mut out: Vec<u32> = Vec::new();
    let mut f: usize = 0;
    while f < frames
        invariant
            f <= frames,
            n == channels@.len(),
            n > 0,
            frames * n <= usize::MAX,
            is_planar(channels@, frames as nat),
            out@.len() == f * n,
            forall|g: int, k: int|
                0 <= g < f && 0 <= k < n ==> out@[g * n + k] == #[trigger] channels@[k]@[g],
        decreases frames - f,
    {
        let mut c: usize = 0;
        while c < n
            invariant
                c <= n,
                f < frames,
                n == channels@.len(),
                is_planar(channels@, frames as nat),
                out@.len() == f * n + c,
                forall|g: int, k: int|
                    0 <= g < f && 0 <= k < n ==> out@[g * n + k] == #[trigger] channels@[k]@[g],
                forall|k: int| 0 <= k < c ==> out@[f * n + k] == #[trigger] channels@[k]@[f as int],
            decreases n - c,
        {
            let ghost before = out@;
            out.push(channels[c][f]);
            proof {
                assert forall|g: int, k: int| 0 <= g < f && 0 <= k < n implies out@[g * n + k]
                    == #[trigger] channels@[k]@[g] by {
                    assert(g * n + k < f * n) by (nonlinear_arith)
                        requires
                            0 <= g < f,
                            0 <= k < n,
                    ;
                    assert(before[g * n + k] == channels@[k]@[g]);
                }
            }
            c += 1;
        }
        proof {
            assert((f + 1) * n == f * n + n) by (nonlinear_arith);
            assert forall|g: int, k: int| 0 <= g < f + 1 && 0 <= k < n implies out@[g * n + k]
                == #[trigger] channels@[k]@[g] by {
                if g == f {
                } else {
                    assert(0 <= g < f);
                }
            }
        }
        f += 1;
    }
    Some(out)
}

} // verus!

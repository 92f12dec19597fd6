use vstd::prelude::*;
use crate::envelope::{build_envelopes, envelopes_valid, fade_in_gain, XFADE_LEN};

verus! {

/// Largest number of samples kept per channel (10 s at 48 kHz); longer
/// recordings are truncated.
pub const MAX_LEN: usize = 480000;

/// Why a recording cannot back a sample store.
#[derive(Clone, Copy, PartialEq, Eq, Structural, Debug)]
pub enum StoreError {
    /// The interleaved data declares zero channels.
    NoChannels,
    /// Fewer than `XFADE_LEN + 1` samples per channel: no grain long enough for
    /// a crossfade fits.
    TooShort,
}

/// The recording kept resident for looped playback, with its crossfade
/// envelopes. Immutable once built.
pub struct SampleStore {
    pub left: Vec<i16>,
    pub right: Vec<i16>,
    /// Fade-in gains, in units of `UNITY`: a quarter sine over the first
    /// `XFADE_LEN` samples, unity after.
    pub xfade_in: Vec<u16>,
    /// Fade-out gains, in units of `UNITY`: the constant-power complement of
    /// `xfade_in` over the first `XFADE_LEN` samples, zero after.
    pub xfade_out: Vec<u16>,
}

/// Number of samples kept from a recording of `available` samples per channel.
pub open spec fn kept_len(available: int) -> int {
    if available < MAX_LEN {
        available
    } else {
        MAX_LEN as int
    }
}

impl SampleStore {
    pub open spec fn len_spec(&self) -> nat {
        self.left@.len()
    }

    /// Both channels and both envelopes have one length, large enough for a
    /// grain longer than the crossfade and at most `MAX_LEN`; the envelopes
    /// keep constant power.
    pub open spec fn wf(&self) -> bool {
        &&& XFADE_LEN < self.left@.len() <= MAX_LEN
        &&& self.right@.len() == self.left@.len()
        &&& self.xfade_in@.len() == self.left@.len()
        &&& envelopes_valid(self.xfade_in@, self.xfade_out@)
    }

    /// Number of samples per channel.
    pub fn len(&self) -> (r: usize)
        requires
            self.wf(),
        ensures
            r == self.len_spec(),
    {
        self.left.len()
    }

    /// Builds a store from two channels of samples and the rising half of the
    /// crossfade ramp. Keeps the first `min(MAX_LEN, left.len(), right.len())`
    /// samples of each channel.
    pub fn new(left: &Vec<i16>, right: &Vec<i16>, ramp: &[u16; XFADE_LEN]) -> (r: Result<
        SampleStore,
        StoreError,
    >)
        ensures
            ({
                let available = if left@.len() < right@.len() {
                    left@.len() as int
                } else {
                    right@.len() as int
                };
                let n = kept_len(available);
                &&& n <= XFADE_LEN ==> r == Err::<SampleStore, StoreError>(StoreError::TooShort)
                &&& n > XFADE_LEN ==> r is Ok
                &&& r is Ok ==> {
                    let s = r->Ok_0;
                    &&& s.wf()
                    &&& s.left@ == left@.subrange(0, n)
                    &&& s.right@ == right@.subrange(0, n)
                    &&& forall|i: int| 0 <= i < n ==> #[trigger] s.xfade_in@[i] == fade_in_gain(ramp@, i)
                }
            }),
    {
        let available = if left.len() < right.len() {
            left.len()
        } else {
            right.len()
        };
        let n = if available < MAX_LEN {
            available
        } else {
            MAX_LEN
        };
        if n <= XFADE_LEN {
            return Err(StoreError::TooShort);
        }
        let mut l: Vec<i16> = Vec::with_capacity(n);
        let mut r: Vec<i16> = Vec::with_capacity(n);
        let mut i: usize = 0;
        while i < n
            invariant
                n <= left@.len(),
                n <= right@.len(),
                i <= n,
                l@ == left@.subrange(0, i as int),
                r@ == right@.subrange(0, i as int),
            decreases n - i,
        {
            l.push(left[i]);
            r.push(right[i]);
            i = i + 1;
            assert(l@ =~= left@.subrange(0, i as int));
            assert(r@ =~= right@.subrange(0, i as int));
        }
        let (xfade_in, xfade_out) = build_envelopes(ramp, n);
        Ok(SampleStore { left: l, right: r, xfade_in, xfade_out })
    }

    /// Builds a store from interleaved frames of `channels` samples each: the
    /// first channel plays left, the second (the first again, for mono) right,
    /// and any further channels are ignored.
    pub fn from_interleaved(data: &Vec<i16>, channels: usize, ramp: &[u16; XFADE_LEN]) -> (r:
        Result<SampleStore, StoreError>)
        ensures
            channels == 0 ==> r == Err::<SampleStore, StoreError>(StoreError::NoChannels),
            channels > 0 ==> ({
                let n = kept_len(data@.len() as int / channels as int);
                let second: int = if channels >= 2 {
                    1
                } else {
                    0
                };
                &&& n <= XFADE_LEN ==> r == Err::<SampleStore, StoreError>(StoreError::TooShort)
                &&& n > XFADE_LEN ==> r is Ok
                &&& r is Ok ==> {
                    let s = r->Ok_0;
                    &&& s.wf()
                    &&& s.len_spec() == n
                    &&& forall|k: int|
                        0 <= k < n ==> #[trigger] s.left@[k] == data@[k * channels]
                            && s.right@[k] == data@[k * channels + second]
                    &&& forall|i: int| 0 <= i < n ==> #[trigger] s.xfade_in@[i] == fade_in_gain(ramp@, i)
                }
            }),
    {
        if channels == 0 {
            return Err(StoreError::NoChannels);
        }
        let second: usize = if channels >= 2 {
            1
        } else {
            0
        };
        let left = deinterleave(data, channels, 0);
        let right = deinterleave(data, channels, second);
        SampleStore::new(&left, &right, ramp)
    }

    /// Builds a store from a single channel, played on both sides.
    pub fn from_mono(samples: &Vec<i16>, ramp: &[u16; XFADE_LEN]) -> (r: Result<
        SampleStore,
        StoreError,
    >)
        ensures
            ({
                let n = kept_len(samples@.len() as int);
                &&& n <= XFADE_LEN ==> r == Err::<SampleStore, StoreError>(StoreError::TooShort)
                &&& n > XFADE_LEN ==> r is Ok
                &&& r is Ok ==> {
                    let s = r->Ok_0;
                    &&& s.wf()
                    &&& s.left@ == samples@.subrange(0, n)
                    &&& s.right@ == samples@.subrange(0, n)
                    &&& forall|i: int| 0 <= i < n ==> #[trigger] s.xfade_in@[i] == fade_in_gain(ramp@, i)
                }
            }),
    {
        SampleStore::new(samples, samples, ramp)
    }
}

/// The samples of one channel out of interleaved frames of `channels`
/// samples; a trailing partial frame is dropped.
pub fn deinterleave(data: &Vec<i16>, channels: usize, channel: usize) -> (r: Vec<i16>)
    requires
        channel < channels,
    ensures
        r@.len() == data@.len() as int / channels as int,
        forall|k: int| 0 <= k < r@.len() ==> #[trigger] r@[k] == data@[k * channels + channel],
{
    let total: usize = data.len();
    let frames: usize = total / channels;
    let mut out: Vec<i16> = Vec::with_capacity(frames);
    let mut k: usize = 0;
    while k < frames
        invariant
            channel < channels,
            total == data@.len(),
            frames == data@.len() as int / channels as int,
            k <= frames,
            out@.len() == k,
            forall|j: int| 0 <= j < k ==> #[trigger] out@[j] == data@[j * channels + channel],
        decreases frames - k,
    {
        assert(k * channels + channel < data@.len()) by (nonlinear_arith)
            requires
                k < frames,
                channel < channels,
                frames == data@.len() as int / channels as int,
                channels > 0,
        ;
        out.push(data[k * channels + channel]);
        k = k + 1;
    }
    out
}

} // verus!

use vstd::prelude::*;

verus! {

/// Number of samples over which the loop seam is crossfaded (about 2 ms at 48 kHz).
pub const XFADE_LEN: usize = 150;

/// Gain of 1.0 in the fixed-point format of the envelope tables.
pub const UNITY: u16 = 32768;

/// `UNITY` as an integer, for specifications.
pub open spec fn unity() -> int {
    UNITY as int
}

/// Constant power, up to rounding: `fade_out` is the largest gain whose square,
/// added to the square of `fade_in`, does not exceed `UNITY²`.
pub open spec fn is_complement(fade_in: int, fade_out: int) -> bool {
    &&& 0 <= fade_out
    &&& fade_in * fade_in + fade_out * fade_out <= unity() * unity()
    &&& unity() * unity() < fade_in * fade_in + (fade_out + 1) * (fade_out + 1)
}

/// The fade-in gain at index `i` for a given ramp: the ramp (capped at unity)
/// over the crossfade window, and unity after it.
pub open spec fn fade_in_gain(ramp: Seq<u16>, i: int) -> int {
    if i < XFADE_LEN {
        if ramp[i] <= UNITY {
            ramp[i] as int
        } else {
            unity()
        }
    } else {
        unity()
    }
}

/// The two envelope tables hold a constant-power pair over the crossfade window,
/// and (1, 0) after it.
pub open spec fn envelopes_valid(fade_in: Seq<u16>, fade_out: Seq<u16>) -> bool {
    &&& fade_in.len() == fade_out.len()
    &&& forall|i: int|
        #![trigger fade_in[i]]
        #![trigger fade_out[i]]
        0 <= i < fade_in.len() && i < XFADE_LEN ==> fade_in[i] <= UNITY && fade_out[i] <= UNITY
            && is_complement(fade_in[i] as int, fade_out[i] as int)
    &&& forall|i: int|
        #![trigger fade_in[i]]
        #![trigger fade_out[i]]
        XFADE_LEN <= i < fade_in.len() ==> fade_in[i] == UNITY && fade_out[i] == 0
}

/// Valid envelope tables keep constant power over the crossfade window, up to
/// rounding: the squared gains sum to at most `UNITY²`, and fall short of it by
/// less than `2 * fade_out + 1`. After the window they hold (1, 0).
pub proof fn lemma_constant_power(fade_in: Seq<u16>, fade_out: Seq<u16>, i: int)
    requires
        envelopes_valid(fade_in, fade_out),
        0 <= i < fade_in.len(),
    ensures
        i < XFADE_LEN ==> {
            let a = fade_in[i] as int;
            let b = fade_out[i] as int;
            &&& a * a + b * b <= unity() * unity()
            &&& unity() * unity() - (2 * b + 1) < a * a + b * b
        },
        i >= XFADE_LEN ==> fade_in[i] == UNITY && fade_out[i] == 0,
{
    if i < XFADE_LEN {
        let a = fade_in[i] as int;
        let b = fade_out[i] as int;
        assert((b + 1) * (b + 1) == b * b + 2 * b + 1) by (nonlinear_arith);
    }
}

/// Integer square root: the largest `r` with `r * r <= n`.
pub fn isqrt(n: u32) -> (r: u32)
    requires
        n <= unity() * unity(),
    ensures
        r * r <= n,
        n < (r + 1) * (r + 1),
{
    let mut lo: u64 = 0;
    let mut hi: u64 = 32769;
    assert(n < 32769 * 32769) by (nonlinear_arith)
        requires
            n <= unity() * unity(),
            unity() == 32768,
    ;
    while hi - lo > 1
        invariant
            lo < hi <= 32769,
            lo * lo <= n,
            n < hi * hi,
        decreases hi - lo,
    {
        let mid: u64 = lo + (hi - lo) / 2;
        assert(mid * mid <= 32769 * 32769) by (nonlinear_arith)
            requires
                mid <= 32769,
        ;
        if mid * mid <= n as u64 {
            lo = mid;
        } else {
            hi = mid;
        }
    }
    assert(hi == lo + 1);
    lo as u32
}

/// The fade-out gain that completes `fade_in` to constant power.
pub fn complement(fade_in: u16) -> (r: u16)
    requires
        fade_in <= UNITY,
    ensures
        r <= UNITY,
        is_complement(fade_in as int, r as int),
{
    let f: u32 = fade_in as u32;
    assert(f * f <= 32768 * 32768) by (nonlinear_arith)
        requires
            f <= 32768,
    ;
    let rest: u32 = 32768 * 32768 - f * f;
    assert(unity() * unity() == 32768 * 32768) by (nonlinear_arith)
        requires
            unity() == 32768,
    ;
    let r = isqrt(rest);
    assert(r <= 32768) by (nonlinear_arith)
        requires
            r * r <= rest,
            rest <= 32768 * 32768,
    ;
    r as u16
}

/// Builds the fade-in and fade-out tables of length `len` from the rising
/// half of a crossfade ramp (a quarter sine, in units of `UNITY`). The fade-out
/// table is derived from the fade-in one so that each pair keeps constant power.
pub fn build_envelopes(ramp: &[u16; XFADE_LEN], len: usize) -> (r: (Vec<u16>, Vec<u16>))
    ensures
        r.0@.len() == len,
        envelopes_valid(r.0@, r.1@),
        forall|i: int| 0 <= i < len ==> #[trigger] r.0@[i] == fade_in_gain(ramp@, i),
{
    let mut fade_in: Vec<u16> = Vec::with_capacity(len);
    let mut fade_out: Vec<u16> = Vec::with_capacity(len);
    let mut i: usize = 0;
    while i < len
        invariant
            i <= len,
            fade_in@.len() == i,
            envelopes_valid(fade_in@, fade_out@),
            forall|j: int| 0 <= j < i ==> #[trigger] fade_in@[j] == fade_in_gain(ramp@, j),
        decreases len - i,
    {
        if i < XFADE_LEN {
            let g: u16 = if ramp[i] <= UNITY {
                ramp[i]
            } else {
                UNITY
            };
            let c = complement(g);
            fade_in.push(g);
            fade_out.push(c);
        } else {
            fade_in.push(UNITY);
            fade_out.push(0);
        }
        i = i + 1;
    }
    (fade_in, fade_out)
}

} // verus!

use vstd::prelude::*;
use crate::envelope::{unity, UNITY, XFADE_LEN};
use crate::params::{GrainParams, GrainStatus};
use crate::shared::SharedParams;
use crate::store::SampleStore;

verus! {

/// `a - b`, or zero where that would be negative.
pub open spec fn sat_sub(a: int, b: int) -> int {
    if a > b {
        a - b
    } else {
        0
    }
}

/// Position within the grain of grain position `p`.
pub open spec fn grain_offset(snap: GrainParams, p: int) -> int {
    p % (snap.length as int)
}

/// Store index of the present sample for grain position `p`.
pub open spec fn buffer_pos(snap: GrainParams, store_len: int, p: int) -> int {
    (snap.start + grain_offset(snap, p)) % store_len
}

/// Envelope position for the fade-in of the next loop iteration, offset by
/// `store_len - 1` so that it stays at `store_len - 1` until the last
/// `XFADE_LEN` samples of the grain.
pub open spec fn xfade_pos(snap: GrainParams, store_len: int, p: int) -> int {
    sat_sub(p, snap.length - XFADE_LEN) % (snap.length as int) + store_len - 1
}

/// Store index of the tail of the current iteration.
pub open spec fn tail_pos(snap: GrainParams, store_len: int, p: int) -> int {
    (buffer_pos(snap, store_len, p) + snap.length) % store_len
}

/// Store index of the fade-in of the next iteration.
pub open spec fn next_pos(snap: GrainParams, store_len: int, p: int) -> int {
    (store_len + buffer_pos(snap, store_len, p) - snap.length) % store_len
}

/// The output frame of one channel at grain position `p`, in sample units
/// times `UNITY²`:
/// silence when off; the present sample when on; when crossfading, the tail of
/// the current iteration under the fade-out, plus the present sample under the
/// fade-in and the fade-out at the next envelope position, plus the start of
/// the next iteration under the fade-in at the envelope position.
pub open spec fn frame_value(store: SampleStore, chan: Seq<i16>, snap: GrainParams, p: int) -> int {
    let n = store.len_spec() as int;
    let q = grain_offset(snap, p);
    let b = buffer_pos(snap, n, p);
    let x = xfade_pos(snap, n, p);
    match snap.status {
        GrainStatus::Off => 0,
        GrainStatus::On => unity() * chan[b] * unity(),
        GrainStatus::XFade => {
            store.xfade_out@[q] * chan[tail_pos(snap, n, p)] * unity()
                + store.xfade_in@[q] * chan[b] * store.xfade_out@[(x + 1) % n]
                + store.xfade_in@[x % n] * chan[next_pos(snap, n, p)] * unity()
        },
    }
}

/// Grain position of frame `i` of a block that starts at playhead `head`: the
/// playhead is first brought inside the current grain length.
pub open spec fn block_pos(snap: GrainParams, head: int, i: int) -> int {
    head % (snap.length as int) + i
}

/// The playhead after a block of `n` frames.
pub open spec fn next_head(snap: GrainParams, head: int, n: int) -> int {
    (head % (snap.length as int) + n) % (snap.length as int)
}

/// Every store and envelope index that a frame reads lies inside the store,
/// for every grain position, as long as the parameters are valid for it.
pub proof fn lemma_reads_in_bounds(snap: GrainParams, store_len: int, p: int)
    requires
        p >= 0,
        snap.valid_for(store_len),
    ensures
        0 <= grain_offset(snap, p) < snap.length <= store_len,
        0 <= buffer_pos(snap, store_len, p) < store_len,
        0 <= tail_pos(snap, store_len, p) < store_len,
        0 <= next_pos(snap, store_len, p) < store_len,
        store_len - 1 <= xfade_pos(snap, store_len, p) < store_len - 1 + snap.length,
        0 <= xfade_pos(snap, store_len, p) % store_len < store_len,
        0 <= (xfade_pos(snap, store_len, p) + 1) % store_len < store_len,
{
}

/// With the status off, every frame is silent, whatever the grain.
pub proof fn lemma_off_is_silent(store: SampleStore, chan: Seq<i16>, snap: GrainParams, p: int)
    requires
        snap.status == GrainStatus::Off,
    ensures
        frame_value(store, chan, snap, p) == 0,
{
}

/// With the status on, every frame is the present sample, scaled to the
/// output format and not blended.
pub proof fn lemma_on_is_direct(store: SampleStore, chan: Seq<i16>, snap: GrainParams, p: int)
    requires
        snap.status == GrainStatus::On,
    ensures
        frame_value(store, chan, snap, p) == chan[buffer_pos(snap, store.len_spec() as int, p)]
            * unity() * unity(),
{
    let b = chan[buffer_pos(snap, store.len_spec() as int, p)] as int;
    assert(unity() * b * unity() == b * unity() * unity()) by (nonlinear_arith);
}

/// Two blocks rendered from the same store, snapshot and playhead are equal
/// frame for frame.
pub proof fn lemma_render_deterministic(
    store: SampleStore,
    chan: Seq<i16>,
    snap: GrainParams,
    head: int,
    a: Seq<i64>,
    b: Seq<i64>,
)
    requires
        a.len() == b.len(),
        forall|i: int| 0 <= i < a.len() ==> #[trigger] a[i] == frame_value(store, chan, snap, block_pos(snap, head, i)),
        forall|i: int| 0 <= i < b.len() ==> #[trigger] b[i] == frame_value(store, chan, snap, block_pos(snap, head, i)),
    ensures
        a == b,
{
    assert(a =~= b);
}

/// `a * s * b` for two gains and a sample.
fn weigh(a: u16, s: i16, b: u16) -> (r: i64)
    requires
        a <= UNITY,
        b <= UNITY,
    ensures
        r == a * s * b,
        -32768 * 32768 * 32768 <= r <= 32768 * 32768 * 32768,
{
    let a64 = a as i64;
    let s64 = s as i64;
    let b64 = b as i64;
    assert(-32768 * 32768 <= a64 * s64 <= 32768 * 32768) by (nonlinear_arith)
        requires
            0 <= a64 <= 32768,
            -32768 <= s64 <= 32767,
    ;
    let m = a64 * s64;
    assert(-32768 * 32768 * 32768 <= m * b64 <= 32768 * 32768 * 32768) by (nonlinear_arith)
        requires
            0 <= b64 <= 32768,
            -32768 * 32768 <= m <= 32768 * 32768,
    ;
    m * b64
}

/// Computes one output frame of channel `chan` at grain position `p`.
fn frame(store: &SampleStore, chan: &Vec<i16>, snap: GrainParams, p: usize) -> (r: i64)
    requires
        store.wf(),
        chan@.len() == store.len_spec(),
        snap.valid_for(store.len_spec() as int),
    ensures
        r == frame_value(*store, chan@, snap, p as int),
{
    let n = store.len();
    let g = snap.length;
    let q = p % g;
    let b = (snap.start + q) % n;
    match snap.status {
        GrainStatus::Off => 0,
        GrainStatus::On => weigh(UNITY, chan[b], UNITY),
        GrainStatus::XFade => {
            let tail = (b + g) % n;
            let next = (n + b - g) % n;
            let lead: usize = if p > g - XFADE_LEN {
                p - (g - XFADE_LEN)
            } else {
                0
            };
            let x = lead % g + n - 1;
            let t1 = weigh(store.xfade_out[q], chan[tail], UNITY);
            let t2 = weigh(store.xfade_in[q], chan[b], store.xfade_out[(x + 1) % n]);
            let t3 = weigh(store.xfade_in[x % n], chan[next], UNITY);
            t1 + t2 + t3
        },
    }
}

/// The real-time renderer. Owns the playhead, which persists across blocks.
pub struct GrainEngine {
    /// Position within the current grain loop.
    pub head: usize,
}

impl GrainEngine {
    /// An engine with its playhead at the start of the grain.
    pub fn new() -> (r: GrainEngine)
        ensures
            r.head == 0,
    {
        GrainEngine { head: 0 }
    }

    /// Fills both output blocks from one parameter snapshot and advances the
    /// playhead by the block size, modulo the grain length. Frames are in
    /// sample units times `UNITY²`.
    pub fn render(
        &mut self,
        store: &SampleStore,
        snap: GrainParams,
        out_l: &mut Vec<i64>,
        out_r: &mut Vec<i64>,
    )
        requires
            store.wf(),
            snap.valid_for(store.len_spec() as int),
            old(out_l)@.len() == old(out_r)@.len(),
            old(out_l)@.len() + store.len_spec() <= usize::MAX,
        ensures
            final(out_l)@.len() == old(out_l)@.len(),
            final(out_r)@.len() == old(out_r)@.len(),
            forall|i: int|
                0 <= i < old(out_l)@.len() ==> #[trigger] final(out_l)@[i] == frame_value(
                    *store,
                    store.left@,
                    snap,
                    block_pos(snap, old(self).head as int, i),
                ),
            forall|i: int|
                0 <= i < old(out_r)@.len() ==> #[trigger] final(out_r)@[i] == frame_value(
                    *store,
                    store.right@,
                    snap,
                    block_pos(snap, old(self).head as int, i),
                ),
            final(self).head == next_head(snap, old(self).head as int, old(out_l)@.len() as int),
    {
        let block = out_l.len();
        let head = self.head % snap.length;
        let mut i: usize = 0;
        while i < block
            invariant
                store.wf(),
                snap.valid_for(store.len_spec() as int),
                block == out_l@.len(),
                out_l@.len() == old(out_l)@.len(),
                out_r@.len() == old(out_r)@.len(),
                block == out_r@.len(),
                block + store.len_spec() <= usize::MAX,
                head == old(self).head as int % (snap.length as int),
                i <= block,
                forall|j: int|
                    0 <= j < i ==> #[trigger] out_l@[j] == frame_value(
                        *store,
                        store.left@,
                        snap,
                        block_pos(snap, old(self).head as int, j),
                    ),
                forall|j: int|
                    0 <= j < i ==> #[trigger] out_r@[j] == frame_value(
                        *store,
                        store.right@,
                        snap,
                        block_pos(snap, old(self).head as int, j),
                    ),
            decreases block - i,
        {
            let p = head + i;
            out_l[i] = frame(store, &store.left, snap, p);
            out_r[i] = frame(store, &store.right, snap, p);
            i = i + 1;
        }
        self.head = (head + block) % snap.length;
    }

    /// One render cycle: copies a snapshot of the shared parameters once,
    /// releases the lock, and renders the whole block from that snapshot,
    /// which it returns.
    pub fn process(
        &mut self,
        store: &SampleStore,
        shared: &SharedParams,
        out_l: &mut Vec<i64>,
        out_r: &mut Vec<i64>,
    ) -> (snap: GrainParams)
        requires
            store.wf(),
            shared.wf(),
            shared.store_len == store.len_spec(),
            old(out_l)@.len() == old(out_r)@.len(),
            old(out_l)@.len() + store.len_spec() <= usize::MAX,
        ensures
            snap.valid_for(store.len_spec() as int),
            final(out_l)@.len() == old(out_l)@.len(),
            final(out_r)@.len() == old(out_r)@.len(),
            forall|i: int|
                0 <= i < old(out_l)@.len() ==> #[trigger] final(out_l)@[i] == frame_value(
                    *store,
                    store.left@,
                    snap,
                    block_pos(snap, old(self).head as int, i),
                ),
            forall|i: int|
                0 <= i < old(out_r)@.len() ==> #[trigger] final(out_r)@[i] == frame_value(
                    *store,
                    store.right@,
                    snap,
                    block_pos(snap, old(self).head as int, i),
                ),
            final(self).head == next_head(snap, old(self).head as int, old(out_l)@.len() as int),
    {
        let snap = shared.snapshot();
        self.render(store, snap, out_l, out_r);
        snap
    }
}

} // verus!

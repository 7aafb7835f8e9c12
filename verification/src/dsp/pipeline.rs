use vstd::prelude::*;
use crate::params::EffectMode;

verus! {

pub const FFT_SIZE: usize = 2048;
pub const NUM_BINS: usize = FFT_SIZE / 2 + 1;
/// Overlap factor: 75% overlap, hop of FFT_SIZE / OVERLAP samples.
pub const OVERLAP: usize = 4;
pub const HOP_SIZE: usize = FFT_SIZE / OVERLAP;

/// Maximum block size assumed for the delta monitor's dry-delay ring buffer.
pub const MAX_BLOCK_SIZE: usize = 8192;
/// Ring-buffer size per channel for the dry-signal delay: FFT_SIZE + MAX_BLOCK_SIZE,
/// so the ring never overwrites samples still needed.
pub const DRY_DELAY_SIZE: usize = FFT_SIZE + MAX_BLOCK_SIZE;
/// Channels held by the dry-signal delay.
pub const DRY_DELAY_CHANNELS: usize = 2;

/// Number of bins of a real FFT of `fft_size` samples.
pub fn num_bins_for(fft_size: usize) -> (n: usize)
    ensures
        n == fft_size / 2 + 1,
{
    fft_size / 2 + 1
}

// ── Delta monitor: dry-signal delay ─────────────────────────────────────────

/// The samples a fresh or reset delay line holds: silence for both channels
/// at the DRY_DELAY_SIZE stream positions before position 0.
pub open spec fn silent_history<T>(silence: T) -> Map<(int, int), T> {
    Map::new(
        |k: (int, int)| 0 <= k.0 < DRY_DELAY_CHANNELS && -(DRY_DELAY_SIZE as int) <= k.1 < 0,
        |k: (int, int)| silence,
    )
}

/// The delta monitor's dry-signal delay: one ring of DRY_DELAY_SIZE samples per
/// channel, channel `c` occupying `[c * DRY_DELAY_SIZE, (c + 1) * DRY_DELAY_SIZE)`.
///
/// Number the samples of the stream from 0. A block starts at stream position
/// `position()`; its dry samples are written at positions `position() + i`
/// before processing, and read back, aligned with the STFT latency of the wet
/// signal, from `position() + i - FFT_SIZE`; then the position advances by the
/// block size. `history()` maps (channel, stream position) to the dry sample
/// written there.
pub struct DryDelay<T> {
    buf: Vec<T>,
    head: usize,
    pos: Ghost<int>,
    hist: Ghost<Map<(int, int), T>>,
}

/// Two stream positions less than one ring apart share a ring slot only when equal.
proof fn lemma_slots_distinct(a: int, b: int)
    requires
        a != b,
        -(DRY_DELAY_SIZE as int) < a - b < DRY_DELAY_SIZE,
    ensures
        a % (DRY_DELAY_SIZE as int) != b % (DRY_DELAY_SIZE as int),
{
    let d = DRY_DELAY_SIZE as int;
    if a % d == b % d {
        vstd::arithmetic::div_mod::lemma_fundamental_div_mod(a, d);
        vstd::arithmetic::div_mod::lemma_fundamental_div_mod(b, d);
        let qa = a / d;
        let qb = b / d;
        assert(a - b == d * (qa - qb)) by (nonlinear_arith)
            requires
                a == d * qa + a % d,
                b == d * qb + b % d,
                a % d == b % d,
        ;
        assert(false) by (nonlinear_arith)
            requires
                a - b == d * (qa - qb),
                a != b,
                -d < a - b < d,
                d > 0,
        ;
    }
}

/// Sample `i` of channel `c` of a block of `n` samples per channel, stored
/// channel after channel.
pub open spec fn block_sample<T>(block: Seq<T>, n: int, c: int, i: int) -> T {
    block[c * n + i]
}

/// The history after a whole block of `n` samples per channel for `channels`
/// channels (stored channel after channel) was written from stream position `p`.
pub open spec fn block_history<T>(
    h: Map<(int, int), T>,
    p: int,
    block: Seq<T>,
    channels: int,
    n: int,
) -> Map<(int, int), T> {
    h.union_prefer_right(
        Map::new(
            |k: (int, int)| 0 <= k.0 < channels && p <= k.1 < p + n,
            |k: (int, int)| block_sample(block, n, k.0, k.1 - p),
        ),
    )
}

/// Stream sample `t` of channel `c`: silence before the stream began.
pub open spec fn stream_sample<T>(x: Seq<Seq<T>>, silence: T, c: int, t: int) -> T {
    if t < 0 {
        silence
    } else {
        x[c][t]
    }
}

/// The stream `x` (one sequence per channel) extended by a block of `n`
/// samples per channel, stored channel after channel.
pub open spec fn extend_stream<T>(x: Seq<Seq<T>>, block: Seq<T>, n: int) -> Seq<Seq<T>> {
    Seq::new(x.len(), |c: int| x[c] + block.subrange(c * n, c * n + n))
}

/// The history `h` at stream position `p` holds the whole stream `x` written
/// so far (`p` samples per channel), and silence for the DRY_DELAY_SIZE
/// positions before it.
pub open spec fn history_carries<T>(h: Map<(int, int), T>, p: int, x: Seq<Seq<T>>, silence: T) -> bool {
    &&& 0 <= p
    &&& x.len() <= DRY_DELAY_CHANNELS
    &&& forall|c: int| 0 <= c < x.len() ==> #[trigger] x[c].len() == p
    &&& forall|c: int, t: int|
        0 <= c < x.len() && -(DRY_DELAY_SIZE as int) <= t < p ==> #[trigger] h.contains_key((c, t))
            && h[(c, t)] == stream_sample(x, silence, c, t)
}

/// Position of sample `i` of channel `c` in a block stored channel after channel.
proof fn lemma_block_index(channels: int, n: int, c: int, i: int)
    requires
        0 <= c < channels,
        0 <= i < n,
    ensures
        0 <= c * n + i < channels * n,
        c * n + n <= channels * n,
        0 <= c * n,
{
    assert(0 <= c * n + i < channels * n && c * n + n <= channels * n && 0 <= c * n) by (nonlinear_arith)
        requires
            0 <= c < channels,
            0 <= i < n,
    ;
}

/// Different samples of a block are stored apart.
proof fn lemma_block_index_distinct(n: int, c1: int, i1: int, c2: int, i2: int)
    requires
        0 <= c1,
        0 <= c2,
        0 <= i1 < n,
        0 <= i2 < n,
        c1 != c2 || i1 != i2,
    ensures
        c1 * n + i1 != c2 * n + i2,
{
    if c1 == c2 {
    } else {
        assert(c1 * n + i1 != c2 * n + i2) by (nonlinear_arith)
            requires
                c1 != c2,
                0 <= i1 < n,
                0 <= i2 < n,
        ;
    }
}

/// A fresh or reset delay line carries the empty stream of any channel count
/// it holds.
pub proof fn lemma_stream_start<T>(silence: T, channels: nat)
    requires
        channels <= DRY_DELAY_CHANNELS,
    ensures
        history_carries(
            silent_history(silence),
            0,
            Seq::new(channels, |c: int| Seq::<T>::empty()),
            silence,
        ),
{
}

/// One block of a stream: if the history carries the stream `x` at position
/// `p`, then after the next block (all `x.len()` channels, `n` samples each)
/// is written, it carries `x` extended by the block at position `p + n`, and
/// it holds, for each sample `i` of the block, stream sample `p + i - FFT_SIZE`
/// (silence where that position is negative).
pub proof fn lemma_stream_block<T>(
    h: Map<(int, int), T>,
    p: int,
    x: Seq<Seq<T>>,
    silence: T,
    block: Seq<T>,
    n: int,
)
    requires
        history_carries(h, p, x, silence),
        0 <= n,
        block.len() == x.len() * n,
    ensures
        history_carries(
            block_history(h, p, block, x.len() as int, n),
            p + n,
            extend_stream(x, block, n),
            silence,
        ),
        forall|c: int, i: int|
            0 <= c < x.len() && 0 <= i < n ==> #[trigger] block_history(
                h,
                p,
                block,
                x.len() as int,
                n,
            ).contains_key((c, p + i - FFT_SIZE)) && block_history(h, p, block, x.len() as int, n)[(
            c,
            p + i - FFT_SIZE,
            )] == stream_sample(extend_stream(x, block, n), silence, c, p + i - FFT_SIZE),
{
    let h1 = block_history(h, p, block, x.len() as int, n);
    let x1 = extend_stream(x, block, n);
    assert forall|c: int| 0 <= c < x1.len() implies #[trigger] x1[c].len() == p + n by {
        lemma_block_index(x.len() as int, n + 1, c, 0);
        assert(c * n + n <= x.len() * n) by (nonlinear_arith)
            requires
                0 <= c < x.len(),
                0 <= n,
        ;
        assert(0 <= c * n) by (nonlinear_arith)
            requires
                0 <= c,
                0 <= n,
        ;
    }
    assert forall|c: int, t: int|
        0 <= c < x1.len() && -(DRY_DELAY_SIZE as int) <= t < p + n implies #[trigger] h1.contains_key(
        (c, t)) && h1[(c, t)] == stream_sample(x1, silence, c, t) by {
        assert(c * n + n <= x.len() * n) by (nonlinear_arith)
            requires
                0 <= c < x.len(),
                0 <= n,
        ;
        assert(0 <= c * n) by (nonlinear_arith)
            requires
                0 <= c,
                0 <= n,
        ;
        if t >= p {
            assert(x1[c] == x[c] + block.subrange(c * n, c * n + n));
            assert(x1[c][t] == block[c * n + (t - p)]);
        } else {
            assert(h.contains_key((c, t)));
            if t >= 0 {
                assert(x1[c][t] == x[c][t]);
            }
        }
    }
    assert forall|c: int, i: int| 0 <= c < x.len() && 0 <= i < n implies #[trigger] h1.contains_key(
        (c, p + i - FFT_SIZE)) && h1[(c, p + i - FFT_SIZE)] == stream_sample(x1, silence, c, p + i
        - FFT_SIZE) by {
        assert(-(DRY_DELAY_SIZE as int) <= p + i - FFT_SIZE < p + n);
        assert(h1.contains_key((c, p + i - FFT_SIZE)));
    }
}

/// The delay line over a whole stream, block by block: if the line carries
/// the stream `x` (every dry sample so far, one sequence per channel), then
/// after `delay_block` has written the next block in full, read it back and
/// advanced the line, the line carries `x` extended by that block, and each
/// sample `i` of channel `c` read back is stream sample
/// `position + i - FFT_SIZE` of the extended stream, silence where that
/// position is negative. With `lemma_stream_start` for a fresh or reset line,
/// this holds for every block of the stream.
pub proof fn lemma_delay_stream<T: Copy>(
    d0: DryDelay<T>,
    d1: DryDelay<T>,
    x: Seq<Seq<T>>,
    silence: T,
    dry: Seq<T>,
    delayed: Seq<T>,
    n: int,
)
    requires
        history_carries(d0.history(), d0.position(), x, silence),
        0 <= n,
        dry.len() == x.len() * n,
        delayed.len() == dry.len(),
        d1.position() == d0.position() + n,
        d1.history() == block_history(d0.history(), d0.position(), dry, x.len() as int, n),
        forall|c: int, i: int|
            0 <= c < x.len() && 0 <= i < n && d1.history().contains_key(
                (c, d0.position() + i - FFT_SIZE),
            ) ==> #[trigger] block_sample(delayed, n, c, i) == d1.history()[(
            c,
            d0.position() + i - FFT_SIZE,
            )],
    ensures
        history_carries(d1.history(), d1.position(), extend_stream(x, dry, n), silence),
        forall|c: int, i: int|
            0 <= c < x.len() && 0 <= i < n ==> #[trigger] block_sample(delayed, n, c, i)
                == stream_sample(extend_stream(x, dry, n), silence, c, d0.position() + i - FFT_SIZE),
{
    lemma_stream_block(d0.history(), d0.position(), x, silence, dry, n);
    assert forall|c: int, i: int| 0 <= c < x.len() && 0 <= i < n implies #[trigger] block_sample(
        delayed,
        n,
        c,
        i,
    ) == stream_sample(extend_stream(x, dry, n), silence, c, d0.position() + i - FFT_SIZE) by {
        assert(block_history(d0.history(), d0.position(), dry, x.len() as int, n).contains_key(
            (c, d0.position() + i - FFT_SIZE),
        ));
    }
}

/// Slot `m` of channel `c` lies inside the ring storage.
proof fn lemma_ring_index(c: int, m: int)
    requires
        0 <= c < DRY_DELAY_CHANNELS,
        0 <= m < DRY_DELAY_SIZE,
    ensures
        0 <= c * DRY_DELAY_SIZE + m < DRY_DELAY_CHANNELS * DRY_DELAY_SIZE,
{
    assert(0 <= c * DRY_DELAY_SIZE + m < DRY_DELAY_CHANNELS * DRY_DELAY_SIZE) by (nonlinear_arith)
        requires
            0 <= c < DRY_DELAY_CHANNELS,
            0 <= m < DRY_DELAY_SIZE,
    ;
}

/// Slots of different channels are stored apart.
proof fn lemma_ring_index_distinct(c1: int, m1: int, c2: int, m2: int)
    requires
        c1 != c2,
        0 <= c1 < DRY_DELAY_CHANNELS,
        0 <= c2 < DRY_DELAY_CHANNELS,
        0 <= m1 < DRY_DELAY_SIZE,
        0 <= m2 < DRY_DELAY_SIZE,
    ensures
        c1 * DRY_DELAY_SIZE + m1 != c2 * DRY_DELAY_SIZE + m2,
{
    assert(c1 * DRY_DELAY_SIZE + m1 != c2 * DRY_DELAY_SIZE + m2) by (nonlinear_arith)
        requires
            c1 != c2,
            0 <= m1 < DRY_DELAY_SIZE,
            0 <= m2 < DRY_DELAY_SIZE,
    ;
}

/// The ring slot of stream position `t + i + DRY_DELAY_SIZE - FFT_SIZE`
/// computed from the head `t % DRY_DELAY_SIZE` is the slot of `t + i - FFT_SIZE`.
proof fn lemma_head_mod(t: int, x: int)
    ensures
        (t % (DRY_DELAY_SIZE as int) + x + DRY_DELAY_SIZE) % (DRY_DELAY_SIZE as int) == (t + x) % (
        DRY_DELAY_SIZE as int),
        (t % (DRY_DELAY_SIZE as int) + x) % (DRY_DELAY_SIZE as int) == (t + x) % (
        DRY_DELAY_SIZE as int),
{
    let d = DRY_DELAY_SIZE as int;
    vstd::arithmetic::div_mod::lemma_add_mod_noop(t, x, d);
    vstd::arithmetic::div_mod::lemma_add_mod_noop(t % d, x, d);
    vstd::arithmetic::div_mod::lemma_mod_twice(t, d);
    vstd::arithmetic::div_mod::lemma_mod_add_multiples_vanish(t % d + x, d);
}

impl<T: Copy> DryDelay<T> {
    /// The ring holds, at each position of the window a block may read or
    /// write, the sample the history records there.
    pub closed spec fn wf(&self) -> bool {
        &&& self.buf@.len() == DRY_DELAY_CHANNELS * DRY_DELAY_SIZE
        &&& self.head < DRY_DELAY_SIZE
        &&& self.head as int == self.pos@ % (DRY_DELAY_SIZE as int)
        &&& self.pos@ >= 0
        &&& forall|k: (int, int)|
            #[trigger] self.hist@.contains_key(k) ==> 0 <= k.0 < DRY_DELAY_CHANNELS && k.1
                < self.pos@ + MAX_BLOCK_SIZE
        &&& forall|k: (int, int)|
            #[trigger] self.hist@.contains_key(k) && self.pos@ - FFT_SIZE <= k.1 ==> self.buf@[k.0
                * DRY_DELAY_SIZE + k.1 % (DRY_DELAY_SIZE as int)] == self.hist@[k]
    }

    /// Stream position of the current block's first sample.
    pub closed spec fn position(&self) -> int {
        self.pos@
    }

    /// The dry samples written, by (channel, stream position).
    pub closed spec fn history(&self) -> Map<(int, int), T> {
        self.hist@
    }

    /// A delay line at stream position 0 whose past is silence.
    pub fn new(silence: T) -> (d: Self)
        ensures
            d.wf(),
            d.position() == 0,
            d.history() == silent_history(silence),
    {
        let mut buf: Vec<T> = Vec::new();
        let mut k: usize = 0;
        while k < DRY_DELAY_CHANNELS * DRY_DELAY_SIZE
            invariant
                k <= DRY_DELAY_CHANNELS * DRY_DELAY_SIZE,
                buf@.len() == k,
                forall|m: int| 0 <= m < k ==> #[trigger] buf@[m] == silence,
            decreases DRY_DELAY_CHANNELS * DRY_DELAY_SIZE - k,
        {
            buf.push(silence);
            k = k + 1;
        }
        let d = DryDelay { buf, head: 0, pos: Ghost(0), hist: Ghost(silent_history(silence)) };
        proof {
            assert forall|key: (int, int)|
                #[trigger] d.hist@.contains_key(key) && d.pos@ - FFT_SIZE <= key.1 implies d.buf@[key.0
                * DRY_DELAY_SIZE + key.1 % (DRY_DELAY_SIZE as int)] == d.hist@[key] by {
                let m = key.1 % (DRY_DELAY_SIZE as int);
                assert(0 <= m < DRY_DELAY_SIZE);
                lemma_ring_index(key.0, m);
            }
        }
        d
    }

    /// Fills the delay with `silence` and moves back to stream position 0.
    pub fn reset(&mut self, silence: T)
        requires
            old(self).wf(),
        ensures
            final(self).wf(),
            final(self).position() == 0,
            final(self).history() == silent_history(silence),
    {
        let n = self.buf.len();
        let mut k: usize = 0;
        while k < n
            invariant
                n == DRY_DELAY_CHANNELS * DRY_DELAY_SIZE,
                k <= n,
                self.buf@.len() == n,
                forall|m: int| 0 <= m < k ==> #[trigger] self.buf@[m] == silence,
            decreases n - k,
        {
            self.buf.set(k, silence);
            k = k + 1;
        }
        self.head = 0;
        self.pos = Ghost(0);
        self.hist = Ghost(silent_history(silence));
        proof {
            assert forall|key: (int, int)|
                #[trigger] self.hist@.contains_key(key) && self.pos@ - FFT_SIZE <= key.1 implies self.buf@[
                key.0 * DRY_DELAY_SIZE + key.1 % (DRY_DELAY_SIZE as int)] == self.hist@[key] by {
                let m = key.1 % (DRY_DELAY_SIZE as int);
                lemma_ring_index(key.0, m);
            }
        }
    }

    /// Stores the dry sample `s` of channel `ch` at position `i` of the current block.
    pub fn write(&mut self, ch: usize, i: usize, s: T)
        requires
            old(self).wf(),
            ch < DRY_DELAY_CHANNELS,
            i < MAX_BLOCK_SIZE,
        ensures
            final(self).wf(),
            final(self).position() == old(self).position(),
            final(self).history() == old(self).history().insert(
                (ch as int, old(self).position() + i),
                s,
            ),
    {
        let ghost t = self.pos@;
        let ghost old_buf = self.buf@;
        let ghost old_hist = self.hist@;
        let pos = (self.head + i) % DRY_DELAY_SIZE;
        proof {
            lemma_head_mod(t, i as int);
        }
        let idx = ch * DRY_DELAY_SIZE + pos;
        self.buf.set(idx, s);
        self.hist = Ghost(old_hist.insert((ch as int, t + i), s));
        proof {
            assert forall|key: (int, int)|
                #[trigger] self.hist@.contains_key(key) && self.pos@ - FFT_SIZE <= key.1 implies self.buf@[
                key.0 * DRY_DELAY_SIZE + key.1 % (DRY_DELAY_SIZE as int)] == self.hist@[key] by {
                let m = key.1 % (DRY_DELAY_SIZE as int);
                lemma_ring_index(key.0, m);
                if key != (ch as int, t + i) {
                    assert(old_hist.contains_key(key));
                    if key.0 == ch as int {
                        lemma_slots_distinct(key.1, t + i);
                    } else {
                        lemma_ring_index_distinct(key.0, m, ch as int, pos as int);
                    }
                }
            }
        }
    }

    /// The dry sample of channel `ch` that lines up with position `i` of the
    /// current block: the one written FFT_SIZE stream positions earlier (silence
    /// before the stream began). No later write in between can have replaced it,
    /// since a ring holds FFT_SIZE + MAX_BLOCK_SIZE samples.
    pub fn read(&self, ch: usize, i: usize) -> (s: T)
        requires
            self.wf(),
            ch < DRY_DELAY_CHANNELS,
            i < MAX_BLOCK_SIZE,
        ensures
            self.history().contains_key((ch as int, self.position() + i - FFT_SIZE)) ==> s
                == self.history()[(ch as int, self.position() + i - FFT_SIZE)],
    {
        let pos = (self.head + i + DRY_DELAY_SIZE - FFT_SIZE) % DRY_DELAY_SIZE;
        proof {
            lemma_head_mod(self.pos@, i - FFT_SIZE);
            let key = (ch as int, self.pos@ + i - FFT_SIZE);
            if self.hist@.contains_key(key) {
                assert(self.buf@[key.0 * DRY_DELAY_SIZE + key.1 % (DRY_DELAY_SIZE as int)]
                    == self.hist@[key]);
            }
        }
        self.buf[ch * DRY_DELAY_SIZE + pos]
    }

    /// Delays one whole block of dry samples: `block` holds `n` samples for
    /// each of `channels` channels, channel after channel. All are written,
    /// then each is replaced by the dry sample FFT_SIZE stream positions
    /// earlier, and the line advances past the block.
    pub fn delay_block(&mut self, block: &mut Vec<T>, channels: usize, n: usize)
        requires
            old(self).wf(),
            channels <= DRY_DELAY_CHANNELS,
            n <= MAX_BLOCK_SIZE,
            old(block)@.len() == channels * n,
        ensures
            final(self).wf(),
            final(self).position() == old(self).position() + n,
            final(self).history() == block_history(
                old(self).history(),
                old(self).position(),
                old(block)@,
                channels as int,
                n as int,
            ),
            final(block)@.len() == old(block)@.len(),
            forall|c: int, i: int|
                0 <= c < channels && 0 <= i < n && final(self).history().contains_key(
                    (c, old(self).position() + i - FFT_SIZE),
                ) ==> #[trigger] block_sample(final(block)@, n as int, c, i)
                    == final(self).history()[(c, old(self).position() + i - FFT_SIZE)],
    {
        let ghost p = self.pos@;
        let ghost h0 = self.hist@;
        let ghost dry = block@;
        proof {
            assert(self.hist@ =~= h0.union_prefer_right(
                Map::new(
                    |k: (int, int)| 0 <= k.0 < 0 && p <= k.1 < p + n,
                    |k: (int, int)| block_sample(dry, n as int, k.0, k.1 - p),
                ),
            ));
        }
        let mut c: usize = 0;
        while c < channels
            invariant
                self.wf(),
                self.pos@ == p,
                block@ == dry,
                dry.len() == channels * n,
                channels <= DRY_DELAY_CHANNELS,
                n <= MAX_BLOCK_SIZE,
                c <= channels,
                self.hist@ == h0.union_prefer_right(
                    Map::new(
                        |k: (int, int)| 0 <= k.0 < c && p <= k.1 < p + n,
                        |k: (int, int)| block_sample(dry, n as int, k.0, k.1 - p),
                    ),
                ),
            decreases channels - c,
        {
            proof {
                assert(self.hist@ =~= h0.union_prefer_right(
                    Map::new(
                        |k: (int, int)|
                            (0 <= k.0 < c && p <= k.1 < p + n) || (k.0 == c && p <= k.1 < p + 0),
                        |k: (int, int)| block_sample(dry, n as int, k.0, k.1 - p),
                    ),
                ));
            }
            let mut i: usize = 0;
            while i < n
                invariant
                    self.wf(),
                    self.pos@ == p,
                    block@ == dry,
                    dry.len() == channels * n,
                    channels <= DRY_DELAY_CHANNELS,
                    n <= MAX_BLOCK_SIZE,
                    c < channels,
                    i <= n,
                    self.hist@ == h0.union_prefer_right(
                        Map::new(
                            |k: (int, int)|
                                (0 <= k.0 < c && p <= k.1 < p + n) || (k.0 == c && p <= k.1 < p
                                    + i),
                            |k: (int, int)| block_sample(dry, n as int, k.0, k.1 - p),
                        ),
                    ),
                decreases n - i,
            {
                proof {
                    lemma_block_index(channels as int, n as int, c as int, i as int);
                }
                let s = block[c * n + i];
                let ghost before = self.hist@;
                self.write(c, i, s);
                proof {
                    assert(self.hist@ =~= h0.union_prefer_right(
                        Map::new(
                            |k: (int, int)|
                                (0 <= k.0 < c && p <= k.1 < p + n) || (k.0 == c && p <= k.1 < p
                                    + i + 1),
                            |k: (int, int)| block_sample(dry, n as int, k.0, k.1 - p),
                        ),
                    ));
                }
                i = i + 1;
            }
            proof {
                assert(self.hist@ =~= h0.union_prefer_right(
                    Map::new(
                        |k: (int, int)| 0 <= k.0 < c + 1 && p <= k.1 < p + n,
                        |k: (int, int)| block_sample(dry, n as int, k.0, k.1 - p),
                    ),
                ));
            }
            c = c + 1;
        }
        let ghost h1 = self.hist@;
        proof {
            assert(h1 =~= block_history(h0, p, dry, channels as int, n as int));
        }
        let mut c: usize = 0;
        while c < channels
            invariant
                self.wf(),
                self.pos@ == p,
                self.hist@ == h1,
                block@.len() == channels * n,
                channels <= DRY_DELAY_CHANNELS,
                n <= MAX_BLOCK_SIZE,
                c <= channels,
                forall|c2: int, i2: int|
                    0 <= c2 < c && 0 <= i2 < n && h1.contains_key((c2, p + i2 - FFT_SIZE))
                        ==> #[trigger] block_sample(block@, n as int, c2, i2) == h1[(
                    c2,
                    p + i2 - FFT_SIZE,
                    )],
            decreases channels - c,
        {
            let mut i: usize = 0;
            while i < n
                invariant
                    self.wf(),
                    self.pos@ == p,
                    self.hist@ == h1,
                    block@.len() == channels * n,
                    channels <= DRY_DELAY_CHANNELS,
                    n <= MAX_BLOCK_SIZE,
                    c < channels,
                    i <= n,
                    forall|c2: int, i2: int|
                        ((0 <= c2 < c && 0 <= i2 < n) || (c2 == c && 0 <= i2 < i))
                            && h1.contains_key((c2, p + i2 - FFT_SIZE)) ==> #[trigger] block_sample(
                            block@,
                            n as int,
                            c2,
                            i2,
                        ) == h1[(c2, p + i2 - FFT_SIZE)],
                decreases n - i,
            {
                proof {
                    lemma_block_index(channels as int, n as int, c as int, i as int);
                }
                let v = self.read(c, i);
                let ghost before = block@;
                block.set(c * n + i, v);
                proof {
                    assert forall|c2: int, i2: int|
                        ((0 <= c2 < c && 0 <= i2 < n) || (c2 == c && 0 <= i2 < i + 1))
                            && h1.contains_key((c2, p + i2 - FFT_SIZE)) implies #[trigger] block_sample(
                        block@,
                        n as int,
                        c2,
                        i2,
                    ) == h1[(c2, p + i2 - FFT_SIZE)] by {
                        if c2 != c || i2 != i {
                            lemma_block_index_distinct(n as int, c2, i2, c as int, i as int);
                            lemma_block_index(channels as int, n as int, c2, i2);
                            assert(block@[c2 * n + i2] == before[c2 * n + i2]);
                            assert(block_sample(before, n as int, c2, i2) == h1[(c2, p + i2 - FFT_SIZE)]);
                        } else {
                            assert(block@[c * n + i] == v);
                            assert(v == h1[(c2, p + i2 - FFT_SIZE)]);
                        }
                    }
                }
                i = i + 1;
            }
            c = c + 1;
        }
        self.advance(n);
    }

    /// Moves past a block of `block_samples` samples.
    pub fn advance(&mut self, block_samples: usize)
        requires
            old(self).wf(),
            block_samples <= MAX_BLOCK_SIZE,
        ensures
            final(self).wf(),
            final(self).position() == old(self).position() + block_samples,
            final(self).history() == old(self).history(),
    {
        let ghost t = self.pos@;
        self.head = (self.head + block_samples) % DRY_DELAY_SIZE;
        self.pos = Ghost(t + block_samples);
        proof {
            lemma_head_mod(t, block_samples as int);
            vstd::arithmetic::div_mod::lemma_mod_twice(t + block_samples, DRY_DELAY_SIZE as int);
        }
    }
}

// ── Phase randomiser: xorshift64 generator ──────────────────────────────────

/// Initial state of the phase randomiser's generator.
pub const RNG_SEED: u64 = 0xdeadbeef_cafebabe_u64;

/// One xorshift64 step (shifts 13, 7, 17).
pub open spec fn xorshift64(x: u64) -> u64 {
    let a = x ^ (x << 13u64);
    let b = a ^ (a >> 7u64);
    b ^ (b << 17u64)
}

/// The generator state after `n` steps from `x`.
pub open spec fn xorshift64_iter(x: u64, n: nat) -> u64
    decreases n,
{
    if n == 0 {
        x
    } else {
        xorshift64(xorshift64_iter(x, (n - 1) as nat))
    }
}

/// Advances the generator by one step.
pub fn xorshift64_next(state: &mut u64)
    ensures
        *final(state) == xorshift64(*old(state)),
{
    let mut x = *state;
    x = x ^ (x << 13u64);
    x = x ^ (x >> 7u64);
    x = x ^ (x << 17u64);
    *state = x;
}

/// A nonzero generator state never becomes zero: each of the three
/// xor-shift steps is invertible and keeps zero as its only fixed point.
pub proof fn lemma_xorshift64_nonzero(x: u64)
    requires
        x != 0,
    ensures
        xorshift64(x) != 0,
{
    let a = x ^ (x << 13u64);
    let b = a ^ (a >> 7u64);
    assert(x != 0 ==> x ^ (x << 13u64) != 0) by (bit_vector);
    assert(a != 0 ==> a ^ (a >> 7u64) != 0) by (bit_vector);
    assert(b != 0 ==> b ^ (b << 17u64) != 0) by (bit_vector);
}

/// From a nonzero state the generator stays nonzero however often it steps;
/// in particular from `RNG_SEED`.
pub proof fn lemma_xorshift64_iter_nonzero(x: u64, n: nat)
    requires
        x != 0,
    ensures
        xorshift64_iter(x, n) != 0,
    decreases n,
{
    if n > 0 {
        lemma_xorshift64_iter_nonzero(x, (n - 1) as nat);
        lemma_xorshift64_nonzero(xorshift64_iter(x, (n - 1) as nat));
    }
}

/// The random draws of one phase-randomisation hop over `num_bins` bins.
///
/// The generator advances once per bin, also for the skipped bins, so the
/// sequence does not depend on which bins are skipped. The DC bin (0) and
/// the Nyquist bin (the last) stay real for the inverse FFT and get no draw
/// (`None`); bin `k` in between gets the state after `k + 1` steps.
pub fn phase_rand_draws(state: &mut u64, num_bins: usize) -> (draws: Vec<Option<u64>>)
    requires
        num_bins >= 1,
    ensures
        draws@.len() == num_bins,
        *final(state) == xorshift64_iter(*old(state), num_bins as nat),
        forall|k: int|
            0 <= k < num_bins ==> #[trigger] draws@[k] == (if k == 0 || k == num_bins - 1 {
                None
            } else {
                Some(xorshift64_iter(*old(state), (k + 1) as nat))
            }),
{
    let ghost start = *state;
    let last = num_bins - 1;
    let mut draws: Vec<Option<u64>> = Vec::new();
    let mut k: usize = 0;
    while k < num_bins
        invariant
            last == num_bins - 1,
            k <= num_bins,
            draws@.len() == k,
            *state == xorshift64_iter(start, k as nat),
            forall|m: int|
                0 <= m < k ==> #[trigger] draws@[m] == (if m == 0 || m == num_bins - 1 {
                    None
                } else {
                    Some(xorshift64_iter(start, (m + 1) as nat))
                }),
        decreases num_bins - k,
    {
        xorshift64_next(state);
        if k == 0 || k == last {
            draws.push(None);
        } else {
            draws.push(Some(*state));
        }
        k = k + 1;
    }
    draws
}

// ── Freeze: capture latch and per-bin hold counter ──────────────────────────

/// Whether the Freeze state machine holds a captured spectrum. Re-engaging
/// Freeze after any hop in another mode always captures a fresh spectrum.
pub struct FreezeLatch {
    captured: bool,
}

impl FreezeLatch {
    pub closed spec fn is_captured(&self) -> bool {
        self.captured
    }

    pub fn new() -> (l: Self)
        ensures
            !l.is_captured(),
    {
        FreezeLatch { captured: false }
    }

    /// Forgets the captured spectrum.
    pub fn reset(&mut self)
        ensures
            !final(self).is_captured(),
    {
        self.captured = false;
    }

    pub fn captured(&self) -> (c: bool)
        ensures
            c == self.is_captured(),
    {
        self.captured
    }

    /// Records one hop in `mode`; returns whether the current frame must be
    /// captured as the initial frozen state (the first Freeze hop after a hop
    /// in another mode, or after a reset).
    pub fn on_hop(&mut self, mode: EffectMode) -> (capture_now: bool)
        ensures
            capture_now == (mode == EffectMode::Freeze && !old(self).is_captured()),
            final(self).is_captured() == (mode == EffectMode::Freeze),
    {
        let capture_now = mode == EffectMode::Freeze && !self.captured;
        self.captured = mode == EffectMode::Freeze;
        capture_now
    }
}

/// Outcome of one settled hop of a frozen bin.
#[derive(Debug, Clone, Copy, PartialEq, Eq, Structural)]
pub struct FreezeHold {
    /// Hops spent in the settled state after this hop.
    pub hold_hops: u32,
    /// Whether the bin glides to the current frame as its new target.
    pub retarget: bool,
}

/// One settled hop of a frozen bin: the hold counter advances; when the bin
/// has been held for `length_hops` and the accumulated energy above threshold
/// has reached the resistance (`accum_reached`), it retargets and the counter
/// restarts from 0.
pub fn freeze_hold_step(hold_hops: u32, length_hops: u32, accum_reached: bool) -> (h: FreezeHold)
    requires
        hold_hops < u32::MAX,
    ensures
        h.retarget == (hold_hops + 1 >= length_hops && accum_reached),
        h.hold_hops == (if h.retarget {
            0
        } else {
            hold_hops + 1
        }),
{
    let held = hold_hops + 1;
    if held >= length_hops && accum_reached {
        FreezeHold { hold_hops: 0, retarget: true }
    } else {
        FreezeHold { hold_hops: held, retarget: false }
    }
}

} // verus!

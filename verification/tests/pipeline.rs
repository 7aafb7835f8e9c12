use spectral_forge::dsp::pipeline::{
    freeze_hold_step, num_bins_for, phase_rand_draws, xorshift64_next, DryDelay, FreezeLatch,
    DRY_DELAY_SIZE, FFT_SIZE, HOP_SIZE, MAX_BLOCK_SIZE, NUM_BINS, OVERLAP, RNG_SEED,
};
use spectral_forge::params::EffectMode;

fn xorshift(mut x: u64) -> u64 {
    x ^= x << 13;
    x ^= x >> 7;
    x ^= x << 17;
    x
}

#[test]
fn pipeline_constants() {
    assert_eq!(NUM_BINS, FFT_SIZE / 2 + 1);
    assert_eq!(HOP_SIZE, FFT_SIZE / OVERLAP);
    assert_eq!(DRY_DELAY_SIZE, FFT_SIZE + MAX_BLOCK_SIZE);
    assert_eq!(num_bins_for(2048), 1025);
    assert_eq!(num_bins_for(4096), 2049);
    assert_eq!(num_bins_for(0), 1);
}

#[test]
fn xorshift_step_matches_reference() {
    let mut s = RNG_SEED;
    xorshift64_next(&mut s);
    assert_eq!(s, xorshift(RNG_SEED));
    let mut one = 1u64;
    xorshift64_next(&mut one);
    // 1 ^ (1 << 13) = 0x2001; ^ (>> 7) = 0x2001 ^ 0x40 = 0x2041; ^ (<< 17)
    assert_eq!(one, 0x2041 ^ (0x2041 << 17));
}

#[test]
fn xorshift_stays_nonzero() {
    let mut s = RNG_SEED;
    for _ in 0..10_000 {
        xorshift64_next(&mut s);
        assert_ne!(s, 0);
    }
    let mut z = 0u64;
    xorshift64_next(&mut z);
    assert_eq!(z, 0);
}

#[test]
fn phase_rand_skips_dc_and_nyquist() {
    let mut s = RNG_SEED;
    let draws = phase_rand_draws(&mut s, 5);
    assert_eq!(draws.len(), 5);
    let mut expect = RNG_SEED;
    for k in 0..5 {
        expect = xorshift(expect);
        if k == 0 || k == 4 {
            assert_eq!(draws[k], None);
        } else {
            assert_eq!(draws[k], Some(expect));
        }
    }
    assert_eq!(s, expect);
}

#[test]
fn phase_rand_single_bin() {
    let mut s = 7u64;
    let draws = phase_rand_draws(&mut s, 1);
    assert_eq!(draws, vec![None]);
    assert_eq!(s, xorshift(7));
}

#[test]
fn freeze_latch_captures_on_entry_only() {
    let mut l = FreezeLatch::new();
    assert!(!l.captured());
    assert!(!l.on_hop(EffectMode::Bypass));
    assert!(l.on_hop(EffectMode::Freeze));
    assert!(l.captured());
    assert!(!l.on_hop(EffectMode::Freeze));
    assert!(!l.on_hop(EffectMode::PhaseRand));
    assert!(!l.captured());
    assert!(l.on_hop(EffectMode::Freeze));
    l.reset();
    assert!(!l.captured());
    assert!(l.on_hop(EffectMode::Freeze));
}

#[test]
fn freeze_hold_counts_and_retargets() {
    let h = freeze_hold_step(0, 3, true);
    assert_eq!((h.hold_hops, h.retarget), (1, false));
    let h = freeze_hold_step(2, 3, false);
    assert_eq!((h.hold_hops, h.retarget), (3, false));
    let h = freeze_hold_step(2, 3, true);
    assert_eq!((h.hold_hops, h.retarget), (0, true));
    let h = freeze_hold_step(0, 0, true);
    assert_eq!((h.hold_hops, h.retarget), (0, true));
}

#[test]
fn dry_delay_returns_sample_fft_size_later() {
    let mut d: DryDelay<i64> = DryDelay::new(0);
    let block = 512usize;
    let mut t: i64 = 0;
    let mut out: Vec<(i64, i64)> = Vec::new();
    for _ in 0..40 {
        for i in 0..block {
            for ch in 0..2 {
                d.write(ch, i, (t + i as i64) * 10 + ch as i64);
            }
        }
        for i in 0..block {
            out.push((t + i as i64, d.read(1, i)));
        }
        d.advance(block);
        t += block as i64;
    }
    for (pos, v) in out {
        if pos >= FFT_SIZE as i64 {
            assert_eq!(v, (pos - FFT_SIZE as i64) * 10 + 1);
        } else {
            assert_eq!(v, 0);
        }
    }
}

#[test]
fn dry_delay_large_blocks() {
    let mut d: DryDelay<u32> = DryDelay::new(u32::MAX);
    let mut t: u32 = 0;
    for &block in &[MAX_BLOCK_SIZE, 100, MAX_BLOCK_SIZE, 3000] {
        for i in 0..block {
            d.write(0, i, t + i as u32);
        }
        for i in 0..block {
            let pos = t + i as u32;
            let got = d.read(0, i);
            if pos >= FFT_SIZE as u32 {
                assert_eq!(got, pos - FFT_SIZE as u32);
            } else {
                assert_eq!(got, u32::MAX);
            }
        }
        d.advance(block);
        t += block as u32;
    }
    d.reset(7);
    assert_eq!(d.read(0, 0), 7);
    assert_eq!(d.read(1, 100), 7);
}

#[test]
fn delay_block_streams_with_fft_latency() {
    let mut d: DryDelay<i64> = DryDelay::new(-1);
    let sizes = [700usize, 1, 4096, MAX_BLOCK_SIZE, 33, 2048, 512];
    let mut t: i64 = 0;
    for &n in sizes.iter().cycle().take(20) {
        let mut block: Vec<i64> = Vec::with_capacity(2 * n);
        for c in 0..2i64 {
            for i in 0..n as i64 {
                block.push((t + i) * 2 + c);
            }
        }
        d.delay_block(&mut block, 2, n);
        for c in 0..2usize {
            for i in 0..n {
                let src = t + i as i64 - FFT_SIZE as i64;
                let expect = if src < 0 { -1 } else { src * 2 + c as i64 };
                assert_eq!(block[c * n + i], expect);
            }
        }
        t += n as i64;
    }
}

#[test]
fn delay_block_mono() {
    let mut d: DryDelay<u32> = DryDelay::new(0);
    let mut first: Vec<u32> = (1..=2048).collect();
    d.delay_block(&mut first, 1, 2048);
    assert!(first.iter().all(|&v| v == 0));
    let mut second: Vec<u32> = vec![9; 3];
    d.delay_block(&mut second, 1, 3);
    assert_eq!(second, vec![1, 2, 3]);
}

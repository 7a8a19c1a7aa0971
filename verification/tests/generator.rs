use std::f32::consts::PI;

use fours::SignalGenerator;
use num_complex::Complex32;

/// The inverse-transform factors for time index `n` over `len` bins: entry
/// `k` holds `(1/N) * e^(i*2*pi*k*n/N)`.
fn gen_factors(n: usize, len: usize) -> Vec<Complex32> {
    let denom = 1.0 / len as f32;
    let angle = 2.0 * PI * n as f32 * denom;
    (0..len)
        .map(|k| Complex32::new(0.0, k as f32 * angle).exp() * denom)
        .collect()
}

/// Pull one sample from the generator.
fn sample(g: &mut SignalGenerator) -> Complex32 {
    let factors = gen_factors(g.index(), g.len());
    g.next(&factors)
}

fn lift(x: &[i32]) -> Vec<Complex32> {
    x.iter().map(|&v| Complex32::from(v as f32)).collect()
}

fn dft_rows(len: usize) -> Vec<Vec<Complex32>> {
    (0..len)
        .map(|k| {
            (0..len)
                .map(|n| {
                    Complex32::new(0.0, -2.0 * PI * k as f32 * n as f32 / len as f32).exp()
                })
                .collect()
        })
        .collect()
}

#[test]
fn lib_it_should_work() {
    let bins = (0..10)
        .into_iter()
        .map(|e| Complex32::new(if e < 1 { 1000.0 } else { 0.0 }, 0.0))
        .collect::<Vec<_>>();
    let mut generator = SignalGenerator::new(&bins[..]).unwrap();

    for _ in 0..50 {
        println!("{:?}", sample(&mut generator).norm());
    }

    let first = sample(&mut generator);
    for _ in 0..10 {
        sample(&mut generator);
    }
    let again = sample(&mut generator);
    assert_eq!(first, again);
}

#[test]
fn sampling_repeats_with_period_n() {
    let x = [-50, 0, 50, 0, -50, 0, 50, 0];
    let bins = fours::dft_sums(&lift(&x), &dft_rows(x.len()));
    let mut generator = SignalGenerator::new(&bins[..]).unwrap();
    let samples: Vec<Complex32> = (0..16).map(|_| sample(&mut generator)).collect();
    for i in 0..8 {
        assert_eq!(samples[i], samples[i + 8]);
    }
}

#[test]
fn round_trip_recovers_the_time_series() {
    let x = [-50, 0, 50, 0, -50, 0, 50, 0];
    let bins = fours::dft_sums(&lift(&x), &dft_rows(x.len()));
    let mut generator = SignalGenerator::new(&bins[..]).unwrap();
    for n in 0..8 {
        let s = sample(&mut generator);
        assert!(
            (s.re - x[n] as f32).abs() < 0.01,
            "sample {} real part was {}",
            n,
            s.re
        );
        assert!((s.im).abs() < 0.01, "sample {} imaginary part was {}", n, s.im);
    }
}

#[test]
fn empty_bin_sequence_is_rejected() {
    let bins: Vec<Complex32> = Vec::new();
    assert!(SignalGenerator::new(&bins[..]).is_none());
    let one = vec![Complex32::new(1.0, 0.0)];
    assert!(SignalGenerator::new(&one[..]).is_some());
}

#[test]
fn cursor_advances_and_wraps() {
    let bins = vec![Complex32::new(1.0, 0.0), Complex32::new(2.0, 0.0)];
    let mut generator = SignalGenerator::new(&bins[..]).unwrap();
    assert_eq!(generator.len(), 2);
    assert_eq!(generator.index(), 0);
    sample(&mut generator);
    assert_eq!(generator.index(), 1);
    sample(&mut generator);
    assert_eq!(generator.index(), 0);
}

//! Verified core of a small digital-signal-processing toolkit.
//!
//! Three primitives are covered: a discrete Fourier transform over complex
//! frequency bins, a streaming signal generator that walks those bins with a
//! wrapping cursor, and the admission rule for a single-pole low-pass
//! filter's cutoff parameter. Complex values are `num_complex::Complex32`,
//! carried opaquely; every combination of them goes through named, trusted
//! arithmetic wrappers, so that each sum the library returns is pinned to an
//! exact spec-level expression.

mod cx;
mod dft;
mod lowpass;
mod siggen;
mod sums;

pub use cx::cadd_val;
pub use cx::cmul_val;
pub use dft::dft_sums;
pub use lowpass::cutoff_is_valid;
pub use lowpass::valid_cutoff_bits;
pub use siggen::cursor_after;
pub use siggen::lemma_cursor_after_linear;
pub use siggen::lemma_cursor_period;
pub use siggen::lemma_sample_stream_periodic;
pub use siggen::sample_stream;
pub use siggen::SignalGenerator;
pub use sums::weighted_sum;
pub use sums::wsum;

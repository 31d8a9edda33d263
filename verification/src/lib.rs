//! Procedural pitch arithmetic for equal-tempered scales.
//!
//! A tone stream walks an N-tone equal temperament one chromatic step at a
//! time; a scale stream filters it down to the degrees of a 7-note diatonic
//! pattern, rotated by a mode; a key picks the starting pitch. Pitches are
//! held as chromatic step indices above the reference pitch A0, so that every
//! stream is exact integer arithmetic: the frequency a step index stands for
//! is `A0 * 2^(step / tone_count)`, and rendering that value in floating
//! point is left to the caller.

pub mod mode;
pub mod pattern;
pub mod stream;

pub use crate::mode::Key;
pub use crate::mode::Mode;
pub use crate::pattern::interval;
pub use crate::stream::FreqGenerator;
pub use crate::stream::ScaleGenerator;

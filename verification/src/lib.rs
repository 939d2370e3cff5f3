//! Game logic of a minimal single-sprite game: per-frame directional input
//! resolution (keyboard and touch-follow), fixed-speed player movement, and
//! single-instance movement-sound triggering.
//!
//! All geometry is fixed-point — signed integers counting thousandths of a
//! world unit — so every contract is exact integer arithmetic.  The host
//! engine's side (windowing, rendering, asset loading, audio playback,
//! input capture) stays outside this crate and hands in plain values.

pub mod input;
pub mod math;
pub mod player;
pub mod sound;

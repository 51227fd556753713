//! Tempo estimation from taps.
//!
//! A [`TapTempo`] counts taps and remembers the moment of the first one. From the
//! second tap on, each tap yields a [`Tempo`]: the number of intervals between the
//! taps so far, together with the milliseconds that have passed since the first
//! tap. Beats per minute are `intervals * 60000 / elapsed_millis`; the library
//! keeps both terms exact and leaves the division to the caller.

mod clock;
pub mod tap_tempo;
pub mod tempo;
pub mod timestamp;

pub use tap_tempo::TapState;
pub use tap_tempo::TapTempo;
pub use tempo::Tempo;
pub use timestamp::Timestamp;

//! Real-time spectrum analysis core: demultiplexing of captured samples,
//! noise gating, channel blending, logarithmic banding and decay smoothing.
//!
//! Units used throughout the library:
//! - an intensity is an `i32` in hundredths of a decibel (`-3600` is -36 dB);
//! - a frequency is an `i32` log-frequency: `log2` of the frequency in hertz,
//!   in 16.16 fixed point (`65536` is 2 Hz, `655360` is 1024 Hz), so that
//!   logarithmically spaced bands are evenly spaced numbers and a geometric
//!   mean of two frequencies is the midpoint of their log-frequencies.
use vstd::prelude::*;

pub mod analysis;
pub mod cols;
pub mod demux;
pub mod freq_weight;
pub mod keyboard;
pub mod laws;
pub mod numeric;
pub mod options;
pub mod session;
pub mod spectrum_memory;
pub mod themes;


pub use analysis::{combine_channels, noise_gate};
pub use cols::Rgb;
pub use demux::{outerleave, AnalysisError};
pub use freq_weight::FreqIntensity;
pub use keyboard::{Keyboard, KeyboardCoord, WootingDeviceType};
pub use numeric::{geo_mean, neg_geo_mean};
pub use options::{ActiveDevice, Options};
pub use session::{next_step, StreamFault, TickOutcome, TrayMessage};
pub use spectrum_memory::{decay_for_fps, SpectrumMemory};
pub use themes::{next_theme, ThemeChoice};

verus! {

/// Loudest intensity shown, in hundredths of a decibel.
pub const MAX_DB: i32 = -600;

/// Floor of every displayed intensity, in hundredths of a decibel.
pub const MIN_DB: i32 = -3600;

/// One octave in log-frequency units.
pub const OCTAVE: i32 = 65536;

/// Lower end of the analysed range: 20 Hz as a log-frequency.
pub const FREQ_RANGE_START: i32 = 283242;

/// Upper end of the analysed range: 16 kHz as a log-frequency.
pub const FREQ_RANGE_END: i32 = 915262;

} // verus!

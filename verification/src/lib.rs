//! Utilities for a radio/ATIS simulation: selection of a text-to-speech
//! provider and voice from a compact string encoding, and numeric helpers
//! for rounding and phonetic digit rendering.

mod strutil;
pub mod tts;
pub mod utils;

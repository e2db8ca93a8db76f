//! Verified core of an acoustic field slice viewer: the state of a phased
//! array of ultrasonic sources, the flags that say which part of that state
//! changed, and the encodings of that state that a renderer uploads.
//!
//! Quantities that lie in the unit interval (amplitude, phase as a fraction
//! of a full turn, colour channels, opacity) are held as 16-bit normalized
//! integers, so that their 8-bit texture encodings are exact integer
//! arithmetic. World coordinates are held as the raw words of
//! single-precision numbers, which is how the position texture carries them.

pub mod acoustic_field_slice_viewer;
pub mod command;
pub mod frame;
pub mod geometry;
pub mod plan;
pub mod settings;
pub mod sound_source;
pub mod source_array;
pub mod texture;
pub mod transducer;
pub mod unorm;
pub mod update_flag;

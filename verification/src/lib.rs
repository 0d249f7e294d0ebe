//! Pure logic of the pocket synthesizer firmware: pitch and brightness
//! arithmetic, song data, MIDI decoding, voice allocation, the software DDS
//! mixer and the clock-tree plans. Everything here is hardware independent.

pub mod util;
pub mod songs;
pub mod voice;
pub mod usb;
pub mod light_show;
pub mod button;
pub mod clock;
pub mod probe;

//! A real-time audio level meter: the audio side measures a buffer when the
//! display asks for it, and the display side keeps the last gain it received
//! and draws a bar whose height follows that gain.

pub mod meter;
pub mod ports;
pub mod sampler;

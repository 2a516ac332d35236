//! Control logic for a sub-GHz beacon built on a CC1101 transceiver.
//!
//! The crate computes the frequency synthesizer word for a carrier
//! ([`synth`]), names the registers and field encodings it needs
//! ([`registers`]), lays down the operations that configure the chip and key
//! one pulse ([`sequence`]) and says what such operations do to the chip
//! ([`trace`]). [`radio`] carries them out: it hands out a radio only after
//! the chip has answered the identity check, and stops at the first operation
//! that the bus refuses. The bus and the clock are supplied by the caller
//! ([`transport`]).

pub mod radio;
pub mod registers;
pub mod sequence;
pub mod synth;
pub mod trace;
pub mod transport;

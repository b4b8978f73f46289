//! Core of a small utility that keeps an audio output device awake by
//! periodically playing a short silent buffer.
//!
//! The library holds everything the utility decides or computes: the fixed
//! PCM format and the silent waveform ([`audio`]), the classification of
//! waveform-API result codes ([`audio::check_result`]), small helpers for
//! cancellable sleeps and UTF-16 buffers ([`util`]), and the lifecycle of one
//! session — open the device, prepare the buffer, play on a fixed interval
//! until the running flag clears, then unprepare and close — as a verified
//! state machine ([`controller`]). The device calls themselves, the tray
//! icon, the console interrupt handler and the service control surface are
//! thin shells around this crate: they perform each [`controller::Action`]
//! the controller asks for and feed the outcome back as a
//! [`controller::Event`].

pub mod audio;
pub mod controller;
pub mod util;

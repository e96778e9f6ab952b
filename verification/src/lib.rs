//! Core of a local music player: the pipeline that moves decoded PCM audio
//! from a file to an output device under user control.
//!
//! The pipeline couples a decoder, an optional sample-rate converter, a
//! single-producer/single-consumer sample ring, and a device callback.  This
//! crate holds the verified logic of that pipeline: the control state
//! machine, the sample-format conversion and interleaving arithmetic, the
//! ring and leftover bookkeeping, the playback-position computation, and the
//! output-configuration policy.  Decoding, resampling kernels, device I/O and
//! threads live outside, around this library.

pub mod controller;
pub mod facade;
pub mod models;
pub mod music;
pub mod output;
pub mod resample;
pub mod ring;
pub mod sample;
pub mod service;
pub mod time;
pub mod utils;

pub use controller::{Controller, PlayerControl, ServiceState};
pub use facade::Core;
pub use models::{Events, PlayState};
pub use music::{Music, MusicService};
pub use service::Service;
pub use time::PlayTime;

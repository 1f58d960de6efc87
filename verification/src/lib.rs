//! Per-application audio session registry.
//!
//! The registry reconciles what the operating system reports about live audio
//! sessions into a cache keyed by process id, and keeps that cache consistent
//! with the volume and mute changes it accepts. The library performs no
//! operating-system call itself: the host enumerates sessions and applies
//! changes, and hands the outcomes to the functions here as plain values.
//!
//! # Refreshing
//!
//! The host enumerates the live sessions, reads the volume and the mute flag
//! of each, and passes the outcome to [`get_audio_sessions`]. A failed read
//! is passed as `None`; the registry substitutes a default for it.
//!
//! # Changing a volume or a mute flag
//!
//! The host enumerates the live sessions and passes their process ids to
//! [`set_volume`] or [`set_mute`]. The registry answers with a
//! [`PendingChange`] that names the session to act on by its position in that
//! enumeration, or with the reason why there is nothing to do. The host
//! applies the change to that session and passes the outcome to
//! [`complete_change`], which patches the cache.
//!
//! # Volumes
//!
//! A volume is a normalized single-precision gain, carried as its bit
//! pattern: the registry stores and compares volumes and never computes with
//! them.
//!
//! # What is proved
//!
//! Every function states its result exactly over the mathematical content of
//! its arguments, and [`laws`] follows the cache through every sequence of
//! operations.

pub mod cache;
pub mod decimal;
pub mod error;
pub mod laws;
pub mod name;
pub mod registry;
pub mod session;

pub use cache::{Change, VolumeMixerState};
pub use error::MixerError;
pub use name::derive_name;
pub use registry::{
    complete_change, find_session, get_audio_sessions, plan_change, set_mute, set_volume,
    PendingChange,
};
pub use session::{build_session, get_app_icon_base64, AudioSession, RawSession};

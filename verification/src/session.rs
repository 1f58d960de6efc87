//! Session records: what the operating system reports, and what the registry
//! keeps and hands out.

use crate::name::{derive_name, derived_name};
use vstd::prelude::*;
use vstd::string::*;

verus! {

/// Bit pattern of the gain that stands in for a volume that could not be read:
/// silence.
pub const DEFAULT_VOLUME_BITS: u32 = 0;

/// The mute flag that stands in for one that could not be read.
pub const DEFAULT_MUTED: bool = false;

/// The image shown for every application: a data URI that embeds a 16 by 16
/// placeholder picture.
pub const PLACEHOLDER_ICON: &'static str =
    "data:image/png;base64,iVBORw0KGgoAAAANSUhEUgAAABAAAAAQCAYAAAAf8/9hAAAACXBIWXMAAAsTAAALEwEAmpwYAAAAIGNIUk0AAHolAACAgwAA+f8AAIDpAAB1MAAA6mAAADqYAAAXb5JfxUYAAABnSURBVHja7JNBCsAgDAQX8f+PtgcFEUUPIlKKJ0G8uBBCYA8zG7MiIjWzCqAiUgDM3QGYGQCqCgDufkHUzN4afKyBu8NdCz6A7Qs4EXlEHLMGMTPkRsTdH3kFe5YUEflHYQ0AAP//AwALWBHT5sqHBwAAAABJRU5ErkJggg==";

/// One live audio session as the operating system reported it during an
/// enumeration, with the outcome of reading its volume and its mute flag.
#[derive(Debug, PartialEq, Eq)]
pub struct RawSession {
    /// Identifier of the process that owns the session.
    pub pid: u32,
    /// Full path of the process's executable, as reported.
    pub path: String,
    /// Bit pattern of the single-precision gain that was read, or `None` when
    /// the read failed.
    pub volume_bits: Option<u32>,
    /// The mute flag that was read, or `None` when the read failed.
    pub muted: Option<bool>,
}

/// Mathematical content of a [`RawSession`].
pub struct RawSessionView {
    pub pid: u32,
    pub path: Seq<char>,
    pub volume_bits: Option<u32>,
    pub muted: Option<bool>,
}

impl View for RawSession {
    type V = RawSessionView;

    open spec fn view(&self) -> RawSessionView {
        RawSessionView {
            pid: self.pid,
            path: self.path@,
            volume_bits: self.volume_bits,
            muted: self.muted,
        }
    }
}

/// A snapshot of one audio session, as kept in the cache and returned to
/// callers.
#[derive(Debug, PartialEq, Eq)]
pub struct AudioSession {
    /// Identifier of the process that owns the session.
    pub pid: u32,
    /// Display name derived from the executable path.
    pub name: String,
    /// Full path of the process's executable, unmodified.
    pub path: String,
    /// Bit pattern of the session's normalized single-precision gain.
    pub volume_bits: u32,
    /// Whether the session is muted.
    pub muted: bool,
    /// Embedded image for the session, when there is one.
    pub icon_path: Option<String>,
}

/// Mathematical content of an [`AudioSession`].
pub struct AudioSessionView {
    pub pid: u32,
    pub name: Seq<char>,
    pub path: Seq<char>,
    pub volume_bits: u32,
    pub muted: bool,
    pub icon_path: Option<Seq<char>>,
}

impl View for AudioSession {
    type V = AudioSessionView;

    open spec fn view(&self) -> AudioSessionView {
        AudioSessionView {
            pid: self.pid,
            name: self.name@,
            path: self.path@,
            volume_bits: self.volume_bits,
            muted: self.muted,
            icon_path: match self.icon_path {
                Some(icon) => Some(icon@),
                None => None,
            },
        }
    }
}

impl DeepView for RawSession {
    type V = RawSessionView;

    open spec fn deep_view(&self) -> RawSessionView {
        self@
    }
}

impl DeepView for AudioSession {
    type V = AudioSessionView;

    open spec fn deep_view(&self) -> AudioSessionView {
        self@
    }
}

impl Clone for RawSession {
    fn clone(&self) -> (copy: Self)
        ensures
            copy@ == self@,
    {
        RawSession {
            pid: self.pid,
            path: self.path.clone(),
            volume_bits: self.volume_bits,
            muted: self.muted,
        }
    }
}

impl Clone for AudioSession {
    fn clone(&self) -> (copy: Self)
        ensures
            copy@ == self@,
    {
        AudioSession {
            pid: self.pid,
            name: self.name.clone(),
            path: self.path.clone(),
            volume_bits: self.volume_bits,
            muted: self.muted,
            icon_path: match &self.icon_path {
                Some(icon) => Some(icon.clone()),
                None => None,
            },
        }
    }
}

/// The icon of the application at `exe_path`: the placeholder, whatever the path.
pub open spec fn icon_of(exe_path: Seq<char>) -> Option<Seq<char>> {
    Some(PLACEHOLDER_ICON@)
}

/// The volume to record for a read outcome: what was read, or silence when
/// the read failed.
pub open spec fn volume_or_default(read: Option<u32>) -> u32 {
    match read {
        Some(bits) => bits,
        None => DEFAULT_VOLUME_BITS,
    }
}

/// The mute flag to record for a read outcome: what was read, or unmuted when
/// the read failed.
pub open spec fn muted_or_default(read: Option<bool>) -> bool {
    match read {
        Some(flag) => flag,
        None => DEFAULT_MUTED,
    }
}

/// The session record that the registry builds from one reported session.
pub open spec fn session_of(raw: RawSessionView) -> AudioSessionView {
    AudioSessionView {
        pid: raw.pid,
        name: derived_name(raw.path),
        path: raw.path,
        volume_bits: volume_or_default(raw.volume_bits),
        muted: muted_or_default(raw.muted),
        icon_path: icon_of(raw.path),
    }
}

/// Returns the icon for the application at `exe_path` as a data URI.
pub fn get_app_icon_base64(exe_path: &str) -> (icon: Option<String>)
    ensures
        icon matches Some(uri) && Some(uri@) == icon_of(exe_path@),
{
    Some(String::from_str(PLACEHOLDER_ICON))
}

/// Builds the session record for one reported session: derives the display
/// name, substitutes defaults for failed reads and attaches the icon.
pub fn build_session(raw: &RawSession) -> (session: AudioSession)
    ensures
        session@ == session_of(raw@),
{
    let volume_bits = match raw.volume_bits {
        Some(bits) => bits,
        None => DEFAULT_VOLUME_BITS,
    };
    let muted = match raw.muted {
        Some(flag) => flag,
        None => DEFAULT_MUTED,
    };
    AudioSession {
        pid: raw.pid,
        name: derive_name(raw.path.as_str()),
        path: raw.path.clone(),
        volume_bits,
        muted,
        icon_path: get_app_icon_base64(raw.path.as_str()),
    }
}

} // verus!

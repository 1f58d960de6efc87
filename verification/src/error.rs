//! The ways a registry operation can fail, and the text shown for each.

use crate::decimal::{decimal, render_decimal};
use vstd::prelude::*;
use vstd::string::*;

verus! {

/// Why a registry operation failed.
#[derive(Debug, PartialEq, Eq)]
pub enum MixerError {
    /// The audio subsystem could not be queried at all; carries its message.
    EnumerationFailed(String),
    /// No live session belongs to the process with this identifier.
    SessionNotFound(u32),
    /// The audio subsystem rejected a volume change; carries its message.
    VolumeSetFailed(String),
    /// The audio subsystem rejected a mute change; carries its message.
    MuteSetFailed(String),
}

/// Mathematical content of a [`MixerError`].
pub enum MixerErrorView {
    EnumerationFailed(Seq<char>),
    SessionNotFound(u32),
    VolumeSetFailed(Seq<char>),
    MuteSetFailed(Seq<char>),
}

impl View for MixerError {
    type V = MixerErrorView;

    open spec fn view(&self) -> MixerErrorView {
        match self {
            MixerError::EnumerationFailed(detail) => MixerErrorView::EnumerationFailed(detail@),
            MixerError::SessionNotFound(pid) => MixerErrorView::SessionNotFound(*pid),
            MixerError::VolumeSetFailed(detail) => MixerErrorView::VolumeSetFailed(detail@),
            MixerError::MuteSetFailed(detail) => MixerErrorView::MuteSetFailed(detail@),
        }
    }
}

impl Clone for MixerError {
    fn clone(&self) -> (copy: Self)
        ensures
            copy@ == self@,
    {
        match self {
            MixerError::EnumerationFailed(detail) => MixerError::EnumerationFailed(detail.clone()),
            MixerError::SessionNotFound(pid) => MixerError::SessionNotFound(*pid),
            MixerError::VolumeSetFailed(detail) => MixerError::VolumeSetFailed(detail.clone()),
            MixerError::MuteSetFailed(detail) => MixerError::MuteSetFailed(detail.clone()),
        }
    }
}

/// The text shown to the caller for an error.
pub open spec fn message_of(error: MixerErrorView) -> Seq<char> {
    match error {
        MixerErrorView::EnumerationFailed(detail) => "Failed to enumerate audio sessions: "@
            + detail,
        MixerErrorView::SessionNotFound(pid) => "No audio session found with PID: "@ + decimal(
            pid as nat,
        ),
        MixerErrorView::VolumeSetFailed(detail) => "Failed to set volume: "@ + detail,
        MixerErrorView::MuteSetFailed(detail) => "Failed to set mute: "@ + detail,
    }
}

impl MixerError {
    /// Renders the error as the human-readable text that crosses the boundary
    /// to the caller.
    pub fn message(&self) -> (text: String)
        ensures
            text@ == message_of(self@),
    {
        match self {
            MixerError::EnumerationFailed(detail) => String::from_str(
                "Failed to enumerate audio sessions: ",
            ).concat(detail.as_str()),
            MixerError::SessionNotFound(pid) => {
                let number = render_decimal(*pid);
                String::from_str("No audio session found with PID: ").concat(number.as_str())
            },
            MixerError::VolumeSetFailed(detail) => String::from_str("Failed to set volume: ").concat(
                detail.as_str(),
            ),
            MixerError::MuteSetFailed(detail) => String::from_str("Failed to set mute: ").concat(
                detail.as_str(),
            ),
        }
    }
}

} // verus!

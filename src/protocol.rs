use vstd::prelude::*;

use crate::error::RecorderError;

verus! {

/// What a caller asks for when opening a session.
#[derive(Debug, PartialEq, Eq)]
pub struct UserRecordingSessionConfig {
    pub device_name: String,
    pub bits_per_sample: u16,
}

/// The phase a worker is in, as seen from its session and its writer slot.
#[derive(Debug, Clone, Copy, PartialEq, Eq, Structural)]
pub enum RecordingState {
    /// No session is open.
    Idle,
    /// A session is open and no recording is active.
    Initialized,
    /// A session is open and a recording is active.
    Recording,
}

/// A message from the controller to the worker.
#[derive(Debug, PartialEq, Eq)]
pub enum AudioCommand {
    CloseThread,
    EnumerateRecordingDevices,
    InitRecordingSession(UserRecordingSessionConfig),
    CloseRecordingSession,
    StartRecording(String),
    StopRecording,
    CancelRecording(String),
}

/// The worker's single answer to a command.
#[derive(Debug, PartialEq, Eq)]
pub enum AudioResponse {
    RecordingDeviceList(Vec<String>),
    Error(RecorderError),
    Success(String),
}

/// What a reply to a command that expects an acknowledgement means: success,
/// the error it reports, or a reply of the wrong kind.
pub open spec fn ack_outcome(reply: AudioResponse) -> Result<(), RecorderError> {
    match reply {
        AudioResponse::Success(_) => Ok(()),
        AudioResponse::Error(e) => Err(e),
        AudioResponse::RecordingDeviceList(_) => Err(RecorderError::UnexpectedResponse),
    }
}

/// A success response carrying `message`.
pub fn success(message: &str) -> (r: AudioResponse)
    ensures
        r matches AudioResponse::Success(m) && m@ == message@,
{
    AudioResponse::Success(message.to_owned())
}

} // verus!

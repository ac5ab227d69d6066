use vstd::prelude::*;

verus! {

/// Every way in which a command or a controller operation can fail.
#[derive(Debug, PartialEq, Eq)]
pub enum RecorderError {
    /// No input device carries the requested name.
    DeviceNotFound,
    /// A session is already open on the worker.
    AlreadyInitialized,
    /// The command needs an open session and there is none.
    SessionNotInitialized,
    /// The capture stream could not be opened or started; the adapter's diagnostic.
    StreamOpenError(String),
    /// The encoder could not be created at the target path; the encoder's diagnostic.
    EncoderCreateError(String),
    /// No recording is active.
    NoActiveRecording,
    /// A recording is already active; a second one is refused.
    RecordingInProgress,
    /// The requested sample width is not one of 16, 24 or 32 bits.
    UnsupportedBitDepth(u16),
    /// The worker thread is not running, or could not be started.
    ThreadNotInitialized,
    /// The worker went away before it answered.
    ChannelDisconnected,
    /// The worker answered with a response of the wrong kind.
    UnexpectedResponse,
    /// The input devices could not be listed; the adapter's diagnostic.
    DeviceQueryError(String),
    /// Finalizing, reading or removing a recording's file failed.
    IoError(String),
}

} // verus!

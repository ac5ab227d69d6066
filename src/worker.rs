use vstd::prelude::*;

use crate::error::RecorderError;
use crate::format::{is_supported_bit_depth, supported_bits, SessionFormat};
use crate::protocol::{ack_outcome, success, AudioResponse, RecordingState, UserRecordingSessionConfig};
use crate::slot::{SlotModel, WriterSlot};

verus! {

/// An open capture context: the bound device, the format, and the live stream.
pub struct Session<S> {
    pub device_name: String,
    pub format: SessionFormat,
    pub stream: S,
}

/// The audio worker's own state. It is the sole owner of the stream handle and
/// processes one command at a time; the writer slot it shares with the capture
/// callback is passed to the steps that need it.
///
/// Each command is handled by one step, or by a `begin`/`finish` pair around the
/// outside work (opening a stream, creating an encoder) that the thread running
/// the worker performs in between; every command yields exactly one response.
/// An encoder leaves the slot only through a stop or a cancel, so it may
/// outlive a session closed while it was recording.
pub struct AudioWorker<S> {
    session: Option<Session<S>>,
}

/// The phase of a worker with an open session or not, and a busy slot or not.
/// An encoder left in the slot by a session closed mid-recording does not make
/// an idle worker recording.
pub open spec fn phase(session_open: bool, slot_busy: bool) -> RecordingState {
    if !session_open {
        RecordingState::Idle
    } else if slot_busy {
        RecordingState::Recording
    } else {
        RecordingState::Initialized
    }
}

/// The check made before an encoder is created: a session must be open and no
/// recording active; the encoder is then created with the session's format.
pub open spec fn start_check(session: Option<SessionFormat>, slot_busy: bool) -> Result<
    SessionFormat,
    RecorderError,
> {
    match session {
        None => Err(RecorderError::SessionNotInitialized),
        Some(f) => if slot_busy {
            Err(RecorderError::RecordingInProgress)
        } else {
            Ok(f)
        },
    }
}

/// The slot and the outcome once the encoder creation has come back.
pub open spec fn start_finish<W>(
    session_open: bool,
    slot: SlotModel<W>,
    created: Result<W, String>,
) -> (SlotModel<W>, Result<(), RecorderError>) {
    if !session_open {
        (slot, Err(RecorderError::SessionNotInitialized))
    } else {
        match created {
            Err(d) => (slot, Err(RecorderError::EncoderCreateError(d))),
            Ok(w) => if slot.writer is Some {
                (slot, Err(RecorderError::RecordingInProgress))
            } else {
                (SlotModel { writer: Some(w), samples: 0 }, Ok(()))
            },
        }
    }
}

/// The slot and the outcome when a recording is stopped or cancelled: the
/// encoder leaves the slot, or there was none.
pub open spec fn take_result<W>(slot: SlotModel<W>) -> (SlotModel<W>, Result<
    (W, u64),
    RecorderError,
>) {
    let empty = SlotModel { writer: None, samples: 0 };
    match slot.writer {
        None => (empty, Err(RecorderError::NoActiveRecording)),
        Some(w) => (empty, Ok((w, slot.samples))),
    }
}

/// Whether `i` is the position of the first name equal to `name`.
pub open spec fn is_first_match(names: Seq<String>, name: Seq<char>, i: int) -> bool {
    &&& 0 <= i < names.len()
    &&& names[i]@ == name
    &&& forall|j: int| 0 <= j < i ==> names[j]@ != name
}

/// Looks a device up by name among the listed ones: the position of the first
/// equal name.
pub fn find_device(names: &Vec<String>, name: &String) -> (r: Option<usize>)
    ensures
        r matches Some(i) ==> is_first_match(names@, name@, i as int),
        r is None ==> forall|j: int| 0 <= j < names@.len() ==> names@[j]@ != name@,
{
    let mut i: usize = 0;
    while i < names.len()
        invariant
            i <= names@.len(),
            forall|j: int| 0 <= j < i ==> names@[j]@ != name@,
        decreases names@.len() - i,
    {
        if names[i] == *name {
            return Some(i);
        }
        i = i + 1;
    }
    None
}

impl<S> AudioWorker<S> {
    /// The open session, if any.
    pub closed spec fn session(&self) -> Option<Session<S>> {
        self.session
    }

    /// The open session's format, if any.
    pub open spec fn format(&self) -> Option<SessionFormat> {
        match self.session() {
            Some(s) => Some(s.format),
            None => None,
        }
    }

    /// A worker with no session.
    pub fn new() -> (r: Self)
        ensures
            r.session() is None,
    {
        AudioWorker { session: None }
    }

    /// The worker's phase, given the slot it shares with the callback.
    pub fn state<W>(&self, slot: &WriterSlot<W>) -> (r: RecordingState)
        ensures
            r == phase(self.session() is Some, slot@.writer is Some),
    {
        if self.session.is_none() {
            RecordingState::Idle
        } else if slot.is_occupied() {
            RecordingState::Recording
        } else {
            RecordingState::Initialized
        }
    }

    /// The answer to a device enumeration: the listed names, or the adapter's
    /// diagnostic.
    pub fn list_devices(&self, listed: Result<Vec<String>, String>) -> (r: AudioResponse)
        ensures
            listed matches Ok(names) ==> r == AudioResponse::RecordingDeviceList(names),
            listed matches Err(d) ==> r == AudioResponse::Error(RecorderError::DeviceQueryError(d)),
    {
        match listed {
            Ok(names) => AudioResponse::RecordingDeviceList(names),
            Err(d) => AudioResponse::Error(RecorderError::DeviceQueryError(d)),
        }
    }

    /// The refusals of a session that need no device: one is already open, or
    /// the width is unsupported. Made before the devices are looked up.
    pub fn check_session(&self, config: &UserRecordingSessionConfig) -> (r: Result<
        (),
        RecorderError,
    >)
        ensures
            self.session() is Some ==> r == Err::<(), RecorderError>(
                RecorderError::AlreadyInitialized,
            ),
            self.session() is None && !supported_bits(config.bits_per_sample) ==> r == Err::<
                (),
                RecorderError,
            >(RecorderError::UnsupportedBitDepth(config.bits_per_sample)),
            self.session() is None && supported_bits(config.bits_per_sample) ==> r is Ok,
    {
        if self.session.is_some() {
            return Err(RecorderError::AlreadyInitialized);
        }
        if !is_supported_bit_depth(config.bits_per_sample) {
            return Err(RecorderError::UnsupportedBitDepth(config.bits_per_sample));
        }
        Ok(())
    }

    /// The first part of opening a session: makes the refusals of
    /// `check_session`, then refuses when the devices cannot be listed or none
    /// carries the requested name; otherwise picks the device to open.
    pub fn begin_session(
        &self,
        config: &UserRecordingSessionConfig,
        devices: &Result<Vec<String>, String>,
    ) -> (r: Result<usize, RecorderError>)
        ensures
            self.session() is Some ==> r == Err::<usize, RecorderError>(
                RecorderError::AlreadyInitialized,
            ),
            self.session() is None && !supported_bits(config.bits_per_sample) ==> r == Err::<
                usize,
                RecorderError,
            >(RecorderError::UnsupportedBitDepth(config.bits_per_sample)),
            self.session() is None && supported_bits(config.bits_per_sample) ==> match devices {
                Err(d) => r == Err::<usize, RecorderError>(RecorderError::DeviceQueryError(*d)),
                Ok(names) => match r {
                    Ok(i) => is_first_match(names@, config.device_name@, i as int),
                    Err(e) => e == RecorderError::DeviceNotFound && forall|j: int|
                        0 <= j < names@.len() ==> names@[j]@ != config.device_name@,
                },
            },
    {
        self.check_session(config)?;
        match devices {
            Err(d) => Err(RecorderError::DeviceQueryError(d.clone())),
            Ok(names) => match find_device(names, &config.device_name) {
                Some(i) => Ok(i),
                None => Err(RecorderError::DeviceNotFound),
            },
        }
    }

    /// The second part of opening a session, once a stream has been built and
    /// started in a format derived from the device's capabilities, or has failed
    /// with the adapter's diagnostic.
    pub fn finish_session(&mut self, device_name: String, opened: Result<(SessionFormat, S), String>) -> (r:
        AudioResponse)
        ensures
            old(self).session() is Some ==> r == AudioResponse::Error(
                RecorderError::AlreadyInitialized,
            ) && final(self).session() == old(self).session(),
            old(self).session() is None ==> match opened {
                Ok((format, stream)) => r is Success && final(self).session() == Some(
                    Session { device_name, format, stream },
                ),
                Err(d) => r == AudioResponse::Error(RecorderError::StreamOpenError(d))
                    && final(self).session() is None,
            },
    {
        if self.session.is_some() {
            return AudioResponse::Error(RecorderError::AlreadyInitialized);
        }
        match opened {
            Ok((format, stream)) => {
                self.session = Some(Session { device_name, format, stream });
                success("Recording session initialized")
            },
            Err(d) => AudioResponse::Error(RecorderError::StreamOpenError(d)),
        }
    }

    /// The first part of starting a recording: the format to create the encoder
    /// with, or the reason no recording can start.
    pub fn begin_recording<W>(&self, slot: &WriterSlot<W>) -> (r: Result<
        SessionFormat,
        RecorderError,
    >)
        ensures
            r == start_check(self.format(), slot@.writer is Some),
    {
        match &self.session {
            None => Err(RecorderError::SessionNotInitialized),
            Some(s) => if slot.is_occupied() {
                Err(RecorderError::RecordingInProgress)
            } else {
                Ok(s.format)
            },
        }
    }

    /// The second part of starting a recording, once the encoder has been
    /// created or has failed with the encoder's diagnostic. An active recording
    /// is never replaced.
    pub fn finish_recording<W>(&self, slot: &mut WriterSlot<W>, created: Result<W, String>) -> (r:
        AudioResponse)
        ensures
            final(slot)@ == start_finish(self.session() is Some, old(slot)@, created).0,
            ack_outcome(r) == start_finish(self.session() is Some, old(slot)@, created).1,
    {
        if self.session.is_none() {
            return AudioResponse::Error(RecorderError::SessionNotInitialized);
        }
        match created {
            Err(d) => AudioResponse::Error(RecorderError::EncoderCreateError(d)),
            Ok(w) => match slot.install(w) {
                Ok(()) => success("Recording started"),
                Err(_) => AudioResponse::Error(RecorderError::RecordingInProgress),
            },
        }
    }

    /// Takes the active encoder out of the slot, with the number of samples fed
    /// to it, to be finalized (stop) or discarded (cancel).
    pub fn take_recording<W>(&self, slot: &mut WriterSlot<W>) -> (r: Result<
        (W, u64),
        RecorderError,
    >)
        ensures
            (final(slot)@, r) == take_result(old(slot)@),
    {
        match slot.take() {
            Some(taken) => Ok(taken),
            None => Err(RecorderError::NoActiveRecording),
        }
    }

    /// The answer to a stop once the taken encoder has been finalized.
    pub fn finish_stop(&self, finalized: Result<(), String>) -> (r: AudioResponse)
        ensures
            finalized is Ok ==> r is Success,
            finalized matches Err(d) ==> r == AudioResponse::Error(RecorderError::IoError(d)),
    {
        match finalized {
            Ok(()) => success("Recording stopped"),
            Err(d) => AudioResponse::Error(RecorderError::IoError(d)),
        }
    }

    /// The answer to a cancel once the taken encoder has been dropped and the
    /// removal of its file attempted. A failed removal is reported; the
    /// recording is over either way.
    pub fn finish_cancel(&self, removed: Result<(), String>) -> (r: AudioResponse)
        ensures
            removed is Ok ==> r is Success,
            removed matches Err(d) ==> r == AudioResponse::Error(RecorderError::IoError(d)),
    {
        match removed {
            Ok(()) => success("Recording cancelled and file deleted"),
            Err(d) => AudioResponse::Error(RecorderError::IoError(d)),
        }
    }

    /// Closes the session: its stream is handed back to be destroyed. The
    /// writer slot is not touched: a recording still active is neither
    /// finalized nor discarded here, and stays in the slot until it is stopped
    /// or cancelled.
    pub fn close_session(&mut self) -> (r: (AudioResponse, Option<S>))
        ensures
            final(self).session() is None,
            old(self).session() is None ==> r == (AudioResponse::Error(
                RecorderError::SessionNotInitialized,
            ), None::<S>),
            old(self).session() matches Some(s) ==> r.0 is Success && r.1 == Some(s.stream),
    {
        match self.session.take() {
            Some(s) => (success("Recording session closed successfully"), Some(s.stream)),
            None => (AudioResponse::Error(RecorderError::SessionNotInitialized), None),
        }
    }

    /// Acknowledges the end of the worker: the session's stream, if any, is
    /// handed back to be destroyed. The writer slot is not touched.
    pub fn close_thread(&mut self) -> (r: (AudioResponse, Option<S>))
        ensures
            final(self).session() is None,
            r.0 is Success,
            r.1 == match old(self).session() {
                Some(s) => Some(s.stream),
                None => None::<S>,
            },
    {
        let (_, stream) = self.close_session();
        (success("Audio thread exiting..."), stream)
    }
}

} // verus!

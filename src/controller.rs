use vstd::prelude::*;

use crate::error::RecorderError;
use crate::format::supported_bits;
use crate::protocol::{ack_outcome, AudioCommand, AudioResponse, UserRecordingSessionConfig};

verus! {

/// An input device as presented to callers.
#[derive(Debug, PartialEq, Eq)]
pub struct DeviceInfo {
    pub device_id: String,
    pub label: String,
}

/// Makes sure a worker is connected: where `thread` holds none, the handle that
/// `spawn` produces is installed. A failed spawn leaves `thread` empty.
pub fn ensure_thread_initialized<C, F>(thread: &mut Option<C>, spawn: F) -> (r: Result<
    (),
    RecorderError,
>) where F: FnOnce() -> Result<C, String>
    requires
        *old(thread) is None ==> spawn.requires(()),
    ensures
        *old(thread) is Some ==> r is Ok && *final(thread) == *old(thread),
        *old(thread) is None ==> match *final(thread) {
            Some(c) => r is Ok && spawn.ensures((), Ok::<C, String>(c)),
            None => r == Err::<(), RecorderError>(RecorderError::ThreadNotInitialized)
                && exists|d: String| spawn.ensures((), Err::<C, String>(d)),
        },
{
    if thread.is_none() {
        match spawn() {
            Ok(c) => {
                *thread = Some(c);
            },
            Err(d) => {
                assert(spawn.ensures((), Err::<C, String>(d)));
                return Err(RecorderError::ThreadNotInitialized);
            },
        }
    }
    Ok(())
}

/// Runs `f` against the connected worker, connecting one first if needed. When
/// no worker can be connected, `f` is not run.
pub fn with_thread<C, T, F, G>(thread: &mut Option<C>, spawn: F, f: G) -> (r: Result<
    T,
    RecorderError,
>) where F: FnOnce() -> Result<C, String>, G: FnOnce(&C) -> Result<T, RecorderError>
    requires
        *old(thread) is None ==> spawn.requires(()),
        forall|c: &C| f.requires((c,)),
    ensures
        *old(thread) is Some ==> *final(thread) == *old(thread),
        *old(thread) is None ==> (*final(thread) matches Some(c) ==> spawn.ensures(
            (),
            Ok::<C, String>(c),
        )),
        *old(thread) is None && *final(thread) is None ==> exists|d: String|
            spawn.ensures((), Err::<C, String>(d)),
        *final(thread) is None ==> r == Err::<T, RecorderError>(
            RecorderError::ThreadNotInitialized,
        ),
        *final(thread) matches Some(c) ==> f.ensures((&c,), r),
{
    ensure_thread_initialized(thread, spawn)?;
    match thread {
        Some(c) => f(c),
        None => Err(RecorderError::ThreadNotInitialized),
    }
}

/// The outcome of a round trip over the command channel: the reply, or the
/// failure of the send (the worker is gone) or of the receive (it went away
/// before answering).
pub fn exchange_result(sent: bool, received: Option<AudioResponse>) -> (r: Result<
    AudioResponse,
    RecorderError,
>)
    ensures
        !sent ==> r == Err::<AudioResponse, RecorderError>(RecorderError::ThreadNotInitialized),
        sent ==> match received {
            Some(reply) => r == Ok::<AudioResponse, RecorderError>(reply),
            None => r == Err::<AudioResponse, RecorderError>(RecorderError::ChannelDisconnected),
        },
{
    if !sent {
        return Err(RecorderError::ThreadNotInitialized);
    }
    match received {
        Some(reply) => Ok(reply),
        None => Err(RecorderError::ChannelDisconnected),
    }
}

/// The name of the file a recording with identifier `id` is written to.
pub open spec fn filename_of(id: Seq<char>) -> Seq<char> {
    id + seq!['.', 'w', 'a', 'v']
}

/// The file of the recording a stop or a cancel applies to; without an active
/// recording both are refused before anything is sent.
pub open spec fn active_file(current: Option<Seq<char>>) -> Result<Seq<char>, RecorderError> {
    match current {
        Some(f) => Ok(f),
        None => Err(RecorderError::NoActiveRecording),
    }
}

/// The recording the controller tracks after a reply to a start of `filename`.
pub open spec fn tracked_after_start(
    current: Option<Seq<char>>,
    filename: Seq<char>,
    reply: AudioResponse,
) -> Option<Seq<char>> {
    if reply is Success {
        Some(filename)
    } else {
        current
    }
}

/// The recording the controller tracks after a reply to a stop or a cancel:
/// whatever the worker answered, its slot is empty afterwards.
pub open spec fn tracked_after_end(current: Option<Seq<char>>, reply: AudioResponse) -> Option<
    Seq<char>,
> {
    if reply is RecordingDeviceList {
        current
    } else {
        None
    }
}

/// The acknowledgement a reply carries.
pub fn expect_ack(reply: AudioResponse) -> (r: Result<(), RecorderError>)
    ensures
        r == ack_outcome(reply),
{
    match reply {
        AudioResponse::Success(_) => Ok(()),
        AudioResponse::Error(e) => Err(e),
        AudioResponse::RecordingDeviceList(_) => Err(RecorderError::UnexpectedResponse),
    }
}

/// The file name a recording with identifier `recording_id` is written to:
/// the identifier followed by `.wav`.
pub fn recording_filename(recording_id: &str) -> (r: String)
    ensures
        r@ == filename_of(recording_id@),
{
    let mut name = recording_id.to_owned();
    name.append(".wav");
    proof {
        reveal_strlit(".wav");
    }
    name
}

/// The command that opens a session, after the width has been checked locally:
/// an unsupported width never reaches the worker.
pub fn init_request(settings: UserRecordingSessionConfig) -> (r: Result<
    AudioCommand,
    RecorderError,
>)
    ensures
        supported_bits(settings.bits_per_sample) ==> r == Ok::<AudioCommand, RecorderError>(
            AudioCommand::InitRecordingSession(settings),
        ),
        !supported_bits(settings.bits_per_sample) ==> r == Err::<AudioCommand, RecorderError>(
            RecorderError::UnsupportedBitDepth(settings.bits_per_sample),
        ),
{
    if !crate::format::is_supported_bit_depth(settings.bits_per_sample) {
        return Err(RecorderError::UnsupportedBitDepth(settings.bits_per_sample));
    }
    Ok(AudioCommand::InitRecordingSession(settings))
}

/// The devices a reply to an enumeration lists, each named by its label.
pub fn devices_from_reply(reply: AudioResponse) -> (r: Result<Vec<DeviceInfo>, RecorderError>)
    ensures
        reply matches AudioResponse::RecordingDeviceList(names) ==> r matches Ok(devices)
            && devices@.len() == names@.len() && forall|i: int|
            0 <= i < names@.len() ==> devices@[i].device_id@ == names@[i]@
                && devices@[i].label@ == names@[i]@,
        reply matches AudioResponse::Error(e) ==> r == Err::<Vec<DeviceInfo>, RecorderError>(e),
        reply is Success ==> r == Err::<Vec<DeviceInfo>, RecorderError>(
            RecorderError::UnexpectedResponse,
        ),
{
    match reply {
        AudioResponse::RecordingDeviceList(names) => {
            let mut devices: Vec<DeviceInfo> = Vec::new();
            let mut i: usize = 0;
            while i < names.len()
                invariant
                    i <= names@.len(),
                    devices@.len() == i,
                    forall|j: int|
                        0 <= j < i ==> devices@[j].device_id@ == names@[j]@
                            && devices@[j].label@ == names@[j]@,
                decreases names@.len() - i,
            {
                let label = names[i].clone();
                devices.push(DeviceInfo { device_id: label.clone(), label });
                i = i + 1;
            }
            Ok(devices)
        },
        AudioResponse::Error(e) => Err(e),
        AudioResponse::Success(_) => Err(RecorderError::UnexpectedResponse),
    }
}

/// The controller's side of a session: the handle of the connected worker, if
/// any, and the file of the recording it believes active, mirroring the
/// worker's slot.
pub struct SessionController<C> {
    thread: Option<C>,
    current_recording: Option<String>,
}

impl<C> SessionController<C> {
    pub closed spec fn thread(&self) -> Option<C> {
        self.thread
    }

    /// The file of the recording the controller believes active.
    pub closed spec fn current(&self) -> Option<Seq<char>> {
        match self.current_recording {
            Some(f) => Some(f@),
            None => None,
        }
    }

    /// A controller with no worker and no recording.
    pub fn new() -> (r: Self)
        ensures
            r.thread() is None,
            r.current() is None,
    {
        SessionController { thread: None, current_recording: None }
    }

    /// The file of the recording believed active.
    pub fn current_recording(&self) -> (r: Option<String>)
        ensures
            self.current() is None ==> r is None,
            self.current() matches Some(f) ==> r matches Some(s) && s@ == f,
    {
        match &self.current_recording {
            Some(f) => Some(f.clone()),
            None => None,
        }
    }

    /// Runs `f` against the connected worker, connecting one with `spawn` first
    /// if needed.
    pub fn with_thread<T, F, G>(&mut self, spawn: F, f: G) -> (r: Result<T, RecorderError>) where
        F: FnOnce() -> Result<C, String>,
        G: FnOnce(&C) -> Result<T, RecorderError>,

        requires
            old(self).thread() is None ==> spawn.requires(()),
            forall|c: &C| f.requires((c,)),
        ensures
            final(self).current() == old(self).current(),
            old(self).thread() is Some ==> final(self).thread() == old(self).thread(),
            old(self).thread() is None ==> (final(self).thread() matches Some(c)
                ==> spawn.ensures((), Ok::<C, String>(c))),
            old(self).thread() is None && final(self).thread() is None ==> exists|d: String|
                spawn.ensures((), Err::<C, String>(d)),
            final(self).thread() is None ==> r == Err::<T, RecorderError>(
                RecorderError::ThreadNotInitialized,
            ),
            final(self).thread() matches Some(c) ==> f.ensures((&c,), r),
    {
        with_thread(&mut self.thread, spawn, f)
    }

    /// Records the outcome of a start of `filename`: on success the recording
    /// is tracked as active.
    pub fn finish_start(&mut self, filename: String, reply: AudioResponse) -> (r: Result<
        (),
        RecorderError,
    >)
        ensures
            r == ack_outcome(reply),
            final(self).current() == tracked_after_start(old(self).current(), filename@, reply),
            final(self).thread() == old(self).thread(),
    {
        let r = expect_ack(reply);
        if r.is_ok() {
            self.current_recording = Some(filename);
        }
        r
    }

    /// The file of the recording to stop; without an active recording nothing
    /// is sent.
    pub fn stop_request(&self) -> (r: Result<String, RecorderError>)
        ensures
            match active_file(self.current()) {
                Ok(f) => r matches Ok(s) && s@ == f,
                Err(e) => r == Err::<String, RecorderError>(e),
            },
    {
        match &self.current_recording {
            Some(f) => Ok(f.clone()),
            None => Err(RecorderError::NoActiveRecording),
        }
    }

    /// Records the outcome of a stop: on success, the file to read the finished
    /// recording from.
    pub fn finish_stop(&mut self, reply: AudioResponse) -> (r: Result<String, RecorderError>)
        ensures
            final(self).current() == tracked_after_end(old(self).current(), reply),
            final(self).thread() == old(self).thread(),
            reply is Success ==> match old(self).current() {
                Some(f) => r matches Ok(s) && s@ == f,
                None => r == Err::<String, RecorderError>(RecorderError::NoActiveRecording),
            },
            !(reply is Success) ==> r == match ack_outcome(reply) {
                Err(e) => Err::<String, RecorderError>(e),
                Ok(_) => Err::<String, RecorderError>(RecorderError::UnexpectedResponse),
            },
    {
        match reply {
            AudioResponse::Success(_) => match self.current_recording.take() {
                Some(f) => Ok(f),
                None => Err(RecorderError::NoActiveRecording),
            },
            AudioResponse::Error(e) => {
                self.current_recording = None;
                Err(e)
            },
            AudioResponse::RecordingDeviceList(_) => Err(RecorderError::UnexpectedResponse),
        }
    }

    /// The command that cancels the recording believed active; without one
    /// nothing is sent.
    pub fn cancel_request(&self) -> (r: Result<AudioCommand, RecorderError>)
        ensures
            match active_file(self.current()) {
                Ok(f) => r matches Ok(AudioCommand::CancelRecording(s)) && s@ == f,
                Err(e) => r == Err::<AudioCommand, RecorderError>(e),
            },
    {
        match &self.current_recording {
            Some(f) => Ok(AudioCommand::CancelRecording(f.clone())),
            None => Err(RecorderError::NoActiveRecording),
        }
    }

    /// Records the outcome of a cancel.
    pub fn finish_cancel(&mut self, reply: AudioResponse) -> (r: Result<(), RecorderError>)
        ensures
            r == ack_outcome(reply),
            final(self).current() == tracked_after_end(old(self).current(), reply),
            final(self).thread() == old(self).thread(),
    {
        match reply {
            AudioResponse::RecordingDeviceList(_) => Err(RecorderError::UnexpectedResponse),
            AudioResponse::Success(_) => {
                self.current_recording = None;
                Ok(())
            },
            AudioResponse::Error(e) => {
                self.current_recording = None;
                Err(e)
            },
        }
    }

    /// Records the outcome of closing the session. Closing never ends a
    /// recording: one still active stays tracked until it is stopped or
    /// cancelled.
    pub fn finish_close_session(&self, reply: AudioResponse) -> (r: Result<(), RecorderError>)
        ensures
            r == ack_outcome(reply),
    {
        expect_ack(reply)
    }

    /// Disconnects the worker, handing back its handle (to send it the last
    /// command through) if there was one; nothing stays tracked.
    pub fn close_thread(&mut self) -> (r: Option<C>)
        ensures
            r == old(self).thread(),
            final(self).thread() is None,
            final(self).current() is None,
    {
        self.current_recording = None;
        self.thread.take()
    }
}

} // verus!

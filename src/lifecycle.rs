//! Properties of a recording's lifecycle, across the worker's steps, the writer
//! slot and the controller's bookkeeping.
use vstd::prelude::*;

use crate::controller::{active_file, filename_of, tracked_after_end, tracked_after_start};
use crate::error::RecorderError;
use crate::format::{format_for_bits, spec_session_format, supported_bits, SampleFormat, SessionFormat};
use crate::protocol::{AudioResponse, RecordingState};
use crate::slot::{after_buffers, total, SlotModel};
use crate::worker::{phase, start_check, start_finish, take_result};

verus! {

/// A slot holding no encoder.
pub open spec fn empty_slot<W>() -> SlotModel<W> {
    SlotModel { writer: None, samples: 0 }
}

/// A slot holding the freshly created encoder `w`.
pub open spec fn started_slot<W>(w: W) -> SlotModel<W> {
    SlotModel { writer: Some(w), samples: 0 }
}

/// For every supported width, a session is opened in a well-formed format of
/// that width (floats exactly at 32 bits) over the stream's channels and rate;
/// a recording started in it is created in exactly that format; and a stop
/// right after the start takes back the very encoder that was created.
pub proof fn lemma_recording_format_matches_session<W>(
    channels: u16,
    sample_rate: u32,
    bits: u16,
    w: W,
)
    requires
        supported_bits(bits),
    ensures
        ({
            let f = SessionFormat {
                channels,
                sample_rate,
                bits_per_sample: bits,
                sample_format: format_for_bits(bits),
            };
            let started = start_finish(true, empty_slot::<W>(), Ok(w));
            &&& spec_session_format(channels, sample_rate, bits) == Ok::<
                SessionFormat,
                RecorderError,
            >(f)
            &&& f.wf()
            &&& (f.sample_format == SampleFormat::Float <==> bits == 32)
            &&& start_check(Some(f), false) == Ok::<SessionFormat, RecorderError>(f)
            &&& started == (SlotModel { writer: Some(w), samples: 0 }, Ok::<(), RecorderError>(()))
            &&& phase(true, started.0.writer is Some) == RecordingState::Recording
            &&& take_result(started.0) == (empty_slot::<W>(), Ok::<(W, u64), RecorderError>((w, 0)))
        }),
{
}

/// Cancelling right after a start targets the very file the recording was
/// started at, empties the slot, returns the worker to `Initialized`, and
/// leaves the controller tracking no recording.
pub proof fn lemma_cancel_after_start<W>(
    id: Seq<char>,
    w: W,
    buffers: Seq<usize>,
    start_reply: AudioResponse,
    cancel_reply: AudioResponse,
)
    requires
        start_reply is Success,
        !(cancel_reply is RecordingDeviceList),
    ensures
        ({
            let believed = tracked_after_start(None, filename_of(id), start_reply);
            let started = start_finish(true, empty_slot::<W>(), Ok(w)).0;
            let (after, taken) = take_result(after_buffers(started, buffers));
            &&& active_file(believed) == Ok::<Seq<char>, RecorderError>(filename_of(id))
            &&& taken is Ok
            &&& after == empty_slot::<W>()
            &&& phase(true, after.writer is Some) == RecordingState::Initialized
            &&& tracked_after_end(believed, cancel_reply) is None
        }),
{
    lemma_buffers_keep_writer(started_slot(w), buffers);
}

/// A second start while a recording is active is refused, whatever the second
/// encoder creation gave: the slot keeps the first recording's encoder, and
/// the controller keeps tracking the first recording's file.
pub proof fn lemma_second_start_refused<W>(
    f: SessionFormat,
    w1: W,
    second: Result<W, String>,
    first_file: Seq<char>,
    second_file: Seq<char>,
    second_reply: AudioResponse,
)
    requires
        !(second_reply is Success),
    ensures
        ({
            let s1 = start_finish(true, empty_slot::<W>(), Ok(w1)).0;
            &&& s1.writer == Some(w1)
            &&& start_check(Some(f), s1.writer is Some) == Err::<SessionFormat, RecorderError>(
                RecorderError::RecordingInProgress,
            )
            &&& start_finish(true, s1, second).0 == s1
            &&& start_finish(true, s1, second).1 is Err
            &&& tracked_after_start(Some(first_file), second_file, second_reply) == Some(
                first_file,
            )
        }),
{
}

/// Without an active recording, a stop or a cancel is refused with
/// `NoActiveRecording` and changes nothing: the controller sends nothing, and
/// at the worker the slot stays empty and the phase stays the same.
pub proof fn lemma_end_without_recording<W>(session_open: bool)
    ensures
        active_file(None) == Err::<Seq<char>, RecorderError>(RecorderError::NoActiveRecording),
        take_result(empty_slot::<W>()) == (empty_slot::<W>(), Err::<(W, u64), RecorderError>(
            RecorderError::NoActiveRecording,
        )),
        phase(session_open, take_result(empty_slot::<W>()).0.writer is Some) == phase(
            session_open,
            false,
        ),
{
}

/// Buffers reach the encoder whole. Wherever a stop lands between two
/// buffers, the encoder it takes has been fed exactly the buffers that arrived
/// before it, in full, and every buffer that arrives after it is discarded.
pub proof fn lemma_stop_between_buffers<W>(w: W, before: Seq<usize>, after: Seq<usize>)
    requires
        total(before) <= u64::MAX,
    ensures
        ({
            let (emptied, taken) = take_result(after_buffers(started_slot(w), before));
            &&& taken matches Ok((_, count)) && count == total(before)
            &&& emptied == empty_slot::<W>()
            &&& after_buffers(emptied, after) == emptied
        }),
{
    lemma_buffers_counted(w, before);
    lemma_buffers_discarded(empty_slot::<W>(), after);
}

proof fn lemma_buffers_keep_writer<W>(s: SlotModel<W>, buffers: Seq<usize>)
    requires
        s.writer is Some,
    ensures
        after_buffers(s, buffers).writer is Some,
    decreases buffers.len(),
{
    if buffers.len() > 0 {
        lemma_buffers_keep_writer(s, buffers.drop_last());
    }
}

proof fn lemma_buffers_counted<W>(w: W, buffers: Seq<usize>)
    requires
        total(buffers) <= u64::MAX,
    ensures
        after_buffers(started_slot(w), buffers) == (SlotModel {
            writer: Some(w),
            samples: total(buffers) as u64,
        }),
    decreases buffers.len(),
{
    if buffers.len() > 0 {
        lemma_buffers_counted(w, buffers.drop_last());
    }
}

proof fn lemma_buffers_discarded<W>(s: SlotModel<W>, buffers: Seq<usize>)
    requires
        s.writer is None,
    ensures
        after_buffers(s, buffers) == s,
    decreases buffers.len(),
{
    if buffers.len() > 0 {
        lemma_buffers_discarded(s, buffers.drop_last());
    }
}

} // verus!

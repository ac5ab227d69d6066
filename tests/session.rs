use std::io::Cursor;

use audio_recorder::error::RecorderError;
use audio_recorder::format::{full_scale, session_format, SampleEncoding, SampleFormat, SessionFormat};
use audio_recorder::protocol::{AudioResponse, RecordingState, UserRecordingSessionConfig};
use audio_recorder::slot::WriterSlot;
use audio_recorder::worker::{find_device, AudioWorker};

type Writer<'a> = hound::WavWriter<&'a mut Cursor<Vec<u8>>>;

fn wav_spec(f: &SessionFormat) -> hound::WavSpec {
    hound::WavSpec {
        channels: f.channels,
        sample_rate: f.sample_rate,
        bits_per_sample: f.bits_per_sample,
        sample_format: match f.sample_format {
            SampleFormat::Float => hound::SampleFormat::Float,
            SampleFormat::Int => hound::SampleFormat::Int,
        },
    }
}

/// What the capture callback does with one buffer.
fn feed<W: std::io::Write + std::io::Seek>(
    slot: &mut WriterSlot<hound::WavWriter<W>>,
    encoding: SampleEncoding,
    data: &[f32],
) {
    if let Some(writer) = slot.accept_buffer(data.len()) {
        for &s in data {
            let _ = match encoding {
                SampleEncoding::Float32 => writer.write_sample(s),
                SampleEncoding::Int16 => writer.write_sample((s * full_scale(16) as f32) as i16),
                SampleEncoding::Int24 => writer.write_sample((s * full_scale(24) as f32) as i32),
            };
        }
    }
}

fn open_worker(bits: u16) -> (AudioWorker<&'static str>, SessionFormat) {
    let mut worker: AudioWorker<&'static str> = AudioWorker::new();
    let config = UserRecordingSessionConfig { device_name: "default".to_string(), bits_per_sample: bits };
    let devices = Ok(vec!["hdmi".to_string(), "default".to_string()]);
    assert_eq!(worker.begin_session(&config, &devices), Ok(1));
    let format = session_format(1, 48000, bits).unwrap();
    let reply = worker.finish_session(config.device_name, Ok((format, "stream")));
    assert!(matches!(reply, AudioResponse::Success(_)));
    (worker, format)
}

fn synthetic(n: usize) -> Vec<f32> {
    (0..n).map(|i| ((i % 100) as f32 / 100.0) - 0.5).collect()
}

#[test]
fn start_then_stop_gives_a_file_in_the_session_format() {
    for bits in [16u16, 24, 32] {
        let (worker, format) = open_worker(bits);
        let mut file = Cursor::new(Vec::new());
        let mut slot: WriterSlot<Writer> = WriterSlot::new();
        let created_format = worker.begin_recording(&slot).unwrap();
        assert_eq!(created_format, format);
        let created = hound::WavWriter::new(&mut file, wav_spec(&created_format)).map_err(|e| e.to_string());
        assert!(matches!(worker.finish_recording(&mut slot, created), AudioResponse::Success(_)));
        assert_eq!(worker.state(&slot), RecordingState::Recording);
        let (writer, samples) = worker.take_recording(&mut slot).unwrap();
        assert_eq!(samples, 0);
        let reply = worker.finish_stop(writer.finalize().map_err(|e| e.to_string()));
        assert!(matches!(reply, AudioResponse::Success(_)));
        assert_eq!(worker.state(&slot), RecordingState::Initialized);
        drop(slot);
        let bytes = file.into_inner();
        assert!(!bytes.is_empty());
        let reader = hound::WavReader::new(Cursor::new(bytes)).unwrap();
        assert_eq!(reader.spec(), wav_spec(&format));
        assert_eq!(reader.spec().bits_per_sample, bits);
    }
}

#[test]
fn float_session_records_4800_samples() {
    let (worker, format) = open_worker(32);
    let mut file = Cursor::new(Vec::new());
    let mut slot: WriterSlot<Writer> = WriterSlot::new();
    let f = worker.begin_recording(&slot).unwrap();
    let created = hound::WavWriter::new(&mut file, wav_spec(&f)).map_err(|e| e.to_string());
    worker.finish_recording(&mut slot, created);
    let samples = synthetic(4800);
    for buffer in samples.chunks(480) {
        feed(&mut slot, f.encoding(), buffer);
    }
    assert_eq!(slot.samples_written(), 4800);
    let (writer, count) = worker.take_recording(&mut slot).unwrap();
    assert_eq!(count, 4800);
    writer.finalize().unwrap();
    drop(slot);
    let mut reader = hound::WavReader::new(Cursor::new(file.into_inner())).unwrap();
    assert_eq!(reader.len(), 4800);
    let spec = reader.spec();
    assert_eq!(spec.sample_format, hound::SampleFormat::Float);
    assert_eq!(spec.bits_per_sample, 32);
    assert_eq!(spec.channels, format.channels);
    assert_eq!(spec.sample_rate, format.sample_rate);
    let read: Vec<f32> = reader.samples::<f32>().map(|s| s.unwrap()).collect();
    assert_eq!(read, samples);
}

#[test]
fn int16_session_scales_samples() {
    let (worker, _) = open_worker(16);
    let mut file = Cursor::new(Vec::new());
    let mut slot: WriterSlot<Writer> = WriterSlot::new();
    let f = worker.begin_recording(&slot).unwrap();
    worker.finish_recording(&mut slot, Ok(hound::WavWriter::new(&mut file, wav_spec(&f)).unwrap()));
    feed(&mut slot, f.encoding(), &[1.0, -1.0, 0.5]);
    let (writer, _) = worker.take_recording(&mut slot).unwrap();
    writer.finalize().unwrap();
    drop(slot);
    let mut reader = hound::WavReader::new(Cursor::new(file.into_inner())).unwrap();
    let read: Vec<i16> = reader.samples::<i16>().map(|s| s.unwrap()).collect();
    assert_eq!(read, vec![32767, -32767, 16383]);
}

#[test]
fn cancel_after_start_returns_to_initialized() {
    let (worker, _) = open_worker(24);
    let mut slot: WriterSlot<u8> = WriterSlot::new();
    worker.begin_recording(&slot).unwrap();
    worker.finish_recording(&mut slot, Ok(1));
    assert_eq!(worker.state(&slot), RecordingState::Recording);
    assert_eq!(worker.take_recording(&mut slot), Ok((1, 0)));
    assert!(matches!(worker.finish_cancel(Ok(())), AudioResponse::Success(_)));
    assert_eq!(worker.state(&slot), RecordingState::Initialized);
    assert_eq!(
        worker.finish_cancel(Err("busy".to_string())),
        AudioResponse::Error(RecorderError::IoError("busy".to_string()))
    );
}

#[test]
fn second_start_is_refused_and_first_file_untouched() {
    let (worker, _) = open_worker(32);
    let mut first = Cursor::new(Vec::new());
    let mut second = Cursor::new(Vec::new());
    let mut slot: WriterSlot<Writer> = WriterSlot::new();
    let f = worker.begin_recording(&slot).unwrap();
    worker.finish_recording(&mut slot, Ok(hound::WavWriter::new(&mut first, wav_spec(&f)).unwrap()));
    feed(&mut slot, f.encoding(), &[0.25; 10]);
    assert_eq!(worker.begin_recording(&slot), Err(RecorderError::RecordingInProgress));
    let reply = worker.finish_recording(&mut slot, Ok(hound::WavWriter::new(&mut second, wav_spec(&f)).unwrap()));
    assert_eq!(reply, AudioResponse::Error(RecorderError::RecordingInProgress));
    feed(&mut slot, f.encoding(), &[0.5; 5]);
    let (writer, count) = worker.take_recording(&mut slot).unwrap();
    assert_eq!(count, 15);
    writer.finalize().unwrap();
    drop(slot);
    let mut reader = hound::WavReader::new(Cursor::new(first.into_inner())).unwrap();
    assert_eq!(reader.len(), 15);
    let read: Vec<f32> = reader.samples::<f32>().map(|s| s.unwrap()).collect();
    assert_eq!(&read[..10], &[0.25; 10]);
}

#[test]
fn stop_or_cancel_without_recording() {
    let (worker, _) = open_worker(16);
    let mut slot: WriterSlot<u8> = WriterSlot::new();
    assert_eq!(worker.take_recording(&mut slot), Err(RecorderError::NoActiveRecording));
    assert_eq!(worker.state(&slot), RecordingState::Initialized);
    let idle: AudioWorker<u8> = AudioWorker::new();
    assert_eq!(idle.take_recording(&mut slot), Err(RecorderError::NoActiveRecording));
    assert_eq!(idle.state(&slot), RecordingState::Idle);
}

#[test]
fn buffers_after_stop_are_discarded() {
    let (worker, _) = open_worker(16);
    let mut slot: WriterSlot<u8> = WriterSlot::new();
    worker.finish_recording(&mut slot, Ok(3));
    assert!(slot.accept_buffer(256).is_some());
    assert!(slot.accept_buffer(128).is_some());
    assert_eq!(worker.take_recording(&mut slot), Ok((3, 384)));
    assert!(slot.accept_buffer(64).is_none());
    assert_eq!(slot.samples_written(), 0);
    assert!(!slot.is_occupied());
}

#[test]
fn sample_count_saturates() {
    let mut slot: WriterSlot<u8> = WriterSlot::new();
    assert_eq!(slot.install(1), Ok(()));
    slot.accept_buffer(usize::MAX);
    slot.accept_buffer(usize::MAX);
    assert_eq!(slot.samples_written(), u64::MAX);
}

#[test]
fn occupied_slot_hands_the_new_encoder_back() {
    let mut slot: WriterSlot<u8> = WriterSlot::new();
    assert_eq!(slot.install(1), Ok(()));
    assert_eq!(slot.install(2), Err(2));
    assert_eq!(slot.take(), Some((1, 0)));
    assert_eq!(slot.take(), None);
}

#[test]
fn session_errors() {
    let mut worker: AudioWorker<u8> = AudioWorker::new();
    let cfg = |bits| UserRecordingSessionConfig { device_name: "USB".to_string(), bits_per_sample: bits };
    let names = Ok(vec!["default".to_string()]);
    assert_eq!(worker.begin_session(&cfg(16), &names), Err(RecorderError::DeviceNotFound));
    assert_eq!(worker.begin_session(&cfg(20), &names), Err(RecorderError::UnsupportedBitDepth(20)));
    assert_eq!(
        worker.begin_session(&cfg(16), &Err("host down".to_string())),
        Err(RecorderError::DeviceQueryError("host down".to_string()))
    );
    let format = session_format(2, 44100, 16).unwrap();
    assert_eq!(
        worker.finish_session("USB".to_string(), Err("busy".to_string())),
        AudioResponse::Error(RecorderError::StreamOpenError("busy".to_string()))
    );
    assert!(matches!(worker.finish_session("USB".to_string(), Ok((format, 1))), AudioResponse::Success(_)));
    assert_eq!(worker.begin_session(&cfg(16), &names), Err(RecorderError::AlreadyInitialized));
    assert_eq!(
        worker.finish_session("USB".to_string(), Ok((format, 2))),
        AudioResponse::Error(RecorderError::AlreadyInitialized)
    );
}

#[test]
fn recording_errors() {
    let idle: AudioWorker<u8> = AudioWorker::new();
    let mut slot: WriterSlot<u8> = WriterSlot::new();
    assert_eq!(idle.begin_recording(&slot), Err(RecorderError::SessionNotInitialized));
    assert_eq!(idle.finish_recording(&mut slot, Ok(1)), AudioResponse::Error(RecorderError::SessionNotInitialized));
    assert!(!slot.is_occupied());
    let (worker, _) = open_worker(16);
    assert_eq!(
        worker.finish_recording(&mut slot, Err("read-only".to_string())),
        AudioResponse::Error(RecorderError::EncoderCreateError("read-only".to_string()))
    );
    assert_eq!(
        worker.finish_stop(Err("flush".to_string())),
        AudioResponse::Error(RecorderError::IoError("flush".to_string()))
    );
}

#[test]
fn close_session_leaves_an_active_recording_in_the_slot() {
    let (mut worker, _) = open_worker(16);
    let mut slot: WriterSlot<u8> = WriterSlot::new();
    worker.finish_recording(&mut slot, Ok(9));
    slot.accept_buffer(32);
    let (reply, stream) = worker.close_session();
    assert!(matches!(reply, AudioResponse::Success(_)));
    assert_eq!(stream, Some("stream"));
    assert!(slot.is_occupied());
    assert_eq!(slot.samples_written(), 32);
    assert_eq!(worker.state(&slot), RecordingState::Idle);
    assert_eq!(worker.take_recording(&mut slot), Ok((9, 32)));
    let (reply, stream) = worker.close_session();
    assert_eq!(reply, AudioResponse::Error(RecorderError::SessionNotInitialized));
    assert_eq!(stream, None);
}

#[test]
fn close_thread_hands_back_the_stream() {
    let (mut worker, _) = open_worker(32);
    let mut slot: WriterSlot<u8> = WriterSlot::new();
    worker.finish_recording(&mut slot, Ok(4));
    let (reply, stream) = worker.close_thread();
    assert!(matches!(reply, AudioResponse::Success(_)));
    assert_eq!(stream, Some("stream"));
    assert!(slot.is_occupied());
    let (reply, stream) = worker.close_thread();
    assert!(matches!(reply, AudioResponse::Success(_)));
    assert_eq!(stream, None);
}

#[test]
fn check_session_needs_no_device_list() {
    let (worker, _) = open_worker(16);
    let cfg = |bits| UserRecordingSessionConfig { device_name: "x".to_string(), bits_per_sample: bits };
    assert_eq!(worker.check_session(&cfg(16)), Err(RecorderError::AlreadyInitialized));
    let idle: AudioWorker<u8> = AudioWorker::new();
    assert_eq!(idle.check_session(&cfg(20)), Err(RecorderError::UnsupportedBitDepth(20)));
    assert_eq!(idle.check_session(&cfg(24)), Ok(()));
}

#[test]
fn device_listing_replies() {
    let worker: AudioWorker<u8> = AudioWorker::new();
    assert_eq!(
        worker.list_devices(Ok(vec!["a".to_string()])),
        AudioResponse::RecordingDeviceList(vec!["a".to_string()])
    );
    assert_eq!(
        worker.list_devices(Err("x".to_string())),
        AudioResponse::Error(RecorderError::DeviceQueryError("x".to_string()))
    );
}

#[test]
fn find_device_picks_the_first_match() {
    let names = vec!["a".to_string(), "mic".to_string(), "mic".to_string()];
    assert_eq!(find_device(&names, &"mic".to_string()), Some(1));
    assert_eq!(find_device(&names, &"none".to_string()), None);
    assert_eq!(find_device(&vec![], &"a".to_string()), None);
}

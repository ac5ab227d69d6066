use vstd::prelude::*;

verus! {

/// `std::path::PathBuf`, carried through as an opaque value.
#[verifier::external_type_specification]
#[verifier::external_body]
pub struct ExPathBuf(std::path::PathBuf);

/// The arguments of the one-shot command-line front end.
#[derive(Debug)]
pub struct Cli {
    pub command: AudioCommand,
}

/// The one-shot front end's commands.
#[derive(Debug)]
pub enum AudioCommand {
    /// List all available audio input devices.
    ListDevices,
    /// Record audio from the default input device for `duration` seconds into
    /// the WAV file `output`.
    Record { duration: u64, output: std::path::PathBuf },
}

/// The recording length used when none is given, in seconds.
pub const DEFAULT_DURATION_SECS: u64 = 5;

} // verus!

use vstd::prelude::*;

use crate::error::RecorderError;

verus! {

/// How samples are represented in the output container.
#[derive(Debug, Clone, Copy, PartialEq, Eq, Structural)]
pub enum SampleFormat {
    Float,
    Int,
}

/// The format a session captures in and its recordings are encoded with.
#[derive(Debug, Clone, Copy, PartialEq, Eq, Structural)]
pub struct SessionFormat {
    pub channels: u16,
    pub sample_rate: u32,
    pub bits_per_sample: u16,
    pub sample_format: SampleFormat,
}

/// The conversion that the capture callback applies to each sample.
#[derive(Debug, Clone, Copy, PartialEq, Eq, Structural)]
pub enum SampleEncoding {
    /// Written unchanged as a 32-bit float.
    Float32,
    /// Scaled by `full_scale(16)` and written as a 16-bit integer.
    Int16,
    /// Scaled by `full_scale(24)` and written as a 24-bit integer.
    Int24,
}

/// The sample widths a session can be opened with.
pub open spec fn supported_bits(bits: u16) -> bool {
    bits == 16 || bits == 24 || bits == 32
}

/// 32-bit samples are floats; 16- and 24-bit samples are integers.
pub open spec fn format_for_bits(bits: u16) -> SampleFormat {
    if bits == 32 {
        SampleFormat::Float
    } else {
        SampleFormat::Int
    }
}

/// The largest magnitude of a signed integer sample `bits` wide.
pub open spec fn spec_full_scale(bits: u16) -> int {
    vstd::arithmetic::power2::pow2((bits - 1) as nat) - 1
}

impl SessionFormat {
    /// A format that a session can hold: a supported width with its representation.
    pub open spec fn wf(self) -> bool {
        supported_bits(self.bits_per_sample) && self.sample_format == format_for_bits(
            self.bits_per_sample,
        )
    }

    pub open spec fn spec_encoding(self) -> SampleEncoding {
        if self.bits_per_sample == 16 {
            SampleEncoding::Int16
        } else if self.bits_per_sample == 24 {
            SampleEncoding::Int24
        } else {
            SampleEncoding::Float32
        }
    }

    /// The per-sample conversion matching this format's declared width.
    pub fn encoding(&self) -> (r: SampleEncoding)
        ensures
            r == self.spec_encoding(),
            self.wf() ==> (r == SampleEncoding::Float32 <==> self.sample_format
                == SampleFormat::Float),
    {
        if self.bits_per_sample == 16 {
            SampleEncoding::Int16
        } else if self.bits_per_sample == 24 {
            SampleEncoding::Int24
        } else {
            SampleEncoding::Float32
        }
    }
}

/// Whether `bits` is a sample width a session can be opened with.
pub fn is_supported_bit_depth(bits: u16) -> (r: bool)
    ensures
        r == supported_bits(bits),
{
    bits == 16 || bits == 24 || bits == 32
}

/// The format of a session over a stream of `channels` at `sample_rate`, with
/// samples `bits` wide, or the refusal of an unsupported width.
pub open spec fn spec_session_format(channels: u16, sample_rate: u32, bits: u16) -> Result<
    SessionFormat,
    RecorderError,
> {
    if supported_bits(bits) {
        Ok(
            SessionFormat {
                channels,
                sample_rate,
                bits_per_sample: bits,
                sample_format: format_for_bits(bits),
            },
        )
    } else {
        Err(RecorderError::UnsupportedBitDepth(bits))
    }
}

/// The format of a session over a stream of `channels` at `sample_rate`, with
/// samples `bits` wide; unsupported widths are refused.
pub fn session_format(channels: u16, sample_rate: u32, bits: u16) -> (r: Result<
    SessionFormat,
    RecorderError,
>)
    ensures
        r == spec_session_format(channels, sample_rate, bits),
        r matches Ok(f) ==> f.wf(),
{
    if !is_supported_bit_depth(bits) {
        return Err(RecorderError::UnsupportedBitDepth(bits));
    }
    let sample_format = if bits == 32 {
        SampleFormat::Float
    } else {
        SampleFormat::Int
    };
    Ok(SessionFormat { channels, sample_rate, bits_per_sample: bits, sample_format })
}

/// The factor that maps a float sample in [-1, 1] onto a signed integer sample
/// `bits` wide: 32767 for 16 bits, 8388607 for 24 bits.
pub fn full_scale(bits: u16) -> (r: u32)
    requires
        bits == 16 || bits == 24,
    ensures
        r == spec_full_scale(bits),
{
    proof {
        vstd::arithmetic::power2::lemma2_to64();
        vstd::arithmetic::power2::lemma2_to64_rest();
    }
    if bits == 16 {
        32767
    } else {
        8388607
    }
}

} // verus!

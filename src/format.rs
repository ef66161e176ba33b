use vstd::prelude::*;

verus! {

/// How the samples of a WAV stream are encoded.
#[derive(Clone, Copy, Debug, PartialEq, Eq, Structural)]
pub enum SampleEncoding {
    Int,
    Float,
}

/// The native numeric type that samples of a stream are read and written in.
#[derive(Clone, Copy, Debug, PartialEq, Eq, Structural)]
pub enum SampleKind {
    /// 8-bit integer samples.
    I8,
    /// 16-bit integer samples.
    I16,
    /// 24- or 32-bit integer samples, widened to 32 bits.
    I32,
    /// 32-bit IEEE 754 samples.
    F32,
}

/// Format metadata of a WAV stream.
#[derive(Clone, Copy, Debug, PartialEq, Eq, Structural)]
pub struct AudioFormat {
    pub channels: u16,
    pub sample_rate: u32,
    pub bits_per_sample: u16,
    pub encoding: SampleEncoding,
}

/// The numeric type for a bit depth and encoding, if that combination is handled:
/// integer samples of 8, 16, 24 or 32 bits, and float samples of 32 bits.
pub open spec fn kind_of(bits: u16, encoding: SampleEncoding) -> Option<SampleKind> {
    match encoding {
        SampleEncoding::Int => if bits == 8 {
            Some(SampleKind::I8)
        } else if bits == 16 {
            Some(SampleKind::I16)
        } else if bits == 24 || bits == 32 {
            Some(SampleKind::I32)
        } else {
            None
        },
        SampleEncoding::Float => if bits == 32 {
            Some(SampleKind::F32)
        } else {
            None
        },
    }
}

/// The format with one channel and every other field of `f`.
pub open spec fn mono_of(f: AudioFormat) -> AudioFormat {
    AudioFormat { channels: 1, ..f }
}

impl AudioFormat {
    /// The numeric type that samples of this format are handled in, or `None`
    /// for a bit depth and encoding that cannot be handled.
    pub fn sample_kind(&self) -> (r: Option<SampleKind>)
        ensures
            r == kind_of(self.bits_per_sample, self.encoding),
    {
        match self.encoding {
            SampleEncoding::Int => if self.bits_per_sample == 8 {
                Some(SampleKind::I8)
            } else if self.bits_per_sample == 16 {
                Some(SampleKind::I16)
            } else if self.bits_per_sample == 24 || self.bits_per_sample == 32 {
                Some(SampleKind::I32)
            } else {
                None
            },
            SampleEncoding::Float => if self.bits_per_sample == 32 {
                Some(SampleKind::F32)
            } else {
                None
            },
        }
    }

    /// The format of the single-channel copy: one channel, the same sample rate,
    /// bit depth and encoding.
    pub fn mono(&self) -> (r: AudioFormat)
        ensures
            r == mono_of(*self),
    {
        AudioFormat {
            channels: 1,
            sample_rate: self.sample_rate,
            bits_per_sample: self.bits_per_sample,
            encoding: self.encoding,
        }
    }
}

} // verus!

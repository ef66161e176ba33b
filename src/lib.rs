//! Detection of faux stereo WAV streams, whose two channels are equal or equal
//! within a dither tolerance, and extraction of their left channel.
//!
//! `format` describes stream formats and the numeric types samples are handled
//! in, `compare` pairs interleaved samples into frames, compares channels and
//! picks the left channel out of a stream, and `pipeline` holds the decisions
//! taken for each file: which sources are accepted, whether and where a mono
//! copy is written, and how a copy ends.
pub mod compare;
pub mod format;
pub mod pipeline;

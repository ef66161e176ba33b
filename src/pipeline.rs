use vstd::prelude::*;

use crate::format::{kind_of, mono_of, AudioFormat, SampleKind};

verus! {

/// Dither thresholds above this level are likely to hide real stereo content.
pub const DITHER_WARNING_LEVEL: u32 = 100;

/// Resolved settings for processing files.
#[derive(Clone, Copy, Debug, PartialEq, Eq, Structural)]
pub struct Settings {
    /// Tolerated difference between the channels of a frame; zero asks for
    /// exact equality.
    pub dither: u32,
    /// Detect only; never write an output file.
    pub dry_run: bool,
    /// Leave an existing output file alone instead of replacing it.
    pub no_overwrites: bool,
}

impl Settings {
    /// Whether the dither threshold is high enough to deserve a warning.
    pub fn dither_too_high(&self) -> (r: bool)
        ensures
            r == (self.dither > DITHER_WARNING_LEVEL),
    {
        self.dither > DITHER_WARNING_LEVEL
    }
}

/// Why processing a file failed.
#[derive(Clone, Debug, PartialEq, Eq)]
pub enum FileError {
    /// The input does not have exactly two channels.
    NotStereo,
    /// The input's bit depth and encoding cannot be compared or copied.
    UnsupportedInput,
    /// The output's bit depth and encoding cannot be written.
    UnsupportedOutput,
    /// Writing or finalizing the output failed; holds the output path.
    WriteFailed(String),
}

/// The numeric type a source of format `f` is read in, or the error that
/// rejects it.
pub open spec fn source_check(f: AudioFormat) -> Result<SampleKind, FileError> {
    if f.channels != 2 {
        Err(FileError::NotStereo)
    } else {
        match kind_of(f.bits_per_sample, f.encoding) {
            Some(k) => Ok(k),
            None => Err(FileError::UnsupportedInput),
        }
    }
}

/// Accepts a source for comparison: it must have two channels and a bit depth
/// and encoding that can be handled. Returns the numeric type to read it in.
pub fn check_source(format: &AudioFormat) -> (r: Result<SampleKind, FileError>)
    ensures
        r == source_check(*format),
{
    if format.channels != 2 {
        return Err(FileError::NotStereo);
    }
    match format.sample_kind() {
        Some(k) => Ok(k),
        None => Err(FileError::UnsupportedInput),
    }
}

/// What follows the comparison of a file's channels.
#[derive(Clone, Copy, Debug, PartialEq, Eq, Structural)]
pub enum Outcome {
    /// The channels differ: the file is left alone.
    RealStereo,
    /// The channels are equal, but this is a dry run: nothing is written.
    FauxStereoDryRun,
    /// The channels are equal: the left channel is copied to a mono file.
    ExtractMono,
}

pub open spec fn outcome_of(differs: bool, settings: Settings) -> Outcome {
    if differs {
        Outcome::RealStereo
    } else if settings.dry_run {
        Outcome::FauxStereoDryRun
    } else {
        Outcome::ExtractMono
    }
}

/// Decides what follows a comparison whose verdict is `differs`.
pub fn after_comparison(differs: bool, settings: &Settings) -> (r: Outcome)
    ensures
        r == outcome_of(differs, *settings),
{
    if differs {
        Outcome::RealStereo
    } else if settings.dry_run {
        Outcome::FauxStereoDryRun
    } else {
        Outcome::ExtractMono
    }
}

/// What to do about the output path before writing.
#[derive(Clone, Copy, Debug, PartialEq, Eq, Structural)]
pub enum OutputPlan {
    /// No file is there: create it.
    Create,
    /// A file is there and may be replaced.
    Replace,
    /// A file is there and must stay untouched: write nothing.
    Skip,
}

pub open spec fn output_plan_of(exists: bool, settings: Settings) -> OutputPlan {
    if !exists {
        OutputPlan::Create
    } else if settings.no_overwrites {
        OutputPlan::Skip
    } else {
        OutputPlan::Replace
    }
}

/// Decides how to treat the output path, given whether a file is already there.
pub fn output_plan(exists: bool, settings: &Settings) -> (r: OutputPlan)
    ensures
        r == output_plan_of(exists, *settings),
{
    if !exists {
        OutputPlan::Create
    } else if settings.no_overwrites {
        OutputPlan::Skip
    } else {
        OutputPlan::Replace
    }
}

/// Whether processing a file writes its output file: the channels are equal,
/// it is no dry run, and the output path is free or may be replaced.
pub open spec fn writes_output(differs: bool, settings: Settings, exists: bool) -> bool {
    outcome_of(differs, settings) == Outcome::ExtractMono && output_plan_of(exists, settings)
        != OutputPlan::Skip
}

/// A dry run never writes an output file, whatever the verdict.
pub proof fn lemma_dry_run_writes_nothing(differs: bool, settings: Settings, exists: bool)
    requires
        settings.dry_run,
    ensures
        !writes_output(differs, settings, exists),
{
}

/// With overwrites forbidden, an output file that is already there is never
/// written to.
pub proof fn lemma_existing_output_kept(differs: bool, settings: Settings)
    requires
        settings.no_overwrites,
    ensures
        !writes_output(differs, settings, true),
        output_plan_of(true, settings) == OutputPlan::Skip,
{
}

/// With overwrites allowed, an output file that is already there is replaced
/// when a faux stereo file is processed outside a dry run.
pub proof fn lemma_existing_output_replaced(settings: Settings)
    requires
        !settings.no_overwrites,
        !settings.dry_run,
    ensures
        writes_output(false, settings, true),
        output_plan_of(true, settings) == OutputPlan::Replace,
{
}

/// The path `path` with its last extension replaced by `ext`.
pub uninterp spec fn path_with_extension(path: Seq<char>, ext: Seq<char>) -> Seq<char>;

/// The path of the mono copy of the file at `path`: the path with its last
/// extension replaced by `MONO.wav`.
pub open spec fn mono_path_of(path: Seq<char>) -> Seq<char> {
    path_with_extension(path, "MONO.wav"@)
}

/// Relies on std::path::Path::with_extension, which replaces the extension of a
/// path and depends on the path and the extension alone. It panics on an
/// extension that holds a path separator. The result of a path given as UTF-8
/// text with a UTF-8 extension is UTF-8 text, so no character is replaced.
#[verifier::external_body]
fn with_extension(path: &str, ext: &str) -> (r: String)
    requires
        forall|i: int| 0 <= i < ext@.len() ==> ext@[i] != '/' && ext@[i] != '\\',
    ensures
        r@ == path_with_extension(path@, ext@),
{
    std::path::Path::new(path).with_extension(ext).to_string_lossy().into_owned()
}

/// The work of copying the left channel of a faux stereo file.
#[derive(Clone, Debug)]
pub struct ExtractionJob {
    /// Where the mono copy goes.
    pub output_path: String,
    /// The format of the mono copy.
    pub format: AudioFormat,
    /// The numeric type samples are read and written in.
    pub kind: SampleKind,
}

impl ExtractionJob {
    /// Whether this job copies the file at `input`, of format `source`.
    pub open spec fn describes(&self, input: Seq<char>, source: AudioFormat) -> bool {
        &&& self.output_path@ == mono_path_of(input)
        &&& self.format == mono_of(source)
        &&& kind_of(source.bits_per_sample, source.encoding) == Some(self.kind)
    }

    /// Plans the copy of the file at `input`, of format `source`: the output
    /// path, and the output format, which differs from the source's in the
    /// channel count alone. Fails when the bit depth and encoding cannot be
    /// written.
    pub fn new(input: &str, source: &AudioFormat) -> (r: Result<ExtractionJob, FileError>)
        ensures
            kind_of(source.bits_per_sample, source.encoding) is Some <==> r is Ok,
            r is Ok ==> r->Ok_0.describes(input@, *source),
            r is Err ==> r->Err_0 == FileError::UnsupportedOutput,
    {
        let format = source.mono();
        match format.sample_kind() {
            Some(kind) => {
                proof {
                    reveal_strlit("MONO.wav");
                }
                let output_path = with_extension(input, "MONO.wav");
                Ok(ExtractionJob { output_path, format, kind })
            },
            None => Err(FileError::UnsupportedOutput),
        }
    }

    /// The result of the copy once every sample has been offered: the output
    /// path when each write and the finalization succeeded, else the error
    /// naming it, after which the partial output is to be removed.
    pub fn finish(self, writes_ok: bool, finalized: bool) -> (r: Result<String, FileError>)
        ensures
            r is Ok <==> writes_ok && finalized,
            r is Ok ==> r->Ok_0@ == self.output_path@,
            r is Err ==> r->Err_0 is WriteFailed && r->Err_0->WriteFailed_0@ == self.output_path@,
    {
        if writes_ok && finalized {
            Ok(self.output_path)
        } else {
            Err(FileError::WriteFailed(self.output_path))
        }
    }
}

/// Repeating an extraction on the same input repeats it exactly: the plan, and
/// so the output path, the header written and the numeric type of the samples,
/// is fixed by the input path and format.
pub proof fn lemma_extraction_repeats(
    first: ExtractionJob,
    second: ExtractionJob,
    input: Seq<char>,
    source: AudioFormat,
)
    requires
        first.describes(input, source),
        second.describes(input, source),
    ensures
        first.output_path@ == second.output_path@,
        first.format == second.format,
        first.kind == second.kind,
{
}

} // verus!

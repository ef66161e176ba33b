use faux_stereo::format::{AudioFormat, SampleEncoding, SampleKind};
use faux_stereo::pipeline::{
    after_comparison, check_source, output_plan, ExtractionJob, FileError, OutputPlan, Outcome,
    Settings, DITHER_WARNING_LEVEL,
};

fn fmt(channels: u16, bits: u16, encoding: SampleEncoding) -> AudioFormat {
    AudioFormat { channels, sample_rate: 44100, bits_per_sample: bits, encoding }
}

fn settings(dry_run: bool, no_overwrites: bool) -> Settings {
    Settings { dither: 0, dry_run, no_overwrites }
}

#[test]
fn mono_input_is_rejected() {
    assert_eq!(check_source(&fmt(1, 16, SampleEncoding::Int)), Err(FileError::NotStereo));
    assert_eq!(check_source(&fmt(6, 16, SampleEncoding::Int)), Err(FileError::NotStereo));
}

#[test]
fn supported_sources_are_accepted() {
    assert_eq!(check_source(&fmt(2, 8, SampleEncoding::Int)), Ok(SampleKind::I8));
    assert_eq!(check_source(&fmt(2, 16, SampleEncoding::Int)), Ok(SampleKind::I16));
    assert_eq!(check_source(&fmt(2, 24, SampleEncoding::Int)), Ok(SampleKind::I32));
    assert_eq!(check_source(&fmt(2, 32, SampleEncoding::Int)), Ok(SampleKind::I32));
    assert_eq!(check_source(&fmt(2, 32, SampleEncoding::Float)), Ok(SampleKind::F32));
}

#[test]
fn unsupported_source_is_rejected() {
    assert_eq!(check_source(&fmt(2, 12, SampleEncoding::Int)), Err(FileError::UnsupportedInput));
    assert_eq!(check_source(&fmt(2, 16, SampleEncoding::Float)), Err(FileError::UnsupportedInput));
}

#[test]
fn mono_format_changes_channel_count_only() {
    let f = AudioFormat { channels: 2, sample_rate: 48000, bits_per_sample: 24, encoding: SampleEncoding::Int };
    let m = f.mono();
    assert_eq!(m.channels, 1);
    assert_eq!(m.sample_rate, 48000);
    assert_eq!(m.bits_per_sample, 24);
    assert_eq!(m.encoding, SampleEncoding::Int);
}

#[test]
fn outcome_after_comparison() {
    assert_eq!(after_comparison(true, &settings(false, false)), Outcome::RealStereo);
    assert_eq!(after_comparison(true, &settings(true, false)), Outcome::RealStereo);
    assert_eq!(after_comparison(false, &settings(true, false)), Outcome::FauxStereoDryRun);
    assert_eq!(after_comparison(false, &settings(false, true)), Outcome::ExtractMono);
}

#[test]
fn dry_run_never_extracts() {
    for differs in [false, true] {
        assert_ne!(after_comparison(differs, &settings(true, false)), Outcome::ExtractMono);
        assert_ne!(after_comparison(differs, &settings(true, true)), Outcome::ExtractMono);
    }
}

#[test]
fn existing_output_kept_without_overwrites() {
    assert_eq!(output_plan(true, &settings(false, true)), OutputPlan::Skip);
    assert_eq!(output_plan(false, &settings(false, true)), OutputPlan::Create);
}

#[test]
fn existing_output_replaced_with_overwrites() {
    assert_eq!(after_comparison(false, &settings(false, false)), Outcome::ExtractMono);
    assert_eq!(output_plan(true, &settings(false, false)), OutputPlan::Replace);
    assert_eq!(output_plan(false, &settings(false, false)), OutputPlan::Create);
}

#[test]
fn dither_warning() {
    let mut s = settings(false, false);
    s.dither = DITHER_WARNING_LEVEL;
    assert!(!s.dither_too_high());
    s.dither = 101;
    assert!(s.dither_too_high());
}

#[test]
fn job_output_path_and_format() {
    let src = fmt(2, 16, SampleEncoding::Int);
    let job = ExtractionJob::new("music/song.wav", &src).unwrap();
    assert_eq!(job.output_path, "music/song.MONO.wav");
    assert_eq!(job.format, fmt(1, 16, SampleEncoding::Int));
    assert_eq!(job.kind, SampleKind::I16);
    let job = ExtractionJob::new("take.two.wav", &fmt(2, 32, SampleEncoding::Float)).unwrap();
    assert_eq!(job.output_path, "take.two.MONO.wav");
    assert_eq!(job.kind, SampleKind::F32);
}

#[test]
fn repeated_job_is_identical() {
    let src = fmt(2, 8, SampleEncoding::Int);
    let a = ExtractionJob::new("a.wav", &src).unwrap();
    let b = ExtractionJob::new("a.wav", &src).unwrap();
    assert_eq!(a.output_path, b.output_path);
    assert_eq!(a.format, b.format);
    assert_eq!(a.kind, b.kind);
}

#[test]
fn unsupported_output_is_refused() {
    let r = ExtractionJob::new("x.wav", &fmt(2, 20, SampleEncoding::Int));
    assert!(matches!(r, Err(FileError::UnsupportedOutput)));
}

#[test]
fn finish_reports_path_or_failure() {
    let src = fmt(2, 16, SampleEncoding::Int);
    let job = ExtractionJob::new("a.wav", &src).unwrap();
    assert_eq!(job.clone().finish(true, true), Ok(String::from("a.MONO.wav")));
    assert_eq!(job.clone().finish(false, true), Err(FileError::WriteFailed(String::from("a.MONO.wav"))));
    assert_eq!(job.finish(true, false), Err(FileError::WriteFailed(String::from("a.MONO.wav"))));
}

use audio_sharing_pc::alsa;
use audio_sharing_pc::audio_saver;
use audio_sharing_pc::error::{Error, ErrorRepr, FileError, IoError};
use audio_sharing_pc::exit_listener::SignalLatch;
use audio_sharing_pc::ffmpeg::resample::Resampler;
use audio_sharing_pc::ffmpeg::{AudioParams, AudioSampleFormat, Codec};
use audio_sharing_pc::pipeline::{
    capture_scratch_len, default_capture_params, default_encoder_params, needs_resampler,
};

fn float44100() -> AudioParams {
    AudioParams { rate: 44100, format: AudioSampleFormat::FloatLe }
}

fn float48000() -> AudioParams {
    AudioParams { rate: 48000, format: AudioSampleFormat::FloatLe }
}

#[test]
fn identity_resampling_returns_the_input_bytes() {
    let r = Resampler::new(float44100(), float44100());
    let src = vec![1u8, 2, 3, 4, 5, 6, 7, 8];
    let out = r.resample(&src).unwrap();
    assert_eq!(out, src);
}

#[test]
fn differing_parameters_defer_to_the_converter() {
    let r = Resampler::new(float44100(), float48000());
    assert_eq!(r.resample(&[1, 2, 3, 4]), None);
}

#[test]
fn scratch_buffers_grow_proportionally_rounded_up() {
    let mut r = Resampler::new(float44100(), float48000());
    // 1000 samples at 44100 -> ceil(1000 * 48000 / 44100) = 1089
    assert!(r.realloc_buffers_if_required(1000));
    // already large enough: nothing to do
    assert!(!r.realloc_buffers_if_required(500));
    assert!(!r.realloc_buffers_if_required(1000));
    // growing again reallocates
    assert!(r.realloc_buffers_if_required(2000));
}

#[test]
fn identity_rate_keeps_the_sample_count() {
    let mut r = Resampler::new(float44100(), float44100());
    assert!(r.realloc_buffers_if_required(1000));
    assert!(!r.realloc_buffers_if_required(1000));
}

#[test]
fn default_parameters_match_the_command_line_defaults() {
    let p = default_capture_params();
    assert_eq!(p.format, alsa::Format::FloatLe);
    assert_eq!(p.channels, 2);
    assert_eq!(p.rate, 44100);
    let e = default_encoder_params(float44100());
    assert_eq!(e.codec, Codec::Aac);
    assert_eq!(e.bit_rate, 96000);
    assert_eq!(e.audio_params, float44100());
}

#[test]
fn resampler_is_installed_exactly_when_the_device_deviates() {
    let wanted = default_capture_params();
    let granted = alsa::Params { rate: 48000, ..wanted };
    assert!(!needs_resampler(wanted, wanted));
    assert!(needs_resampler(wanted, granted));
}

#[test]
fn capture_scratch_is_a_whole_number_of_frames() {
    let p = default_capture_params();
    let len = capture_scratch_len(&p);
    assert_eq!(len % 8, 0);
    assert!(len >= 4096);
    assert!(len < 4096 + 8);
    let mono = alsa::Params { format: alsa::Format::U8, channels: 1, rate: 8000 };
    assert_eq!(capture_scratch_len(&mono), 4096);
    let odd = alsa::Params { format: alsa::Format::S16Le, channels: 3, rate: 44100 };
    let len = capture_scratch_len(&odd);
    assert_eq!(len % 6, 0);
    assert!(4096 <= len && len < 4096 + 6);
}

#[test]
fn wav_sink_sample_geometry() {
    assert_eq!(audio_saver::Format::U8.bits_per_sample(), 8);
    assert_eq!(audio_saver::Format::S16Le.bits_per_sample(), 16);
    assert_eq!(audio_saver::Format::S32Le.bits_per_sample(), 32);
    assert_eq!(audio_saver::Format::FloatLe.bits_per_sample(), 32);
    assert_eq!(audio_saver::Format::FloatLe.sample_bytes(), 4);
}

#[test]
fn wav_sink_takes_whole_samples_only() {
    let f = audio_saver::Format::FloatLe;
    assert!(f.accepts_chunk(0));
    assert!(f.accepts_chunk(4096));
    assert!(!f.accepts_chunk(4097));
    assert!(audio_saver::Format::U8.accepts_chunk(7));
    assert!(!audio_saver::Format::S16Le.accepts_chunk(7));
}

#[test]
fn wav_sink_errors_carry_their_output() {
    let e = audio_saver::Error::new(
        audio_saver::ErrorKind::UnfinishedSample,
        audio_saver::OutputType::File(String::from("/tmp/audio.dump")),
    );
    assert!(matches!(e.repr.kind, audio_saver::ErrorKind::UnfinishedSample));
    let audio_saver::OutputType::File(name) = e.repr.output;
    assert_eq!(name, "/tmp/audio.dump");
}

#[test]
fn signal_latch_is_one_way() {
    let mut latch = SignalLatch::new();
    assert!(!latch.has_signal());
    latch.set();
    assert!(latch.has_signal());
    latch.set();
    assert!(latch.has_signal());
}

#[test]
fn pipeline_errors_keep_their_source() {
    let fe = FileError::create(String::from("a.wav"), String::from("denied"));
    let e = Error::from(fe);
    match e.get_repr() {
        ErrorRepr::FileError(f) => {
            assert_eq!(f.fname, "a.wav");
            assert_eq!(f.message, "denied");
        }
        other => panic!("wrong error kind: {:?}", other),
    }
    let ioe = IoError::new(String::from("binding the socket"), String::from("in use"));
    let e = Error::from(ioe);
    assert!(matches!(e.get_repr(), ErrorRepr::IoError(_)));
    let ae = alsa::AlsaError::new(-5, String::from("open"));
    let e = Error::from(ae);
    assert!(matches!(e.get_repr(), ErrorRepr::Alsa(_)));
}

#[test]
fn hardware_parameters_convert_to_codec_parameters() {
    let p = default_capture_params();
    let a = AudioParams::from(p);
    assert_eq!(a.rate, 44100);
    assert_eq!(a.format, AudioSampleFormat::FloatLe);
    assert_eq!(
        alsa::Format::S16Le.to_audio_saver_format(),
        audio_saver::Format::S16Le
    );
}

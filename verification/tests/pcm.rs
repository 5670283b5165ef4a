use audio_sharing_pc::alsa::{
    calc_start_threshold, choose_format, format_probe_order, plan_buffer_times, xrun_action,
    Format, IoAction, Params, PcmState, Stream, Transfer, ERR_AGAIN, ERR_PIPE,
};

fn stereo_float() -> Params {
    Params { format: Format::FloatLe, channels: 2, rate: 44100 }
}

#[test]
fn format_codes_match_the_pcm_interface() {
    assert_eq!(Format::U8.to_ffi(), 1);
    assert_eq!(Format::S16Le.to_ffi(), 2);
    assert_eq!(Format::FloatLe.to_ffi(), 14);
    assert_eq!(Stream::Playback.to_ffi(), 0);
    assert_eq!(Stream::Capture.to_ffi(), 1);
}

#[test]
fn sample_and_frame_sizes() {
    assert_eq!(Format::U8.bytes_per_sample(), 1);
    assert_eq!(Format::S16Le.bytes_per_sample(), 2);
    assert_eq!(Format::FloatLe.bytes_per_sample(), 4);
    assert_eq!(stereo_float().bytes_per_frame(), 8);
}

#[test]
fn byte_counts_round_down_to_whole_frames() {
    let p = stereo_float();
    assert_eq!(p.bytes_qty_to_frames_qty(4068), 508);
    assert_eq!(p.frames_qty_to_bytes_qty(508), 4064);
    assert_eq!(p.aligned_len(4068), 4064);
    assert_eq!(p.aligned_len(4064), 4064);
    assert_eq!(p.aligned_len(7), 0);
    assert_eq!(p.aligned_len(4096) % (2 * 4), 0);
}

#[test]
fn requested_format_wins_when_available() {
    let avail = vec![Format::S16Le, Format::FloatLe, Format::U8];
    assert_eq!(choose_format(Format::FloatLe, &avail).unwrap(), Format::FloatLe);
}

#[test]
fn first_available_format_is_the_fallback() {
    let avail = vec![Format::S16Le, Format::U8];
    assert_eq!(choose_format(Format::FloatLe, &avail).unwrap(), Format::S16Le);
}

#[test]
fn no_formats_available_is_an_invalid_argument_error() {
    let avail: Vec<Format> = vec![];
    let e = choose_format(Format::FloatLe, &avail).unwrap_err();
    assert_eq!(e.errnum, -22);
}

#[test]
fn buffer_time_is_capped_at_half_a_second() {
    assert_eq!(plan_buffer_times(2_000_000), (500_000, 125_000));
    assert_eq!(plan_buffer_times(300_000), (300_000, 75_000));
}

#[test]
fn start_thresholds_per_direction() {
    assert_eq!(calc_start_threshold(Stream::Capture, 44100, 16384), 1);
    assert_eq!(calc_start_threshold(Stream::Playback, 44100, 16384), 16384);
}

#[test]
fn pcm_states_decode() {
    assert_eq!(PcmState::from_ffi(0), Some(PcmState::Open));
    assert_eq!(PcmState::from_ffi(2), Some(PcmState::Prepared));
    assert_eq!(PcmState::from_ffi(3), Some(PcmState::Running));
    assert_eq!(PcmState::from_ffi(4), Some(PcmState::XRun));
    assert_eq!(PcmState::from_ffi(8), Some(PcmState::Disconnected));
    assert_eq!(PcmState::from_ffi(9), None);
}

#[test]
fn capture_transfer_advances_by_frames_read() {
    let p = stereo_float();
    let mut t = Transfer::new(p, Stream::Capture, 4068);
    assert_eq!(t.total_bytes, 4064);
    assert_eq!(t.frames_left(), 508);
    assert_eq!(t.step(500), IoAction::Advance(4000));
    assert_eq!(t.offset(), 4000);
    assert_eq!(t.step(ERR_AGAIN), IoAction::Retry);
    assert_eq!(t.offset(), 4000);
    assert_eq!(t.step(8), IoAction::Advance(64));
    assert!(t.is_done());
}

#[test]
fn capture_overrun_recovers_like_playback() {
    let p = stereo_float();
    let mut t = Transfer::new(p, Stream::Capture, 4096);
    assert_eq!(t.step(ERR_PIPE), IoAction::Recover);
    assert_eq!(t.offset(), 0);
}

#[test]
fn playback_underrun_recovers_without_losing_the_chunk() {
    let p = stereo_float();
    let mut t = Transfer::new(p, Stream::Playback, 1024);
    let before = t.offset();
    assert_eq!(t.step(ERR_PIPE), IoAction::Recover);
    // the same bytes are still owed: nothing of the chunk was dropped
    assert_eq!(t.offset(), before);
    assert_eq!(t.frames_left(), 128);
    assert_eq!(t.step(128), IoAction::Advance(1024));
    assert!(t.is_done());
}

#[test]
fn unexpected_device_error_is_surfaced() {
    let p = stereo_float();
    let mut t = Transfer::new(p, Stream::Playback, 1024);
    assert_eq!(t.step(-77), IoAction::Fail(-77));
}

#[test]
fn playback_chunks_are_capped_by_the_device_buffer() {
    let p = stereo_float();
    let t = Transfer::new(p, Stream::Playback, 10000);
    assert_eq!(t.next_chunk_len(4096), 4096);
    assert_eq!(t.next_chunk_len(20000), 10000);
}

#[test]
fn xrun_state_recovers_and_other_states_fail() {
    assert!(xrun_action(PcmState::XRun, -32).is_ok());
    let e = xrun_action(PcmState::Running, -32).unwrap_err();
    assert_eq!(e.errnum, -32);
}

#[test]
fn formats_are_probed_in_a_fixed_order() {
    assert_eq!(
        format_probe_order(),
        vec![Format::S16Le, Format::FloatLe, Format::U8]
    );
}

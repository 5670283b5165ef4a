use audio_sharing_pc::ffmpeg::codec::{
    interleave_planes, negotiate_sample_format, split_planar, AvFrameEncoder, AvPacket,
    Codec, DecodedFrame, Decoder, Encoder, Params,
};
use audio_sharing_pc::ffmpeg::error::{ErrorRepr, InternalError};
use audio_sharing_pc::ffmpeg::ffmpeg_const::{av_error, ff_err_tag, mk_tag, AVERROR_EOF, EAGAIN};
use audio_sharing_pc::ffmpeg::format::SinglePacketFormatter;
use audio_sharing_pc::ffmpeg::{AudioParams, AudioSampleFormat};

fn float_params() -> AudioParams {
    AudioParams { rate: 44100, format: AudioSampleFormat::FloatLe }
}

fn enc_params() -> Params {
    Params { codec: Codec::Aac, bit_rate: 96000, audio_params: float_params() }
}

#[test]
fn codec_identifiers() {
    assert_eq!(Codec::Aac.to_raw(), 86018);
    assert_eq!(Codec::AacLd.to_raw(), 86018);
    assert_eq!(Codec::Mp2.to_raw(), 86016);
    assert_eq!(Codec::Aac.get_profile(), None);
    assert_eq!(Codec::AacLd.get_profile(), Some(22));
    assert_eq!(Codec::Aac.get_default_muxer_name(), "adts");
    assert_eq!(Codec::AacLd.get_default_muxer_name(), "adts");
    assert_eq!(Codec::Mp2.get_default_muxer_name(), "data");
}

#[test]
fn sample_format_codes_round_trip() {
    for (raw, fmt) in [
        (0, AudioSampleFormat::U8),
        (1, AudioSampleFormat::S16Le),
        (3, AudioSampleFormat::FloatLe),
        (5, AudioSampleFormat::U8P),
        (6, AudioSampleFormat::S16LeP),
        (8, AudioSampleFormat::FloatLeP),
    ] {
        assert_eq!(AudioSampleFormat::from_raw(raw), Some(fmt));
        assert_eq!(fmt.to_raw(), raw);
    }
    assert_eq!(AudioSampleFormat::from_raw(2), None);
    assert_eq!(AudioSampleFormat::from_raw(-1), None);
}

#[test]
fn sample_sizes_and_planar_variants() {
    assert_eq!(AudioSampleFormat::U8.get_sample_size(), 1);
    assert_eq!(AudioSampleFormat::S16LeP.get_sample_size(), 2);
    assert_eq!(AudioSampleFormat::FloatLe.get_sample_size(), 4);
    assert!(AudioSampleFormat::FloatLeP.is_planar());
    assert!(!AudioSampleFormat::FloatLe.is_planar());
    assert_eq!(AudioSampleFormat::S16Le.to_planar(), AudioSampleFormat::S16LeP);
    assert_eq!(AudioSampleFormat::S16LeP.to_interleaved(), AudioSampleFormat::S16Le);
    assert_eq!(float_params().get_channels_qty(), 2);
    assert_eq!(float_params().get_samples_qty_in_buffer(4064), 508);
}

#[test]
fn error_code_arithmetic() {
    assert_eq!(av_error(EAGAIN), -11);
    assert_eq!(mk_tag('E', 'O', 'F', ' '), 541478725);
    assert_eq!(ff_err_tag('E', 'O', 'F', ' '), AVERROR_EOF);
    let again = InternalError::new(-11, String::from("x"));
    assert!(again.is_again());
    assert!(!again.is_eof());
    assert!(again.is_again_or_eof());
    let eof = InternalError::new(AVERROR_EOF, String::from("y"));
    assert!(eof.is_eof());
    assert!(eof.is_again_or_eof());
    let fatal = InternalError::new(-5, String::from("z"));
    assert!(!fatal.is_again_or_eof());
}

#[test]
fn requested_interleaved_format_is_kept() {
    let supported = vec![AudioSampleFormat::FloatLe, AudioSampleFormat::FloatLeP];
    let got = negotiate_sample_format(AudioSampleFormat::FloatLe, &supported).unwrap();
    assert_eq!(got, AudioSampleFormat::FloatLe);
}

#[test]
fn planar_fallback_when_interleaved_unsupported() {
    let supported = vec![AudioSampleFormat::FloatLeP];
    let got = negotiate_sample_format(AudioSampleFormat::FloatLe, &supported).unwrap();
    assert_eq!(got, AudioSampleFormat::FloatLeP);
}

#[test]
fn planar_request_is_refused_with_interleaved_list() {
    let supported = vec![AudioSampleFormat::FloatLeP, AudioSampleFormat::S16Le];
    let err = negotiate_sample_format(AudioSampleFormat::FloatLeP, &supported).unwrap_err();
    match *err.repr {
        ErrorRepr::UnsupportedSampleFormat(u) => {
            assert_eq!(u.fmt, AudioSampleFormat::FloatLeP);
            assert_eq!(u.supported, vec![
                AudioSampleFormat::FloatLe,
                AudioSampleFormat::S16Le,
            ]);
        }
        other => panic!("wrong error kind: {:?}", other),
    }
}

#[test]
fn unsupportable_format_is_refused() {
    let supported = vec![AudioSampleFormat::S16Le, AudioSampleFormat::S16LeP];
    let err = negotiate_sample_format(AudioSampleFormat::U8, &supported).unwrap_err();
    assert!(matches!(*err.repr, ErrorRepr::UnsupportedSampleFormat(_)));
}

#[test]
fn encoder_cuts_whole_frames_and_keeps_the_rest() {
    let supported = vec![AudioSampleFormat::FloatLe];
    // one codec frame per channel sample: 1 sample x 2 channels x 4
    // bytes = 8 bytes per frame
    let mut enc = Encoder::new(enc_params(), &supported, 1).unwrap();
    let frames = enc.write(&[1, 2, 3, 4, 5]);
    assert!(frames.is_empty());
    let frames = enc.write(&[6, 7, 8, 9, 10, 11, 12, 13, 14, 15, 16, 17, 18]);
    assert_eq!(frames, vec![
        vec![1, 2, 3, 4, 5, 6, 7, 8],
        vec![9, 10, 11, 12, 13, 14, 15, 16],
    ]);
    let frames = enc.write(&[19, 20, 21, 22, 23, 24]);
    assert_eq!(frames, vec![vec![17, 18, 19, 20, 21, 22, 23, 24]]);
}

#[test]
fn encoder_read_swallows_would_block_and_end_of_stream() {
    let supported = vec![AudioSampleFormat::FloatLe];
    let enc = Encoder::new(enc_params(), &supported, 1).unwrap();
    let got = enc.read(Ok(vec![0xA, 0xB])).unwrap();
    assert_eq!(got, Some(vec![0xA, 0xB]));
    let got = enc.read(Err(InternalError::new(-11, String::new()))).unwrap();
    assert_eq!(got, None);
    let got = enc.read(Err(InternalError::new(AVERROR_EOF, String::new()))).unwrap();
    assert_eq!(got, None);
    let err = enc.read(Err(InternalError::new(-5, String::new()))).unwrap_err();
    match *err.repr {
        ErrorRepr::Internal(ie) => assert_eq!(ie.err_num, -5),
        other => panic!("wrong error kind: {:?}", other),
    }
}

#[test]
fn interleaved_bytes_split_into_planes() {
    // two channels, two bytes per sample, two samples:
    // L0 L0 R0 R0 L1 L1 R1 R1
    let frame = [10, 11, 20, 21, 12, 13, 22, 23];
    let planes = split_planar(&frame, 2, 2);
    assert_eq!(planes, vec![vec![10, 11, 12, 13], vec![20, 21, 22, 23]]);
}

#[test]
fn planes_interleave_back() {
    let planes = vec![vec![10, 11, 12, 13], vec![20, 21, 22, 23]];
    let bytes = interleave_planes(&planes, 2, 2);
    assert_eq!(bytes, vec![10, 11, 20, 21, 12, 13, 22, 23]);
}

#[test]
fn staging_frame_splits_planar_formats() {
    let mut f = AvFrameEncoder::new(2, AudioSampleFormat::S16LeP, 2);
    // needs 2 samples x 2 channels x 2 bytes = 8 bytes
    assert_eq!(f.copy_from_slice(&[1, 2, 3]), None);
    let buf = [10, 11, 20, 21, 12, 13, 22, 23, 99];
    assert_eq!(f.copy_from_slice(&buf), Some(8));
}

#[test]
fn staging_frame_keeps_interleaved_formats_whole() {
    let mut f = AvFrameEncoder::new(1, AudioSampleFormat::FloatLe, 2);
    assert_eq!(f.copy_from_slice(&[1, 2, 3, 4, 5, 6, 7, 8, 9]), Some(8));
}

#[test]
fn decoder_tracks_the_parse_cursor() {
    let mut d = Decoder::new();
    d.write(&[1, 2, 3, 4, 5]);
    assert!(!d.is_drained());
    assert_eq!(d.unparsed(), vec![1, 2, 3, 4, 5]);
    d.consume(2);
    assert_eq!(d.unparsed(), vec![3, 4, 5]);
    d.consume(3);
    assert!(d.is_drained());
    d.finish_write();
    assert_eq!(d.unparsed(), Vec::<u8>::new());
}

#[test]
fn decoder_read_interleaves_planes_and_swallows_not_now_codes() {
    let d = Decoder::new();
    let frame = DecodedFrame {
        planes: vec![vec![1, 2, 3, 4], vec![5, 6, 7, 8]],
        nb_samples: 2,
    };
    let got = d.read(Ok(frame), 2).unwrap();
    assert_eq!(got, Some(vec![1, 2, 5, 6, 3, 4, 7, 8]));
    let got = d.read(Err(InternalError::new(-11, String::new())), 2).unwrap();
    assert_eq!(got, None);
    let err = d.read(Err(InternalError::new(-9, String::new())), 2).unwrap_err();
    assert!(matches!(*err.repr, ErrorRepr::Internal(_)));
}

#[test]
fn packet_length_and_emptiness() {
    let p = AvPacket::new();
    assert!(p.is_empty());
    assert_eq!(p.len(), 0);
    let p = AvPacket { data: vec![1, 2, 3] };
    assert!(!p.is_empty());
    assert_eq!(p.len(), 3);
}

#[test]
fn formatter_holds_exactly_the_last_packet() {
    let mut f = SinglePacketFormatter::new();
    assert_eq!(f.get_buf(), &[] as &[u8]);
    f.write_pkt(&[1, 2, 3, 4]);
    assert_eq!(f.get_buf().to_vec(), vec![1, 2, 3, 4]);
    f.write_pkt(&[9]);
    assert_eq!(f.get_buf().to_vec(), vec![9]);
}

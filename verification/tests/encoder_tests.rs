use cosmic_connect_plugins::encoding::{EncodeStep, EncoderStats, FrameEncoder};
use cosmic_connect_plugins::frame::{EncodedFrame, EncodingType, PixelFormat, QualityPreset, RawFrame};

fn create_test_frame() -> RawFrame {
    let width = 640;
    let height = 480;
    let data = vec![128u8; (width * height * 4) as usize];
    RawFrame::new(width, height, PixelFormat::RGBA, data)
}

fn encoded(step: EncodeStep) -> EncodedFrame {
    match step {
        EncodeStep::Done(Ok(e)) => e,
        other => panic!("frame not encoded: {:?}", other),
    }
}

#[test]
fn test_raw_encoding() {
    let mut encoder = FrameEncoder::new(QualityPreset::High);
    encoder.set_encoding(EncodingType::Raw);

    let frame = create_test_frame();
    let encoded = encoded(encoder.encode(&frame));

    assert_eq!(encoded.encoding, EncodingType::Raw);
    assert_eq!(encoded.width, frame.width);
    assert_eq!(encoded.height, frame.height);
    assert_eq!(encoded.data.len(), frame.data.len());
}

#[test]
fn test_lz4_encoding() {
    let mut encoder = FrameEncoder::new(QualityPreset::Medium);
    encoder.set_encoding(EncodingType::LZ4);

    let frame = create_test_frame();
    let original_size = frame.size();
    let encoded = encoded(encoder.encode(&frame));

    assert_eq!(encoded.encoding, EncodingType::LZ4);
    assert_eq!(encoded.width, frame.width);
    assert_eq!(encoded.height, frame.height);
    assert!(encoded.data.len() < original_size);
}

#[test]
fn encoder_stats_count_frames_and_bytes() {
    let mut encoder = FrameEncoder::new(QualityPreset::Medium);
    encoder.set_encoding(EncodingType::Raw);

    let frame = create_test_frame();

    for _ in 0..5 {
        encoded(encoder.encode(&frame));
    }

    let stats = encoder.stats();
    assert_eq!(stats.frames_encoded, 5);
    assert_eq!(stats.total_input_bytes, 5 * frame.size());
    assert_eq!(stats.total_output_bytes, 5 * frame.size());
}

#[test]
fn test_hextile_encoding() {
    let mut encoder = FrameEncoder::new(QualityPreset::Medium);
    encoder.set_encoding(EncodingType::Hextile);

    let frame = create_test_frame();
    let encoded = encoded(encoder.encode(&frame));

    assert_eq!(encoded.encoding, EncodingType::Hextile);
    assert_eq!(encoded.width, frame.width);
    assert_eq!(encoded.height, frame.height);
    assert!(!encoded.data.is_empty(), "Hextile encoding produced empty data");
}

#[test]
fn test_hextile_uniform_tile() {
    let width = 640;
    let height = 480;
    let data = vec![200u8; (width * height * 4) as usize];
    let frame = RawFrame::new(width, height, PixelFormat::RGBA, data);

    let mut encoder = FrameEncoder::new(QualityPreset::Medium);
    encoder.set_encoding(EncodingType::Hextile);

    let original_size = frame.size();
    let encoded = encoded(encoder.encode(&frame));

    assert!(encoded.data.len() < original_size / 10);
}

#[test]
fn test_hextile_with_pattern() {
    let width = 640;
    let height = 480;
    let mut data = vec![0u8; (width * height * 4) as usize];

    for y in 0..height {
        for x in 0..width {
            let idx = ((y * width + x) * 4) as usize;
            let color = if (x / 16 + y / 16) % 2 == 0 { 255u8 } else { 0u8 };
            data[idx] = color;
            data[idx + 1] = color;
            data[idx + 2] = color;
            data[idx + 3] = 255;
        }
    }

    let frame = RawFrame::new(width, height, PixelFormat::RGBA, data);
    let mut encoder = FrameEncoder::new(QualityPreset::Medium);
    encoder.set_encoding(EncodingType::Hextile);

    let encoded = encoded(encoder.encode(&frame));
    assert_eq!(encoded.encoding, EncodingType::Hextile);
}

#[test]
fn test_encoding_type_switch() {
    let mut encoder = FrameEncoder::new(QualityPreset::Medium);
    let frame = create_test_frame();

    for encoding in [EncodingType::Raw, EncodingType::LZ4, EncodingType::Hextile, EncodingType::H264] {
        encoder.set_encoding(encoding);
        match encoder.encode(&frame) {
            EncodeStep::Done(Ok(e)) => assert_eq!(e.encoding, encoding),
            EncodeStep::NeedsH264 { bitrate_bps } => {
                assert_eq!(encoding, EncodingType::H264);
                assert_eq!(bitrate_bps, QualityPreset::Medium.target_bitrate(640, 480, 30));
            }
            EncodeStep::Done(Err(e)) => panic!("Encoding with {:?} failed: {:?}", encoding, e),
        }
    }
}

#[test]
fn rgba_data_keeps_rgba_bytes() {
    let frame = RawFrame::new(1, 1, PixelFormat::RGBA, vec![1, 2, 3, 4, 5]);
    assert_eq!(frame.rgba_data(), vec![1, 2, 3, 4, 5]);
}

#[test]
fn rgba_data_reorders_bgra_and_fills_alpha() {
    let bgra = RawFrame::new(2, 1, PixelFormat::BGRA, vec![10, 20, 30, 40, 50, 60, 70, 80, 99]);
    assert_eq!(bgra.rgba_data(), vec![30, 20, 10, 40, 70, 60, 50, 80]);
    let rgb = RawFrame::new(1, 1, PixelFormat::RGB, vec![1, 2, 3]);
    assert_eq!(rgb.rgba_data(), vec![1, 2, 3, 255]);
    let bgr = RawFrame::new(1, 1, PixelFormat::BGR, vec![1, 2, 3, 4]);
    assert_eq!(bgr.rgba_data(), vec![3, 2, 1, 255]);
}

#[test]
fn average_encode_time_over_all_frames() {
    let many = EncoderStats {
        frames_encoded: 4_294_967_297,
        total_encode_time_nanos: 8_589_934_594,
        total_input_bytes: 0,
        total_output_bytes: 0,
    };
    assert_eq!(many.avg_encode_time(), 2);
    let few = EncoderStats { frames_encoded: 3, total_encode_time_nanos: 10, total_input_bytes: 0, total_output_bytes: 0 };
    assert_eq!(few.avg_encode_time(), 3);
    assert_eq!(EncoderStats::zero().avg_encode_time(), 0);
}

#[test]
fn lz4_output_opens_with_the_input_length() {
    let encoder = FrameEncoder::new(QualityPreset::Medium);
    let frame = create_test_frame();
    let encoded = encoder.encode_lz4(&frame).unwrap();
    assert_eq!(&encoded.data[0..4], &(frame.data.len() as u32).to_le_bytes());
}

#[test]
fn lz4_frame_wraps_the_compressed_bytes() {
    let encoder = FrameEncoder::new(QualityPreset::Medium);
    let frame = create_test_frame();
    let e = encoder.finish_lz4(&frame, vec![1, 2, 3, 4, 5]);
    assert_eq!(e.encoding, EncodingType::LZ4);
    assert_eq!(e.data, vec![1, 2, 3, 4, 5]);
    assert_eq!((e.width, e.height), (frame.width, frame.height));
    let ratio = e.compression_ratio.unwrap();
    assert_eq!((ratio.original_size, ratio.encoded_size), (frame.data.len(), 5));
}

use cosmic_connect_plugins::screencapture::{
    clamp_encoder_bitrate, pipeline_description, resolution_caps, CaptureConfig,
};

#[test]
fn test_capture_config_default() {
    let config = CaptureConfig::default();
    assert_eq!(config.fps, 30);
    assert_eq!(config.bitrate_kbps, 2000);
}

#[test]
fn capture_pipeline_uses_the_portal_stream() {
    let config = CaptureConfig {
        fps: 60,
        bitrate_kbps: 4000,
        width: 1920,
        height: 1080,
        pipewire_node_id: Some(77),
        pipewire_fd: Some(12),
        include_audio: false,
        cursor_metadata_mode: true,
    };
    assert_eq!(resolution_caps(&config), ",width=1920,height=1080");
    assert_eq!(
        pipeline_description(&config),
        "pipewiresrc fd=12 path=77 do-timestamp=true keepalive-time=1000 ! videoconvert ! videoscale ! \
         video/x-raw,framerate=60/1,width=1920,height=1080 ! \
         x264enc name=encoder tune=zerolatency bitrate=4000 speed-preset=ultrafast key-int-max=30 ! \
         video/x-h264,stream-format=byte-stream ! appsink name=sink emit-signals=true drop=true max-buffers=2"
    );
}

#[test]
fn capture_pipeline_falls_back_to_test_source() {
    let mut config = CaptureConfig::default();
    config.pipewire_node_id = Some(3);
    assert_eq!(resolution_caps(&config), "");
    assert_eq!(
        pipeline_description(&config),
        "videotestsrc pattern=smpte is-live=true ! video/x-raw,framerate=30/1,width=1280,height=720 ! \
         videoconvert ! \
         x264enc name=encoder tune=zerolatency bitrate=2000 speed-preset=ultrafast key-int-max=30 ! \
         video/x-h264,stream-format=byte-stream ! appsink name=sink emit-signals=true drop=true max-buffers=2"
    );
}

#[test]
fn encoder_bitrate_is_clamped() {
    assert_eq!(clamp_encoder_bitrate(0), 100);
    assert_eq!(clamp_encoder_bitrate(2500), 2500);
    assert_eq!(clamp_encoder_bitrate(90000), 50000);
}

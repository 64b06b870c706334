use vantis::live_streaming::{HealthStatus, LiveStreamingConfig, LiveStreamingServicesBuilder, StreamingStats};
use vantis::screen_recording::{
    RecordingPreset, ScreenRecordingConfig, ScreenRecordingServices, ScreenRecordingServicesBuilder,
};
use vantis::screen_sessions::{stamp_text, DefaultRecordingService, RecordingId};
use vantis::screen_types::{
    AudioCodec, AudioSourceConfig, CaptureSource, Color, HotkeyConfig, KeyCode, KeyCombo, OutputFormat,
    OutputConfig, OverlayType, QualityPreset, RecordingConfig, RecordingStatus, Resolution, TimerFormat,
    VideoCaptureConfig,
};
use vantis::stream_types::{LatencyMode, Resolution as StreamResolution, StreamCategory};

#[test]
fn lib_test_default_config() {
    let config = ScreenRecordingConfig::default();
    assert_eq!(config.default_frame_rate, 30);
    assert!(config.default_hardware_encoding);
}

#[test]
fn test_default_config() {
    let config = LiveStreamingConfig::default();
    assert_eq!(config.max_streams_per_broadcaster, 1);
    assert_eq!(config.max_viewers_per_stream, 100_000);
    assert!(config.enable_hype_train);
    assert!(config.enable_predictions);
    assert!(config.enable_polls);
}

#[test]
fn test_resolution() {
    let hd = Resolution::hd();
    assert_eq!(hd.width, 1280);
    assert_eq!(hd.height, 720);

    let fhd = Resolution::full_hd();
    assert_eq!(fhd.width, 1920);
}

#[test]
fn screen_builder_sets_only_the_named_settings() {
    let services = ScreenRecordingServicesBuilder::new()
        .frame_rate(60)
        .hardware_encoding(false)
        .build();
    let config = services.config();
    assert_eq!(config.default_frame_rate, 60);
    assert!(!config.default_hardware_encoding);
    assert_eq!(config.min_disk_space, 500);
    let services = ScreenRecordingServicesBuilder::new()
        .output_directory("/tmp/rec")
        .max_duration(90)
        .min_disk_space(1)
        .build();
    let config = services.config();
    assert_eq!(config.default_output_directory, "/tmp/rec");
    assert_eq!((config.max_recording_duration, config.min_disk_space), (90, 1));
    assert_eq!(config.default_frame_rate, 30);
}

#[test]
fn colors_and_hotkeys() {
    assert_eq!(Color::red(), Color::new(255, 0, 0, 255));
    assert_eq!(Color::transparent().a, 0);
    assert_eq!(Resolution::ultra_hd().height, 2160);
    let keys = HotkeyConfig::default();
    assert_eq!(keys.start.unwrap().keys, vec![KeyCode::Control, KeyCode::Shift, KeyCode::R]);
    assert_eq!(KeyCombo::new(&[KeyCode::A, KeyCode::B]).keys, vec![KeyCode::A, KeyCode::B]);
    assert_eq!(VideoCaptureConfig::default().frame_rate, 30);
}

#[test]
fn live_builder_changes_named_settings() {
    let services = LiveStreamingServicesBuilder::new()
        .max_streams_per_broadcaster(3)
        .max_viewers_per_stream(50_000)
        .enable_hype_train(false)
        .default_latency_mode(LatencyMode::RealTime)
        .build();
    let config = services.config();
    assert_eq!(config.max_streams_per_broadcaster, 3);
    assert_eq!(config.max_viewers_per_stream, 50_000);
    assert!(!config.enable_hype_train);
    assert!(config.enable_polls);
    assert_eq!(config.default_latency_mode, LatencyMode::RealTime);
    assert_eq!(config.vod_retention_days, 60);
    assert_eq!(services.stats(), StreamingStats::default());
}

#[test]
fn test_builder() {
    let services = LiveStreamingServicesBuilder::new()
        .max_streams_per_broadcaster(3)
        .max_viewers_per_stream(50_000)
        .enable_hype_train(false)
        .build();

    assert_eq!(services.config().max_viewers_per_stream, 50_000);
    assert!(services.broadcaster.get_broadcaster_by_username("nobody").is_err());
}

#[test]
fn health_report_reflects_stats_and_features() {
    let stats = StreamingStats { active_streams: 3, total_viewers: 40, ..StreamingStats::default() };
    let config = LiveStreamingConfig { enable_polls: false, ..LiveStreamingConfig::default() };
    let health = HealthStatus::report(&stats, &config);
    assert!(health.healthy);
    assert_eq!(health.active_streams, 3);
    assert_eq!(health.total_viewers, 40);
    assert!(health.features_enabled.hype_train);
    assert!(!health.features_enabled.polls);
}

#[test]
fn stream_resolution_dimensions() {
    assert_eq!(StreamResolution::SD.dimensions(), (854, 480));
    assert_eq!(StreamResolution::UHD.dimensions(), (3840, 2160));
    assert_eq!(StreamResolution::Custom { width: 7, height: 9 }.dimensions(), (7, 9));
    let c = StreamCategory::new("gaming", "Gaming");
    assert_eq!((c.id.as_str(), c.name.as_str()), ("gaming", "Gaming"));
    assert!(c.parent_id.is_none() && c.tags.is_empty());
}

#[test]
fn lib_test_builder() {
    let services = ScreenRecordingServicesBuilder::new()
        .frame_rate(60)
        .hardware_encoding(false)
        .build();

    assert_eq!(services.config().default_frame_rate, 60);
    assert!(!services.config().default_hardware_encoding);
}

#[test]
fn test_presets() {
    let quick = RecordingPreset::QuickScreen.config();
    assert_eq!(quick.video.frame_rate, 30);

    let hq = RecordingPreset::HighQuality.config();
    assert_eq!(hq.video.frame_rate, 60);

    let game = RecordingPreset::Game.config();
    assert_eq!(game.video.frame_rate, 60);
}

#[test]
fn presets_choose_sources_codecs_and_overlays() {
    let quick = RecordingPreset::QuickScreen.config();
    assert_eq!(quick.video.quality, QualityPreset::Medium);
    assert!(matches!(quick.video.source, CaptureSource::Screen { screen_index: 0 }));
    assert!(quick.overlays.is_empty());

    let hq = RecordingPreset::HighQuality.config();
    assert_eq!((hq.audio.codec, hq.audio.bitrate), (AudioCodec::Aac, 256));

    let game = RecordingPreset::Game.config();
    assert_eq!((game.audio.codec, game.audio.bitrate), (AudioCodec::Opus, 192));
    assert!(matches!(game.video.source, CaptureSource::Game { process_id: 0, .. }));

    let tutorial = RecordingPreset::Tutorial.config();
    assert_eq!(tutorial.audio.sources.len(), 2);
    assert_eq!(tutorial.overlays.len(), 1);
    let timer = &tutorial.overlays[0];
    assert!(timer.enabled);
    assert_eq!(timer.opacity_percent, 100);
    assert_eq!(timer.id.len(), 36);
    match &timer.overlay_type {
        OverlayType::Timer { format, font } => {
            assert_eq!(*format, TimerFormat::MmSs);
            assert_eq!(font.family, "Arial");
        }
        _ => panic!("the tutorial overlay is a timer"),
    }

    let webcam = RecordingPreset::Webcam.config();
    assert!(matches!(webcam.video.source, CaptureSource::Webcam { device_index: 0 }));
    match &webcam.audio.sources[0] {
        AudioSourceConfig::Microphone { device_index, name } => {
            assert_eq!(*device_index, 0);
            assert_eq!(name, "Default");
        }
        _ => panic!("the webcam preset records the microphone"),
    }

    let audio_only = RecordingPreset::AudioOnly.config();
    assert_eq!(audio_only.output.format, OutputFormat::Mp4);
    assert_eq!(audio_only.audio.sources.len(), 2);

    let defaults = RecordingConfig::default();
    assert!(defaults.overlays.is_empty());
    assert_eq!(defaults.video.frame_rate, 30);
    assert_eq!(ScreenRecordingServices::with_defaults().config().min_disk_space, 500);
}

#[test]
fn test_create_session() {
    let mut services = ScreenRecordingServices::with_defaults();
    let config = RecordingConfig::default();

    let id = services.recording.create_session("Test", config);
    let session = services.recording.get_session(id).unwrap();
    assert_eq!(session.name, "Test");
    assert_eq!(session.status, RecordingStatus::Idle);
}

#[test]
fn sessions_record_pause_and_stop() {
    let mut rec = DefaultRecordingService::new();
    let id = rec.create_session_at("Demo", RecordingConfig::default(), RecordingId(7), 100);
    assert_eq!(id, RecordingId(7));
    assert_eq!(rec.pause_recording(id), Err(vantis::screen_recording::ScreenRecordingError::NotRecording));
    rec.start_recording_at(id, 110).unwrap();
    assert_eq!(rec.get_session(id).unwrap().started_at, Some(110));
    assert_eq!(rec.start_recording_at(id, 111), Err(vantis::screen_recording::ScreenRecordingError::AlreadyRecording));
    assert_eq!(rec.take_screenshot_at(id, "20240101_120000").unwrap(), "~/Videos/Recordings/screenshot_20240101_120000.png");
    rec.pause_recording(id).unwrap();
    assert_eq!(rec.get_session(id).unwrap().status, RecordingStatus::Paused);
    rec.resume_recording(id).unwrap();
    let path = rec.stop_recording_at(id, 170, "20240101_120100").unwrap();
    assert_eq!(path, "~/Videos/Recordings/Demo_20240101_120100.mp4");
    let s = rec.get_session(id).unwrap();
    assert_eq!((s.status, s.ended_at, s.output_path.as_deref()), (RecordingStatus::Completed, Some(170), Some(path.as_str())));
    assert_eq!(s.duration_at(1000), Some(60));
    assert_eq!(rec.stop_recording_at(id, 180, "x"), Err(vantis::screen_recording::ScreenRecordingError::NotRecording));
    assert_eq!(rec.take_screenshot_at(id, "x"), Err(vantis::screen_recording::ScreenRecordingError::NotRecording));
    let live = rec.create_session_at("Live", RecordingConfig::default(), RecordingId(10), 0);
    rec.start_recording_at(live, 5).unwrap();
    let stamp = stamp_text(2024, 3, 7, 9, 5, 0);
    assert_eq!(stamp, "20240307_090500");
    assert_eq!(rec.take_screenshot_at(live, &stamp).unwrap(), "~/Videos/Recordings/screenshot_20240307_090500.png");
    assert_eq!(rec.stop_recording_at(live, 9, &stamp).unwrap(), "~/Videos/Recordings/Live_20240307_090500.mp4");

    // Sources and outputs that cannot be recorded.
    let mut cfg = RecordingConfig::default();
    cfg.video.source = CaptureSource::Screen { screen_index: 11 };
    let bad = rec.create_session_at("Bad", cfg, RecordingId(8), 0);
    assert_eq!(
        rec.start_recording_at(bad, 1),
        Err(vantis::screen_recording::ScreenRecordingError::ScreenNotFound("Screen 11".to_string()))
    );
    let mut cfg = RecordingConfig::default();
    cfg.output = OutputConfig { path_pattern: String::new(), ..OutputConfig::default() };
    cfg.output.naming.include_counter = false;
    let empty = rec.create_session_at("E", cfg, RecordingId(9), 0);
    assert!(matches!(
        rec.start_recording_at(empty, 1),
        Err(vantis::screen_recording::ScreenRecordingError::OutputDirectoryNotFound(m)) if m == "Path is empty"
    ));

    assert_eq!(rec.list_sessions().unwrap().len(), 4);
    rec.delete_session(bad).unwrap();
    let missing = rec.get_session(bad).unwrap_err();
    assert_eq!(
        missing,
        vantis::screen_recording::ScreenRecordingError::RecordingNotFound(
            "RecordingId(00000000-0000-0000-0000-000000000008)".to_string()
        )
    );
    assert_eq!(rec.get_stats(id).unwrap().frames_captured, 0);
}

#[test]
fn stamps_pad_every_part() {
    assert_eq!(stamp_text(2024, 12, 31, 23, 59, 59), "20241231_235959");
    assert_eq!(stamp_text(7, 1, 2, 3, 4, 5), "00070102_030405");
    assert_eq!(stamp_text(12345, 1, 1, 0, 0, 0), "+123450101_000000");
}

#[test]
fn fresh_recording_ids_are_version_4() {
    let id = RecordingId::new();
    assert_eq!((id.0 >> 76) & 15, 4);
    assert_eq!((id.0 >> 62) & 3, 2);
    assert_ne!(RecordingId::new(), RecordingId::new());
}

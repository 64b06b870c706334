//! Settings of the screen recording module and the builder that adjusts them.

use vstd::prelude::*;

use crate::screen_types::{
    is_default_audio, is_default_font, is_default_hotkeys, is_default_output, is_default_video,
    is_first_screen, is_stereo_audio, keeps_default_encoding, AudioCaptureConfig, AudioCodec,
    AudioSourceConfig, CaptureSource, FontConfig, HotkeyConfig, OutputConfig, OverlayConfig,
    OverlayPosition, OverlayType, QualityPreset, RecordingConfig, TimerFormat,
    VideoCaptureConfig, VideoCodec,
};
use crate::screen_sessions::DefaultRecordingService;
use crate::text::owned;

verus! {

/// Settings of the screen recording module.
#[derive(Debug, Clone)]
pub struct ScreenRecordingConfig {
    /// Maximum concurrent recordings
    pub max_concurrent_recordings: usize,
    /// Default output directory
    pub default_output_directory: String,
    /// Default video codec
    pub default_video_codec: VideoCodec,
    /// Default audio codec
    pub default_audio_codec: AudioCodec,
    /// Default frame rate
    pub default_frame_rate: u32,
    /// Enable hardware encoding by default
    pub default_hardware_encoding: bool,
    /// Maximum recording duration (seconds, 0 = unlimited)
    pub max_recording_duration: u64,
    /// Minimum disk space required (MB)
    pub min_disk_space: u64,
    /// Temporary directory for processing
    pub temp_directory: Option<String>,
}

/// The default settings, field by field.
pub open spec fn is_default_recording_config(c: ScreenRecordingConfig) -> bool {
    &&& c.max_concurrent_recordings == 1
    &&& c.default_output_directory@ == "~/Videos/Recordings"@
    &&& c.default_video_codec == VideoCodec::H264
    &&& c.default_audio_codec == AudioCodec::Aac
    &&& c.default_frame_rate == 30
    &&& c.default_hardware_encoding
    &&& c.max_recording_duration == 0
    &&& c.min_disk_space == 500
    &&& c.temp_directory is None
}

impl Default for ScreenRecordingConfig {
    fn default() -> (c: ScreenRecordingConfig)
        ensures
            is_default_recording_config(c),
    {
        ScreenRecordingConfig {
            max_concurrent_recordings: 1,
            default_output_directory: owned("~/Videos/Recordings"),
            default_video_codec: VideoCodec::H264,
            default_audio_codec: AudioCodec::Aac,
            default_frame_rate: 30,
            default_hardware_encoding: true,
            max_recording_duration: 0,
            min_disk_space: 500,
            temp_directory: None,
        }
    }
}

/// Two settings that agree on every field but the ones named by the flags.
pub open spec fn same_except(
    a: ScreenRecordingConfig,
    b: ScreenRecordingConfig,
    dir: bool,
    codec: bool,
    fps: bool,
    hw: bool,
    dur: bool,
    disk: bool,
) -> bool {
    &&& a.max_concurrent_recordings == b.max_concurrent_recordings
    &&& (!dir ==> a.default_output_directory@ == b.default_output_directory@)
    &&& (!codec ==> a.default_video_codec == b.default_video_codec)
    &&& a.default_audio_codec == b.default_audio_codec
    &&& (!fps ==> a.default_frame_rate == b.default_frame_rate)
    &&& (!hw ==> a.default_hardware_encoding == b.default_hardware_encoding)
    &&& (!dur ==> a.max_recording_duration == b.max_recording_duration)
    &&& (!disk ==> a.min_disk_space == b.min_disk_space)
    &&& a.temp_directory == b.temp_directory
}

/// The screen recording services and the settings they run with.
pub struct ScreenRecordingServices {
    /// Recording management service
    pub recording: DefaultRecordingService,
    /// Capture device management service
    pub devices: DefaultCaptureDeviceService,
    config: ScreenRecordingConfig,
}

impl ScreenRecordingServices {
    /// The settings the services run with.
    pub closed spec fn settings(&self) -> ScreenRecordingConfig {
        self.config
    }

    /// The recording service.
    pub closed spec fn recorder(&self) -> DefaultRecordingService {
        self.recording
    }

    /// Services that run with the given settings, with no recording
    /// session yet.
    pub fn new(config: ScreenRecordingConfig) -> (s: ScreenRecordingServices)
        ensures
            s.settings() == config,
            s.recorder().session_list().len() == 0,
            s.recorder().active() is None,
    {
        ScreenRecordingServices {
            recording: DefaultRecordingService::new(),
            devices: DefaultCaptureDeviceService::new(),
            config,
        }
    }

    /// Services that run with the default settings.
    pub fn with_defaults() -> (s: ScreenRecordingServices)
        ensures
            is_default_recording_config(s.settings()),
            s.recorder().session_list().len() == 0,
    {
        ScreenRecordingServices::new(ScreenRecordingConfig::default())
    }

    /// The settings the services run with.
    pub fn config(&self) -> (c: &ScreenRecordingConfig)
        ensures
            *c == self.settings(),
    {
        &self.config
    }
}

/// Builds the settings of the screen recording services step by step.
pub struct ScreenRecordingServicesBuilder {
    config: ScreenRecordingConfig,
}

impl ScreenRecordingServicesBuilder {
    /// The settings built so far.
    pub closed spec fn settings(&self) -> ScreenRecordingConfig {
        self.config
    }

    /// A builder that starts from the default settings.
    pub fn new() -> (b: ScreenRecordingServicesBuilder)
        ensures
            is_default_recording_config(b.settings()),
    {
        ScreenRecordingServicesBuilder { config: ScreenRecordingConfig::default() }
    }

    /// Sets the default output directory.
    pub fn output_directory(self, path: &str) -> (b: ScreenRecordingServicesBuilder)
        ensures
            b.settings().default_output_directory@ == path@,
            same_except(b.settings(), self.settings(), true, false, false, false, false, false),
    {
        let mut s = self;
        s.config.default_output_directory = owned(path);
        s
    }

    /// Sets the default video codec.
    pub fn video_codec(self, codec: VideoCodec) -> (b: ScreenRecordingServicesBuilder)
        ensures
            b.settings().default_video_codec == codec,
            same_except(b.settings(), self.settings(), false, true, false, false, false, false),
    {
        let mut s = self;
        s.config.default_video_codec = codec;
        s
    }

    /// Sets the default frame rate.
    pub fn frame_rate(self, fps: u32) -> (b: ScreenRecordingServicesBuilder)
        ensures
            b.settings().default_frame_rate == fps,
            same_except(b.settings(), self.settings(), false, false, true, false, false, false),
    {
        let mut s = self;
        s.config.default_frame_rate = fps;
        s
    }

    /// Turns hardware encoding on or off.
    pub fn hardware_encoding(self, enable: bool) -> (b: ScreenRecordingServicesBuilder)
        ensures
            b.settings().default_hardware_encoding == enable,
            same_except(b.settings(), self.settings(), false, false, false, true, false, false),
    {
        let mut s = self;
        s.config.default_hardware_encoding = enable;
        s
    }

    /// Sets the longest a recording may last, in seconds.
    pub fn max_duration(self, seconds: u64) -> (b: ScreenRecordingServicesBuilder)
        ensures
            b.settings().max_recording_duration == seconds,
            same_except(b.settings(), self.settings(), false, false, false, false, true, false),
    {
        let mut s = self;
        s.config.max_recording_duration = seconds;
        s
    }

    /// Sets the free disk space a recording needs, in MB.
    pub fn min_disk_space(self, mb: u64) -> (b: ScreenRecordingServicesBuilder)
        ensures
            b.settings().min_disk_space == mb,
            same_except(b.settings(), self.settings(), false, false, false, false, false, true),
    {
        let mut s = self;
        s.config.min_disk_space = mb;
        s
    }

    /// The settings built so far.
    pub fn config(&self) -> (c: &ScreenRecordingConfig)
        ensures
            *c == self.settings(),
    {
        &self.config
    }

    /// Finishes the builder: services that run with the settings built.
    pub fn build(self) -> (s: ScreenRecordingServices)
        ensures
            s.settings() == self.settings(),
    {
        ScreenRecordingServices::new(self.config)
    }
}

impl Default for ScreenRecordingServicesBuilder {
    fn default() -> (b: ScreenRecordingServicesBuilder)
        ensures
            is_default_recording_config(b.settings()),
    {
        ScreenRecordingServicesBuilder::new()
    }
}

/// Quick recording presets.
#[derive(Debug, Clone, Copy, PartialEq, Eq, Structural)]
pub enum RecordingPreset {
    /// Quick screen recording (30fps, medium quality)
    QuickScreen,
    /// High quality recording (60fps, high quality)
    HighQuality,
    /// Game recording (60fps, optimized for games)
    Game,
    /// Tutorial recording (30fps, includes cursor effects)
    Tutorial,
    /// Webcam only
    Webcam,
    /// Audio only
    AudioOnly,
}

/// The video settings of a preset: its source, frame rate and quality, with
/// every other field at its default.
pub open spec fn preset_video(p: RecordingPreset, v: VideoCaptureConfig) -> bool {
    &&& keeps_default_encoding(v)
    &&& match p {
        RecordingPreset::QuickScreen => is_first_screen(v.source) && v.frame_rate == 30
            && v.quality == QualityPreset::Medium,
        RecordingPreset::HighQuality => is_first_screen(v.source) && v.frame_rate == 60
            && v.quality == QualityPreset::High,
        RecordingPreset::Game => (v.source matches CaptureSource::Game { process_id, process_name }
            && process_id == 0 && process_name@.len() == 0) && v.frame_rate == 60
            && v.quality == QualityPreset::High,
        RecordingPreset::Webcam => (v.source matches CaptureSource::Webcam { device_index }
            && device_index == 0) && v.frame_rate == 30 && v.quality == QualityPreset::High,
        RecordingPreset::Tutorial | RecordingPreset::AudioOnly => is_default_video(v),
    }
}

/// The first microphone, named "Default".
pub open spec fn is_default_microphone(s: AudioSourceConfig) -> bool {
    s matches AudioSourceConfig::Microphone { device_index, name } && device_index == 0
        && name@ == "Default"@
}

/// The audio settings of a preset.
pub open spec fn preset_audio(p: RecordingPreset, a: AudioCaptureConfig) -> bool {
    match p {
        RecordingPreset::QuickScreen => is_default_audio(a),
        RecordingPreset::HighQuality => is_stereo_audio(a, AudioCodec::Aac, 256)
            && a.sources@.len() == 1 && a.sources@[0] is SystemAudio,
        RecordingPreset::Game => is_stereo_audio(a, AudioCodec::Opus, 192)
            && a.sources@.len() == 1 && a.sources@[0] is SystemAudio,
        RecordingPreset::Webcam => is_stereo_audio(a, AudioCodec::Aac, 192)
            && a.sources@.len() == 1 && is_default_microphone(a.sources@[0]),
        RecordingPreset::Tutorial | RecordingPreset::AudioOnly => is_stereo_audio(
            a,
            AudioCodec::Aac,
            192,
        ) && a.sources@.len() == 2 && a.sources@[0] is SystemAudio && is_default_microphone(
            a.sources@[1],
        ),
    }
}

/// The overlays of a preset: a minutes-and-seconds timer in the default font
/// for a tutorial, none otherwise.
pub open spec fn preset_overlays(p: RecordingPreset, o: Seq<OverlayConfig>) -> bool {
    if p == RecordingPreset::Tutorial {
        &&& o.len() == 1
        &&& o[0].overlay_type matches OverlayType::Timer { format, font } && format
            == TimerFormat::MmSs && is_default_font(font)
        &&& o[0].enabled
        &&& o[0].position == (OverlayPosition::TopLeft { x: 10, y: 10 })
        &&& o[0].opacity_percent == 100
        &&& o[0].id@.len() == 36
    } else {
        o.len() == 0
    }
}

/// The recording settings of a preset.
pub open spec fn preset_config(p: RecordingPreset, c: RecordingConfig) -> bool {
    &&& preset_video(p, c.video)
    &&& preset_audio(p, c.audio)
    &&& is_default_output(c.output)
    &&& preset_overlays(p, c.overlays@)
    &&& is_default_hotkeys(c.hotkeys)
}

/// Stereo audio from the given sources.
fn stereo_audio(codec: AudioCodec, bitrate: u32, sources: Vec<AudioSourceConfig>) -> (a:
    AudioCaptureConfig)
    ensures
        is_stereo_audio(a, codec, bitrate),
        a.sources@ == sources@,
{
    AudioCaptureConfig { enabled: true, sources, sample_rate: 48000, channels: 2, codec, bitrate }
}

/// The first microphone, named "Default".
fn default_microphone() -> (s: AudioSourceConfig)
    ensures
        is_default_microphone(s),
{
    AudioSourceConfig::Microphone { device_index: 0, name: owned("Default") }
}

/// Default video settings with the given source, frame rate and quality.
fn video_with(source: CaptureSource, frame_rate: u32, quality: QualityPreset) -> (v:
    VideoCaptureConfig)
    ensures
        keeps_default_encoding(v),
        v.source == source,
        v.frame_rate == frame_rate,
        v.quality == quality,
{
    let mut v = VideoCaptureConfig::default();
    v.source = source;
    v.frame_rate = frame_rate;
    v.quality = quality;
    v
}

impl RecordingPreset {
    /// The recording settings of this preset.
    pub fn config(&self) -> (c: RecordingConfig)
        ensures
            preset_config(*self, c),
    {
        let video = match self {
            RecordingPreset::QuickScreen => video_with(
                CaptureSource::Screen { screen_index: 0 },
                30,
                QualityPreset::Medium,
            ),
            RecordingPreset::HighQuality => video_with(
                CaptureSource::Screen { screen_index: 0 },
                60,
                QualityPreset::High,
            ),
            RecordingPreset::Game => video_with(
                CaptureSource::Game { process_id: 0, process_name: String::new() },
                60,
                QualityPreset::High,
            ),
            RecordingPreset::Webcam => video_with(
                CaptureSource::Webcam { device_index: 0 },
                30,
                QualityPreset::High,
            ),
            RecordingPreset::Tutorial | RecordingPreset::AudioOnly => VideoCaptureConfig::default(),
        };
        let mut sources: Vec<AudioSourceConfig> = Vec::new();
        let audio = match self {
            RecordingPreset::QuickScreen => AudioCaptureConfig::default(),
            RecordingPreset::HighQuality => {
                sources.push(AudioSourceConfig::SystemAudio);
                stereo_audio(AudioCodec::Aac, 256, sources)
            },
            RecordingPreset::Game => {
                sources.push(AudioSourceConfig::SystemAudio);
                stereo_audio(AudioCodec::Opus, 192, sources)
            },
            RecordingPreset::Webcam => {
                sources.push(default_microphone());
                stereo_audio(AudioCodec::Aac, 192, sources)
            },
            RecordingPreset::Tutorial | RecordingPreset::AudioOnly => {
                sources.push(AudioSourceConfig::SystemAudio);
                sources.push(default_microphone());
                stereo_audio(AudioCodec::Aac, 192, sources)
            },
        };
        let mut overlays: Vec<OverlayConfig> = Vec::new();
        if let RecordingPreset::Tutorial = self {
            overlays.push(
                OverlayConfig::new(
                    OverlayType::Timer { format: TimerFormat::MmSs, font: FontConfig::default() },
                ),
            );
        }
        RecordingConfig {
            video,
            audio,
            output: OutputConfig::default(),
            overlays,
            hotkeys: HotkeyConfig::default(),
        }
    }
}

/// The capture device service that lists the devices of this machine.
pub struct DefaultCaptureDeviceService;

impl DefaultCaptureDeviceService {
    /// The service.
    pub fn new() -> (s: DefaultCaptureDeviceService) {
        DefaultCaptureDeviceService
    }
}

/// Errors of the screen recorder.
#[derive(Debug, Clone, PartialEq, Eq)]
pub enum ScreenRecordingError {
    RecordingNotFound(String),
    SourceNotAvailable(String),
    AlreadyRecording,
    NotRecording,
    StartFailed(String),
    StopFailed(String),
    PauseFailed(String),
    CaptureFailed(String),
    EncodingError(String),
    OutputDirectoryNotFound(String),
    /// Disk space in MB.
    InsufficientDiskSpace { required: u64, available: u64 },
    PermissionDenied(String),
    UnsupportedFormat(String),
    UnsupportedCodec(String),
    HardwareEncodingNotAvailable(String),
    WindowNotFound(String),
    ScreenNotFound(String),
    WebcamNotFound(String),
    MicrophoneNotFound(String),
    /// An input/output failure, by its message.
    IoError(String),
    ConfigurationError(String),
    InvalidCropRegion(String),
    OverlayError(String),
    HotkeyRegistrationFailed(String),
    InternalError(String),
}

} // verus!

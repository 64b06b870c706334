//! Value types of the screen recorder: what is captured, how it is encoded,
//! where it is written, and the settings that go with each.

use vstd::prelude::*;

use crate::plugin::{random_uuid_text, v4_hyphenated_shape};
use crate::text::owned;

verus! {

/// Where a recording is in its life.
#[derive(Debug, Clone, Copy, PartialEq, Eq, Structural)]
pub enum RecordingStatus {
    Idle,
    Preparing,
    Recording,
    Paused,
    Stopping,
    Processing,
    Completed,
    Failed,
}

/// What is being captured.
#[derive(Debug, Clone)]
pub enum CaptureSource {
    /// Entire screen
    Screen { screen_index: usize },
    /// Specific window
    Window { window_id: u64, window_name: String },
    /// Region of screen
    Region { x: i32, y: i32, width: u32, height: u32, screen_index: usize },
    /// Application capture
    Application { process_id: u32, process_name: String },
    /// Game capture
    Game { process_id: u32, process_name: String },
    /// Webcam
    Webcam { device_index: usize },
}

/// Frame size in pixels.
#[derive(Debug, Clone, Copy)]
pub struct Resolution {
    pub width: u32,
    pub height: u32,
}

impl Resolution {
    /// A resolution of the given size.
    pub fn new(width: u32, height: u32) -> (r: Resolution)
        ensures
            r.width == width,
            r.height == height,
    {
        Resolution { width, height }
    }

    /// 1280 x 720.
    pub fn hd() -> (r: Resolution)
        ensures
            r.width == 1280,
            r.height == 720,
    {
        Resolution { width: 1280, height: 720 }
    }

    /// 1920 x 1080.
    pub fn full_hd() -> (r: Resolution)
        ensures
            r.width == 1920,
            r.height == 1080,
    {
        Resolution { width: 1920, height: 1080 }
    }

    /// 3840 x 2160.
    pub fn ultra_hd() -> (r: Resolution)
        ensures
            r.width == 3840,
            r.height == 2160,
    {
        Resolution { width: 3840, height: 2160 }
    }
}

/// How a frame is fitted to the output size.
#[derive(Debug, Clone, Copy, PartialEq, Eq, Structural)]
pub enum ScaleMode {
    Fit,
    Fill,
    Stretch,
    /// Kept at its captured size.
    Unscaled,
}

/// A rectangle cut out of the captured frame.
#[derive(Debug, Clone, Copy)]
pub struct CropRegion {
    pub x: i32,
    pub y: i32,
    pub width: u32,
    pub height: u32,
}

impl CropRegion {
    /// A crop region with the given corner and size.
    pub fn new(x: i32, y: i32, width: u32, height: u32) -> (r: CropRegion)
        ensures
            r.x == x,
            r.y == y,
            r.width == width,
            r.height == height,
    {
        CropRegion { x, y, width, height }
    }
}

/// An RGBA color.
#[derive(Debug, Clone, Copy, PartialEq, Eq, Structural)]
pub struct Color {
    pub r: u8,
    pub g: u8,
    pub b: u8,
    pub a: u8,
}

impl Color {
    /// A color with all four channels given.
    pub fn new(r: u8, g: u8, b: u8, a: u8) -> (c: Color)
        ensures
            c == (Color { r, g, b, a }),
    {
        Color { r, g, b, a }
    }

    /// An opaque color.
    pub fn rgb(r: u8, g: u8, b: u8) -> (c: Color)
        ensures
            c == (Color { r, g, b, a: 255 }),
    {
        Color { r, g, b, a: 255 }
    }

    /// Opaque red.
    pub fn red() -> (c: Color)
        ensures
            c == (Color { r: 255, g: 0, b: 0, a: 255 }),
    {
        Color::rgb(255, 0, 0)
    }

    /// Opaque green.
    pub fn green() -> (c: Color)
        ensures
            c == (Color { r: 0, g: 255, b: 0, a: 255 }),
    {
        Color::rgb(0, 255, 0)
    }

    /// Opaque blue.
    pub fn blue() -> (c: Color)
        ensures
            c == (Color { r: 0, g: 0, b: 255, a: 255 }),
    {
        Color::rgb(0, 0, 255)
    }

    /// Opaque white.
    pub fn white() -> (c: Color)
        ensures
            c == (Color { r: 255, g: 255, b: 255, a: 255 }),
    {
        Color::rgb(255, 255, 255)
    }

    /// Fully transparent black.
    pub fn transparent() -> (c: Color)
        ensures
            c == (Color { r: 0, g: 0, b: 0, a: 0 }),
    {
        Color::new(0, 0, 0, 0)
    }
}

/// Colors of the ring drawn around a click.
#[derive(Debug, Clone, Copy, PartialEq, Eq, Structural)]
pub enum ClickEffectColor {
    /// Left button green, right button red.
    LeftRight,
    Custom { left: Color, right: Color },
    Single(Color),
}

impl Default for ClickEffectColor {
    fn default() -> (c: ClickEffectColor)
        ensures
            c == ClickEffectColor::LeftRight,
    {
        ClickEffectColor::LeftRight
    }
}

/// How the mouse cursor is drawn.
#[derive(Debug, Clone)]
pub struct CursorEffects {
    pub show_cursor: bool,
    pub highlight_clicks: bool,
    pub click_color: ClickEffectColor,
    pub click_radius: u32,
    pub click_animation: bool,
    pub mouse_trail: bool,
    pub trail_length: u32,
}

/// The default cursor effects, field by field.
pub open spec fn is_default_cursor_effects(c: CursorEffects) -> bool {
    &&& c.show_cursor
    &&& c.highlight_clicks
    &&& c.click_color == ClickEffectColor::LeftRight
    &&& c.click_radius == 30
    &&& c.click_animation
    &&& !c.mouse_trail
    &&& c.trail_length == 10
}

impl Default for CursorEffects {
    fn default() -> (c: CursorEffects)
        ensures
            is_default_cursor_effects(c),
    {
        CursorEffects {
            show_cursor: true,
            highlight_clicks: true,
            click_color: ClickEffectColor::default(),
            click_radius: 30,
            click_animation: true,
            mouse_trail: false,
            trail_length: 10,
        }
    }
}

/// Video codecs a recording can be encoded with.
#[derive(Debug, Clone, Copy, PartialEq, Eq, Structural)]
pub enum VideoCodec {
    H264,
    H265,
    Vp8,
    Vp9,
    Av1,
}

/// Quality presets of the encoder.
#[derive(Debug, Clone, Copy, PartialEq, Eq, Structural)]
pub enum QualityPreset {
    Low,
    Medium,
    High,
    Ultra,
    Lossless,
}

/// How the encoder chooses its bitrate.
#[derive(Debug, Clone, Copy, PartialEq, Eq, Structural)]
pub enum BitrateMode {
    /// Constant bitrate
    CBR { bitrate: u64 },
    /// Variable bitrate
    VBR { target: u64, max: u64 },
    /// Quality-based
    Quality(QualityPreset),
}

/// Video capture settings.
#[derive(Debug, Clone)]
pub struct VideoCaptureConfig {
    pub source: CaptureSource,
    pub frame_rate: u32,
    /// `None` keeps the native resolution.
    pub resolution: Option<Resolution>,
    pub scale_mode: ScaleMode,
    /// `None` captures the whole frame.
    pub crop: Option<CropRegion>,
    pub capture_cursor: bool,
    pub cursor_effects: CursorEffects,
    pub hardware_encoding: bool,
    pub codec: VideoCodec,
    pub bitrate_mode: BitrateMode,
    pub quality: QualityPreset,
}

/// The first screen as capture source.
pub open spec fn is_first_screen(s: CaptureSource) -> bool {
    s matches CaptureSource::Screen { screen_index } && screen_index == 0
}

/// The video settings that every preset leaves at their defaults.
pub open spec fn keeps_default_encoding(c: VideoCaptureConfig) -> bool {
    &&& c.resolution is None
    &&& c.scale_mode == ScaleMode::Fit
    &&& c.crop is None
    &&& c.capture_cursor
    &&& is_default_cursor_effects(c.cursor_effects)
    &&& c.hardware_encoding
    &&& c.codec == VideoCodec::H264
    &&& c.bitrate_mode == BitrateMode::Quality(QualityPreset::High)
}

/// The default video settings, field by field.
pub open spec fn is_default_video(c: VideoCaptureConfig) -> bool {
    &&& is_first_screen(c.source)
    &&& c.frame_rate == 30
    &&& c.quality == QualityPreset::High
    &&& keeps_default_encoding(c)
}

impl Default for VideoCaptureConfig {
    fn default() -> (c: VideoCaptureConfig)
        ensures
            is_default_video(c),
    {
        VideoCaptureConfig {
            source: CaptureSource::Screen { screen_index: 0 },
            frame_rate: 30,
            resolution: None,
            scale_mode: ScaleMode::Fit,
            crop: None,
            capture_cursor: true,
            cursor_effects: CursorEffects::default(),
            hardware_encoding: true,
            codec: VideoCodec::H264,
            bitrate_mode: BitrateMode::Quality(QualityPreset::High),
            quality: QualityPreset::High,
        }
    }
}

/// An audio input of a recording.
#[derive(Debug, Clone)]
pub enum AudioSourceConfig {
    /// System audio output
    SystemAudio,
    /// Microphone input
    Microphone { device_index: usize, name: String },
    /// Application audio
    ApplicationAudio { process_id: u32, process_name: String },
    /// Virtual audio device
    VirtualDevice { name: String },
}

/// Audio codecs a recording can be encoded with.
#[derive(Debug, Clone, Copy, PartialEq, Eq, Structural)]
pub enum AudioCodec {
    Aac,
    Opus,
    Mp3,
    Flac,
    Pcm,
}

/// Audio capture settings.
#[derive(Debug, Clone)]
pub struct AudioCaptureConfig {
    pub enabled: bool,
    pub sources: Vec<AudioSourceConfig>,
    pub sample_rate: u32,
    pub channels: u16,
    pub codec: AudioCodec,
    /// Bitrate in kbit/s.
    pub bitrate: u32,
}

/// Enabled audio at 48 kHz in two channels, with the given codec and bitrate.
pub open spec fn is_stereo_audio(c: AudioCaptureConfig, codec: AudioCodec, bitrate: u32) -> bool {
    &&& c.enabled
    &&& c.sample_rate == 48000
    &&& c.channels == 2
    &&& c.codec == codec
    &&& c.bitrate == bitrate
}

/// The default audio settings, field by field.
pub open spec fn is_default_audio(c: AudioCaptureConfig) -> bool {
    &&& is_stereo_audio(c, AudioCodec::Aac, 192)
    &&& c.sources@.len() == 1
    &&& c.sources@[0] is SystemAudio
}

impl Default for AudioCaptureConfig {
    fn default() -> (c: AudioCaptureConfig)
        ensures
            is_default_audio(c),
    {
        let mut sources: Vec<AudioSourceConfig> = Vec::new();
        sources.push(AudioSourceConfig::SystemAudio);
        AudioCaptureConfig {
            enabled: true,
            sources,
            sample_rate: 48000,
            channels: 2,
            codec: AudioCodec::Aac,
            bitrate: 192,
        }
    }
}

/// Container formats of the output file.
#[derive(Debug, Clone, Copy, PartialEq, Eq, Structural)]
pub enum OutputFormat {
    Mp4,
    Mkv,
    Mov,
    Webm,
    Gif,
}

/// How output files are named.
#[derive(Debug, Clone)]
pub struct NamingPattern {
    pub prefix: String,
    pub include_date: bool,
    pub include_time: bool,
    pub include_counter: bool,
    pub custom_pattern: Option<String>,
}

impl Default for NamingPattern {
    fn default() -> (n: NamingPattern)
        ensures
            n.prefix@ == "Recording"@,
            n.include_date,
            n.include_time,
            n.include_counter,
            n.custom_pattern is None,
    {
        NamingPattern {
            prefix: owned("Recording"),
            include_date: true,
            include_time: true,
            include_counter: true,
            custom_pattern: None,
        }
    }
}

/// When a recording is cut into several files.
#[derive(Debug, Clone)]
pub struct SplitConfig {
    /// Split by duration (seconds)
    pub duration: Option<u64>,
    /// Split by file size (MB)
    pub file_size: Option<u64>,
    /// Split on keyframe
    pub on_keyframe: bool,
}

/// When a recording stops by itself.
#[derive(Debug, Clone)]
pub struct AutoStopConfig {
    /// Stop after duration (seconds)
    pub duration: Option<u64>,
    /// Stop when disk space below (MB)
    pub min_disk_space: Option<u64>,
    /// Stop when the process with this id ends
    pub on_process_exit: Option<u32>,
}

/// Output settings.
#[derive(Debug, Clone)]
pub struct OutputConfig {
    pub format: OutputFormat,
    pub path_pattern: String,
    pub naming: NamingPattern,
    pub split: Option<SplitConfig>,
    pub auto_stop: Option<AutoStopConfig>,
}

/// The default output settings, field by field.
pub open spec fn is_default_output(c: OutputConfig) -> bool {
    &&& c.format == OutputFormat::Mp4
    &&& c.path_pattern@ == "~/Videos/Recordings"@
    &&& c.naming.prefix@ == "Recording"@
    &&& c.naming.include_date
    &&& c.naming.include_time
    &&& c.naming.include_counter
    &&& c.naming.custom_pattern is None
    &&& c.split is None
    &&& c.auto_stop is None
}

impl Default for OutputConfig {
    fn default() -> (c: OutputConfig)
        ensures
            is_default_output(c),
    {
        OutputConfig {
            format: OutputFormat::Mp4,
            path_pattern: owned("~/Videos/Recordings"),
            naming: NamingPattern::default(),
            split: None,
            auto_stop: None,
        }
    }
}

/// A drop shadow behind overlay text.
#[derive(Debug, Clone, Copy, PartialEq, Eq, Structural)]
pub struct ShadowConfig {
    pub offset_x: i32,
    pub offset_y: i32,
    pub blur: u32,
    pub color: Color,
}

impl Default for ShadowConfig {
    fn default() -> (s: ShadowConfig)
        ensures
            s == (ShadowConfig { offset_x: 2, offset_y: 2, blur: 2, color: Color { r: 0, g: 0, b: 0, a: 128 } }),
    {
        ShadowConfig { offset_x: 2, offset_y: 2, blur: 2, color: Color::new(0, 0, 0, 128) }
    }
}

/// Font of overlay text.
#[derive(Debug, Clone)]
pub struct FontConfig {
    pub family: String,
    pub size: u32,
    pub color: Color,
    pub background: Option<Color>,
    pub bold: bool,
    pub italic: bool,
    pub shadow: Option<ShadowConfig>,
}

/// The default font, field by field.
pub open spec fn is_default_font(f: FontConfig) -> bool {
    &&& f.family@ == "Arial"@
    &&& f.size == 24
    &&& f.color == (Color { r: 255, g: 255, b: 255, a: 255 })
    &&& f.background is None
    &&& !f.bold
    &&& !f.italic
    &&& f.shadow == Some(ShadowConfig { offset_x: 2, offset_y: 2, blur: 2, color: Color { r: 0, g: 0, b: 0, a: 128 } })
}

impl Default for FontConfig {
    fn default() -> (f: FontConfig)
        ensures
            is_default_font(f),
    {
        FontConfig {
            family: owned("Arial"),
            size: 24,
            color: Color::white(),
            background: None,
            bold: false,
            italic: false,
            shadow: Some(ShadowConfig::default()),
        }
    }
}

/// Where an overlay is placed on the frame.
#[derive(Debug, Clone, Copy, PartialEq, Eq, Structural)]
pub enum OverlayPosition {
    TopLeft { x: i32, y: i32 },
    TopCenter { y: i32 },
    TopRight { x: i32, y: i32 },
    CenterLeft { x: i32 },
    Center,
    CenterRight { x: i32 },
    BottomLeft { x: i32, y: i32 },
    BottomCenter { y: i32 },
    BottomRight { x: i32, y: i32 },
    Custom { x: i32, y: i32 },
}

/// Outline of a webcam overlay.
#[derive(Debug, Clone, Copy, PartialEq, Eq, Structural)]
pub enum WebcamShape {
    Rectangle,
    Circle,
    RoundedCorners { radius: u32 },
}

/// How a timer overlay shows the elapsed time.
#[derive(Debug, Clone, PartialEq, Eq)]
pub enum TimerFormat {
    HhMmSs,
    MmSs,
    Ss,
    Custom(String),
}

/// Keys a hotkey can be made of.
#[derive(Debug, Clone, Copy, PartialEq, Eq, Structural)]
pub enum KeyCode {
    Control,
    Alt,
    Shift,
    Super,
    A, B, C, D, E, F, G, H, I, J, K, L, M,
    N, O, P, Q, R, S, T, U, V, W, X, Y, Z,
    N0, N1, N2, N3, N4, N5, N6, N7, N8, N9,
    F1, F2, F3, F4, F5, F6, F7, F8, F9, F10, F11, F12,
    Escape,
    Space,
    Return,
    Tab,
    Backspace,
    Delete,
    Insert,
    Home,
    End,
    PageUp,
    PageDown,
    Up, Down, Left, Right,
}

/// Keys pressed together.
#[derive(Debug, Clone)]
pub struct KeyCombo {
    pub keys: Vec<KeyCode>,
}

impl KeyCombo {
    /// A combination of the given keys, in the given order.
    pub fn new(keys: &[KeyCode]) -> (k: KeyCombo)
        ensures
            k.keys@ == keys@,
    {
        KeyCombo { keys: vstd::slice::slice_to_vec(keys) }
    }
}

/// Control, Shift and one more key.
fn control_shift(key: KeyCode) -> (k: KeyCombo)
    ensures
        k.keys@ == seq![KeyCode::Control, KeyCode::Shift, key],
{
    let mut keys: Vec<KeyCode> = Vec::new();
    keys.push(KeyCode::Control);
    keys.push(KeyCode::Shift);
    keys.push(key);
    KeyCombo { keys }
}

/// Hotkeys of the recorder.
#[derive(Debug, Clone)]
pub struct HotkeyConfig {
    pub start: Option<KeyCombo>,
    pub stop: Option<KeyCombo>,
    pub pause: Option<KeyCombo>,
    pub screenshot: Option<KeyCombo>,
    pub toggle_webcam: Option<KeyCombo>,
    pub toggle_microphone: Option<KeyCombo>,
}

/// A hotkey of Control, Shift and the given key.
pub open spec fn is_control_shift(h: Option<KeyCombo>, key: KeyCode) -> bool {
    h matches Some(k) && k.keys@ == seq![KeyCode::Control, KeyCode::Shift, key]
}

/// The default hotkeys, one by one.
pub open spec fn is_default_hotkeys(h: HotkeyConfig) -> bool {
    &&& is_control_shift(h.start, KeyCode::R)
    &&& is_control_shift(h.stop, KeyCode::S)
    &&& is_control_shift(h.pause, KeyCode::P)
    &&& is_control_shift(h.screenshot, KeyCode::T)
    &&& is_control_shift(h.toggle_webcam, KeyCode::W)
    &&& is_control_shift(h.toggle_microphone, KeyCode::M)
}

impl Default for HotkeyConfig {
    fn default() -> (h: HotkeyConfig)
        ensures
            is_default_hotkeys(h),
    {
        HotkeyConfig {
            start: Some(control_shift(KeyCode::R)),
            stop: Some(control_shift(KeyCode::S)),
            pause: Some(control_shift(KeyCode::P)),
            screenshot: Some(control_shift(KeyCode::T)),
            toggle_webcam: Some(control_shift(KeyCode::W)),
            toggle_microphone: Some(control_shift(KeyCode::M)),
        }
    }
}

/// Free-form information attached to a recording.
#[derive(Debug, Clone)]
pub struct RecordingMetadata {
    pub tags: Vec<String>,
    pub description: Option<String>,
    /// Custom key/value pairs.
    pub custom: Vec<(String, String)>,
}

impl Default for RecordingMetadata {
    fn default() -> (m: RecordingMetadata)
        ensures
            m.tags@.len() == 0,
            m.description is None,
            m.custom@.len() == 0,
    {
        RecordingMetadata { tags: Vec::new(), description: None, custom: Vec::new() }
    }
}

/// Kinds of capture device.
#[derive(Debug, Clone, Copy, PartialEq, Eq, Structural)]
pub enum CaptureDeviceType {
    Screen,
    Window,
    Webcam,
    Microphone,
    VirtualAudio,
}

/// What an overlay draws over the recording.
#[derive(Debug, Clone)]
pub enum OverlayType {
    /// Text overlay
    Text { text: String, font: FontConfig },
    /// Image overlay (watermark, logo)
    Image { path: String, width: Option<u32>, height: Option<u32> },
    /// Webcam overlay
    Webcam { device_index: usize, width: u32, height: u32, shape: WebcamShape },
    /// Timer/counter
    Timer { format: TimerFormat, font: FontConfig },
    /// Date/time
    DateTime { format: String, font: FontConfig },
    /// Logo watermark, its size in whole percent of the frame.
    Watermark { path: String, size_percent: u32 },
}

/// One overlay of a recording.
#[derive(Debug, Clone)]
pub struct OverlayConfig {
    /// Random identifier in hyphenated form.
    pub id: String,
    pub enabled: bool,
    pub overlay_type: OverlayType,
    pub position: OverlayPosition,
    /// Opacity in percent; 100 is fully opaque.
    pub opacity_percent: u32,
}

impl OverlayConfig {
    /// An enabled, fully opaque overlay at the top left corner, ten pixels in,
    /// under a fresh random identifier.
    pub fn new(overlay_type: OverlayType) -> (o: OverlayConfig)
        ensures
            v4_hyphenated_shape(o.id@),
            o.enabled,
            o.overlay_type == overlay_type,
            o.position == (OverlayPosition::TopLeft { x: 10, y: 10 }),
            o.opacity_percent == 100,
    {
        OverlayConfig {
            id: random_uuid_text(),
            enabled: true,
            overlay_type,
            position: OverlayPosition::TopLeft { x: 10, y: 10 },
            opacity_percent: 100,
        }
    }
}

/// Everything a recording is made with.
#[derive(Debug, Clone)]
pub struct RecordingConfig {
    pub video: VideoCaptureConfig,
    pub audio: AudioCaptureConfig,
    pub output: OutputConfig,
    pub overlays: Vec<OverlayConfig>,
    pub hotkeys: HotkeyConfig,
}

/// The default recording settings: each part at its default, no overlays.
pub open spec fn is_default_recording(c: RecordingConfig) -> bool {
    &&& is_default_video(c.video)
    &&& is_default_audio(c.audio)
    &&& is_default_output(c.output)
    &&& c.overlays@.len() == 0
    &&& is_default_hotkeys(c.hotkeys)
}

impl Default for RecordingConfig {
    fn default() -> (c: RecordingConfig)
        ensures
            is_default_recording(c),
    {
        RecordingConfig {
            video: VideoCaptureConfig::default(),
            audio: AudioCaptureConfig::default(),
            output: OutputConfig::default(),
            overlays: Vec::new(),
            hotkeys: HotkeyConfig::default(),
        }
    }
}

} // verus!

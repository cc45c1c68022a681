use vstd::prelude::*;

verus! {

/// Settings of the trigger key.
#[derive(Debug, Clone)]
pub struct HotkeyConfig {
    /// Trigger key name
    pub trigger: String,
    /// Minimum hold duration in ms (debounce)
    pub min_hold_ms: u64,
}

/// Settings of the audio capture.
#[derive(Debug, Clone)]
pub struct AudioConfig {
    /// Sample rate in Hz
    pub sample_rate: u32,
    /// Maximum recording duration in seconds
    pub max_duration_sec: u32,
    /// Minimum recording duration in ms
    pub min_duration_ms: u64,
    /// Audio input device name ("default" for system default)
    pub device: String,
}

/// Settings of the speech recogniser.
#[derive(Debug, Clone)]
pub struct WhisperConfig {
    /// Recognition language
    pub language: String,
    /// Beam search width
    pub beam_size: i32,
    /// Number of inference threads (0 = auto)
    pub threads: i32,
}

/// General settings.
#[derive(Debug, Clone)]
pub struct GeneralConfig {
    /// Auto-start on system boot
    pub auto_start: bool,
    /// Show tray icon
    pub show_tray: bool,
    /// Log level
    pub log_level: String,
    /// Model download mirror: "auto", "cn" (hf-mirror.com), "global" (huggingface.co)
    pub mirror: String,
}

/// Default trigger key: right Ctrl.
pub fn default_trigger() -> (r: String)
    ensures
        r@ == "RControl"@,
{
    "RControl".to_string()
}

/// Default minimum hold: 300 ms.
pub fn default_min_hold_ms() -> (r: u64)
    ensures
        r == 300,
{
    300
}

/// Default sample rate: 16 kHz, what the speech model expects.
pub fn default_sample_rate() -> (r: u32)
    ensures
        r == 16000,
{
    16000
}

/// Default maximum recording: 60 s.
pub fn default_max_duration_sec() -> (r: u32)
    ensures
        r == 60,
{
    60
}

/// Default minimum recording: 500 ms.
pub fn default_min_duration_ms() -> (r: u64)
    ensures
        r == 500,
{
    500
}

/// Default input device: the system's.
pub fn default_device() -> (r: String)
    ensures
        r@ == "default"@,
{
    "default".to_string()
}

/// Default recognition language: Chinese.
pub fn default_language() -> (r: String)
    ensures
        r@ == "zh"@,
{
    "zh".to_string()
}

/// Default beam width: 5.
pub fn default_beam_size() -> (r: i32)
    ensures
        r == 5,
{
    5
}

/// Default overlay width: 400 px.
pub fn default_window_width() -> (r: u32)
    ensures
        r == 400,
{
    400
}

/// Default overlay height: 160 px.
pub fn default_window_height() -> (r: u32)
    ensures
        r == 160,
{
    160
}

/// Default theme: follow the system.
pub fn default_theme() -> (r: String)
    ensures
        r@ == "auto"@,
{
    "auto".to_string()
}

/// `true`, the default of switches that start on.
pub fn default_true() -> (r: bool)
    ensures
        r,
{
    true
}

/// Default log level: info.
pub fn default_log_level() -> (r: String)
    ensures
        r@ == "info"@,
{
    "info".to_string()
}

/// Default download mirror: chosen from the locale.
pub fn default_mirror() -> (r: String)
    ensures
        r@ == "auto"@,
{
    "auto".to_string()
}

impl Default for HotkeyConfig {
    fn default() -> (r: Self)
        ensures
            r.trigger@ == "RControl"@,
            r.min_hold_ms == 300,
    {
        HotkeyConfig { trigger: default_trigger(), min_hold_ms: default_min_hold_ms() }
    }
}

impl Default for AudioConfig {
    fn default() -> (r: Self)
        ensures
            r.sample_rate == 16000,
            r.max_duration_sec == 60,
            r.min_duration_ms == 500,
            r.device@ == "default"@,
    {
        AudioConfig {
            sample_rate: default_sample_rate(),
            max_duration_sec: default_max_duration_sec(),
            min_duration_ms: default_min_duration_ms(),
            device: default_device(),
        }
    }
}

impl Default for WhisperConfig {
    fn default() -> (r: Self)
        ensures
            r.language@ == "zh"@,
            r.beam_size == 5,
            r.threads == 0,
    {
        WhisperConfig { language: default_language(), beam_size: default_beam_size(), threads: 0 }
    }
}

impl Default for GeneralConfig {
    fn default() -> (r: Self)
        ensures
            !r.auto_start,
            r.show_tray,
            r.log_level@ == "info"@,
            r.mirror@ == "auto"@,
    {
        GeneralConfig {
            auto_start: false,
            show_tray: true,
            log_level: default_log_level(),
            mirror: default_mirror(),
        }
    }
}

} // verus!

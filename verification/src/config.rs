//! The configuration model and its fail-open loading policy.
//!
//! The surrounding application reads and parses the configuration file; this
//! module owns what the values mean: the record shape, the documented default
//! record, and the rule that any load failure yields that default plus a
//! two-line diagnostic to keep on screen.

use vstd::prelude::*;
use vstd::string::StringExecFns;
use crate::units::{FP_ONE, Rgba};

verus! {

/// Appearance of the live cursor marker: a circle of `size` fixed-point
/// pixels, or the image at `image_path` when `image` is set.
#[derive(Debug, Clone, PartialEq, Eq)]
pub struct CursorConfig {
    pub image: bool,
    pub image_path: String,
    pub size: u64,
    pub color: Rgba,
}

/// Trail appearance and behavior: decay in ticks of age per second, marker
/// size in fixed-point pixels, and whether the trail is drawn at all.
#[derive(Debug, Clone, PartialEq, Eq)]
pub struct TrailConfig {
    pub decay_rate: u64,
    pub image: bool,
    pub color: Rgba,
    pub size: u64,
    pub image_path: String,
    pub enabled: bool,
}

/// Background color and the real screen resolution the canvas maps.
#[derive(Debug, Clone, PartialEq, Eq)]
pub struct BackgroundConfig {
    pub color: Rgba,
    pub screen_w: i32,
    pub screen_h: i32,
}

/// Everything the visualizer reads at startup, built once from the parsed
/// file or from the default record and never mutated afterwards.
#[derive(Debug, Clone, PartialEq, Eq)]
pub struct Config {
    pub cursor: CursorConfig,
    pub background: BackgroundConfig,
    pub trail: TrailConfig,
}

/// The documented default record: a red cursor circle four pixels across, a
/// green background mapped from a 1920 by 1080 screen, and a red circle trail
/// two pixels across that loses one whole age-unit per second.
pub open spec fn is_default_config(c: Config) -> bool {
    &&& c.cursor.image == false
    &&& c.cursor.image_path@ == Seq::<char>::empty()
    &&& c.cursor.size == 4 * FP_ONE
    &&& c.cursor.color == (Rgba { r: 255, g: 0, b: 0, a: 255 })
    &&& c.background.color == (Rgba { r: 0, g: 255, b: 0, a: 255 })
    &&& c.background.screen_w == 1920
    &&& c.background.screen_h == 1080
    &&& c.trail.decay_rate == FP_ONE
    &&& c.trail.image == false
    &&& c.trail.color == (Rgba { r: 255, g: 0, b: 0, a: 255 })
    &&& c.trail.size == 2 * FP_ONE
    &&& c.trail.image_path@ == Seq::<char>::empty()
    &&& c.trail.enabled == true
}

impl Default for Config {
    /// Builds the default record exactly.
    fn default() -> (c: Config)
        ensures
            is_default_config(c),
    {
        Config {
            cursor: CursorConfig {
                image: false,
                image_path: String::new(),
                size: 4 * FP_ONE,
                color: Rgba { r: 255, g: 0, b: 0, a: 255 },
            },
            background: BackgroundConfig {
                color: Rgba { r: 0, g: 255, b: 0, a: 255 },
                screen_w: 1920,
                screen_h: 1080,
            },
            trail: TrailConfig {
                decay_rate: FP_ONE,
                image: false,
                color: Rgba { r: 255, g: 0, b: 0, a: 255 },
                size: 2 * FP_ONE,
                image_path: String::new(),
                enabled: true,
            },
        }
    }
}

/// Why loading the configuration file failed.
#[derive(Debug, Clone, PartialEq, Eq)]
pub enum ConfigError {
    /// The file could not be found or read.
    Missing,
    /// The file was read but could not be parsed; holds the parser's message.
    Parse(String),
}

/// The two-line diagnostic kept on screen for a given load failure: it names
/// the missing file, or quotes the parser's message.
pub open spec fn diagnostic_of(e: ConfigError) -> Seq<char> {
    match e {
        ConfigError::Missing => "File Error, Using Default\nIssue: Failed to find visualizer.toml"@,
        ConfigError::Parse(m) => "Config Error, Using Default\nIssue: "@ + m@,
    }
}

/// The fail-open policy, kept visible at the call site: any load failure
/// yields the complete default record and the matching diagnostic; the
/// process never terminates over a bad or missing file.
pub fn load_fallback(err: &ConfigError) -> (r: (Config, String))
    ensures
        is_default_config(r.0),
        r.1@ == diagnostic_of(*err),
{
    match err {
        ConfigError::Missing => (
            Config::default(),
            "File Error, Using Default\nIssue: Failed to find visualizer.toml".to_owned(),
        ),
        ConfigError::Parse(m) => {
            let mut msg: String = "Config Error, Using Default\nIssue: ".to_owned();
            msg.append(m.as_str());
            (Config::default(), msg)
        },
    }
}

} // verus!

//! Application configuration values.
//!
//! Loading a configuration file is the host process's job; the library
//! only defines the configuration data and its defaults.

use vstd::prelude::*;
use crate::gestures::GestureConfig;

verus! {

/// Visualizer overlay timing and animation settings.
///
/// All durations are in milliseconds; `0` disables that animation.
#[derive(Debug, Clone, Copy, PartialEq, Eq, Structural)]
pub struct VisualizerConfig {
    /// How long the cursor takes to glide between cells (ms).
    pub cursor_animation_ms: u64,
    /// How long the overlay stays fully opaque after a workspace switch,
    /// before the fade-out begins (ms).
    pub linger_ms: u64,
    /// Duration of the fade-out animation (ms); `0` hides instantly.
    pub fade_out_ms: u64,
}

impl Default for VisualizerConfig {
    /// The default overlay timings: 80 ms cursor glide, 300 ms linger,
    /// 200 ms fade-out.
    fn default() -> (r: Self)
        ensures
            r == (VisualizerConfig { cursor_animation_ms: 80, linger_ms: 300, fade_out_ms: 200 }),
    {
        VisualizerConfig { cursor_animation_ms: 80, linger_ms: 300, fade_out_ms: 200 }
    }
}

/// Top-level configuration: gesture recognition and overlay settings.
#[derive(Debug, Clone, Copy, PartialEq, Eq)]
pub struct Config {
    /// Gesture recognition settings.
    pub gestures: GestureConfig,
    /// Visualizer overlay timing and animation settings.
    pub visualizer: VisualizerConfig,
}

impl Default for Config {
    /// Compiled-in defaults for every section.
    fn default() -> (r: Self)
        ensures
            r.gestures == (GestureConfig {
                sensitivity: 200_000,
                commit_threshold: 300,
                commit_while_dragging_threshold: None,
                switch_fingers: 3,
                move_fingers: 4,
                natural_swiping: true,
            }),
            r.visualizer == (VisualizerConfig {
                cursor_animation_ms: 80,
                linger_ms: 300,
                fade_out_ms: 200,
            }),
            r.gestures.wf(),
    {
        Config { gestures: GestureConfig::default(), visualizer: VisualizerConfig::default() }
    }
}

/// Error from loading or parsing a configuration file.
#[derive(Debug, Clone, PartialEq, Eq)]
pub struct ConfigError(pub String);

impl ConfigError {
    /// The error text.
    pub fn message(&self) -> (r: String)
        ensures
            r@ == self.0@,
    {
        self.0.clone()
    }
}

} // verus!

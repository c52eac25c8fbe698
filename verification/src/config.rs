//! What a caller configures: the custom formats to look for, the polling
//! interval and the byte ceilings.

use vstd::prelude::*;

verus! {

/// The polling interval used when none is configured, in milliseconds.
pub const DEFAULT_POLL_INTERVAL_MS: u64 = 200;

/// The configuration of one driver.
#[derive(Debug, Clone, PartialEq, Eq)]
pub struct ClipboardConfig {
    /// Application-defined formats, highest priority first.
    pub custom_format_names: Vec<String>,
    /// How long the observer rests when nothing changed, in milliseconds.
    pub poll_interval_ms: u64,
    /// The ceiling on the advertised size of any payload; `None` is no ceiling.
    pub max_bytes: Option<u64>,
    /// The ceiling for native image payloads; `None` falls back to `max_bytes`.
    pub max_image_bytes: Option<u64>,
}

/// The mathematical value of a [`ClipboardConfig`].
pub struct ConfigView {
    pub custom_format_names: Seq<Seq<char>>,
    pub poll_interval_ms: u64,
    pub max_bytes: Option<u64>,
    pub max_image_bytes: Option<u64>,
}

/// The views of a list of strings, in order.
pub open spec fn texts_view(texts: Seq<String>) -> Seq<Seq<char>> {
    texts.map_values(|t: String| t@)
}

impl View for ClipboardConfig {
    type V = ConfigView;

    open spec fn view(&self) -> ConfigView {
        ConfigView {
            custom_format_names: texts_view(self.custom_format_names@),
            poll_interval_ms: self.poll_interval_ms,
            max_bytes: self.max_bytes,
            max_image_bytes: self.max_image_bytes,
        }
    }
}

/// Whether a payload of the advertised `size` may be read under `ceiling`.
pub open spec fn within_ceiling(size: u64, ceiling: Option<u64>) -> bool {
    match ceiling {
        Some(limit) => size <= limit,
        None => true,
    }
}

impl ConfigView {
    /// The ceiling that applies to native image payloads: the image ceiling
    /// where one is set, the general ceiling otherwise.
    pub open spec fn image_ceiling(self) -> Option<u64> {
        match self.max_image_bytes {
            Some(limit) => Some(limit),
            None => self.max_bytes,
        }
    }
}

/// Decides whether a payload of the advertised `size` may be read.
pub fn fits(size: u64, ceiling: Option<u64>) -> (allowed: bool)
    ensures
        allowed == within_ceiling(size, ceiling),
{
    match ceiling {
        Some(limit) => size <= limit,
        None => true,
    }
}

impl ClipboardConfig {
    /// No custom formats, the default polling interval, no ceilings.
    pub fn new() -> (config: Self)
        ensures
            config@.custom_format_names.len() == 0,
            config@.poll_interval_ms == DEFAULT_POLL_INTERVAL_MS,
            config@.max_bytes is None,
            config@.max_image_bytes is None,
    {
        ClipboardConfig {
            custom_format_names: Vec::new(),
            poll_interval_ms: DEFAULT_POLL_INTERVAL_MS,
            max_bytes: None,
            max_image_bytes: None,
        }
    }

    /// The ceiling that applies to native image payloads.
    pub fn image_ceiling(&self) -> (ceiling: Option<u64>)
        ensures
            ceiling == self@.image_ceiling(),
    {
        match self.max_image_bytes {
            Some(limit) => Some(limit),
            None => self.max_bytes,
        }
    }
}

} // verus!

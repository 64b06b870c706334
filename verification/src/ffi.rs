//! The flat capability record exchanged with plugin libraries, and its
//! conversions to and from the library's capability flags.

use vstd::prelude::*;

use crate::plugin::PluginCapabilities;

verus! {

/// Plugin capabilities as laid out for the plugin boundary.
#[derive(Debug, Clone, Copy, PartialEq, Eq, Structural)]
pub struct PluginCapabilitiesRaw {
    pub media_playback: bool,
    pub media_decoding: bool,
    pub ui_extension: bool,
    pub metadata_provider: bool,
    pub network_handler: bool,
    pub subtitle_handler: bool,
    pub audio_processor: bool,
    pub video_processor: bool,
    pub keyboard_shortcuts: bool,
    pub notifications: bool,
}

/// The raw record with the same flags as `c`.
pub open spec fn raw_of(c: PluginCapabilities) -> PluginCapabilitiesRaw {
    PluginCapabilitiesRaw {
        media_playback: c.media_playback,
        media_decoding: c.media_decoding,
        ui_extension: c.ui_extension,
        metadata_provider: c.metadata_provider,
        network_handler: c.network_handler,
        subtitle_handler: c.subtitle_handler,
        audio_processor: c.audio_processor,
        video_processor: c.video_processor,
        keyboard_shortcuts: c.keyboard_shortcuts,
        notifications: c.notifications,
    }
}

/// The capabilities with the same flags as `r`.
pub open spec fn capabilities_of(r: PluginCapabilitiesRaw) -> PluginCapabilities {
    PluginCapabilities {
        media_playback: r.media_playback,
        media_decoding: r.media_decoding,
        ui_extension: r.ui_extension,
        metadata_provider: r.metadata_provider,
        network_handler: r.network_handler,
        subtitle_handler: r.subtitle_handler,
        audio_processor: r.audio_processor,
        video_processor: r.video_processor,
        keyboard_shortcuts: r.keyboard_shortcuts,
        notifications: r.notifications,
    }
}

impl Default for PluginCapabilitiesRaw {
    fn default() -> (r: PluginCapabilitiesRaw)
        ensures
            capabilities_of(r) == crate::plugin::no_capabilities(),
    {
        PluginCapabilitiesRaw {
            media_playback: false,
            media_decoding: false,
            ui_extension: false,
            metadata_provider: false,
            network_handler: false,
            subtitle_handler: false,
            audio_processor: false,
            video_processor: false,
            keyboard_shortcuts: false,
            notifications: false,
        }
    }
}

impl From<PluginCapabilities> for PluginCapabilitiesRaw {
    fn from(caps: PluginCapabilities) -> (r: PluginCapabilitiesRaw) {
        PluginCapabilitiesRaw {
            media_playback: caps.media_playback,
            media_decoding: caps.media_decoding,
            ui_extension: caps.ui_extension,
            metadata_provider: caps.metadata_provider,
            network_handler: caps.network_handler,
            subtitle_handler: caps.subtitle_handler,
            audio_processor: caps.audio_processor,
            video_processor: caps.video_processor,
            keyboard_shortcuts: caps.keyboard_shortcuts,
            notifications: caps.notifications,
        }
    }
}

impl vstd::std_specs::convert::FromSpecImpl<PluginCapabilities> for PluginCapabilitiesRaw {
    open spec fn obeys_from_spec() -> bool {
        true
    }

    open spec fn from_spec(caps: PluginCapabilities) -> PluginCapabilitiesRaw {
        raw_of(caps)
    }
}

impl From<PluginCapabilitiesRaw> for PluginCapabilities {
    fn from(raw: PluginCapabilitiesRaw) -> (r: PluginCapabilities) {
        PluginCapabilities {
            media_playback: raw.media_playback,
            media_decoding: raw.media_decoding,
            ui_extension: raw.ui_extension,
            metadata_provider: raw.metadata_provider,
            network_handler: raw.network_handler,
            subtitle_handler: raw.subtitle_handler,
            audio_processor: raw.audio_processor,
            video_processor: raw.video_processor,
            keyboard_shortcuts: raw.keyboard_shortcuts,
            notifications: raw.notifications,
        }
    }
}

impl vstd::std_specs::convert::FromSpecImpl<PluginCapabilitiesRaw> for PluginCapabilities {
    open spec fn obeys_from_spec() -> bool {
        true
    }

    open spec fn from_spec(raw: PluginCapabilitiesRaw) -> PluginCapabilities {
        capabilities_of(raw)
    }
}

/// Converting capabilities to the raw record and back gives them back
/// unchanged, and so does the other way round.
pub proof fn law_raw_round_trip(c: PluginCapabilities, r: PluginCapabilitiesRaw)
    ensures
        capabilities_of(raw_of(c)) == c,
        raw_of(capabilities_of(r)) == r,
{
}

} // verus!

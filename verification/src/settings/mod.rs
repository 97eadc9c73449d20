//! Everything the sniper is configured with.
pub mod client_config;
pub mod env_settings;
pub mod mudae_config;
pub mod sniper_confg;
pub mod sniper_config;

use vstd::prelude::*;

use client_config::ClientSettings;
use mudae_config::MudaeSettings;
use sniper_config::SniperSettings;

use crate::logger::LogLevel;

verus! {

/// The whole configuration. The time zone, in which times are shown, is kept by its
/// IANA name (such as `"America/Sao_Paulo"`); instants elsewhere in the library do not
/// depend on it. `log_level` is the least severe level of the records shown.
pub struct Settings {
    pub client: ClientSettings,
    pub sniper: SniperSettings,
    pub mudae: MudaeSettings,
    pub timezone: String,
    pub log_level: LogLevel,
}

} // verus!

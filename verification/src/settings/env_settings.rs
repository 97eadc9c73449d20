//! Configuring the sniper from four environment variables.
use vstd::prelude::*;

use crate::text::{parse_separated_u64s, parse_u64, parse_unsigned, parsed_u64s, split_terminator};

verus! {

/// The configuration read from the variables `CLIENT_TOKEN`, `GUILD_ID`, `CHANNELS`
/// (a comma-separated list of channel ids) and `CLIENT_ID`.
pub struct Settings {
    pub token: String,
    pub guild_id: u64,
    pub channels_ids: Vec<u64>,
    pub client_id: u64,
}

/// A variable whose text does not read as an id.
#[derive(Debug, Clone, Copy, PartialEq, Eq, Structural)]
pub enum EnvSettingsError {
    /// `GUILD_ID` is not a `u64`.
    InvalidGuildId,
    /// `CLIENT_ID` is not a `u64`.
    InvalidClientId,
}

impl Settings {
    /// Builds the configuration from the variables' texts: the two ids must read as
    /// `u64` (the guild id is checked first), and of `CHANNELS` every comma-separated
    /// piece that reads as a `u64` is kept, in order, the others dropped.
    pub fn from_values(token: String, guild_id: &str, channels: &str, client_id: &str) -> (r:
        Result<Settings, EnvSettingsError>)
        ensures
            parse_unsigned(guild_id@, u64::MAX as nat) is None ==> r == Err::<Settings, EnvSettingsError>(EnvSettingsError::InvalidGuildId),
            parse_unsigned(guild_id@, u64::MAX as nat) is Some && parse_unsigned(client_id@, u64::MAX as nat) is None
                ==> r == Err::<Settings, EnvSettingsError>(EnvSettingsError::InvalidClientId),
            parse_unsigned(guild_id@, u64::MAX as nat) is Some && parse_unsigned(client_id@, u64::MAX as nat) is Some
                ==> r is Ok,
            r matches Ok(s) ==> {
                &&& s.token@ == token@
                &&& parse_unsigned(guild_id@, u64::MAX as nat) == Some(s.guild_id as nat)
                &&& parse_unsigned(client_id@, u64::MAX as nat) == Some(s.client_id as nat)
                &&& s.channels_ids@ == parsed_u64s(split_terminator(channels@, ','))
            },
    {
        let guild = match parse_u64(guild_id) {
            Some(v) => v,
            None => return Err(EnvSettingsError::InvalidGuildId),
        };
        let channels_ids = parse_separated_u64s(channels, ',');
        let client = match parse_u64(client_id) {
            Some(v) => v,
            None => return Err(EnvSettingsError::InvalidClientId),
        };
        Ok(Settings { token, guild_id: guild, channels_ids, client_id: client })
    }
}

} // verus!

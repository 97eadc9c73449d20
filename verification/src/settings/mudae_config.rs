//! Settings of the Mudae bot itself: its command prefix and the base value of each badge.
use vstd::prelude::*;
use vstd::string::StringExecFns;

verus! {

/// The prefix that Mudae commands carry when none is configured.
pub fn default_prefix() -> (r: String)
    ensures
        r@ == "$"@,
{
    String::from_str("$")
}

/// The base value of a bronze badge when none is configured.
pub fn default_base_bronze_value() -> (r: u16)
    ensures
        r == 1000,
{
    1000
}

/// The base value of a silver badge when none is configured.
pub fn default_base_silver_value() -> (r: u16)
    ensures
        r == 2000,
{
    2000
}

/// The base value of a gold badge when none is configured.
pub fn default_base_gold_value() -> (r: u16)
    ensures
        r == 3000,
{
    3000
}

/// The base value of a sapphire badge when none is configured.
pub fn default_base_sapphire_value() -> (r: u16)
    ensures
        r == 5000,
{
    5000
}

/// The base value of a ruby badge when none is configured.
pub fn default_base_ruby_value() -> (r: u16)
    ensures
        r == 7000,
{
    7000
}

/// The base value of an emerald badge when none is configured.
pub fn default_base_emerald_value() -> (r: u16)
    ensures
        r == 9000,
{
    9000
}

/// How the Mudae bot is addressed and what its badges are worth.
pub struct MudaeSettings {
    pub prefix: String,
    pub base_bronze_value: u16,
    pub base_silver_value: u16,
    pub base_gold_value: u16,
    pub base_sapphire_value: u16,
    pub base_ruby_value: u16,
    pub base_emerald_value: u16,
}

} // verus!

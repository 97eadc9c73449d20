//! Why capturing a card or refreshing the statistics failed.
use vstd::prelude::*;

use crate::entities::message::{ButtonKindData, ComponentData};
use crate::utils::InvalidStatisticsData;

verus! {

/// Why a rolled card could not be claimed.
#[derive(Debug)]
pub enum CaptureError {
    /// The message has no first component in its first row.
    MissingComponent,
    /// That component is not a button.
    NotAButton(ComponentData),
    /// That button sends no interaction (a link or premium button).
    InvalidButton(ButtonKindData),
}

/// Why the statistics could not be refreshed.
#[derive(Debug)]
pub enum UpdateStatisticsError {
    /// The `$tu` answer could not be read.
    InvalidStatistics(InvalidStatisticsData),
    /// No message came back for `$tu`.
    MissingCommandFeedback,
}

} // verus!

//! Client-side logic for polling a weather service: the address that is
//! asked, the polling cycle, and the hand-over of updates to a reader.

use vstd::prelude::*;

pub mod channel;
pub mod forecast;
pub mod location;
pub mod pattern;
pub mod poller;
pub mod reader;
pub mod request;
pub mod status;

verus! {

/// One weather condition of a report on the current weather.
#[derive(Debug, Clone, PartialEq, Eq)]
pub struct Weather {
    /// The number of the condition.
    pub id: u64,
    /// The group the condition belongs to, such as rain or snow.
    pub main: String,
    /// The condition in words.
    pub description: String,
    /// The name of the icon that shows the condition.
    pub icon: String,
}

/// Accumulated precipitation, as reported for the last hour and the last
/// three hours.
#[derive(Debug, Clone, Copy, PartialEq, Eq)]
pub struct Volume {
    pub h1: u64,
    pub h3: u64,
}

} // verus!

//! Records of the forecast for several days.

use vstd::prelude::*;

verus! {

/// One weather condition of a forecast.
#[derive(Debug, Clone, PartialEq, Eq)]
pub struct Weather {
    /// The number of the condition.
    pub id: i64,
    /// The group the condition belongs to, such as rain or snow.
    pub main: String,
    /// The condition in words.
    pub description: String,
    /// The name of the icon that shows the condition.
    pub icon: String,
}

impl Default for Weather {
    /// The condition with the number 0 and empty texts.
    fn default() -> (weather: Weather)
        ensures
            weather.id == 0,
            weather.main@ == Seq::<char>::empty(),
            weather.description@ == Seq::<char>::empty(),
            weather.icon@ == Seq::<char>::empty(),
    {
        Weather { id: 0, main: String::new(), description: String::new(), icon: String::new() }
    }
}

} // verus!

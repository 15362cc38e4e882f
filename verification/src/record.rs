//! The weather record: what one answer of the weather service says.

use vstd::prelude::*;
use crate::measure::Measurement;

verus! {

/// The weather at one place.
#[derive(Clone, Debug, PartialEq, Eq)]
pub struct WeatherRecord {
    /// The weather in words, such as `clear sky`.
    pub description: String,
    /// The temperature in degrees Celsius.
    pub temperature: Measurement,
    /// The relative humidity in percent.
    pub humidity: Measurement,
    /// The air pressure in hectopascal.
    pub pressure: Measurement,
    /// The wind speed in metres per second.
    pub wind_speed: Measurement,
    /// The name of the place.
    pub location: String,
}

/// A weather record as a mathematical value.
pub struct WeatherRecordView {
    pub description: Seq<char>,
    pub temperature: Measurement,
    pub humidity: Measurement,
    pub pressure: Measurement,
    pub wind_speed: Measurement,
    pub location: Seq<char>,
}

impl View for WeatherRecord {
    type V = WeatherRecordView;

    open spec fn view(&self) -> WeatherRecordView {
        WeatherRecordView {
            description: self.description@,
            temperature: self.temperature,
            humidity: self.humidity,
            pressure: self.pressure,
            wind_speed: self.wind_speed,
            location: self.location@,
        }
    }
}

} // verus!

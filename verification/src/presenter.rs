//! The presenter: how a weather record is laid out for the terminal.

use vstd::prelude::*;
use vstd::arithmetic::power2::{pow2, lemma2_to64_rest};
use colored::ColoredString;
use crate::measure::{
    Measurement,
    SIGN_BIT,
    INFINITY_BITS,
    append_one_decimal,
    lemma_below_is_monotonic,
    lemma_below_zero,
    lemma_below_by_pattern,
};
use crate::paint::{
    bright_yellow,
    bright_blue,
    bright_cyan,
    dimmed,
    normal,
    in_bright_yellow,
    in_bright_blue,
    in_bright_cyan,
    in_dimmed,
    in_normal,
};
use crate::record::{WeatherRecord, WeatherRecordView};
use crate::text::same_text;

verus! {

/// The bit pattern of the number ten.
pub const TEN_BITS: u64 = 0x4024_0000_0000_0000;

/// The bit pattern of the number twenty.
pub const TWENTY_BITS: u64 = 0x4034_0000_0000_0000;

/// The bit pattern of the number thirty.
pub const THIRTY_BITS: u64 = 0x403e_0000_0000_0000;

/// The five ranges of temperature that are told apart.
#[derive(Clone, Copy, Debug, PartialEq, Eq, Structural)]
pub enum TemperatureBand {
    /// Below zero degrees.
    Freezing,
    /// From zero to below ten degrees.
    Cold,
    /// From ten to below twenty degrees.
    Mild,
    /// From twenty to below thirty degrees.
    Warm,
    /// Thirty degrees and more, and whatever is not a number.
    Hot,
}

/// The band that a temperature in degrees Celsius falls in. Each band
/// holds its lower limit and not its upper one.
pub open spec fn band_of(temperature: Measurement) -> TemperatureBand {
    if temperature.below(0) {
        TemperatureBand::Freezing
    } else if temperature.below(10) {
        TemperatureBand::Cold
    } else if temperature.below(20) {
        TemperatureBand::Mild
    } else if temperature.below(30) {
        TemperatureBand::Warm
    } else {
        TemperatureBand::Hot
    }
}

/// The glyph shown for a band: a snowflake, a cold face, a sun behind a
/// cloud, a sun, or a fire.
pub open spec fn band_glyph(band: TemperatureBand) -> Seq<char> {
    match band {
        TemperatureBand::Freezing => seq!['\u{2744}', '\u{fe0f}'],
        TemperatureBand::Cold => seq!['\u{1f976}'],
        TemperatureBand::Mild => seq!['\u{1f325}', '\u{fe0f}'],
        TemperatureBand::Warm => seq!['\u{2600}', '\u{fe0f}'],
        TemperatureBand::Hot => seq!['\u{1f525}'],
    }
}

/// The band that a temperature in degrees Celsius falls in.
pub fn temperature_band(temperature: Measurement) -> (band: TemperatureBand)
    ensures
        band == band_of(temperature),
{
    let bits = temperature.to_bits();
    proof {
        lemma_below_zero(temperature);
        lemma2_to64_rest();
        if !temperature.negative() && !temperature.is_nan() {
            assert(10 * pow2(49) == 0x0010_0000_0000_0000 + 0x0004_0000_0000_0000);
            assert(20 * pow2(48) == 0x0010_0000_0000_0000 + 0x0004_0000_0000_0000);
            assert(30 * pow2(48) == 0x0010_0000_0000_0000 + 0x000e_0000_0000_0000);
            lemma_below_by_pattern(temperature, 10, 1026, 0x0004_0000_0000_0000);
            lemma_below_by_pattern(temperature, 20, 1027, 0x0004_0000_0000_0000);
            lemma_below_by_pattern(temperature, 30, 1027, 0x000e_0000_0000_0000);
        }
        if temperature.below(0) {
            lemma_below_is_monotonic(temperature, 0, 10);
        }
    }
    if bits >= SIGN_BIT {
        let magnitude = bits - SIGN_BIT;
        if magnitude > INFINITY_BITS {
            TemperatureBand::Hot
        } else if magnitude == 0 {
            assert(temperature.significand() == 0);
            assert(temperature.exponent() == -1074);
            assert(0 < 10 * pow2(1074)) by {
                vstd::arithmetic::power2::lemma_pow2_pos(1074);
            }
            TemperatureBand::Cold
        } else {
            TemperatureBand::Freezing
        }
    } else if bits < TEN_BITS {
        TemperatureBand::Cold
    } else if bits < TWENTY_BITS {
        TemperatureBand::Mild
    } else if bits < THIRTY_BITS {
        TemperatureBand::Warm
    } else {
        TemperatureBand::Hot
    }
}

/// The glyph shown for a band.
pub fn glyph(band: TemperatureBand) -> (text: &'static str)
    ensures
        text@ == band_glyph(band),
{
    proof {
        reveal_strlit("\u{2744}\u{fe0f}");
        reveal_strlit("\u{1f976}");
        reveal_strlit("\u{1f325}\u{fe0f}");
        reveal_strlit("\u{2600}\u{fe0f}");
        reveal_strlit("\u{1f525}");
    }
    let text = match band {
        TemperatureBand::Freezing => "\u{2744}\u{fe0f}",
        TemperatureBand::Cold => "\u{1f976}",
        TemperatureBand::Mild => "\u{1f325}\u{fe0f}",
        TemperatureBand::Warm => "\u{2600}\u{fe0f}",
        TemperatureBand::Hot => "\u{1f525}",
    };
    assert(text@ =~= band_glyph(band));
    text
}

/// The glyph shown for a temperature in degrees Celsius.
pub fn get_temp_emoji(temperature: Measurement) -> (text: &'static str)
    ensures
        text@ == band_glyph(band_of(temperature)),
{
    glyph(temperature_band(temperature))
}

/// The bands are the half-open intervals between the limits 0, 10, 20 and
/// 30: each holds its lower limit and not its upper one. What is not a
/// number is below no limit and so falls in the last band.
pub proof fn lemma_bands_are_half_open(temperature: Measurement)
    ensures
        band_of(temperature) == TemperatureBand::Freezing <==> temperature.below(0),
        band_of(temperature) == TemperatureBand::Cold <==> !temperature.below(0)
            && temperature.below(10),
        band_of(temperature) == TemperatureBand::Mild <==> !temperature.below(10)
            && temperature.below(20),
        band_of(temperature) == TemperatureBand::Warm <==> !temperature.below(20)
            && temperature.below(30),
        band_of(temperature) == TemperatureBand::Hot <==> !temperature.below(30),
        temperature.is_nan() ==> band_of(temperature) == TemperatureBand::Hot,
{
    if temperature.below(0) {
        lemma_below_is_monotonic(temperature, 0, 10);
    }
    if temperature.below(10) {
        lemma_below_is_monotonic(temperature, 10, 20);
    }
    if temperature.below(20) {
        lemma_below_is_monotonic(temperature, 20, 30);
    }
}

/// Every temperature has exactly one of the five glyphs, and no two bands
/// share a glyph.
pub proof fn lemma_glyphs_tell_bands_apart(first: TemperatureBand, second: TemperatureBand)
    ensures
        band_glyph(first) == band_glyph(second) <==> first == second,
{
    assert(band_glyph(TemperatureBand::Freezing)[0] == '\u{2744}');
    assert(band_glyph(TemperatureBand::Cold)[0] == '\u{1f976}');
    assert(band_glyph(TemperatureBand::Mild)[0] == '\u{1f325}');
    assert(band_glyph(TemperatureBand::Warm)[0] == '\u{2600}');
    assert(band_glyph(TemperatureBand::Hot)[0] == '\u{1f525}');
}

/// The kinds of weather that a description can name.
#[derive(Clone, Copy, Debug, PartialEq, Eq, Structural)]
pub enum WeatherKind {
    /// A clear sky.
    Clear,
    /// Clouds that leave part of the sky open.
    Clouds,
    /// A covered sky, or air that is hard to see through.
    LowVisibility,
    /// Rain, thunderstorm or snow.
    Precipitation,
    /// A description that is not in the list.
    Unclassified,
}

/// The ways in which a text is printed.
#[derive(Clone, Copy, Debug, PartialEq, Eq, Structural)]
pub enum TextStyle {
    /// In bright yellow.
    BrightYellow,
    /// In bright blue.
    BrightBlue,
    /// Dimmed.
    Dimmed,
    /// In bright cyan.
    BrightCyan,
    /// As the terminal prints by default.
    Plain,
}

/// The description of a clear sky.
pub open spec fn names_clear_sky(description: Seq<char>) -> bool {
    description == "clear sky"@
}

/// The descriptions of clouds that leave part of the sky open.
pub open spec fn names_clouds(description: Seq<char>) -> bool {
    ||| description == "few clouds"@
    ||| description == "scattered clouds"@
    ||| description == "broken clouds"@
}

/// The descriptions of a covered sky and of air that is hard to see
/// through.
pub open spec fn names_low_visibility(description: Seq<char>) -> bool {
    ||| description == "overcast clouds"@
    ||| description == "mist"@
    ||| description == "haze"@
    ||| description == "smoke"@
    ||| description == "sand"@
    ||| description == "dust"@
    ||| description == "fog"@
    ||| description == "squalls"@
}

/// The descriptions of rain, thunderstorm and snow.
pub open spec fn names_precipitation(description: Seq<char>) -> bool {
    ||| description == "shower rain"@
    ||| description == "rain"@
    ||| description == "thunderstorm"@
    ||| description == "snow"@
}

/// The kind of weather that a description names. A description counts
/// only as it is written in the list, letter for letter.
pub open spec fn kind_of(description: Seq<char>) -> WeatherKind {
    if names_clear_sky(description) {
        WeatherKind::Clear
    } else if names_clouds(description) {
        WeatherKind::Clouds
    } else if names_low_visibility(description) {
        WeatherKind::LowVisibility
    } else if names_precipitation(description) {
        WeatherKind::Precipitation
    } else {
        WeatherKind::Unclassified
    }
}

/// The style in which a kind of weather is printed.
pub open spec fn style_of(kind: WeatherKind) -> TextStyle {
    match kind {
        WeatherKind::Clear => TextStyle::BrightYellow,
        WeatherKind::Clouds => TextStyle::BrightBlue,
        WeatherKind::LowVisibility => TextStyle::Dimmed,
        WeatherKind::Precipitation => TextStyle::BrightCyan,
        WeatherKind::Unclassified => TextStyle::Plain,
    }
}

/// The kind of weather that a description names.
pub fn classify(description: &str) -> (kind: WeatherKind)
    ensures
        kind == kind_of(description@),
{
    if same_text(description, "clear sky") {
        WeatherKind::Clear
    } else if same_text(description, "few clouds") || same_text(description, "scattered clouds")
        || same_text(description, "broken clouds") {
        WeatherKind::Clouds
    } else if same_text(description, "overcast clouds") || same_text(description, "mist")
        || same_text(description, "haze") || same_text(description, "smoke") || same_text(
        description,
        "sand",
    ) || same_text(description, "dust") || same_text(description, "fog") || same_text(
        description,
        "squalls",
    ) {
        WeatherKind::LowVisibility
    } else if same_text(description, "shower rain") || same_text(description, "rain")
        || same_text(description, "thunderstorm") || same_text(description, "snow") {
        WeatherKind::Precipitation
    } else {
        WeatherKind::Unclassified
    }
}

/// The style in which a kind of weather is printed.
pub fn style_for(kind: WeatherKind) -> (style: TextStyle)
    ensures
        style == style_of(kind),
{
    match kind {
        WeatherKind::Clear => TextStyle::BrightYellow,
        WeatherKind::Clouds => TextStyle::BrightBlue,
        WeatherKind::LowVisibility => TextStyle::Dimmed,
        WeatherKind::Precipitation => TextStyle::BrightCyan,
        WeatherKind::Unclassified => TextStyle::Plain,
    }
}

/// No description belongs to two kinds of weather, so each kind is named
/// by exactly the descriptions of its own list, and a description outside
/// the four lists is unclassified and printed plainly.
pub proof fn lemma_kinds_are_disjoint(description: Seq<char>)
    ensures
        kind_of(description) == WeatherKind::Clear <==> names_clear_sky(description),
        kind_of(description) == WeatherKind::Clouds <==> names_clouds(description),
        kind_of(description) == WeatherKind::LowVisibility <==> names_low_visibility(description),
        kind_of(description) == WeatherKind::Precipitation <==> names_precipitation(description),
        kind_of(description) == WeatherKind::Unclassified <==> !(names_clear_sky(description)
            || names_clouds(description) || names_low_visibility(description)
            || names_precipitation(description)),
        style_of(kind_of(description)) == TextStyle::Plain <==> kind_of(description)
            == WeatherKind::Unclassified,
{
    reveal_strlit("clear sky");
    reveal_strlit("few clouds");
    reveal_strlit("scattered clouds");
    reveal_strlit("broken clouds");
    reveal_strlit("overcast clouds");
    reveal_strlit("mist");
    reveal_strlit("haze");
    reveal_strlit("smoke");
    reveal_strlit("sand");
    reveal_strlit("dust");
    reveal_strlit("fog");
    reveal_strlit("squalls");
    reveal_strlit("shower rain");
    reveal_strlit("rain");
    reveal_strlit("thunderstorm");
    reveal_strlit("snow");
    // The words of four letters stand in two lists; they differ from one
    // list to the other in their first or second letter.
    if description.len() == 4 {
        assert("mist"@[0] != "rain"@[0] && "mist"@[0] != "snow"@[0]);
        assert("haze"@[0] != "rain"@[0] && "haze"@[0] != "snow"@[0]);
        assert("sand"@[0] != "rain"@[0] && "sand"@[1] != "snow"@[1]);
        assert("dust"@[0] != "rain"@[0] && "dust"@[0] != "snow"@[0]);
    }
}

/// The text of a weather record: a headline with the place, the
/// description and the glyph of the temperature, and under it four
/// indented lines with the temperature, the humidity, the pressure and the
/// wind speed, each with one digit after the point and its unit.
pub open spec fn layout(record: WeatherRecordView) -> Seq<char> {
    "Weather in "@ + record.location + ": "@ + record.description + " "@ + band_glyph(
        band_of(record.temperature),
    ) + "\n        > Temperature: "@ + record.temperature.one_decimal_text()
        + "C,\n        > Humidity: "@ + record.humidity.one_decimal_text()
        + "%,\n        > Pressure: "@ + record.pressure.one_decimal_text()
        + " hPa,\n        > Wind Speed: "@ + record.wind_speed.one_decimal_text() + " m/s"@
}

/// The text of a weather record.
pub fn weather_text(record: &WeatherRecord) -> (text: String)
    ensures
        text@ == layout(record@),
{
    let mut text = String::new();
    text.append("Weather in ");
    text.append(record.location.as_str());
    text.append(": ");
    text.append(record.description.as_str());
    text.append(" ");
    text.append(get_temp_emoji(record.temperature));
    text.append("\n        > Temperature: ");
    append_one_decimal(&mut text, record.temperature);
    text.append("C,\n        > Humidity: ");
    append_one_decimal(&mut text, record.humidity);
    text.append("%,\n        > Pressure: ");
    append_one_decimal(&mut text, record.pressure);
    text.append(" hPa,\n        > Wind Speed: ");
    append_one_decimal(&mut text, record.wind_speed);
    text.append(" m/s");
    assert(text@ =~= layout(record@));
    text
}

/// A weather record made ready for the terminal.
#[derive(Clone, Debug, PartialEq, Eq)]
pub struct Presentation {
    /// The text to print.
    pub text: String,
    /// The style to print it in.
    pub style: TextStyle,
}

/// A presentation as a mathematical value.
pub struct PresentationView {
    pub text: Seq<char>,
    pub style: TextStyle,
}

impl View for Presentation {
    type V = PresentationView;

    open spec fn view(&self) -> PresentationView {
        PresentationView { text: self.text@, style: self.style }
    }
}

/// The presentation of a weather record: its text, in the style of the
/// kind of weather that its description names.
pub open spec fn presentation_of(record: WeatherRecordView) -> PresentationView {
    PresentationView { text: layout(record), style: style_of(kind_of(record.description)) }
}

/// Renders a weather record. The record is left as it is.
pub fn render(record: &WeatherRecord) -> (presentation: Presentation)
    ensures
        presentation@ == presentation_of(record@),
{
    let text = weather_text(record);
    let style = style_for(classify(record.description.as_str()));
    Presentation { text, style }
}

/// Rendering depends on nothing but the record: two records with the same
/// contents have the same presentation, and so has one record rendered
/// twice.
pub proof fn lemma_render_is_repeatable(first: WeatherRecord, second: WeatherRecord)
    requires
        first@ == second@,
    ensures
        presentation_of(first@) == presentation_of(second@),
{
}

/// The styled text of a presentation: what the crate `colored` makes of
/// its text by the method that belongs to its style.
pub open spec fn styled_of(presentation: PresentationView) -> ColoredString {
    match presentation.style {
        TextStyle::BrightYellow => in_bright_yellow(presentation.text),
        TextStyle::BrightBlue => in_bright_blue(presentation.text),
        TextStyle::Dimmed => in_dimmed(presentation.text),
        TextStyle::BrightCyan => in_bright_cyan(presentation.text),
        TextStyle::Plain => in_normal(presentation.text),
    }
}

impl Presentation {
    /// The text as a value of the crate `colored` that carries the style,
    /// ready to be printed. Whether colours reach the terminal is decided
    /// when it is printed.
    pub fn styled(&self) -> (styled: ColoredString)
        ensures
            styled == styled_of(self@),
    {
        match self.style {
            TextStyle::BrightYellow => bright_yellow(self.text.as_str()),
            TextStyle::BrightBlue => bright_blue(self.text.as_str()),
            TextStyle::Dimmed => dimmed(self.text.as_str()),
            TextStyle::BrightCyan => bright_cyan(self.text.as_str()),
            TextStyle::Plain => normal(self.text.as_str()),
        }
    }
}

} // verus!

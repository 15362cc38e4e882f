use colored::{Color, Styles};
use weather_station::measure::Measurement;
use weather_station::presenter::{
    classify, get_temp_emoji, glyph, render, style_for, temperature_band, weather_text,
    Presentation, TemperatureBand, TextStyle, WeatherKind,
};
use weather_station::record::WeatherRecord;

const SNOW: &str = "❄️";
const COLD_FACE: &str = "🥶";
const CLOUD: &str = "🌥️";
const SUN: &str = "☀️";
const FIRE: &str = "🔥";

fn measured(value: f64) -> Measurement {
    Measurement::from_bits(value.to_bits())
}

fn emoji(value: f64) -> &'static str {
    get_temp_emoji(measured(value))
}

fn emoji_by_comparison(temperature: f64) -> &'static str {
    if temperature < 0.0 {
        SNOW
    } else if temperature < 10.0 {
        COLD_FACE
    } else if temperature < 20.0 {
        CLOUD
    } else if temperature < 30.0 {
        SUN
    } else {
        FIRE
    }
}

fn record(description: &str, temperature: f64, location: &str) -> WeatherRecord {
    WeatherRecord {
        description: description.to_string(),
        temperature: measured(temperature),
        humidity: measured(40.0),
        pressure: measured(1012.3),
        wind_speed: measured(3.2),
        location: location.to_string(),
    }
}

fn text_by_template(
    location: &str,
    description: &str,
    temperature: f64,
    humidity: f64,
    pressure: f64,
    wind_speed: f64,
) -> String {
    format!(
        "Weather in {}: {} {}
        > Temperature: {:.1}C,
        > Humidity: {:.1}%,
        > Pressure: {:.1} hPa,
        > Wind Speed: {:.1} m/s",
        location,
        description,
        emoji_by_comparison(temperature),
        temperature,
        humidity,
        pressure,
        wind_speed,
    )
}

#[test]
fn emoji_glyphs_are_the_five_fixed_ones() {
    assert_eq!(glyph(TemperatureBand::Freezing), "\u{2744}\u{fe0f}");
    assert_eq!(glyph(TemperatureBand::Cold), "\u{1f976}");
    assert_eq!(glyph(TemperatureBand::Mild), "\u{1f325}\u{fe0f}");
    assert_eq!(glyph(TemperatureBand::Warm), "\u{2600}\u{fe0f}");
    assert_eq!(glyph(TemperatureBand::Hot), "\u{1f525}");
    assert_eq!(glyph(TemperatureBand::Freezing), SNOW);
    assert_eq!(glyph(TemperatureBand::Cold), COLD_FACE);
    assert_eq!(glyph(TemperatureBand::Mild), CLOUD);
    assert_eq!(glyph(TemperatureBand::Warm), SUN);
    assert_eq!(glyph(TemperatureBand::Hot), FIRE);
}

#[test]
fn emoji_bands_hold_their_lower_limit() {
    assert_eq!(emoji(-0.1), SNOW);
    assert_eq!(emoji(-273.15), SNOW);
    assert_eq!(emoji(0.0), COLD_FACE);
    assert_eq!(emoji(9.9), COLD_FACE);
    assert_eq!(emoji(10.0), CLOUD);
    assert_eq!(emoji(19.99), CLOUD);
    assert_eq!(emoji(20.0), SUN);
    assert_eq!(emoji(25.0), SUN);
    assert_eq!(emoji(29.999), SUN);
    assert_eq!(emoji(30.0), FIRE);
    assert_eq!(emoji(45.5), FIRE);
}

#[test]
fn emoji_just_under_each_limit() {
    assert_eq!(emoji(f64::from_bits(0.0f64.to_bits() + 1)), COLD_FACE);
    assert_eq!(emoji(-f64::from_bits(1)), SNOW);
    assert_eq!(emoji(f64::from_bits(10.0f64.to_bits() - 1)), COLD_FACE);
    assert_eq!(emoji(f64::from_bits(10.0f64.to_bits() + 1)), CLOUD);
    assert_eq!(emoji(f64::from_bits(20.0f64.to_bits() - 1)), CLOUD);
    assert_eq!(emoji(f64::from_bits(30.0f64.to_bits() - 1)), SUN);
}

#[test]
fn emoji_of_unusual_numbers() {
    assert_eq!(emoji(-0.0), COLD_FACE);
    assert_eq!(emoji(f64::NAN), FIRE);
    assert_eq!(emoji(-f64::NAN), FIRE);
    assert_eq!(emoji(f64::INFINITY), FIRE);
    assert_eq!(emoji(f64::NEG_INFINITY), SNOW);
    assert_eq!(emoji(f64::MIN_POSITIVE), COLD_FACE);
    assert_eq!(emoji(f64::MAX), FIRE);
    assert_eq!(emoji(f64::MIN), SNOW);
}

#[test]
fn emoji_agrees_with_comparison_of_floats_on_a_sweep() {
    let mut bits: u64 = 0x9e37_79b9_7f4a_7c15;
    let mut count = 0;
    while count < 200000 {
        bits = bits.wrapping_mul(6364136223846793005).wrapping_add(1442695040888963407);
        let any = f64::from_bits(bits);
        assert_eq!(emoji(any), emoji_by_comparison(any), "for {:e}", any);
        let near = f64::from_bits(0x4000_0000_0000_0000 + (bits >> 10));
        assert_eq!(emoji(near), emoji_by_comparison(near), "for {:e}", near);
        assert_eq!(emoji(-near), emoji_by_comparison(-near), "for {:e}", -near);
        count += 1;
    }
}

#[test]
fn temperature_band_of_each_range() {
    assert_eq!(temperature_band(measured(-5.0)), TemperatureBand::Freezing);
    assert_eq!(temperature_band(measured(5.0)), TemperatureBand::Cold);
    assert_eq!(temperature_band(measured(15.0)), TemperatureBand::Mild);
    assert_eq!(temperature_band(measured(25.0)), TemperatureBand::Warm);
    assert_eq!(temperature_band(measured(35.0)), TemperatureBand::Hot);
}

#[test]
fn classify_each_listed_description() {
    assert_eq!(classify("clear sky"), WeatherKind::Clear);
    for description in ["few clouds", "scattered clouds", "broken clouds"] {
        assert_eq!(classify(description), WeatherKind::Clouds, "{}", description);
    }
    for description in
        ["overcast clouds", "mist", "haze", "smoke", "sand", "dust", "fog", "squalls"]
    {
        assert_eq!(classify(description), WeatherKind::LowVisibility, "{}", description);
    }
    for description in ["shower rain", "rain", "thunderstorm", "snow"] {
        assert_eq!(classify(description), WeatherKind::Precipitation, "{}", description);
    }
}

#[test]
fn classify_what_is_not_listed() {
    for description in [
        "",
        "Clear sky",
        "clear sky ",
        " clear sky",
        "CLEAR SKY",
        "light rain",
        "clouds",
        "tornado",
        "mist\n",
        "fog.",
        "雨",
    ] {
        assert_eq!(classify(description), WeatherKind::Unclassified, "{:?}", description);
    }
}

#[test]
fn style_for_each_kind() {
    assert_eq!(style_for(WeatherKind::Clear), TextStyle::BrightYellow);
    assert_eq!(style_for(WeatherKind::Clouds), TextStyle::BrightBlue);
    assert_eq!(style_for(WeatherKind::LowVisibility), TextStyle::Dimmed);
    assert_eq!(style_for(WeatherKind::Precipitation), TextStyle::BrightCyan);
    assert_eq!(style_for(WeatherKind::Unclassified), TextStyle::Plain);
}

#[test]
fn weather_text_follows_the_template() {
    let pune = record("clear sky", 25.0, "Pune");
    assert_eq!(
        weather_text(&pune),
        "Weather in Pune: clear sky ☀️\n        > Temperature: 25.0C,\n        > Humidity: 40.0%,\n        > Pressure: 1012.3 hPa,\n        > Wind Speed: 3.2 m/s"
    );
    assert_eq!(weather_text(&pune), text_by_template("Pune", "clear sky", 25.0, 40.0, 1012.3, 3.2));
}

#[test]
fn weather_text_agrees_with_the_template_on_many_records() {
    let cases = [
        ("Oslo", "snow", -12.345, 81.5, 998.45, 11.25),
        ("Reykjavik", "mist", -0.04, 100.0, 1003.0, 0.0),
        ("", "", 9.95, 0.05, 1e9, 128.75),
        ("São Paulo", "thunderstorm", 30.0, 55.55, 1013.25, 7.777),
        ("Dallol", "dust", 49.96, 12.0, 1009.99, 2.25),
        ("Nowhere", "?", f64::NAN, f64::INFINITY, f64::NEG_INFINITY, -0.0),
    ];
    for (location, description, temperature, humidity, pressure, wind_speed) in cases {
        let record = WeatherRecord {
            description: description.to_string(),
            temperature: measured(temperature),
            humidity: measured(humidity),
            pressure: measured(pressure),
            wind_speed: measured(wind_speed),
            location: location.to_string(),
        };
        assert_eq!(
            weather_text(&record),
            text_by_template(location, description, temperature, humidity, pressure, wind_speed)
        );
    }
}

#[test]
fn render_picks_the_style_of_the_description() {
    assert_eq!(render(&record("clear sky", 25.0, "Pune")).style, TextStyle::BrightYellow);
    assert_eq!(render(&record("few clouds", 25.0, "Pune")).style, TextStyle::BrightBlue);
    assert_eq!(render(&record("haze", 25.0, "Pune")).style, TextStyle::Dimmed);
    assert_eq!(render(&record("rain", 25.0, "Pune")).style, TextStyle::BrightCyan);
    assert_eq!(render(&record("drizzle", 25.0, "Pune")).style, TextStyle::Plain);
    let shown = render(&record("rain", 25.0, "Pune"));
    assert_eq!(shown.text, weather_text(&record("rain", 25.0, "Pune")));
}

#[test]
fn render_twice_gives_the_same_and_keeps_the_record() {
    let pune = record("scattered clouds", 18.4, "Pune");
    let before = pune.clone();
    let first = render(&pune);
    let second = render(&pune);
    assert_eq!(first, second);
    assert_eq!(pune, before);
}

#[test]
fn styled_carries_the_text_and_the_colour() {
    let text = "Weather in Pune".to_string();
    let yellow = Presentation { text: text.clone(), style: TextStyle::BrightYellow }.styled();
    assert_eq!(yellow.input, text);
    assert_eq!(yellow.fgcolor, Some(Color::BrightYellow));
    assert_eq!(yellow.bgcolor, None);
    assert!(!yellow.style.contains(Styles::Dimmed));
    let blue = Presentation { text: text.clone(), style: TextStyle::BrightBlue }.styled();
    assert_eq!(blue.input, text);
    assert_eq!(blue.fgcolor, Some(Color::BrightBlue));
    let cyan = Presentation { text: text.clone(), style: TextStyle::BrightCyan }.styled();
    assert_eq!(cyan.input, text);
    assert_eq!(cyan.fgcolor, Some(Color::BrightCyan));
    let dim = Presentation { text: text.clone(), style: TextStyle::Dimmed }.styled();
    assert_eq!(dim.input, text);
    assert_eq!(dim.fgcolor, None);
    assert!(dim.style.contains(Styles::Dimmed));
    assert!(!dim.is_plain());
    let plain = Presentation { text: text.clone(), style: TextStyle::Plain }.styled();
    assert_eq!(plain.input, text);
    assert!(plain.is_plain());
}

#[test]
fn styled_prints_the_text_when_colours_are_off() {
    colored::control::set_override(false);
    let shown = render(&record("clear sky", 25.0, "Pune"));
    assert_eq!(format!("{}", shown.styled()), shown.text);
    colored::control::unset_override();
}

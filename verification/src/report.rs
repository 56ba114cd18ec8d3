//! The answer of the weather service and the summary printed for it.

use vstd::prelude::*;
use vstd::string::StringExecFns;
use crate::decimal::{decimal, decimal_string, push_decimal};
use crate::error::WeatherError;
use crate::style::{
    band_tint, colorize_conditions, colorize_temperature, conditions_tint,
    decimal_holds_no_reset, escape_wrapped, foreground_code, has_infix, is_named_code,
    shown_values_hold_no_reset, shows, true_color_code, ColoredText, Tint,
};
use crate::temperature::{
    band_of, convert_k_to_f, fahrenheit_parts, two_decimals, whole_degrees, Kelvin,
};

verus! {

/// One entry of the answer's `weather` list.
#[derive(Clone, Debug, PartialEq, Eq)]
pub struct Conditions {
    pub description: String,
}

/// The answer's `main` object: temperatures in kelvins, humidity in percent.
#[derive(Clone, Copy, Debug, PartialEq, Eq, Structural)]
pub struct MainResponse {
    pub temp: Kelvin,
    pub feels_like: Kelvin,
    pub temp_min: Kelvin,
    pub temp_max: Kelvin,
    pub humidity: i32,
}

/// The answer of the weather service, as far as it is read.
#[derive(Clone, Debug, PartialEq, Eq)]
pub struct ZipResponse {
    pub weather: Vec<Conditions>,
    pub main: MainResponse,
}

/// The weather at one place: the first description of the answer, and its
/// readings.
#[derive(Clone, Debug, PartialEq, Eq)]
pub struct WeatherResponse {
    pub description: String,
    pub temp: Kelvin,
    pub feels_like: Kelvin,
    pub temp_min: Kelvin,
    pub temp_max: Kelvin,
    pub humidity: i32,
}

/// How many lines a summary has.
pub const REPORT_LINES: usize = 7;

/// Whether `line` is `label`, then a way to send `text` in colour `tint`.
pub open spec fn line_shows(
    line: Seq<char>,
    label: Seq<char>,
    tint: Tint,
    text: Seq<char>,
) -> bool {
    &&& label.len() <= line.len()
    &&& line.subrange(0, label.len() as int) == label
    &&& shows(tint, text, line.subrange(label.len() as int, line.len() as int))
}

/// The lines of a summary, given what is sent for each coloured value: a
/// blank line, the postal code, the description, the temperature and what
/// it feels like, the humidity in percent, and the day's low and high to
/// the nearest degree.
pub open spec fn summary(
    postal_code_shown: Seq<char>,
    description_shown: Seq<char>,
    temperature_shown: Seq<char>,
    feels_like_shown: Seq<char>,
    humidity: int,
    low_parts: int,
    high_parts: int,
) -> Seq<Seq<char>> {
    seq![
        Seq::empty(),
        "\tConditions for zipcode: "@ + postal_code_shown,
        "\tDescription:\t\t"@ + description_shown,
        "\tCurrent Temperature:\t"@ + temperature_shown,
        "\tCurrent Feels Like:\t"@ + feels_like_shown,
        "\tCurrent Humidity:\t"@ + decimal(humidity) + "%"@,
        "\tToday's Low/High:\t"@ + whole_degrees(low_parts) + "/"@ + whole_degrees(high_parts),
    ]
}

/// The characters of each line.
pub open spec fn texts(lines: Seq<String>) -> Seq<Seq<char>> {
    lines.map_values(|line: String| line@)
}

/// Whether `lines` is the summary for `postal_code` of a weather described
/// by `description` with the given `readings`: the postal code in green,
/// the description highlighted if it is a clear sky, the two current
/// temperatures with two decimals in the colour of their band, and the plain
/// lines to the letter.
pub open spec fn is_summary(
    postal_code: int,
    description: Seq<char>,
    readings: MainResponse,
    lines: Seq<Seq<char>>,
) -> bool {
    let temp = fahrenheit_parts(readings.temp.hundredths as int);
    let feels_like = fahrenheit_parts(readings.feels_like.hundredths as int);
    let low = fahrenheit_parts(readings.temp_min.hundredths as int);
    let high = fahrenheit_parts(readings.temp_max.hundredths as int);
    &&& lines.len() == 7
    &&& lines[0] == Seq::<char>::empty()
    &&& line_shows(lines[1], "\tConditions for zipcode: "@, Tint::Green, decimal(postal_code))
    &&& line_shows(lines[2], "\tDescription:\t\t"@, conditions_tint(description), description)
    &&& line_shows(
        lines[3],
        "\tCurrent Temperature:\t"@,
        band_tint(band_of(temp)),
        two_decimals(temp),
    )
    &&& line_shows(
        lines[4],
        "\tCurrent Feels Like:\t"@,
        band_tint(band_of(feels_like)),
        two_decimals(feels_like),
    )
    &&& lines[5] == "\tCurrent Humidity:\t"@ + decimal(readings.humidity as int) + "%"@
    &&& lines[6] == "\tToday's Low/High:\t"@ + whole_degrees(low) + "/"@ + whole_degrees(high)
}

impl WeatherResponse {
    /// The readings of this weather.
    pub open spec fn readings(&self) -> MainResponse {
        MainResponse {
            temp: self.temp,
            feels_like: self.feels_like,
            temp_min: self.temp_min,
            temp_max: self.temp_max,
            humidity: self.humidity,
        }
    }

    /// Reads the weather out of the service's answer. An answer without a
    /// single description is not of the expected shape.
    pub fn from_reply(reply: &ZipResponse) -> (r: Result<WeatherResponse, WeatherError>)
        ensures
            reply.weather@.len() == 0 <==> r == Err::<WeatherResponse, WeatherError>(
                WeatherError::FetchError,
            ),
            reply.weather@.len() > 0 <==> r is Ok,
            r matches Ok(response) ==> {
                &&& response.description@ == reply.weather@[0].description@
                &&& response.readings() == reply.main
            },
    {
        if reply.weather.len() == 0 {
            return Err(WeatherError::FetchError);
        }
        Ok(
            WeatherResponse {
                description: reply.weather[0].description.clone(),
                temp: reply.main.temp,
                feels_like: reply.main.feels_like,
                temp_min: reply.main.temp_min,
                temp_max: reply.main.temp_max,
                humidity: reply.main.humidity,
            },
        )
    }
}

/// Lays out the lines of a summary around what is sent for each coloured
/// value.
pub fn lay_out(
    postal_code_shown: &str,
    description_shown: &str,
    temperature_shown: &str,
    feels_like_shown: &str,
    humidity: i32,
    low: Kelvin,
    high: Kelvin,
) -> (lines: Vec<String>)
    ensures
        texts(lines@) == summary(
            postal_code_shown@,
            description_shown@,
            temperature_shown@,
            feels_like_shown@,
            humidity as int,
            fahrenheit_parts(low.hundredths as int),
            fahrenheit_parts(high.hundredths as int),
        ),
{
    let blank = String::new();
    let mut postal_code_line = String::from_str("\tConditions for zipcode: ");
    postal_code_line.append(postal_code_shown);
    let mut description_line = String::from_str("\tDescription:\t\t");
    description_line.append(description_shown);
    let mut temperature_line = String::from_str("\tCurrent Temperature:\t");
    temperature_line.append(temperature_shown);
    let mut feels_like_line = String::from_str("\tCurrent Feels Like:\t");
    feels_like_line.append(feels_like_shown);
    let mut humidity_line = String::from_str("\tCurrent Humidity:\t");
    push_decimal(&mut humidity_line, humidity as i64);
    humidity_line.append("%");
    let mut range_line = String::from_str("\tToday's Low/High:\t");
    range_line.append(convert_k_to_f(low).to_whole_degrees().as_str());
    range_line.append("/");
    range_line.append(convert_k_to_f(high).to_whole_degrees().as_str());
    let mut lines: Vec<String> = Vec::new();
    lines.push(blank);
    lines.push(postal_code_line);
    lines.push(description_line);
    lines.push(temperature_line);
    lines.push(feels_like_line);
    lines.push(humidity_line);
    lines.push(range_line);
    assert(texts(lines@) =~= summary(
        postal_code_shown@,
        description_shown@,
        temperature_shown@,
        feels_like_shown@,
        humidity as int,
        fahrenheit_parts(low.hundredths as int),
        fahrenheit_parts(high.hundredths as int),
    ));
    lines
}

/// A label followed by a way to send a text is a line that shows the text.
proof fn labelled_text_shows(label: Seq<char>, tint: Tint, text: Seq<char>, out: Seq<char>)
    requires
        shows(tint, text, out),
    ensures
        line_shows(label + out, label, tint, text),
{
    let line = label + out;
    assert(line.subrange(0, label.len() as int) =~= label);
    assert(line.subrange(label.len() as int, line.len() as int) =~= out);
}

/// A line that shows a text holds that text, whatever colours do to it.
pub proof fn shown_text_is_in_line(line: Seq<char>, label: Seq<char>, tint: Tint, text: Seq<char>)
    requires
        line_shows(line, label, tint, text),
    ensures
        has_infix(line, text),
{
    let out = line.subrange(label.len() as int, line.len() as int);
    let n = text.len() as int;
    if out == text {
        let at = label.len() as int;
        assert(line.subrange(at, at + n) =~= text);
    } else {
        let code = match tint {
            Tint::TrueColor { r, g, b } => choose|code: Seq<char>|
                (code == true_color_code(r, g, b) || is_named_code(code))
                    && out == #[trigger] escape_wrapped(code, text),
            _ => foreground_code(tint),
        };
        assert(out == escape_wrapped(code, text));
        let skip = code.len() as int + 3;
        let at = label.len() as int + skip;
        assert(out.subrange(skip, skip + n) =~= text);
        assert(line.subrange(at, at + n) =~= out.subrange(skip, skip + n));
    }
}

/// The lines of the summary of `response` for `postal_code`, ready to be
/// printed one after the other. Whatever the terminal's colours, the second
/// line holds the postal code as it is written in base ten.
pub fn render_report(postal_code: i32, response: &WeatherResponse) -> (lines: Vec<String>)
    ensures
        lines@.len() == REPORT_LINES,
        is_summary(
            postal_code as int,
            response.description@,
            response.readings(),
            texts(lines@),
        ),
        has_infix(lines@[1]@, decimal(postal_code as int)),
{
    let code_text = decimal_string(postal_code as i64);
    let code_shown = (ColoredText { text: code_text, tint: Tint::Green }).render();
    let description_shown = colorize_conditions(&response.description).render();
    let temperature = convert_k_to_f(response.temp);
    let feels_like = convert_k_to_f(response.feels_like);
    let temperature_shown = colorize_temperature(&temperature).render();
    let feels_like_shown = colorize_temperature(&feels_like).render();
    let lines = lay_out(
        code_shown.as_str(),
        description_shown.as_str(),
        temperature_shown.as_str(),
        feels_like_shown.as_str(),
        response.humidity,
        response.temp_min,
        response.temp_max,
    );
    proof {
        let shown = texts(lines@);
        let code = decimal(postal_code as int);
        decimal_holds_no_reset(postal_code as int);
        shown_values_hold_no_reset(temperature.parts as int);
        shown_values_hold_no_reset(feels_like.parts as int);
        labelled_text_shows("\tConditions for zipcode: "@, Tint::Green, code, code_shown@);
        labelled_text_shows(
            "\tDescription:\t\t"@,
            conditions_tint(response.description@),
            response.description@,
            description_shown@,
        );
        labelled_text_shows(
            "\tCurrent Temperature:\t"@,
            band_tint(band_of(temperature.parts as int)),
            two_decimals(temperature.parts as int),
            temperature_shown@,
        );
        labelled_text_shows(
            "\tCurrent Feels Like:\t"@,
            band_tint(band_of(feels_like.parts as int)),
            two_decimals(feels_like.parts as int),
            feels_like_shown@,
        );
        shown_text_is_in_line(shown[1], "\tConditions for zipcode: "@, Tint::Green, code);
        assert(shown.len() == lines@.len());
        assert(shown[1] == lines@[1]@);
    }
    lines
}

} // verus!

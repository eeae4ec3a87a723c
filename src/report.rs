//! The weather report: an observation held in fixed point, the icon and the
//! colour chosen for it, and the text shown to the user.
use vstd::prelude::*;
use vstd::string::*;

verus! {

/// The character of a decimal digit.
pub open spec fn digit_char(d: nat) -> char {
    if d == 0 { '0' }
    else if d == 1 { '1' }
    else if d == 2 { '2' }
    else if d == 3 { '3' }
    else if d == 4 { '4' }
    else if d == 5 { '5' }
    else if d == 6 { '6' }
    else if d == 7 { '7' }
    else if d == 8 { '8' }
    else { '9' }
}

/// The decimal digits of `n`, most significant first, without leading zeros.
pub open spec fn nat_digits(n: nat) -> Seq<char>
    decreases n,
{
    if n < 10 {
        seq![digit_char(n)]
    } else {
        nat_digits(n / 10) + seq![digit_char(n % 10)]
    }
}

fn digit_text(d: u64) -> (r: &'static str)
    requires
        d < 10,
    ensures
        r@ == seq![digit_char(d as nat)],
{
    if d == 0 { proof { reveal_strlit("0"); } "0" }
    else if d == 1 { proof { reveal_strlit("1"); } "1" }
    else if d == 2 { proof { reveal_strlit("2"); } "2" }
    else if d == 3 { proof { reveal_strlit("3"); } "3" }
    else if d == 4 { proof { reveal_strlit("4"); } "4" }
    else if d == 5 { proof { reveal_strlit("5"); } "5" }
    else if d == 6 { proof { reveal_strlit("6"); } "6" }
    else if d == 7 { proof { reveal_strlit("7"); } "7" }
    else if d == 8 { proof { reveal_strlit("8"); } "8" }
    else { proof { reveal_strlit("9"); } "9" }
}

/// Appends the decimal digits of `n` to `out`.
fn push_digits(out: &mut String, n: u64)
    ensures
        final(out)@ == old(out)@ + nat_digits(n as nat),
    decreases n,
{
    if n < 10 {
        out.append(digit_text(n));
    } else {
        push_digits(out, n / 10);
        out.append(digit_text(n % 10));
        proof {
            assert(out@ =~= old(out)@ + nat_digits(n as nat));
        }
    }
}

/// `v` units rounded to a whole number of tenths, when `per_tenth` units make
/// one tenth; the sign is dropped. A value exactly halfway between two tenths
/// is rounded away from zero: this is the rounding rule of every report.
pub open spec fn rounded_tenths(v: int, per_tenth: int) -> nat {
    let m = if v < 0 { -v } else { v };
    ((m + per_tenth / 2) / per_tenth) as nat
}

/// The text of a fixed-point quantity `v`, counted in units of which
/// `per_tenth` make one tenth, with exactly one decimal place: a minus sign
/// when `v` is negative, the whole part, a point and the tenths digit.
pub open spec fn one_decimal(v: int, per_tenth: int) -> Seq<char> {
    let t = rounded_tenths(v, per_tenth);
    (if v < 0 { seq!['-'] } else { Seq::empty() }) + nat_digits(t / 10) + seq!['.', digit_char(t % 10)]
}

/// Appends `one_decimal(v, per_tenth)` to `out`.
pub fn push_one_decimal(out: &mut String, v: i128, per_tenth: u64)
    requires
        1 <= per_tenth,
        -0xA_0000_0000_0000_0000 < v < 0xA_0000_0000_0000_0000,
    ensures
        final(out)@ == old(out)@ + one_decimal(v as int, per_tenth as int),
{
    let m: u128 = if v < 0 { (-v) as u128 } else { v as u128 };
    let t: u128 = (m + (per_tenth / 2) as u128) / (per_tenth as u128);
    proof {
        let mi = m as int;
        let pi = per_tenth as int;
        assert((mi + pi / 2) / pi <= mi) by (nonlinear_arith)
            requires pi >= 1, mi >= 0;
        assert(t as nat == rounded_tenths(v as int, per_tenth as int));
    }
    let ghost before = out@;
    let ghost sign: Seq<char> = if v < 0 { seq!['-'] } else { Seq::empty() };
    if v < 0 {
        proof { reveal_strlit("-"); }
        out.append("-");
    }
    assert(out@ =~= before + sign);
    push_digits(out, (t / 10) as u64);
    proof { reveal_strlit("."); }
    out.append(".");
    out.append(digit_text((t % 10) as u64));
    proof {
        let t_n = t as nat;
        assert(digit_char((t % 10) as u64 as nat) == digit_char(t_n % 10));
        assert(nat_digits((t / 10) as u64 as nat) == nat_digits(t_n / 10));
        assert(out@ =~= before + sign + nat_digits(t_n / 10) + seq!['.', digit_char(t_n % 10)]);
    }
}

} // verus!

verus! {

/// One weather observation, as returned by a successful query. Fixed-point
/// quantities are counted in millionths of their unit, fine enough that a
/// reading given with a few decimals is held exactly.
pub struct Observation {
    /// The condition, such as "clear sky".
    pub description: String,
    /// Temperature, in millionths of a degree Celsius.
    pub temperature: i64,
    /// Felt temperature, in millionths of a degree Celsius.
    pub feels_like: i64,
    /// Relative humidity, in millionths of a percent.
    pub humidity: i64,
    /// Air pressure, in millionths of a hectopascal.
    pub pressure: i64,
    /// Wind speed, in millionths of a metre per second.
    pub wind_speed: i64,
    /// The name of the place the observation is for.
    pub location_name: String,
}

/// A temperature in millionths of a degree Celsius, converted to
/// ten-millionths of a degree Fahrenheit: `F = C * 1.8 + 32`, which is exact
/// at this scale.
pub open spec fn fahrenheit_ten_millionths(micro_celsius: int) -> int {
    micro_celsius * 18 + 320_000_000
}

/// Converts millionths of a degree Celsius to ten-millionths of a degree
/// Fahrenheit.
pub fn to_fahrenheit(micro_celsius: i64) -> (r: i128)
    ensures
        r == fahrenheit_ten_millionths(micro_celsius as int),
{
    micro_celsius as i128 * 18 + 320_000_000
}

/// The picture shown beside a temperature.
#[derive(Clone, Copy, Debug, PartialEq, Eq, Structural)]
pub enum TempIcon {
    Snow,
    Cloud,
    PartlyCloudy,
    Sun,
    Fire,
}

/// The icon for a temperature in millionths of a degree Celsius, by the
/// half-open bins below zero, [0, 10), [10, 20), [20, 30) and from thirty up.
pub open spec fn icon_for(micro_celsius: int) -> TempIcon {
    if micro_celsius < 0 {
        TempIcon::Snow
    } else if micro_celsius < 10_000_000 {
        TempIcon::Cloud
    } else if micro_celsius < 20_000_000 {
        TempIcon::PartlyCloudy
    } else if micro_celsius < 30_000_000 {
        TempIcon::Sun
    } else {
        TempIcon::Fire
    }
}

/// The text of an icon.
pub open spec fn glyph_text(icon: TempIcon) -> Seq<char> {
    match icon {
        TempIcon::Snow => "\u{2744}\u{fe0f}"@,
        TempIcon::Cloud => "\u{2601}\u{fe0f}"@,
        TempIcon::PartlyCloudy => "\u{26c5}"@,
        TempIcon::Sun => "\u{1f324}\u{fe0f}"@,
        TempIcon::Fire => "\u{1f525}"@,
    }
}

impl TempIcon {
    /// The icon for a temperature in millionths of a degree Celsius.
    pub fn for_temperature(micro_celsius: i64) -> (r: TempIcon)
        ensures
            r == icon_for(micro_celsius as int),
    {
        if micro_celsius < 0 {
            TempIcon::Snow
        } else if micro_celsius < 10_000_000 {
            TempIcon::Cloud
        } else if micro_celsius < 20_000_000 {
            TempIcon::PartlyCloudy
        } else if micro_celsius < 30_000_000 {
            TempIcon::Sun
        } else {
            TempIcon::Fire
        }
    }

    /// The text shown for the icon.
    pub fn glyph(&self) -> (r: &'static str)
        ensures
            r@ == glyph_text(*self),
    {
        match self {
            TempIcon::Snow => "\u{2744}\u{fe0f}",
            TempIcon::Cloud => "\u{2601}\u{fe0f}",
            TempIcon::PartlyCloudy => "\u{26c5}",
            TempIcon::Sun => "\u{1f324}\u{fe0f}",
            TempIcon::Fire => "\u{1f525}",
        }
    }
}

} // verus!

verus! {

/// How a report is styled on the terminal, chosen by its condition.
#[derive(Clone, Copy, Debug, PartialEq, Eq, Structural)]
pub enum Style {
    BrightYellow,
    BrightBlue,
    Dimmed,
    BrightCyan,
    Plain,
}

/// The style of a report whose condition is `d`, by exact match.
pub open spec fn style_of(d: Seq<char>) -> Style {
    if d == "clear sky"@ {
        Style::BrightYellow
    } else if d == "few clouds"@ || d == "scattered clouds"@ || d == "broken clouds"@ {
        Style::BrightBlue
    } else if d == "overcast clouds"@ || d == "mist"@ || d == "haze"@ || d == "smoke"@
        || d == "sand"@ || d == "dust"@ || d == "fog"@ || d == "squalls"@ {
        Style::Dimmed
    } else if d == "shower rain"@ || d == "rain"@ || d == "thunderstorm"@ || d == "snow"@ {
        Style::BrightCyan
    } else {
        Style::Plain
    }
}

/// Whether `s` reads exactly `lit`.
pub fn text_is(s: &String, lit: &str) -> (r: bool)
    ensures
        r == (s@ == lit@),
{
    *s == String::from_str(lit)
}

impl Style {
    /// The style of a report whose condition is `description`.
    pub fn for_condition(description: &String) -> (r: Style)
        ensures
            r == style_of(description@),
    {
        let d = description;
        if text_is(d, "clear sky") {
            Style::BrightYellow
        } else if text_is(d, "few clouds") || text_is(d, "scattered clouds") || text_is(
            d,
            "broken clouds",
        ) {
            Style::BrightBlue
        } else if text_is(d, "overcast clouds") || text_is(d, "mist") || text_is(d, "haze")
            || text_is(d, "smoke") || text_is(d, "sand") || text_is(d, "dust") || text_is(d, "fog")
            || text_is(d, "squalls") {
            Style::Dimmed
        } else if text_is(d, "shower rain") || text_is(d, "rain") || text_is(d, "thunderstorm")
            || text_is(d, "snow") {
            Style::BrightCyan
        } else {
            Style::Plain
        }
    }
}

/// The temperature pair of a report line: Celsius, then Fahrenheit.
pub open spec fn temperature_pair(micro_celsius: int) -> Seq<char> {
    one_decimal(micro_celsius, 100_000) + "C, "@ + one_decimal(fahrenheit_ten_millionths(micro_celsius), 1_000_000)
        + "F,"@
}

/// The text of the report on `o`: a header line naming the place, the
/// condition and the icon of the temperature, then the temperature and the
/// felt temperature in Celsius and Fahrenheit, the humidity, the pressure and
/// the wind speed, each with one decimal place, each on a line of its own
/// after a blank line, indented by eight spaces and marked by `>`.
pub open spec fn report_text(o: Observation) -> Seq<char> {
    "Weather in "@ + o.location_name@ + ": "@ + o.description@ + " "@ + glyph_text(
        icon_for(o.temperature as int),
    ) + " \n\n        >Temperature: "@ + temperature_pair(o.temperature as int)
        + " \n\n        >Feels like: "@ + temperature_pair(o.feels_like as int)
        + " \n\n        >Humidity: "@ + one_decimal(o.humidity as int, 100_000)
        + "%,\n\n        >Pressure: "@ + one_decimal(o.pressure as int, 100_000)
        + " hPa,\n\n        >Wind Speed: "@ + one_decimal(o.wind_speed as int, 100_000) + " m/s"@
}

/// A rendered report: its text and the style to show it in.
pub struct Report {
    pub text: String,
    pub style: Style,
}

fn push_temperature_pair(out: &mut String, micro_celsius: i64)
    ensures
        final(out)@ == old(out)@ + temperature_pair(micro_celsius as int),
{
    let ghost before = out@;
    push_one_decimal(out, micro_celsius as i128, 100_000);
    out.append("C, ");
    push_one_decimal(out, to_fahrenheit(micro_celsius), 1_000_000);
    out.append("F,");
    assert(out@ =~= before + temperature_pair(micro_celsius as int));
}

/// Renders the report on an observation, with the style of its condition.
pub fn render(o: &Observation) -> (r: Report)
    ensures
        r.text@ == report_text(*o),
        r.style == style_of(o.description@),
{
    let mut out = String::from_str("Weather in ");
    out.append(o.location_name.as_str());
    out.append(": ");
    out.append(o.description.as_str());
    out.append(" ");
    out.append(TempIcon::for_temperature(o.temperature).glyph());
    out.append(" \n\n        >Temperature: ");
    push_temperature_pair(&mut out, o.temperature);
    out.append(" \n\n        >Feels like: ");
    push_temperature_pair(&mut out, o.feels_like);
    out.append(" \n\n        >Humidity: ");
    push_one_decimal(&mut out, o.humidity as i128, 100_000);
    out.append("%,\n\n        >Pressure: ");
    push_one_decimal(&mut out, o.pressure as i128, 100_000);
    out.append(" hPa,\n\n        >Wind Speed: ");
    push_one_decimal(&mut out, o.wind_speed as i128, 100_000);
    out.append(" m/s");
    assert(out@ =~= report_text(*o));
    Report { text: out, style: Style::for_condition(&o.description) }
}

} // verus!

//! The weather unit's vocabulary: WMO condition codes, their day- and
//! night-aware emoji, temperature units, and the forecast slot arithmetic;
//! the HTTP fetch and the degree math are the event loop's.
use vstd::prelude::*;

verus! {

/// The Open-Meteo weather codes, per the WMO WW definitions.
#[derive(Debug, Clone, Copy, PartialEq, Eq, Structural)]
pub enum Wmo {
    ClearSky,
    MainlyClear,
    PartlyCloudy,
    Overcast,
    Fog,
    DepositingRimeFog,
    DrizzleLight,
    DrizzleModerate,
    DrizzleDense,
    FreezingDrizzleLight,
    FreezingDrizzleDense,
    RainSlight,
    RainModerate,
    RainHeavy,
    FreezingRainLight,
    FreezingRainHeavy,
    SnowfallSlight,
    SnowfallModerate,
    SnowfallHeavy,
    SnowGrains,
    RainShowersSlight,
    RainShowersModerate,
    RainShowersViolent,
    SnowShowersSlight,
    SnowShowersHeavy,
    Thunderstorm,
    ThunderstormWithHail,
    ThunderstormWithHailDup,
}

/// The condition a numeric WMO code denotes, if any.
pub open spec fn spec_wmo_of_code(code: int) -> Option<Wmo> {
    if code == 0 {
        Some(Wmo::ClearSky)
    } else if code == 1 {
        Some(Wmo::MainlyClear)
    } else if code == 2 {
        Some(Wmo::PartlyCloudy)
    } else if code == 3 {
        Some(Wmo::Overcast)
    } else if code == 45 {
        Some(Wmo::Fog)
    } else if code == 48 {
        Some(Wmo::DepositingRimeFog)
    } else if code == 51 {
        Some(Wmo::DrizzleLight)
    } else if code == 53 {
        Some(Wmo::DrizzleModerate)
    } else if code == 55 {
        Some(Wmo::DrizzleDense)
    } else if code == 56 {
        Some(Wmo::FreezingDrizzleLight)
    } else if code == 57 {
        Some(Wmo::FreezingDrizzleDense)
    } else if code == 61 {
        Some(Wmo::RainSlight)
    } else if code == 63 {
        Some(Wmo::RainModerate)
    } else if code == 65 {
        Some(Wmo::RainHeavy)
    } else if code == 66 {
        Some(Wmo::FreezingRainLight)
    } else if code == 67 {
        Some(Wmo::FreezingRainHeavy)
    } else if code == 71 {
        Some(Wmo::SnowfallSlight)
    } else if code == 73 {
        Some(Wmo::SnowfallModerate)
    } else if code == 75 {
        Some(Wmo::SnowfallHeavy)
    } else if code == 77 {
        Some(Wmo::SnowGrains)
    } else if code == 80 {
        Some(Wmo::RainShowersSlight)
    } else if code == 81 {
        Some(Wmo::RainShowersModerate)
    } else if code == 82 {
        Some(Wmo::RainShowersViolent)
    } else if code == 85 {
        Some(Wmo::SnowShowersSlight)
    } else if code == 86 {
        Some(Wmo::SnowShowersHeavy)
    } else if code == 95 {
        Some(Wmo::Thunderstorm)
    } else if code == 96 {
        Some(Wmo::ThunderstormWithHail)
    } else if code == 99 {
        Some(Wmo::ThunderstormWithHailDup)
    } else {
        None
    }
}

impl Wmo {
    /// Decodes a numeric WMO code.
    pub fn from_code(code: u8) -> (r: Option<Wmo>)
        ensures
            r == spec_wmo_of_code(code as int),
    {
        if code == 0 {
            Some(Wmo::ClearSky)
        } else if code == 1 {
            Some(Wmo::MainlyClear)
        } else if code == 2 {
            Some(Wmo::PartlyCloudy)
        } else if code == 3 {
            Some(Wmo::Overcast)
        } else if code == 45 {
            Some(Wmo::Fog)
        } else if code == 48 {
            Some(Wmo::DepositingRimeFog)
        } else if code == 51 {
            Some(Wmo::DrizzleLight)
        } else if code == 53 {
            Some(Wmo::DrizzleModerate)
        } else if code == 55 {
            Some(Wmo::DrizzleDense)
        } else if code == 56 {
            Some(Wmo::FreezingDrizzleLight)
        } else if code == 57 {
            Some(Wmo::FreezingDrizzleDense)
        } else if code == 61 {
            Some(Wmo::RainSlight)
        } else if code == 63 {
            Some(Wmo::RainModerate)
        } else if code == 65 {
            Some(Wmo::RainHeavy)
        } else if code == 66 {
            Some(Wmo::FreezingRainLight)
        } else if code == 67 {
            Some(Wmo::FreezingRainHeavy)
        } else if code == 71 {
            Some(Wmo::SnowfallSlight)
        } else if code == 73 {
            Some(Wmo::SnowfallModerate)
        } else if code == 75 {
            Some(Wmo::SnowfallHeavy)
        } else if code == 77 {
            Some(Wmo::SnowGrains)
        } else if code == 80 {
            Some(Wmo::RainShowersSlight)
        } else if code == 81 {
            Some(Wmo::RainShowersModerate)
        } else if code == 82 {
            Some(Wmo::RainShowersViolent)
        } else if code == 85 {
            Some(Wmo::SnowShowersSlight)
        } else if code == 86 {
            Some(Wmo::SnowShowersHeavy)
        } else if code == 95 {
            Some(Wmo::Thunderstorm)
        } else if code == 96 {
            Some(Wmo::ThunderstormWithHail)
        } else if code == 99 {
            Some(Wmo::ThunderstormWithHailDup)
        } else {
            None
        }
    }
}

/// A value that can depend on whether it is day: fixed, or one value for
/// day and one for night.
#[derive(Debug, Clone, Copy)]
pub enum TimeDependent<T> {
    Fixed(T),
    DayNight(T, T),
}

impl<T> TimeDependent<T> {
    /// The value for the given time of day.
    pub fn get(&self, is_day: bool) -> (r: &T)
        ensures
            match self {
                TimeDependent::Fixed(v) => r == v,
                TimeDependent::DayNight(d, n) => if is_day {
                    r == d
                } else {
                    r == n
                },
            },
    {
        match self {
            TimeDependent::Fixed(v) => v,
            TimeDependent::DayNight(d, n) => if is_day {
                d
            } else {
                n
            },
        }
    }
}

/// The emoji a condition shows by day.
pub open spec fn spec_wmo_day_emoji(w: Wmo) -> Seq<char> {
    match w {
        Wmo::ClearSky => "\u{2600}\u{fe0f}"@,
        Wmo::MainlyClear => "\u{1f324}\u{fe0f}"@,
        Wmo::PartlyCloudy => "\u{26c5}"@,
        Wmo::Overcast => "\u{2601}\u{fe0f}"@,
        Wmo::Fog | Wmo::DepositingRimeFog => "\u{1f32b}\u{fe0f}"@,
        Wmo::DrizzleLight | Wmo::RainSlight | Wmo::RainShowersSlight => "\u{1f326}\u{fe0f}"@,
        Wmo::DrizzleModerate | Wmo::RainModerate | Wmo::RainShowersModerate =>
            "\u{1f327}\u{fe0f}"@,
        Wmo::DrizzleDense | Wmo::RainHeavy | Wmo::RainShowersViolent =>
            "\u{1f327}\u{fe0f}\u{1f327}\u{fe0f}"@,
        Wmo::FreezingDrizzleLight | Wmo::FreezingDrizzleDense | Wmo::FreezingRainLight
            | Wmo::FreezingRainHeavy => "\u{1f327}\u{fe0f}\u{1f9ca}"@,
        Wmo::SnowfallSlight | Wmo::SnowShowersSlight | Wmo::SnowGrains => "\u{1f328}\u{fe0f}"@,
        Wmo::SnowfallModerate => "\u{1f328}\u{fe0f}\u{1f328}\u{fe0f}"@,
        Wmo::SnowfallHeavy | Wmo::SnowShowersHeavy =>
            "\u{1f328}\u{fe0f}\u{1f328}\u{fe0f}\u{1f328}\u{fe0f}"@,
        Wmo::Thunderstorm | Wmo::ThunderstormWithHail | Wmo::ThunderstormWithHailDup =>
            "\u{26c8}\u{fe0f}"@,
    }
}

/// The emoji a condition shows by night; most conditions look the same.
pub open spec fn spec_wmo_night_emoji(w: Wmo) -> Seq<char> {
    match w {
        Wmo::ClearSky => "\u{1f319}"@,
        Wmo::MainlyClear | Wmo::PartlyCloudy => "\u{1f319}\u{2601}\u{fe0f}"@,
        Wmo::DrizzleLight | Wmo::RainSlight | Wmo::RainShowersSlight =>
            "\u{1f319}\u{1f327}\u{fe0f}"@,
        _ => spec_wmo_day_emoji(w),
    }
}

/// Whether a condition looks different by night.
pub open spec fn spec_wmo_daynight(w: Wmo) -> bool {
    match w {
        Wmo::ClearSky | Wmo::MainlyClear | Wmo::PartlyCloudy | Wmo::DrizzleLight | Wmo::RainSlight
            | Wmo::RainShowersSlight => true,
        _ => false,
    }
}

impl Wmo {
    /// The day- and night-aware emoji for this condition.
    pub fn get_emoji(&self) -> (r: TimeDependent<&'static str>)
        ensures
            match r {
                TimeDependent::Fixed(v) => !spec_wmo_daynight(*self) && v@ == spec_wmo_day_emoji(
                    *self,
                ),
                TimeDependent::DayNight(d, n) => spec_wmo_daynight(*self) && d@
                    == spec_wmo_day_emoji(*self) && n@ == spec_wmo_night_emoji(*self),
            },
    {
        match self {
            Wmo::ClearSky => TimeDependent::DayNight("\u{2600}\u{fe0f}", "\u{1f319}"),
            Wmo::MainlyClear => TimeDependent::DayNight(
                "\u{1f324}\u{fe0f}",
                "\u{1f319}\u{2601}\u{fe0f}",
            ),
            Wmo::PartlyCloudy => TimeDependent::DayNight(
                "\u{26c5}",
                "\u{1f319}\u{2601}\u{fe0f}",
            ),
            Wmo::Overcast => TimeDependent::Fixed("\u{2601}\u{fe0f}"),
            Wmo::Fog | Wmo::DepositingRimeFog => TimeDependent::Fixed("\u{1f32b}\u{fe0f}"),
            Wmo::DrizzleLight | Wmo::RainSlight | Wmo::RainShowersSlight => TimeDependent::DayNight(
                "\u{1f326}\u{fe0f}",
                "\u{1f319}\u{1f327}\u{fe0f}",
            ),
            Wmo::DrizzleModerate | Wmo::RainModerate | Wmo::RainShowersModerate =>
                TimeDependent::Fixed("\u{1f327}\u{fe0f}"),
            Wmo::DrizzleDense | Wmo::RainHeavy | Wmo::RainShowersViolent => TimeDependent::Fixed(
                "\u{1f327}\u{fe0f}\u{1f327}\u{fe0f}",
            ),
            Wmo::FreezingDrizzleLight | Wmo::FreezingDrizzleDense | Wmo::FreezingRainLight
                | Wmo::FreezingRainHeavy => TimeDependent::Fixed("\u{1f327}\u{fe0f}\u{1f9ca}"),
            Wmo::SnowfallSlight | Wmo::SnowShowersSlight | Wmo::SnowGrains => TimeDependent::Fixed(
                "\u{1f328}\u{fe0f}",
            ),
            Wmo::SnowfallModerate => TimeDependent::Fixed("\u{1f328}\u{fe0f}\u{1f328}\u{fe0f}"),
            Wmo::SnowfallHeavy | Wmo::SnowShowersHeavy => TimeDependent::Fixed(
                "\u{1f328}\u{fe0f}\u{1f328}\u{fe0f}\u{1f328}\u{fe0f}",
            ),
            Wmo::Thunderstorm | Wmo::ThunderstormWithHail | Wmo::ThunderstormWithHailDup =>
                TimeDependent::Fixed("\u{26c8}\u{fe0f}"),
        }
    }
}

/// The temperature scale a unit displays.
#[derive(Debug, Clone, Copy, PartialEq, Eq, Structural)]
pub enum TempUnits {
    Celsius,
    Fahrenheit,
}

impl TempUnits {
    /// The one-letter suffix shown after a degree figure.
    pub fn suffix(&self) -> (r: &'static str)
        ensures
            match *self {
                TempUnits::Celsius => r@ == "C"@,
                TempUnits::Fahrenheit => r@ == "F"@,
            },
    {
        match self {
            TempUnits::Celsius => "C",
            TempUnits::Fahrenheit => "F",
        }
    }
}

/// What the weather shows: the current conditions, or the forecast.
#[derive(Debug, Clone, Copy, PartialEq, Eq, Structural)]
pub enum WeatherDisplayMode {
    Now,
    Forecast,
}

/// The display after one click.
pub open spec fn spec_next_weather_mode(m: WeatherDisplayMode) -> WeatherDisplayMode {
    match m {
        WeatherDisplayMode::Now => WeatherDisplayMode::Forecast,
        WeatherDisplayMode::Forecast => WeatherDisplayMode::Now,
    }
}

/// The four-hour forecast slots that follow a given hour of day.
pub open spec fn spec_forecast_slot(hour: u32, i: u32) -> u32 {
    ((((hour / 4) * 4) + 4 * i) % 24) as u32
}

/// The hour of day of the `i`-th upcoming four-hour forecast slot, counting
/// from the slot that contains `hour`.
pub fn forecast_slot_hour(hour: u32, i: u32) -> (r: u32)
    requires
        hour < 24,
        i <= 6,
    ensures
        r == spec_forecast_slot(hour, i),
        r < 24,
{
    (((hour / 4) * 4) + 4 * i) % 24
}

} // verus!

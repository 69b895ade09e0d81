use vstd::prelude::*;
use crate::wire::{be_i64, be_i64_at, be_u32, be_u32_at};

verus! {

/// Weather condition reported by the weather monitor, following the WMO
/// interpretation codes.
#[derive(Debug, Clone, Copy, PartialEq, Eq, Structural)]
pub enum WeatherCode {
    ClearSky,
    MainlyClear,
    PartlyCloudy,
    Overcast,
    FogNormal,
    FogDepositingRime,
    DrizzleLight,
    DrizzleModerate,
    DrizzleDense,
    FreezingDrizzleLight,
    FreezingDrizzleDense,
    RainSlight,
    RainModerate,
    RainHeavy,
    FreezingRainLight,
    FreezingRainHeavy,
    SnowFallSlight,
    SnowFallModerate,
    SnowFallHeavy,
    SnowGrains,
    RainShowersSlight,
    RainShowersModerate,
    RainShowersViolent,
    SnowShowersSlight,
    SnowShowersHeavy,
    Thunderstorm,
    ThunderstormWithHailSight,
    ThunderstormWithHailHeavy,
    Unknown,
}

/// The code that a WMO number stands for; numbers outside the table are `Unknown`.
pub open spec fn weather_code_of(value: u8) -> WeatherCode {
    if value == 0 { WeatherCode::ClearSky }
    else if value == 1 { WeatherCode::MainlyClear }
    else if value == 2 { WeatherCode::PartlyCloudy }
    else if value == 3 { WeatherCode::Overcast }
    else if value == 45 { WeatherCode::FogNormal }
    else if value == 48 { WeatherCode::FogDepositingRime }
    else if value == 51 { WeatherCode::DrizzleLight }
    else if value == 53 { WeatherCode::DrizzleModerate }
    else if value == 55 { WeatherCode::DrizzleDense }
    else if value == 56 { WeatherCode::FreezingDrizzleLight }
    else if value == 57 { WeatherCode::FreezingDrizzleDense }
    else if value == 61 { WeatherCode::RainSlight }
    else if value == 63 { WeatherCode::RainModerate }
    else if value == 65 { WeatherCode::RainHeavy }
    else if value == 66 { WeatherCode::FreezingRainLight }
    else if value == 67 { WeatherCode::FreezingRainHeavy }
    else if value == 71 { WeatherCode::SnowFallSlight }
    else if value == 73 { WeatherCode::SnowFallModerate }
    else if value == 75 { WeatherCode::SnowFallHeavy }
    else if value == 77 { WeatherCode::SnowGrains }
    else if value == 80 { WeatherCode::RainShowersSlight }
    else if value == 81 { WeatherCode::RainShowersModerate }
    else if value == 82 { WeatherCode::RainShowersViolent }
    else if value == 85 { WeatherCode::SnowShowersSlight }
    else if value == 86 { WeatherCode::SnowShowersHeavy }
    else if value == 95 { WeatherCode::Thunderstorm }
    else if value == 96 { WeatherCode::ThunderstormWithHailSight }
    else if value == 99 { WeatherCode::ThunderstormWithHailHeavy }
    else { WeatherCode::Unknown }
}

/// The WMO interpretation number of each condition (`Unknown` has none and
/// is given 255, which no condition uses).
pub open spec fn wmo_number(c: WeatherCode) -> u8 {
    match c {
        WeatherCode::ClearSky => 0,
        WeatherCode::MainlyClear => 1,
        WeatherCode::PartlyCloudy => 2,
        WeatherCode::Overcast => 3,
        WeatherCode::FogNormal => 45,
        WeatherCode::FogDepositingRime => 48,
        WeatherCode::DrizzleLight => 51,
        WeatherCode::DrizzleModerate => 53,
        WeatherCode::DrizzleDense => 55,
        WeatherCode::FreezingDrizzleLight => 56,
        WeatherCode::FreezingDrizzleDense => 57,
        WeatherCode::RainSlight => 61,
        WeatherCode::RainModerate => 63,
        WeatherCode::RainHeavy => 65,
        WeatherCode::FreezingRainLight => 66,
        WeatherCode::FreezingRainHeavy => 67,
        WeatherCode::SnowFallSlight => 71,
        WeatherCode::SnowFallModerate => 73,
        WeatherCode::SnowFallHeavy => 75,
        WeatherCode::SnowGrains => 77,
        WeatherCode::RainShowersSlight => 80,
        WeatherCode::RainShowersModerate => 81,
        WeatherCode::RainShowersViolent => 82,
        WeatherCode::SnowShowersSlight => 85,
        WeatherCode::SnowShowersHeavy => 86,
        WeatherCode::Thunderstorm => 95,
        WeatherCode::ThunderstormWithHailSight => 96,
        WeatherCode::ThunderstormWithHailHeavy => 99,
        WeatherCode::Unknown => 255,
    }
}

/// Decoding agrees with the WMO table: a number that decodes to a condition
/// is that condition's WMO number, every condition is decoded from its own
/// number, and so distinct numbers give distinct conditions.
pub proof fn lemma_weather_code_follows_wmo(v: u8, w: u8, c: WeatherCode)
    ensures
        weather_code_of(v) != WeatherCode::Unknown ==> wmo_number(weather_code_of(v)) == v,
        c != WeatherCode::Unknown ==> weather_code_of(wmo_number(c)) == c,
        weather_code_of(v) != WeatherCode::Unknown && v != w ==> weather_code_of(v) != weather_code_of(w),
{
}

impl WeatherCode {
    /// Decodes the one-byte WMO code sent by the weather monitor.
    pub fn deserialize(value: u8) -> (code: WeatherCode)
        ensures
            code == weather_code_of(value),
    {
        match value {
            0 => WeatherCode::ClearSky,
            1 => WeatherCode::MainlyClear,
            2 => WeatherCode::PartlyCloudy,
            3 => WeatherCode::Overcast,
            45 => WeatherCode::FogNormal,
            48 => WeatherCode::FogDepositingRime,
            51 => WeatherCode::DrizzleLight,
            53 => WeatherCode::DrizzleModerate,
            55 => WeatherCode::DrizzleDense,
            56 => WeatherCode::FreezingDrizzleLight,
            57 => WeatherCode::FreezingDrizzleDense,
            61 => WeatherCode::RainSlight,
            63 => WeatherCode::RainModerate,
            65 => WeatherCode::RainHeavy,
            66 => WeatherCode::FreezingRainLight,
            67 => WeatherCode::FreezingRainHeavy,
            71 => WeatherCode::SnowFallSlight,
            73 => WeatherCode::SnowFallModerate,
            75 => WeatherCode::SnowFallHeavy,
            77 => WeatherCode::SnowGrains,
            80 => WeatherCode::RainShowersSlight,
            81 => WeatherCode::RainShowersModerate,
            82 => WeatherCode::RainShowersViolent,
            85 => WeatherCode::SnowShowersSlight,
            86 => WeatherCode::SnowShowersHeavy,
            95 => WeatherCode::Thunderstorm,
            96 => WeatherCode::ThunderstormWithHailSight,
            99 => WeatherCode::ThunderstormWithHailHeavy,
            _ => WeatherCode::Unknown,
        }
    }
}

/// How many hourly forecasts the monitor sends.
pub const HOURLY_WEATHER_FORECAST_LENGTH: usize = 10;

/// How many daily forecasts the monitor sends.
pub const DAILY_WEATHER_FORECAST_LENGTH: usize = 6;

/// The current weather. Temperatures are kept as the bit patterns of the
/// `f32` values that the monitor sends.
#[derive(Debug, Clone, Copy, PartialEq, Eq, Structural)]
pub struct CurrentWeather {
    pub t_bits: u32,
    pub code: WeatherCode,
}

/// The forecast for one hour.
#[derive(Debug, Clone, Copy, PartialEq, Eq, Structural)]
pub struct WeatherOnHour {
    pub unix_seconds: i64,
    pub temperature_bits: u32,
    pub code: WeatherCode,
}

/// The forecast for one day.
#[derive(Debug, Clone, Copy, PartialEq, Eq, Structural)]
pub struct WeatherOnDay {
    pub unix_seconds: i64,
    pub temperature_min_bits: u32,
    pub temperature_max_bits: u32,
    pub code: WeatherCode,
}

/// The current weather and the forecasts.
#[derive(Debug, Clone, Copy)]
pub struct WeatherData {
    pub current: CurrentWeather,
    pub hourly: [WeatherOnHour; 10],
    pub daily: [WeatherOnDay; 6],
}

/// The size of the current weather on the wire.
pub const CURRENT_WEATHER_BYTESIZE: usize = 8;

/// The size of an hourly forecast on the wire.
pub const WEATHER_ON_HOUR_BYTESIZE: usize = 16;

/// The size of a daily forecast on the wire.
pub const WEATHER_ON_DAY_BYTESIZE: usize = 24;

/// The size of a weather report on the wire: the current weather, then the
/// hourly forecasts, then the daily ones.
pub const WEATHER_DATA_BYTESIZE: usize = 312;

/// The current weather that 8 bytes encode: the temperature bits
/// big-endian, then the code.
pub open spec fn spec_current(b: Seq<u8>) -> CurrentWeather {
    CurrentWeather { t_bits: be_u32(b.subrange(0, 4)), code: weather_code_of(b[4]) }
}

/// The hourly forecast that 16 bytes encode: the Unix time, the temperature
/// bits, the code.
pub open spec fn spec_hour(b: Seq<u8>) -> WeatherOnHour {
    WeatherOnHour {
        unix_seconds: be_i64(b.subrange(0, 8)),
        temperature_bits: be_u32(b.subrange(8, 12)),
        code: weather_code_of(b[12]),
    }
}

/// The daily forecast that 24 bytes encode: the Unix time, the lowest and
/// the highest temperature bits, the code.
pub open spec fn spec_day(b: Seq<u8>) -> WeatherOnDay {
    WeatherOnDay {
        unix_seconds: be_i64(b.subrange(0, 8)),
        temperature_min_bits: be_u32(b.subrange(8, 12)),
        temperature_max_bits: be_u32(b.subrange(12, 16)),
        code: weather_code_of(b[16]),
    }
}

/// Whether `d` is the report that the bytes `b` encode.
pub open spec fn is_weather_data(b: Seq<u8>, d: WeatherData) -> bool {
    &&& d.current == spec_current(b.subrange(0, 8))
    &&& forall|k: int| 0 <= k < 10 ==> #[trigger] d.hourly[k] == spec_hour(b.subrange(8 + 16 * k, 24 + 16 * k))
    &&& forall|k: int| 0 <= k < 6 ==> #[trigger] d.daily[k] == spec_day(b.subrange(168 + 24 * k, 192 + 24 * k))
}

impl CurrentWeather {
    /// Decodes the current weather at `off`.
    pub fn deserialize(b: &[u8], off: usize) -> (w: CurrentWeather)
        requires
            off + 8 <= b.len(),
        ensures
            w == spec_current(b@.subrange(off as int, off + 8)),
    {
        let t_bits = be_u32_at(b, off);
        let code = WeatherCode::deserialize(b[off + 4]);
        proof {
            let s = b@.subrange(off as int, off + 8);
            assert(s.subrange(0, 4) =~= b@.subrange(off as int, off + 4));
        }
        CurrentWeather { t_bits, code }
    }
}

impl WeatherOnHour {
    /// Decodes an hourly forecast at `off`.
    pub fn deserialize(b: &[u8], off: usize) -> (w: WeatherOnHour)
        requires
            off + 16 <= b.len(),
        ensures
            w == spec_hour(b@.subrange(off as int, off + 16)),
    {
        let unix_seconds = be_i64_at(b, off);
        let temperature_bits = be_u32_at(b, off + 8);
        let code = WeatherCode::deserialize(b[off + 12]);
        proof {
            let s = b@.subrange(off as int, off + 16);
            assert(s.subrange(0, 8) =~= b@.subrange(off as int, off + 8));
            assert(s.subrange(8, 12) =~= b@.subrange(off + 8, off + 12));
        }
        WeatherOnHour { unix_seconds, temperature_bits, code }
    }
}

impl WeatherOnDay {
    /// Decodes a daily forecast at `off`.
    pub fn deserialize(b: &[u8], off: usize) -> (w: WeatherOnDay)
        requires
            off + 24 <= b.len(),
        ensures
            w == spec_day(b@.subrange(off as int, off + 24)),
    {
        let unix_seconds = be_i64_at(b, off);
        let temperature_min_bits = be_u32_at(b, off + 8);
        let temperature_max_bits = be_u32_at(b, off + 12);
        let code = WeatherCode::deserialize(b[off + 16]);
        proof {
            let s = b@.subrange(off as int, off + 24);
            assert(s.subrange(0, 8) =~= b@.subrange(off as int, off + 8));
            assert(s.subrange(8, 12) =~= b@.subrange(off + 8, off + 12));
            assert(s.subrange(12, 16) =~= b@.subrange(off + 12, off + 16));
        }
        WeatherOnDay { unix_seconds, temperature_min_bits, temperature_max_bits, code }
    }
}

impl WeatherData {
    /// Decodes a weather report, as `is_weather_data` says.
    pub fn deserialize(buf: &[u8; 312]) -> (d: WeatherData)
        ensures
            is_weather_data(buf@, d),
    {
        let b = buf.as_slice();
        let current = CurrentWeather::deserialize(b, 0);
        let empty_hour = WeatherOnHour { unix_seconds: 0, temperature_bits: 0, code: WeatherCode::Unknown };
        let empty_day = WeatherOnDay {
            unix_seconds: 0,
            temperature_min_bits: 0,
            temperature_max_bits: 0,
            code: WeatherCode::Unknown,
        };
        let mut hourly = [empty_hour; 10];
        let mut daily = [empty_day; 6];
        let mut k: usize = 0;
        while k < 10
            invariant
                b@ == buf@,
                b@.len() == 312,
                k <= 10,
                forall|j: int| 0 <= j < k ==> #[trigger] hourly[j] == spec_hour(b@.subrange(8 + 16 * j, 24 + 16 * j)),
            decreases 10 - k,
        {
            hourly[k] = WeatherOnHour::deserialize(b, 8 + 16 * k);
            k += 1;
        }
        let mut k: usize = 0;
        while k < 6
            invariant
                b@ == buf@,
                b@.len() == 312,
                k <= 6,
                forall|j: int| 0 <= j < k ==> #[trigger] daily[j] == spec_day(b@.subrange(168 + 24 * j, 192 + 24 * j)),
            decreases 6 - k,
        {
            daily[k] = WeatherOnDay::deserialize(b, 168 + 24 * k);
            k += 1;
        }
        WeatherData { current, hourly, daily }
    }
}

/// The weather report that the bar is shown.
#[derive(Debug, Clone, Copy)]
pub struct WeatherEvent {
    pub temperature_bits: u32,
    pub code: WeatherCode,
    pub hourly_forecast: [WeatherOnHour; 10],
    pub daily_forecast: [WeatherOnDay; 6],
}

/// The reader of the weather monitor's reports.
pub struct Weather;

impl Weather {
    /// The size of a report.
    pub const BUFFER_SIZE: usize = 312;

    /// A reader.
    pub fn new() -> (w: Weather) {
        Weather
    }

    /// What a complete report shows: the current temperature and code, and
    /// the forecasts.
    pub fn satisfy(&self, buf: &[u8; 312]) -> (e: WeatherEvent)
        ensures
            exists|d: WeatherData|
                is_weather_data(buf@, d) && e.temperature_bits == d.current.t_bits && e.code == d.current.code
                    && e.hourly_forecast == d.hourly && e.daily_forecast == d.daily,
    {
        let data = WeatherData::deserialize(buf);
        WeatherEvent {
            temperature_bits: data.current.t_bits,
            code: data.current.code,
            hourly_forecast: data.hourly,
            daily_forecast: data.daily,
        }
    }
}

} // verus!

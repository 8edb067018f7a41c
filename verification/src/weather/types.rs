use crate::decimal::Decimal;
use crate::location::Location;
use crate::text::{integer_text, push_integer};
use vstd::prelude::*;
use vstd::string::*;

verus! {

/// Geographic coordinates in decimal degrees.
#[derive(Debug, Clone)]
pub struct Coord {
    /// Longitude in decimal degrees
    pub lon: Decimal,
    /// Latitude in decimal degrees
    pub lat: Decimal,
}

impl Coord {
    /// Whether the longitude lies in [-180, 180] and the latitude in
    /// [-90, 90].
    pub open spec fn is_valid(&self) -> bool {
        self.lon.within(-180, 180) && self.lat.within(-90, 90)
    }

    /// Builds the coordinates with exactly these values, where both lie in
    /// their ranges. The longitude is looked at first.
    pub fn new(lon: Decimal, lat: Decimal) -> (res: Result<Coord, String>)
        ensures
            lon.within(-180, 180) && lat.within(-90, 90) ==> res == Ok::<Coord, String>(
                Coord { lon, lat },
            ),
            !lon.within(-180, 180) ==> (res matches Err(e) && e@
                == "Longitude must be between -180 and 180 degrees"@),
            lon.within(-180, 180) && !lat.within(-90, 90) ==> (res matches Err(e) && e@
                == "Latitude must be between -90 and 90 degrees"@),
    {
        if !lon.is_within(-180, 180) {
            return Err(String::from_str("Longitude must be between -180 and 180 degrees"));
        }
        if !lat.is_within(-90, 90) {
            return Err(String::from_str("Latitude must be between -90 and 90 degrees"));
        }
        Ok(Coord { lon, lat })
    }
}

/// One weather condition: its id, its group (Rain, Snow, Clouds), what it is
/// in words, and the id of its icon.
#[derive(Debug, Clone)]
pub struct Weather {
    /// Weather condition ID
    pub id: i32,
    /// Group of weather parameters (Rain, Snow, Clouds, etc.)
    pub main: String,
    /// Weather condition description (e.g., "light rain", "clear sky")
    pub description: String,
    /// Weather icon ID
    pub icon: String,
}

/// The main measurements. Each may be missing from a report.
#[derive(Debug, Clone)]
pub struct Main {
    /// Current temperature
    pub temp: Option<Decimal>,
    /// Temperature as humans perceive it
    pub feels_like: Option<Decimal>,
    /// Minimum temperature at the moment
    pub temp_min: Option<Decimal>,
    /// Maximum temperature at the moment
    pub temp_max: Option<Decimal>,
    /// Atmospheric pressure on the sea level in hPa
    pub pressure: Option<i32>,
    /// Humidity percentage
    pub humidity: Option<i32>,
    /// Atmospheric pressure on the sea level in hPa
    pub sea_level: Option<i32>,
    /// Atmospheric pressure on the ground level in hPa
    pub grnd_level: Option<i32>,
}

impl Main {
    /// Whether a humidity, where there is one, is a percentage.
    pub open spec fn humidity_in_range(humidity: Option<i32>) -> bool {
        humidity matches Some(h) ==> 0 <= h <= 100
    }

    /// Whether the humidity, where there is one, is a percentage.
    pub open spec fn is_valid(&self) -> bool {
        Main::humidity_in_range(self.humidity)
    }

    /// Builds the measurements with exactly these values, where the humidity
    /// is a percentage or missing.
    pub fn new(
        temp: Option<Decimal>,
        feels_like: Option<Decimal>,
        temp_min: Option<Decimal>,
        temp_max: Option<Decimal>,
        pressure: Option<i32>,
        humidity: Option<i32>,
        sea_level: Option<i32>,
        grnd_level: Option<i32>,
    ) -> (res: Result<Main, String>)
        ensures
            Main::humidity_in_range(humidity) ==> res == Ok::<Main, String>(
                Main {
                    temp,
                    feels_like,
                    temp_min,
                    temp_max,
                    pressure,
                    humidity,
                    sea_level,
                    grnd_level,
                },
            ),
            !Main::humidity_in_range(humidity) ==> (res matches Err(e) && e@
                == "Humidity must be between 0 and 100 percent"@),
    {
        if let Some(humidity_value) = humidity {
            if humidity_value < 0 || humidity_value > 100 {
                return Err(String::from_str("Humidity must be between 0 and 100 percent"));
            }
        }
        Ok(Main { temp, feels_like, temp_min, temp_max, pressure, humidity, sea_level, grnd_level })
    }
}

/// Wind: its speed in the units of the request, the direction it comes from
/// in degrees, and the speed of gusts where they were reported.
#[derive(Debug, Clone)]
pub struct Wind {
    /// Wind speed (m/s for metric and standard, mph for imperial)
    pub speed: Decimal,
    /// Wind direction in degrees (meteorological)
    pub deg: i32,
    /// Wind gust speed, in the units of `speed`
    pub gust: Option<Decimal>,
}

impl Wind {
    /// Whether a gust speed, where there is one, is zero or more.
    pub open spec fn gust_in_range(gust: Option<Decimal>) -> bool {
        gust matches Some(g) ==> g.at_least(0)
    }

    /// Whether speed and gusts are zero or more and the direction lies in
    /// [0, 360].
    pub open spec fn is_valid(&self) -> bool {
        self.speed.at_least(0) && 0 <= self.deg <= 360 && Wind::gust_in_range(self.gust)
    }

    /// Builds the wind with exactly these values, where they are in range.
    /// The speed is looked at first, then the direction, then the gusts.
    pub fn new(speed: Decimal, deg: i32, gust: Option<Decimal>) -> (res: Result<Wind, String>)
        ensures
            speed.at_least(0) && 0 <= deg <= 360 && Wind::gust_in_range(gust) ==> res == Ok::<
                Wind,
                String,
            >(Wind { speed, deg, gust }),
            !speed.at_least(0) ==> (res matches Err(e) && e@ == "Wind speed must be non-negative"@),
            speed.at_least(0) && !(0 <= deg <= 360) ==> (res matches Err(e) && e@
                == "Wind direction must be between 0 and 360 degrees (inclusive)"@),
            speed.at_least(0) && 0 <= deg <= 360 && !Wind::gust_in_range(gust) ==> (res matches Err(
                e,
            ) && e@ == "Wind gust must be non-negative"@),
    {
        if !speed.is_non_negative() {
            return Err(String::from_str("Wind speed must be non-negative"));
        }
        if deg < 0 || deg > 360 {
            return Err(
                String::from_str("Wind direction must be between 0 and 360 degrees (inclusive)"),
            );
        }
        if let Some(gust_value) = gust {
            if !gust_value.is_non_negative() {
                return Err(String::from_str("Wind gust must be non-negative"));
            }
        }
        Ok(Wind { speed, deg, gust })
    }
}

/// Cloud cover, as a percentage of the sky.
#[derive(Debug, Clone)]
pub struct Clouds {
    /// Cloudiness, %
    pub all: i32,
}

impl Clouds {
    /// Whether the coverage is a percentage.
    pub open spec fn is_valid(&self) -> bool {
        0 <= self.all <= 100
    }

    /// Builds the record with exactly this coverage, where it is a
    /// percentage.
    pub fn new(all: i32) -> (res: Result<Clouds, String>)
        ensures
            0 <= all <= 100 ==> res == Ok::<Clouds, String>(Clouds { all }),
            !(0 <= all <= 100) ==> (res matches Err(e) && e@
                == "Clouds::all must be between 0 and 100 percent"@),
    {
        if all < 0 || all > 100 {
            return Err(String::from_str("Clouds::all must be between 0 and 100 percent"));
        }
        Ok(Clouds { all })
    }
}

/// Whether `code` is a country code: exactly two upper-case letters from A
/// to Z.
pub open spec fn is_country_code(code: Seq<char>) -> bool {
    &&& code.len() == 2
    &&& 'A' <= code[0] <= 'Z'
    &&& 'A' <= code[1] <= 'Z'
}

/// Whether `c` is an upper-case letter from A to Z.
fn is_upper_letter(c: char) -> (res: bool)
    ensures
        res == ('A' <= c <= 'Z'),
{
    'A' <= c && c <= 'Z'
}

/// Whether `code` is a country code.
pub fn check_country_code(code: &str) -> (res: bool)
    ensures
        res == is_country_code(code@),
{
    if code.unicode_len() != 2 {
        return false;
    }
    is_upper_letter(code.get_char(0)) && is_upper_letter(code.get_char(1))
}

/// What the provider says of the report itself and of the sun at the place.
#[derive(Debug, Clone)]
pub struct Sys {
    /// Internal parameter
    pub sys_type: Option<i32>,
    /// Internal parameter
    pub id: Option<i32>,
    /// Country code (ISO 3166-1 alpha-2)
    pub country: String,
    /// Sunrise time, unix, UTC
    pub sunrise: i64,
    /// Sunset time, unix, UTC
    pub sunset: i64,
}

impl Sys {
    /// Whether the country is a country code.
    pub open spec fn is_valid(&self) -> bool {
        is_country_code(self.country@)
    }

    /// Builds the record with exactly these values, where the country is
    /// exactly two upper-case letters.
    pub fn new(sys_type: Option<i32>, id: Option<i32>, country: String, sunrise: i64, sunset: i64) -> (res:
        Result<Sys, String>)
        ensures
            is_country_code(country@) ==> res == Ok::<Sys, String>(
                Sys { sys_type, id, country, sunrise, sunset },
            ),
            !is_country_code(country@) ==> (res matches Err(e) && e@
                == "Country code must be exactly 2 uppercase letters (ISO 3166-1 alpha-2)"@),
    {
        if !check_country_code(country.as_str()) {
            return Err(
                String::from_str(
                    "Country code must be exactly 2 uppercase letters (ISO 3166-1 alpha-2)",
                ),
            );
        }
        Ok(Sys { sys_type, id, country, sunrise, sunset })
    }
}

/// The full report of the current weather at one place.
#[derive(Debug, Clone)]
pub struct WeatherResponse {
    /// Geographic coordinates of the location
    pub coord: Coord,
    /// Weather conditions, the leading one first; may be empty
    pub weather: Vec<Weather>,
    /// Internal parameter for data source
    pub base: String,
    /// Main weather measurements
    pub main: Main,
    /// Visibility in meters
    pub visibility: i64,
    /// Wind information
    pub wind: Wind,
    /// Cloud coverage information
    pub clouds: Clouds,
    /// Time of data calculation, unix, UTC
    pub dt: i64,
    /// System information (country, sunrise, sunset)
    pub sys: Sys,
    /// Timezone shift in seconds from UTC
    pub timezone: i32,
    /// City/location ID
    pub id: i64,
    /// City/location name
    pub name: String,
    /// Status code of the response
    pub cod: i64,
}

impl WeatherResponse {
    /// Whether the visibility is zero or more.
    pub open spec fn is_valid(&self) -> bool {
        self.visibility >= 0
    }

    /// Builds the report with exactly these parts, where the visibility is
    /// zero or more.
    pub fn new(
        coord: Coord,
        weather: Vec<Weather>,
        base: String,
        main: Main,
        visibility: i64,
        wind: Wind,
        clouds: Clouds,
        dt: i64,
        sys: Sys,
        timezone: i32,
        id: i64,
        name: String,
        cod: i64,
    ) -> (res: Result<WeatherResponse, String>)
        ensures
            visibility >= 0 ==> res == Ok::<WeatherResponse, String>(
                WeatherResponse {
                    coord,
                    weather,
                    base,
                    main,
                    visibility,
                    wind,
                    clouds,
                    dt,
                    sys,
                    timezone,
                    id,
                    name,
                    cod,
                },
            ),
            visibility < 0 ==> (res matches Err(e) && e@ == "Visibility must never be less than 0."@),
    {
        if visibility < 0 {
            return Err(String::from_str("Visibility must never be less than 0."));
        }
        Ok(
            WeatherResponse {
                coord,
                weather,
                base,
                main,
                visibility,
                wind,
                clouds,
                dt,
                sys,
                timezone,
                id,
                name,
                cod,
            },
        )
    }
}

/// Whether two texts hold the same characters.
pub fn same_text(left: &str, right: &str) -> (same: bool)
    ensures
        same == (left@ == right@),
{
    let left = String::from_str(left);
    let right = String::from_str(right);
    left == right
}

/// The sign that follows a temperature: degrees Celsius for `metric`, degrees
/// Fahrenheit for `imperial`, Kelvin for every other selector.
pub open spec fn temperature_unit(units: Seq<char>) -> Seq<char> {
    if units == "metric"@ {
        "°C"@
    } else if units == "imperial"@ {
        "°F"@
    } else {
        "°K"@
    }
}

/// The unit that follows a speed, with the blank before it: miles per hour
/// for `imperial`, meters per second for every other selector.
pub open spec fn speed_unit(units: Seq<char>) -> Seq<char> {
    if units == "imperial"@ {
        " mph"@
    } else {
        " m/s"@
    }
}

/// A temperature as it is shown: one digit behind the point, then the sign of
/// the unit. The number is shown as reported, in the units that were asked
/// for; nothing is converted.
pub open spec fn temperature_text(temp: Decimal, units: Seq<char>) -> Seq<char> {
    temp.one_decimal_text() + temperature_unit(units)
}

/// A speed as it is shown: one digit behind the point, then the unit.
pub open spec fn speed_text(speed: Decimal, units: Seq<char>) -> Seq<char> {
    speed.one_decimal_text() + speed_unit(units)
}

/// A temperature as it is shown under the unit selector `units`.
pub fn get_temperature_display(temp: &Decimal, units: &str) -> (text: String)
    ensures
        text@ == temperature_text(*temp, units@),
{
    let mut text = temp.to_one_decimal();
    if same_text(units, "metric") {
        text.append("°C");
    } else if same_text(units, "imperial") {
        text.append("°F");
    } else {
        text.append("°K");
    }
    text
}

/// A speed as it is shown under the unit selector `units`.
pub fn get_speed_display(speed: Decimal, units: &str) -> (text: String)
    ensures
        text@ == speed_text(speed, units@),
{
    let mut text = speed.to_one_decimal();
    if same_text(units, "imperial") {
        text.append(" mph");
    } else {
        text.append(" m/s");
    }
    text
}

impl WeatherResponse {
    /// The temperature as the report shows it: nothing where none was
    /// measured.
    pub open spec fn temperature_display(&self, units: Seq<char>) -> Seq<char> {
        match self.main.temp {
            Some(temp) => temperature_text(temp, units),
            None => Seq::empty(),
        }
    }

    /// The group of the leading condition: nothing where the report has no
    /// condition.
    pub open spec fn headline_main(&self) -> Seq<char> {
        if self.weather@.len() > 0 {
            self.weather@[0].main@
        } else {
            Seq::empty()
        }
    }

    /// The leading condition in words: nothing where the report has no
    /// condition.
    pub open spec fn headline_description(&self) -> Seq<char> {
        if self.weather@.len() > 0 {
            self.weather@[0].description@
        } else {
            Seq::empty()
        }
    }

    /// The icon of the leading condition: nothing where the report has no
    /// condition.
    pub open spec fn headline_icon(&self) -> Seq<char> {
        if self.weather@.len() > 0 {
            self.weather@[0].icon@
        } else {
            Seq::empty()
        }
    }

    /// The report as text for a reader, under the unit selector `units`.
    pub open spec fn display_text(&self, units: Seq<char>) -> Seq<char> {
        "🌤️ Weather in "@ + self.name@
            + "\n📍 Coordinates: ("@ + self.coord.lat.text()
            + ", "@ + self.coord.lon.text()
            + ")\n🌡️ Temperature: "@ + self.temperature_display(units)
            + "\n💨 Wind: "@ + speed_text(self.wind.speed, units)
            + " at "@ + integer_text(self.wind.deg as int)
            + "°\n☁️ Clouds: "@ + integer_text(self.clouds.all as int)
            + "%\n🌈 Conditions: "@ + self.headline_main()
            + " ("@ + self.headline_description()
            + ")\n   Icon: "@ + self.headline_icon()
    }

    /// The report as text for a reader: the place, its coordinates, the
    /// temperature and the wind in the units of `units`, the cloud cover, and
    /// the leading condition. The same report and selector always give the
    /// same text.
    pub fn detailed_display(&self, units: String) -> (text: String)
        ensures
            text@ == self.display_text(units@),
    {
        let mut temp_display = String::new();
        if let Some(temp_value) = &self.main.temp {
            temp_display = get_temperature_display(temp_value, units.as_str());
        }
        let wind_display = get_speed_display(self.wind.speed, units.as_str());

        let mut weather_main = "";
        let mut weather_description = "";
        let mut weather_icon = "";
        proof {
            reveal_strlit("");
        }
        if self.weather.len() > 0 {
            let weather = &self.weather[0];
            weather_main = weather.main.as_str();
            weather_description = weather.description.as_str();
            weather_icon = weather.icon.as_str();
        }
        assert(temp_display@ =~= self.temperature_display(units@));
        assert(weather_main@ =~= self.headline_main());
        assert(weather_description@ =~= self.headline_description());
        assert(weather_icon@ =~= self.headline_icon());

        let mut text = String::new();
        text.append("🌤️ Weather in ");
        text.append(self.name.as_str());
        text.append("\n📍 Coordinates: (");
        self.coord.lat.push_text(&mut text);
        text.append(", ");
        self.coord.lon.push_text(&mut text);
        text.append(")\n🌡️ Temperature: ");
        text.append(temp_display.as_str());
        text.append("\n💨 Wind: ");
        text.append(wind_display.as_str());
        text.append(" at ");
        push_integer(&mut text, self.wind.deg as i64);
        text.append("°\n☁️ Clouds: ");
        push_integer(&mut text, self.clouds.all as i64);
        text.append("%\n🌈 Conditions: ");
        text.append(weather_main);
        text.append(" (");
        text.append(weather_description);
        text.append(")\n   Icon: ");
        text.append(weather_icon);
        assert(text@ =~= self.display_text(units@));
        text
    }
}

/// What a host asks for: a postal code and its country, the unit selector,
/// and the credential.
#[derive(Debug)]
pub struct WeatherRequestWasm {
    pub zip: String,
    pub country: String,
    pub units: String,
    pub api_key: String,
}

/// What a host is answered with. On success it holds the place, the report
/// as JSON text, and no error; on failure a place, no report, and the error
/// in words.
#[derive(Debug)]
pub struct WeatherResponseWasm {
    pub location: Location,
    pub weather: String,
    pub error: Option<String>,
}

impl WeatherResponseWasm {
    /// Whether this answer reports a failure in the words of `message`: no
    /// report, and the error set to those words.
    pub open spec fn reports(&self, message: Seq<char>) -> bool {
        &&& self.weather@ == Seq::<char>::empty()
        &&& self.error matches Some(text)
        &&& text@ == message
    }

    /// The answer to a lookup that went through.
    pub fn success(location: Location, weather: String) -> (answer: WeatherResponseWasm)
        ensures
            answer == (WeatherResponseWasm { location, weather, error: None }),
    {
        WeatherResponseWasm { location, weather, error: None }
    }

    /// The answer to a lookup that failed: `location` is what was found of
    /// the place until then, and the error is `stage`, then `details`.
    pub fn failure(location: Location, stage: &str, details: &str) -> (answer: WeatherResponseWasm)
        ensures
            answer.location == location,
            answer.reports(stage@ + details@),
    {
        let mut message = String::from_str(stage);
        message.append(details);
        WeatherResponseWasm { location, weather: String::new(), error: Some(message) }
    }
}

/// A report without conditions shows nothing in their place: the group, the
/// words and the icon of the leading condition are empty, and the text is the
/// labels with nothing between them.
pub proof fn lemma_display_without_conditions(report: WeatherResponse, units: Seq<char>)
    requires
        report.weather@.len() == 0,
    ensures
        report.headline_main() == Seq::<char>::empty(),
        report.headline_description() == Seq::<char>::empty(),
        report.headline_icon() == Seq::<char>::empty(),
        report.display_text(units) == {
            "🌤️ Weather in "@ + report.name@
                + "\n📍 Coordinates: ("@ + report.coord.lat.text()
                + ", "@ + report.coord.lon.text()
                + ")\n🌡️ Temperature: "@ + report.temperature_display(units)
                + "\n💨 Wind: "@ + speed_text(report.wind.speed, units)
                + " at "@ + integer_text(report.wind.deg as int)
                + "°\n☁️ Clouds: "@ + integer_text(report.clouds.all as int)
                + "%\n🌈 Conditions: "@
                + " ("@
                + ")\n   Icon: "@
        },
{
    assert(report.display_text(units) =~= {
        "🌤️ Weather in "@ + report.name@
            + "\n📍 Coordinates: ("@ + report.coord.lat.text()
            + ", "@ + report.coord.lon.text()
            + ")\n🌡️ Temperature: "@ + report.temperature_display(units)
            + "\n💨 Wind: "@ + speed_text(report.wind.speed, units)
            + " at "@ + integer_text(report.wind.deg as int)
            + "°\n☁️ Clouds: "@ + integer_text(report.clouds.all as int)
            + "%\n🌈 Conditions: "@
            + " ("@
            + ")\n   Icon: "@
    });
}

/// Nothing but the parts that are shown decides the text: two reports that
/// agree in name, coordinates, temperature, wind, cloud cover and leading
/// condition read the same under the same selector.
pub proof fn lemma_display_depends_on_shown_parts(
    a: WeatherResponse,
    b: WeatherResponse,
    units: Seq<char>,
)
    requires
        a.name@ == b.name@,
        a.coord == b.coord,
        a.main.temp == b.main.temp,
        a.wind.speed == b.wind.speed,
        a.wind.deg == b.wind.deg,
        a.clouds.all == b.clouds.all,
        a.headline_main() == b.headline_main(),
        a.headline_description() == b.headline_description(),
        a.headline_icon() == b.headline_icon(),
    ensures
        a.display_text(units) == b.display_text(units),
{
}

/// The selector decides only the sign of the unit: `metric` shows degrees
/// Celsius, `imperial` degrees Fahrenheit, and every other text, `standard`
/// among them, Kelvin. The digits are the same under all of them: nothing is
/// converted.
pub proof fn lemma_temperature_text_by_selector(temp: Decimal, units: Seq<char>)
    ensures
        units == "metric"@ ==> temperature_text(temp, units) == temp.one_decimal_text() + "°C"@,
        units == "imperial"@ ==> temperature_text(temp, units) == temp.one_decimal_text() + "°F"@,
        units == "standard"@ ==> temperature_text(temp, units) == temp.one_decimal_text() + "°K"@,
        units != "metric"@ && units != "imperial"@ ==> temperature_text(temp, units)
            == temp.one_decimal_text() + "°K"@,
{
    reveal_strlit("metric");
    reveal_strlit("imperial");
    reveal_strlit("standard");
    assert("metric"@.len() != "imperial"@.len());
    assert("standard"@[0] != "metric"@[0]);
    assert("standard"@.len() == "imperial"@.len() && "standard"@[0] != "imperial"@[0]);
}

/// The selector decides only the unit of a speed: `imperial` shows miles per
/// hour, and every other text, `metric` and `standard` among them, meters
/// per second.
pub proof fn lemma_speed_text_by_selector(speed: Decimal, units: Seq<char>)
    ensures
        units == "imperial"@ ==> speed_text(speed, units) == speed.one_decimal_text() + " mph"@,
        units != "imperial"@ ==> speed_text(speed, units) == speed.one_decimal_text() + " m/s"@,
        units == "metric"@ || units == "standard"@ ==> speed_text(speed, units)
            == speed.one_decimal_text() + " m/s"@,
{
    reveal_strlit("metric");
    reveal_strlit("imperial");
    reveal_strlit("standard");
    assert("metric"@.len() != "imperial"@.len());
    assert("standard"@.len() == "imperial"@.len() && "standard"@[0] != "imperial"@[0]);
}

} // verus!

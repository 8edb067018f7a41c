use super::types::WeatherResponse;
use crate::exchange::{settle, settled, Exchange, QueryParam, Request, ResolveError};
use crate::location::Location;
use vstd::prelude::*;
use vstd::string::*;

verus! {

/// The address of the provider's report of the current weather.
pub const WEATHER_API_BASE_URL: &'static str = "https://api.openweathermap.org/data/2.5/weather";

/// Looks up the current weather at a place, in the units of a selector
/// (`metric`, `imperial` or `standard`).
#[derive(Debug)]
pub struct WeatherClient {
    location: Location,
    units: String,
    api_key: String,
}

impl WeatherClient {
    /// The place that the weather is asked for.
    pub closed spec fn location(&self) -> Location {
        self.location
    }

    /// The unit selector that the weather is asked in.
    pub closed spec fn units(&self) -> String {
        self.units
    }

    /// The credential that the lookup is made with.
    pub closed spec fn api_key(&self) -> String {
        self.api_key
    }

    /// A lookup of the weather at this place, in these units, with this
    /// credential.
    pub fn new(location: Location, units: String, api_key: String) -> (client: WeatherClient)
        ensures
            client.location() == location,
            client.units() == units,
            client.api_key() == api_key,
    {
        WeatherClient { location, units, api_key }
    }

    /// Whether `request` is the one that this lookup sends: a GET to the
    /// report of the current weather, with the latitude and the longitude of
    /// the place written out in full, the unit selector as it was given, and
    /// the credential as `appid`, in this order.
    pub open spec fn sends(&self, request: Request) -> bool {
        &&& request.url@ == WEATHER_API_BASE_URL@
        &&& request.query@.len() == 4
        &&& request.query@[0].name@ == "lat"@
        &&& request.query@[0].value@ == self.location().lat.text()
        &&& request.query@[1].name@ == "lon"@
        &&& request.query@[1].value@ == self.location().lon.text()
        &&& request.query@[2].name@ == "units"@
        &&& request.query@[2].value@ == self.units()@
        &&& request.query@[3].name@ == "appid"@
        &&& request.query@[3].value@ == self.api_key()@
    }

    /// The request that this lookup sends.
    pub fn request(&self) -> (request: Request)
        ensures
            self.sends(request),
    {
        let mut query: Vec<QueryParam> = Vec::new();
        query.push(QueryParam { name: String::from_str("lat"), value: self.location.lat.to_text() });
        query.push(QueryParam { name: String::from_str("lon"), value: self.location.lon.to_text() });
        query.push(QueryParam { name: String::from_str("units"), value: self.units.clone() });
        query.push(QueryParam { name: String::from_str("appid"), value: self.api_key.clone() });
        Request { url: String::from_str(WEATHER_API_BASE_URL), query }
    }

    /// The report that the lookup found, given what came of its request, or
    /// why it found none. The unit selector has no part in this.
    pub fn get_current_weather(&self, exchange: Exchange<WeatherResponse>) -> (res: Result<
        WeatherResponse,
        ResolveError,
    >)
        ensures
            res == settled(exchange),
    {
        settle(exchange)
    }
}

} // verus!

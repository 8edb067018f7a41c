use super::types::Location;
use crate::exchange::{settle, settled, Exchange, QueryParam, Request, ResolveError};
use vstd::prelude::*;
use vstd::string::*;

verus! {

/// The address of the provider's lookup by postal code.
pub const GEOCODING_API_BASE_URL: &'static str = "https://api.openweathermap.org/geo/1.0/zip";

/// Looks a place up by postal code and country. It holds what the lookup
/// asks with; each of the three can be changed between lookups, and nothing
/// of an earlier answer is kept.
#[derive(Debug)]
pub struct LocationClient {
    api_key: String,
    zip: String,
    country: String,
}

impl LocationClient {
    /// The postal code that is asked for.
    pub closed spec fn spec_zip(&self) -> String {
        self.zip
    }

    /// The country that the postal code is asked for in.
    pub closed spec fn spec_country(&self) -> String {
        self.country
    }

    /// The credential that the lookup is made with.
    pub closed spec fn api_key(&self) -> String {
        self.api_key
    }

    /// A lookup of this postal code in this country, with this credential.
    pub fn new(zip: String, country: String, api_key: String) -> (client: LocationClient)
        ensures
            client.get_zip() == zip,
            client.get_country() == country,
            client.api_key() == api_key,
    {
        LocationClient { zip, country, api_key }
    }

    /// Asks for another postal code from now on.
    pub fn set_zip(&mut self, zip: String)
        ensures
            final(self).get_zip() == zip,
            final(self).get_country() == old(self).get_country(),
            final(self).api_key() == old(self).api_key(),
    {
        self.zip = zip;
    }

    /// The postal code that is asked for.
    #[verifier::when_used_as_spec(spec_zip)]
    pub fn get_zip(&self) -> (zip: String)
        ensures
            zip == self.spec_zip(),
    {
        self.zip.clone()
    }

    /// Asks in another country from now on.
    pub fn set_country(&mut self, country: String)
        ensures
            final(self).get_country() == country,
            final(self).get_zip() == old(self).get_zip(),
            final(self).api_key() == old(self).api_key(),
    {
        self.country = country;
    }

    /// The country that the postal code is asked for in.
    #[verifier::when_used_as_spec(spec_country)]
    pub fn get_country(&self) -> (country: String)
        ensures
            country == self.spec_country(),
    {
        self.country.clone()
    }

    /// Asks with another credential from now on.
    pub fn set_api_key(&mut self, api_key: String)
        ensures
            final(self).api_key() == api_key,
            final(self).get_zip() == old(self).get_zip(),
            final(self).get_country() == old(self).get_country(),
    {
        self.api_key = api_key;
    }

    /// Whether `request` is the one that this lookup sends: a GET to the
    /// lookup by postal code, asking for `zip` as the postal code, a comma
    /// and the country, and naming the credential as `appid`.
    pub open spec fn sends(&self, request: Request) -> bool {
        &&& request.url@ == GEOCODING_API_BASE_URL@
        &&& request.query@.len() == 2
        &&& request.query@[0].name@ == "zip"@
        &&& request.query@[0].value@ == self.get_zip()@ + ","@ + self.get_country()@
        &&& request.query@[1].name@ == "appid"@
        &&& request.query@[1].value@ == self.api_key()@
    }

    /// The request that this lookup sends.
    pub fn request(&self) -> (request: Request)
        ensures
            self.sends(request),
    {
        let mut zip = self.zip.clone();
        zip.append(",");
        zip.append(self.country.as_str());
        let mut query: Vec<QueryParam> = Vec::new();
        query.push(QueryParam { name: String::from_str("zip"), value: zip });
        query.push(QueryParam { name: String::from_str("appid"), value: self.api_key.clone() });
        Request { url: String::from_str(GEOCODING_API_BASE_URL), query }
    }

    /// The place that the lookup found, given what came of its request, or
    /// why it found none.
    pub fn get_location(&self, exchange: Exchange<Location>) -> (res: Result<Location, ResolveError>)
        ensures
            res == settled(exchange),
    {
        settle(exchange)
    }

    /// What this lookup asks for, as text for a reader.
    pub open spec fn display_text(&self) -> Seq<char> {
        "country: ["@ + self.get_country()@ + "] - zip: ["@ + self.get_zip()@ + "]"@
    }

    /// What this lookup asks for, as text for a reader.
    pub fn detailed_display(&self) -> (text: String)
        ensures
            text@ == self.display_text(),
    {
        let mut text = String::from_str("country: [");
        text.append(self.country.as_str());
        text.append("] - zip: [");
        text.append(self.zip.as_str());
        text.append("]");
        assert(text@ =~= self.display_text());
        text
    }
}

} // verus!

use crate::decimal::Decimal;
use vstd::prelude::*;
use vstd::string::*;

verus! {

/// A place found by its postal code.
#[derive(Debug)]
pub struct Location {
    /// ZIP or postal code
    pub zip: String,
    /// City or locality name
    pub name: String,
    /// Latitude in decimal degrees
    pub lat: Decimal,
    /// Longitude in decimal degrees
    pub lon: Decimal,
    /// Two-letter country code (ISO 3166-1 alpha-2)
    pub country: String,
}

impl Clone for Location {
    fn clone(&self) -> (copy: Self)
        ensures
            copy == *self,
    {
        Location {
            zip: self.zip.clone(),
            name: self.name.clone(),
            lat: self.lat,
            lon: self.lon,
            country: self.country.clone(),
        }
    }
}

impl Location {
    /// Whether the latitude lies in [-90, 90] and the longitude in
    /// [-180, 180].
    pub open spec fn is_valid(&self) -> bool {
        self.lat.within(-90, 90) && self.lon.within(-180, 180)
    }

    /// Whether this is the record that stands in where no place was found:
    /// every text empty, both coordinates zero.
    pub open spec fn is_placeholder(&self) -> bool {
        &&& self.zip@ == Seq::<char>::empty()
        &&& self.name@ == Seq::<char>::empty()
        &&& self.country@ == Seq::<char>::empty()
        &&& self.lat.signed() == 0 && !self.lat.is_negative() && self.lat.scale() == 0
        &&& self.lon.signed() == 0 && !self.lon.is_negative() && self.lon.scale() == 0
    }

    /// Builds the place with exactly these values, where both coordinates lie
    /// in their ranges. The longitude is looked at first.
    pub fn new(zip: String, name: String, lat: Decimal, lon: Decimal, country: String) -> (res:
        Result<Location, String>)
        ensures
            lon.within(-180, 180) && lat.within(-90, 90) ==> res == Ok::<Location, String>(
                Location { zip, name, lat, lon, country },
            ),
            !lon.within(-180, 180) ==> (res matches Err(e) && e@
                == "Longitude must be between -180 and 180 degrees"@),
            lon.within(-180, 180) && !lat.within(-90, 90) ==> (res matches Err(e) && e@
                == "Latitude must be between -90 and 90 degrees"@),
    {
        if !lon.is_within(-180, 180) {
            return Err(String::from_str("Longitude must be between -180 and 180 degrees"));
        }
        if !lat.is_within(-90, 90) {
            return Err(String::from_str("Latitude must be between -90 and 90 degrees"));
        }
        Ok(Location { zip, name, lat, lon, country })
    }

    /// The record that stands in where no place was found.
    pub fn placeholder() -> (place: Location)
        ensures
            place.is_placeholder(),
    {
        Location {
            zip: String::new(),
            name: String::new(),
            lat: Decimal::zero(),
            lon: Decimal::zero(),
            country: String::new(),
        }
    }

    /// The place as text for a reader, one field to a line.
    pub open spec fn display_text(&self) -> Seq<char> {
        "name: ["@ + self.name@ + "]\ncountry: ["@ + self.country@ + "]\nzip: ["@ + self.zip@
            + "]\nlat: ["@ + self.lat.text() + "]\nlon: ["@ + self.lon.text() + "]"@
    }

    /// The place as text for a reader, one field to a line.
    pub fn to_string(&self) -> (text: String)
        ensures
            text@ == self.display_text(),
    {
        let mut text = String::new();
        text.append("name: [");
        text.append(self.name.as_str());
        text.append("]\ncountry: [");
        text.append(self.country.as_str());
        text.append("]\nzip: [");
        text.append(self.zip.as_str());
        text.append("]\nlat: [");
        self.lat.push_text(&mut text);
        text.append("]\nlon: [");
        self.lon.push_text(&mut text);
        text.append("]");
        assert(text@ =~= self.display_text());
        text
    }

    /// The place as text for a reader. A place holds nothing that is measured
    /// in the units of `units`, so the text is the same under every selector.
    pub fn detailed_display(&self, units: String) -> (text: String)
        ensures
            text@ == self.display_text(),
    {
        self.to_string()
    }
}

} // verus!

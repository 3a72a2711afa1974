//! Links into Google Maps and the checks on a geocoding reply.
use vstd::prelude::*;

use crate::models::Coordinate;
use crate::text::{ascii_lower, concat, is_ascii, lowercase, lowercase_of, same_text};

verus! {

/// Builds Google Maps links and judges geocoding replies. The network calls
/// that geocode addresses are made by the caller with this key.
pub struct GeocodingService {
    pub api_key: String,
}

/// The `data=` code of a travel mode named by its lower-cased label:
/// walking 2, transit 3, bicycling 1, driving (anything else) 0.
pub open spec fn directions_mode_code(lower: Seq<char>) -> Seq<char> {
    if lower == "walk"@ {
        "2"@
    } else if lower == "transit"@ {
        "3"@
    } else if lower == "bicycle"@ {
        "1"@
    } else {
        "0"@
    }
}

/// The directions link from `origin` to `destination` with the travel-mode
/// code `code`.
pub open spec fn directions_link(origin: Coordinate, destination: Coordinate, code: Seq<char>) -> Seq<char> {
    "https://www.google.com/maps/dir/"@ + origin.lat@ + ","@ + origin.lng@ + "/"@ + destination.lat@
        + ","@ + destination.lng@ + "/@"@ + destination.lat@ + ","@ + destination.lng@
        + ",15z/data=!3m1!4b1!4m2!4m1!3e"@ + code
}

/// The directions link from `origin` to `destination` for the travel mode
/// labelled `transport_mode`.
pub open spec fn directions_url(origin: Coordinate, destination: Coordinate, transport_mode: Seq<char>) -> Seq<char> {
    directions_link(origin, destination, directions_mode_code(lowercase_of(transport_mode)))
}

/// The link to a venue: by its place id when there is one, else by position.
pub open spec fn venue_url(coordinate: Coordinate, place_id: Option<Seq<char>>) -> Seq<char> {
    match place_id {
        Some(id) => "https://www.google.com/maps/place/?q=place_id:"@ + id,
        None => "https://www.google.com/maps/search/?api=1&query="@ + coordinate.lat@ + ","@
            + coordinate.lng@,
    }
}

/// The verdict on a geocoding reply with this status and number of results.
pub open spec fn geocoding_verdict(status: Seq<char>, result_count: nat, address: Seq<char>) -> Result<
    (),
    Seq<char>,
> {
    if status != "OK"@ {
        Err("Geocoding failed with status: "@ + status)
    } else if result_count == 0 {
        Err("No results found for address: "@ + address)
    } else {
        Ok(())
    }
}

impl GeocodingService {
    /// A service that geocodes with `api_key`.
    pub fn new(api_key: String) -> (r: GeocodingService)
        ensures
            r.api_key == api_key,
    {
        GeocodingService { api_key }
    }

    /// The Google Maps directions link from `origin` to `destination` for the
    /// travel mode labelled `transport_mode` ("walk", "transit", "bicycle",
    /// anything else meaning driving; case does not matter).
    pub fn generate_directions_url(
        &self,
        origin: &Coordinate,
        destination: &Coordinate,
        transport_mode: &str,
    ) -> (r: String)
        ensures
            r@ == directions_url(*origin, *destination, transport_mode@),
            is_ascii(transport_mode@) ==> r@ == directions_link(
                *origin,
                *destination,
                directions_mode_code(ascii_lower(transport_mode@)),
            ),
    {
        let lower = lowercase(transport_mode);
        let code: &str = if same_text(lower.as_str(), "walk") {
            "2"
        } else if same_text(lower.as_str(), "transit") {
            "3"
        } else if same_text(lower.as_str(), "bicycle") {
            "1"
        } else {
            "0"
        };
        let mut url = concat("https://www.google.com/maps/dir/", origin.lat.as_str());
        url = concat(url.as_str(), ",");
        url = concat(url.as_str(), origin.lng.as_str());
        url = concat(url.as_str(), "/");
        url = concat(url.as_str(), destination.lat.as_str());
        url = concat(url.as_str(), ",");
        url = concat(url.as_str(), destination.lng.as_str());
        url = concat(url.as_str(), "/@");
        url = concat(url.as_str(), destination.lat.as_str());
        url = concat(url.as_str(), ",");
        url = concat(url.as_str(), destination.lng.as_str());
        url = concat(url.as_str(), ",15z/data=!3m1!4b1!4m2!4m1!3e");
        url = concat(url.as_str(), code);
        url
    }

    /// The Google Maps link to a venue.
    pub fn generate_venue_url(&self, coordinate: &Coordinate, place_id: Option<&str>) -> (r: String)
        ensures
            r@ == venue_url(
                *coordinate,
                match place_id {
                    Some(id) => Some(id@),
                    None => None,
                },
            ),
    {
        match place_id {
            Some(id) => concat("https://www.google.com/maps/place/?q=place_id:", id),
            None => {
                let mut url = concat(
                    "https://www.google.com/maps/search/?api=1&query=",
                    coordinate.lat.as_str(),
                );
                url = concat(url.as_str(), ",");
                concat(url.as_str(), coordinate.lng.as_str())
            },
        }
    }

    /// Accepts a geocoding reply whose status is "OK" and that has at least one
    /// result; otherwise says why not.
    pub fn check_geocoding_reply(status: &str, result_count: usize, address: &str) -> (r: Result<
        (),
        String,
    >)
        ensures
            match geocoding_verdict(status@, result_count as nat, address@) {
                Ok(()) => r is Ok,
                Err(m) => r matches Err(e) && e@ == m,
            },
    {
        if !same_text(status, "OK") {
            return Err(concat("Geocoding failed with status: ", status));
        }
        if result_count == 0 {
            return Err(concat("No results found for address: ", address));
        }
        Ok(())
    }
}

} // verus!

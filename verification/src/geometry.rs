//! How the search area is chosen from the number of participants.
use vstd::prelude::*;

use crate::error::AppError;

verus! {

/// Chooses where to search and how far.
pub struct GeometryService;

/// Where the search is centred.
#[derive(Debug, Clone, Copy, PartialEq, Eq, Structural)]
pub enum CenterMethod {
    /// The midpoint of the two participants.
    Midpoint,
    /// The centroid of all participants.
    Centroid,
}

/// The search area's rule: the radius is half the largest distance between
/// participants plus `added_meters`, capped at `cap_meters`.
#[derive(Debug, Clone, Copy)]
pub struct SearchAreaRule {
    pub method: CenterMethod,
    pub added_meters: u32,
    pub cap_meters: u32,
}

impl GeometryService {
    /// Two participants: their midpoint, radius half their distance plus
    /// 1 km, at most 5 km. Three or more: their centroid, radius half the
    /// largest pairwise distance plus 2 km, at most 50 km. Fewer than two is a
    /// bad request.
    pub fn search_area_rule(participant_count: usize) -> (r: Result<SearchAreaRule, AppError>)
        ensures
            participant_count < 2 ==> (r matches Err(AppError::BadRequest(m)) && m@
                == "At least 2 participants are required"@),
            participant_count == 2 ==> (r matches Ok(rule) && rule.method == CenterMethod::Midpoint
                && rule.added_meters == 1000 && rule.cap_meters == 5000),
            participant_count > 2 ==> (r matches Ok(rule) && rule.method == CenterMethod::Centroid
                && rule.added_meters == 2000 && rule.cap_meters == 50000),
    {
        if participant_count < 2 {
            return Err(AppError::bad_request("At least 2 participants are required"));
        }
        if participant_count == 2 {
            Ok(SearchAreaRule { method: CenterMethod::Midpoint, added_meters: 1000, cap_meters: 5000 })
        } else {
            Ok(SearchAreaRule { method: CenterMethod::Centroid, added_meters: 2000, cap_meters: 50000 })
        }
    }
}

} // verus!

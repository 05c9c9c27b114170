//! A postal address as clients give it, every part optional.
use vstd::prelude::*;

verus! {

/// Address parts, each of them optional.
#[derive(Debug, Clone, PartialEq)]
pub struct AddressInput {
    /// Country.
    pub country: Option<String>,
    /// Alpha-3 code of the country.
    pub country_code: Option<String>,
    /// Administrative area, first level.
    pub administrative_area_level_1: Option<String>,
    /// Administrative area, second level.
    pub administrative_area_level_2: Option<String>,
    /// Locality.
    pub locality: Option<String>,
    /// Political.
    pub political: Option<String>,
    /// Postal code.
    pub postal_code: Option<String>,
    /// Route.
    pub route: Option<String>,
    /// Street number.
    pub street_number: Option<String>,
    /// The whole address as one line.
    pub value: Option<String>,
    /// Place id.
    pub place_id: Option<String>,
}

/// A copy of an optional part.
pub fn copy_part(part: &Option<String>) -> (r: Option<String>)
    ensures
        r == *part,
{
    match part {
        Some(s) => Some(s.clone()),
        None => None,
    }
}

impl AddressInput {
    /// An address with every part absent.
    pub open spec fn empty() -> AddressInput {
        AddressInput {
            country: None,
            country_code: None,
            administrative_area_level_1: None,
            administrative_area_level_2: None,
            locality: None,
            political: None,
            postal_code: None,
            route: None,
            street_number: None,
            value: None,
            place_id: None,
        }
    }

    /// Whether every part of the address is absent.
    pub open spec fn has_no_part(&self) -> bool {
        &&& self.country is None
        &&& self.country_code is None
        &&& self.administrative_area_level_1 is None
        &&& self.administrative_area_level_2 is None
        &&& self.locality is None
        &&& self.political is None
        &&& self.postal_code is None
        &&& self.route is None
        &&& self.street_number is None
        &&& self.value is None
        &&& self.place_id is None
    }

    /// A copy of this address.
    pub fn copy(&self) -> (r: AddressInput)
        ensures
            r == *self,
    {
        AddressInput {
            country: copy_part(&self.country),
            country_code: copy_part(&self.country_code),
            administrative_area_level_1: copy_part(&self.administrative_area_level_1),
            administrative_area_level_2: copy_part(&self.administrative_area_level_2),
            locality: copy_part(&self.locality),
            political: copy_part(&self.political),
            postal_code: copy_part(&self.postal_code),
            route: copy_part(&self.route),
            street_number: copy_part(&self.street_number),
            value: copy_part(&self.value),
            place_id: copy_part(&self.place_id),
        }
    }

    /// Whether every part of the address is absent.
    pub fn is_none(&self) -> (r: bool)
        ensures
            r == self.has_no_part(),
            r == (*self == AddressInput::empty()),
    {
        self.country.is_none() && self.country_code.is_none()
            && self.administrative_area_level_1.is_none()
            && self.administrative_area_level_2.is_none() && self.locality.is_none()
            && self.political.is_none() && self.postal_code.is_none() && self.route.is_none()
            && self.street_number.is_none() && self.value.is_none() && self.place_id.is_none()
    }
}

} // verus!

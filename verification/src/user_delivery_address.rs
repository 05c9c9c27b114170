//! Delivery addresses of users.
use vstd::prelude::*;
use crate::address::AddressInput;

verus! {

/// A user's delivery address, as the users service answers it.
#[derive(Debug, Clone, PartialEq, Eq, Hash)]
pub struct UserDeliveryAddress {
    /// Id of the address.
    pub id: i32,
    /// Id of its user.
    pub user_id: i32,
    /// administrative_area_level_1
    pub administrative_area_level_1: Option<String>,
    /// administrative_area_level_2
    pub administrative_area_level_2: Option<String>,
    /// country
    pub country: String,
    /// locality
    pub locality: Option<String>,
    /// political
    pub political: Option<String>,
    /// postal_code
    pub postal_code: String,
    /// route
    pub route: Option<String>,
    /// street_number
    pub street_number: Option<String>,
    /// address
    pub address: Option<String>,
    /// place id
    pub place_id: Option<String>,
    /// is_priority
    pub is_priority: bool,
}

/// New user delivery address input object.
#[derive(Debug, Clone, PartialEq, Eq, Hash)]
pub struct NewUserDeliveryAddressInput {
    /// Client mutation id.
    pub client_mutation_id: String,
    /// User id
    pub user_id: i32,
    /// administrative_area_level_1
    pub administrative_area_level_1: Option<String>,
    /// administrative_area_level_2
    pub administrative_area_level_2: Option<String>,
    /// country
    pub country: String,
    /// locality
    pub locality: Option<String>,
    /// political
    pub political: Option<String>,
    /// postal_code
    pub postal_code: String,
    /// route
    pub route: Option<String>,
    /// street_number
    pub street_number: Option<String>,
    /// address
    pub address: Option<String>,
    /// place id
    pub place_id: Option<String>,
    /// is_priority
    pub is_priority: bool,
}

/// Update user delivery address input object.
#[derive(Debug, Clone, PartialEq, Eq)]
pub struct UpdateUserDeliveryAddressInput {
    /// Client mutation id.
    pub client_mutation_id: String,
    /// Id of delivery address.
    pub id: String,
    /// administrative_area_level_1
    pub administrative_area_level_1: Option<String>,
    /// administrative_area_level_2
    pub administrative_area_level_2: Option<String>,
    /// country
    pub country: Option<String>,
    /// locality
    pub locality: Option<String>,
    /// political
    pub political: Option<String>,
    /// postal_code
    pub postal_code: Option<String>,
    /// route
    pub route: Option<String>,
    /// street_number
    pub street_number: Option<String>,
    /// address
    pub address: Option<String>,
    /// place id
    pub place_id: Option<String>,
    /// is_priority
    pub is_priority: Option<bool>,
}

impl UpdateUserDeliveryAddressInput {
    /// The same input with nothing to update: only the mutation id and the
    /// address id kept.
    pub open spec fn without_changes(self) -> UpdateUserDeliveryAddressInput {
        UpdateUserDeliveryAddressInput {
            client_mutation_id: self.client_mutation_id,
            id: self.id,
            administrative_area_level_1: None,
            administrative_area_level_2: None,
            country: None,
            locality: None,
            political: None,
            postal_code: None,
            route: None,
            street_number: None,
            address: None,
            place_id: None,
            is_priority: None,
        }
    }

    /// Whether no field to update is given.
    pub open spec fn has_no_changes(self) -> bool {
        &&& self.administrative_area_level_1 is None
        &&& self.administrative_area_level_2 is None
        &&& self.country is None
        &&& self.locality is None
        &&& self.political is None
        &&& self.postal_code is None
        &&& self.route is None
        &&& self.street_number is None
        &&& self.address is None
        &&& self.place_id is None
        &&& self.is_priority is None
    }

    /// Whether all fields to update are absent.
    pub fn is_none(&self) -> (r: bool)
        ensures
            r == self.has_no_changes(),
            r == (*self == self.without_changes()),
    {
        self.administrative_area_level_1.is_none() && self.administrative_area_level_2.is_none()
            && self.country.is_none() && self.locality.is_none() && self.political.is_none()
            && self.postal_code.is_none() && self.route.is_none() && self.street_number.is_none()
            && self.address.is_none() && self.place_id.is_none() && self.is_priority.is_none()
    }
}

/// New user delivery address input object, with a full address.
#[derive(Debug, Clone, PartialEq)]
pub struct NewUserDeliveryAddressFullInput {
    /// Client mutation id.
    pub client_mutation_id: String,
    /// User id
    pub user_id: i32,
    /// Address
    pub address_full: AddressInput,
    /// is_priority
    pub is_priority: bool,
}

/// Update user delivery address input object, with a full address.
#[derive(Debug, Clone, PartialEq)]
pub struct UpdateUserDeliveryAddressFullInput {
    /// Client mutation id.
    pub client_mutation_id: String,
    /// Id of delivery address.
    pub id: String,
    /// Address
    pub address_full: AddressInput,
    /// is_priority
    pub is_priority: Option<bool>,
}

impl UpdateUserDeliveryAddressFullInput {
    /// The same input with nothing to update: only the mutation id and the
    /// address id kept.
    pub open spec fn without_changes(self) -> UpdateUserDeliveryAddressFullInput {
        UpdateUserDeliveryAddressFullInput {
            client_mutation_id: self.client_mutation_id,
            id: self.id,
            address_full: AddressInput::empty(),
            is_priority: None,
        }
    }

    /// Whether no field to update is given.
    pub open spec fn has_no_changes(self) -> bool {
        self.address_full.has_no_part() && self.is_priority is None
    }

    /// Whether all fields to update are absent.
    pub fn is_none(&self) -> (r: bool)
        ensures
            r == self.has_no_changes(),
            r == (*self == self.without_changes()),
    {
        self.address_full.is_none() && self.is_priority.is_none()
    }
}

} // verus!

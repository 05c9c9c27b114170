//! Warehouse inputs.
use vstd::prelude::*;
use crate::address::AddressInput;

verus! {

/// Warehouse kind
#[derive(Debug, Clone, Copy, PartialEq, Eq, Structural)]
pub enum WarehouseKind {
    /// DistributionCenter.
    DistributionCenter,
    /// Store.
    Store,
}

/// A geographic point as a client gives it. Its coordinates are
/// floating-point numbers; they are held here as the bits of those `f64`s,
/// which is all this crate reads of them.
#[derive(Debug, Clone, Copy, PartialEq, Eq, Structural)]
pub struct GeoPointInput {
    /// x, as the bits of an `f64`.
    pub x: u64,
    /// y, as the bits of an `f64`.
    pub y: u64,
}

/// Update warehouse input object.
#[derive(Debug, Clone, PartialEq)]
pub struct UpdateWarehouseInput {
    /// Client mutation id.
    pub client_mutation_id: String,
    /// Id of a warehouse.
    pub id: String,
    /// Name of a warehouse.
    pub name: Option<String>,
    /// Location of a warehouse.
    pub location: Option<GeoPointInput>,
    /// Address
    pub address_full: AddressInput,
    /// Slug of a warehouse.
    pub slug: Option<String>,
}

impl UpdateWarehouseInput {
    /// The same input with nothing to update: only the mutation id and the
    /// warehouse id kept.
    pub open spec fn without_changes(self) -> UpdateWarehouseInput {
        UpdateWarehouseInput {
            client_mutation_id: self.client_mutation_id,
            id: self.id,
            name: None,
            location: None,
            address_full: AddressInput::empty(),
            slug: None,
        }
    }

    /// Whether no field to update is given.
    pub open spec fn has_no_changes(self) -> bool {
        &&& self.name is None
        &&& self.location is None
        &&& self.address_full.has_no_part()
        &&& self.slug is None
    }

    /// Whether all fields to update are absent.
    pub fn is_none(&self) -> (r: bool)
        ensures
            r == self.has_no_changes(),
            r == (*self == self.without_changes()),
    {
        self.name.is_none() && self.location.is_none() && self.address_full.is_none()
            && self.slug.is_none()
    }
}

/// Create warehouse input object.
#[derive(Debug, Clone)]
pub struct CreateWarehouseInput {
    /// Client mutation id.
    pub client_mutation_id: String,
    /// Name of a warehouse.
    pub name: Option<String>,
    /// Slug of a warehouse.
    pub slug: Option<String>,
    /// Store id of a warehouse.
    pub store_id: i32,
    /// Location of a warehouse.
    pub location: Option<GeoPointInput>,
    /// Address
    pub address_full: AddressInput,
}

/// A part of an address to set where it is given: `Some(Some(value))`,
/// and `None` where it is left as it is.
pub open spec fn set_to(part: Option<String>) -> Option<Option<String>> {
    match part {
        Some(v) => Some(Some(v)),
        None => None,
    }
}

/// The changes sent to the warehouses service to update a warehouse. Each
/// field is `None` where it is left as it is; the optional ones are set to
/// `Some(value)` where they are given.
#[derive(Debug, Clone, PartialEq)]
pub struct WarehouseUpdateData {
    /// Slug.
    pub slug: Option<String>,
    /// Name.
    pub name: Option<Option<String>>,
    /// Location.
    pub location: Option<Option<GeoPointInput>>,
    /// Administrative area, first level.
    pub administrative_area_level_1: Option<Option<String>>,
    /// Administrative area, second level.
    pub administrative_area_level_2: Option<Option<String>>,
    /// Country.
    pub country: Option<Option<String>>,
    /// Locality.
    pub locality: Option<Option<String>>,
    /// Political.
    pub political: Option<Option<String>>,
    /// Postal code.
    pub postal_code: Option<Option<String>>,
    /// Route.
    pub route: Option<Option<String>>,
    /// Street number.
    pub street_number: Option<Option<String>>,
    /// Full address.
    pub address: Option<Option<String>>,
    /// Place id.
    pub place_id: Option<Option<String>>,
    /// Alpha-3 country code.
    pub country_code: Option<Option<String>>,
}

fn set_part(part: Option<String>) -> (r: Option<Option<String>>)
    ensures
        r == set_to(part),
{
    match part {
        Some(v) => Some(Some(v)),
        None => None,
    }
}

/// The changes that an update input asks for.
pub open spec fn update_data_of(value: UpdateWarehouseInput) -> WarehouseUpdateData {
    WarehouseUpdateData {
        slug: value.slug,
        name: set_to(value.name),
        location: match value.location {
            Some(p) => Some(Some(p)),
            None => None,
        },
        administrative_area_level_1: set_to(value.address_full.administrative_area_level_1),
        administrative_area_level_2: set_to(value.address_full.administrative_area_level_2),
        country: set_to(value.address_full.country),
        locality: set_to(value.address_full.locality),
        political: set_to(value.address_full.political),
        postal_code: set_to(value.address_full.postal_code),
        route: set_to(value.address_full.route),
        street_number: set_to(value.address_full.street_number),
        address: set_to(value.address_full.value),
        place_id: set_to(value.address_full.place_id),
        country_code: set_to(value.address_full.country_code),
    }
}

impl From<UpdateWarehouseInput> for WarehouseUpdateData {
    /// The changes that an update input asks for: each field given is set,
    /// each absent one left as it is.
    fn from(value: UpdateWarehouseInput) -> (r: Self)
        ensures
            r == update_data_of(value),
            value.address_full.administrative_area_level_1 matches Some(x) ==> r.administrative_area_level_1 == Some(Some(x)),
            value.address_full.administrative_area_level_1 is None ==> r.administrative_area_level_1 is None,
            value.address_full.administrative_area_level_2 matches Some(x) ==> r.administrative_area_level_2 == Some(Some(x)),
            value.address_full.administrative_area_level_2 is None ==> r.administrative_area_level_2 is None,
            value.address_full.country matches Some(x) ==> r.country == Some(Some(x)),
            value.address_full.country is None ==> r.country is None,
            value.address_full.locality matches Some(x) ==> r.locality == Some(Some(x)),
            value.address_full.locality is None ==> r.locality is None,
            value.address_full.political matches Some(x) ==> r.political == Some(Some(x)),
            value.address_full.political is None ==> r.political is None,
            value.address_full.postal_code matches Some(x) ==> r.postal_code == Some(Some(x)),
            value.address_full.postal_code is None ==> r.postal_code is None,
            value.address_full.route matches Some(x) ==> r.route == Some(Some(x)),
            value.address_full.route is None ==> r.route is None,
            value.address_full.street_number matches Some(x) ==> r.street_number == Some(Some(x)),
            value.address_full.street_number is None ==> r.street_number is None,
            value.address_full.value matches Some(x) ==> r.address == Some(Some(x)),
            value.address_full.value is None ==> r.address is None,
            value.address_full.place_id matches Some(x) ==> r.place_id == Some(Some(x)),
            value.address_full.place_id is None ==> r.place_id is None,
            value.address_full.country_code matches Some(x) ==> r.country_code == Some(Some(x)),
            value.address_full.country_code is None ==> r.country_code is None,
            value.name matches Some(x) ==> r.name == Some(Some(x)),
            value.name is None ==> r.name is None,
            value.location matches Some(x) ==> r.location == Some(Some(x)),
            value.location is None ==> r.location is None,
            r.slug == value.slug,
    {
        let a = value.address_full;
        WarehouseUpdateData {
            slug: value.slug,
            name: set_part(value.name),
            location: match value.location {
                Some(p) => Some(Some(p)),
                None => None,
            },
            administrative_area_level_1: set_part(a.administrative_area_level_1),
            administrative_area_level_2: set_part(a.administrative_area_level_2),
            country: set_part(a.country),
            locality: set_part(a.locality),
            political: set_part(a.political),
            postal_code: set_part(a.postal_code),
            route: set_part(a.route),
            street_number: set_part(a.street_number),
            address: set_part(a.value),
            place_id: set_part(a.place_id),
            country_code: set_part(a.country_code),
        }
    }
}

impl vstd::std_specs::convert::FromSpecImpl<UpdateWarehouseInput> for WarehouseUpdateData {
    open spec fn obeys_from_spec() -> bool {
        true
    }

    open spec fn from_spec(value: UpdateWarehouseInput) -> WarehouseUpdateData {
        update_data_of(value)
    }
}

/// Each field given in a warehouse update input is set in the update
/// data, and each absent one is left as it is: an address part, the name
/// and the location given as `v` become `Some(Some(v))`, absent ones
/// `None`, and the slug is passed as given.
pub proof fn lemma_update_data_sets_given_fields(value: UpdateWarehouseInput)
    ensures
        value.address_full.administrative_area_level_1 matches Some(x) ==> update_data_of(value).administrative_area_level_1 == Some(Some(x)),
        value.address_full.administrative_area_level_1 is None ==> update_data_of(value).administrative_area_level_1 is None,
        value.address_full.administrative_area_level_2 matches Some(x) ==> update_data_of(value).administrative_area_level_2 == Some(Some(x)),
        value.address_full.administrative_area_level_2 is None ==> update_data_of(value).administrative_area_level_2 is None,
        value.address_full.country matches Some(x) ==> update_data_of(value).country == Some(Some(x)),
        value.address_full.country is None ==> update_data_of(value).country is None,
        value.address_full.locality matches Some(x) ==> update_data_of(value).locality == Some(Some(x)),
        value.address_full.locality is None ==> update_data_of(value).locality is None,
        value.address_full.political matches Some(x) ==> update_data_of(value).political == Some(Some(x)),
        value.address_full.political is None ==> update_data_of(value).political is None,
        value.address_full.postal_code matches Some(x) ==> update_data_of(value).postal_code == Some(Some(x)),
        value.address_full.postal_code is None ==> update_data_of(value).postal_code is None,
        value.address_full.route matches Some(x) ==> update_data_of(value).route == Some(Some(x)),
        value.address_full.route is None ==> update_data_of(value).route is None,
        value.address_full.street_number matches Some(x) ==> update_data_of(value).street_number == Some(Some(x)),
        value.address_full.street_number is None ==> update_data_of(value).street_number is None,
        value.address_full.value matches Some(x) ==> update_data_of(value).address == Some(Some(x)),
        value.address_full.value is None ==> update_data_of(value).address is None,
        value.address_full.place_id matches Some(x) ==> update_data_of(value).place_id == Some(Some(x)),
        value.address_full.place_id is None ==> update_data_of(value).place_id is None,
        value.address_full.country_code matches Some(x) ==> update_data_of(value).country_code == Some(Some(x)),
        value.address_full.country_code is None ==> update_data_of(value).country_code is None,
        value.name matches Some(x) ==> update_data_of(value).name == Some(Some(x)),
        value.name is None ==> update_data_of(value).name is None,
        value.location matches Some(x) ==> update_data_of(value).location == Some(Some(x)),
        value.location is None ==> update_data_of(value).location is None,
        update_data_of(value).slug == value.slug,
{
}

/// A new warehouse as it is sent to the warehouses service. Its id is a
/// fresh UUID, given as a 128-bit number.
#[derive(Debug, Clone, PartialEq)]
pub struct WarehouseInput {
    /// Warehouse id.
    pub id: u128,
    /// Name.
    pub name: Option<String>,
    /// The store that owns it.
    pub store_id: i32,
    /// Location.
    pub location: Option<GeoPointInput>,
    /// Administrative area, first level.
    pub administrative_area_level_1: Option<String>,
    /// Administrative area, second level.
    pub administrative_area_level_2: Option<String>,
    /// Country.
    pub country: Option<String>,
    /// Alpha-3 country code.
    pub country_code: Option<String>,
    /// Locality.
    pub locality: Option<String>,
    /// Political.
    pub political: Option<String>,
    /// Postal code.
    pub postal_code: Option<String>,
    /// Route.
    pub route: Option<String>,
    /// Street number.
    pub street_number: Option<String>,
    /// Full address.
    pub address: Option<String>,
    /// Place id.
    pub place_id: Option<String>,
}

impl CreateWarehouseInput {
    /// The new warehouse, with this id, that a create input asks for. The
    /// slug is not sent: the service makes one.
    pub fn into_warehouse_input(self, id: u128) -> (r: WarehouseInput)
        ensures
            r == (WarehouseInput {
                id,
                name: self.name,
                store_id: self.store_id,
                location: self.location,
                administrative_area_level_1: self.address_full.administrative_area_level_1,
                administrative_area_level_2: self.address_full.administrative_area_level_2,
                country: self.address_full.country,
                country_code: self.address_full.country_code,
                locality: self.address_full.locality,
                political: self.address_full.political,
                postal_code: self.address_full.postal_code,
                route: self.address_full.route,
                street_number: self.address_full.street_number,
                address: self.address_full.value,
                place_id: self.address_full.place_id,
            }),
    {
        let a = self.address_full;
        WarehouseInput {
            id,
            name: self.name,
            store_id: self.store_id,
            location: self.location,
            administrative_area_level_1: a.administrative_area_level_1,
            administrative_area_level_2: a.administrative_area_level_2,
            country: a.country,
            country_code: a.country_code,
            locality: a.locality,
            political: a.political,
            postal_code: a.postal_code,
            route: a.route,
            street_number: a.street_number,
            address: a.value,
            place_id: a.place_id,
        }
    }
}

/// Page info of a page of a warehouse's products. `F` is the search
/// filters that the products were found with, passed on as the search
/// service answered them.
#[derive(Debug, Clone)]
pub struct PageInfoWarehouseProductSearch<F> {
    /// How many pages there are.
    pub total_pages: i32,
    /// The page served.
    pub current_page: i32,
    /// How many items a page holds.
    pub page_items_count: i32,
    /// The filters of the search.
    pub search_term_options: Option<F>,
}

} // verus!

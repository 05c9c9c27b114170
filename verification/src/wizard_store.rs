//! The store creation wizard.
use vstd::prelude::*;
use crate::address::AddressInput;
use crate::translation::Language;

verus! {

/// The wizard's record of a store being created.
#[derive(Debug, Clone)]
pub struct WizardStore {
    /// Id.
    pub id: i32,
    /// User id.
    pub user_id: i32,
    /// Real store id.
    pub store_id: Option<i32>,
    /// Name.
    pub name: Option<String>,
    /// Short description.
    pub short_description: Option<String>,
    /// Language.
    pub default_language: Option<Language>,
    /// Slug.
    pub slug: Option<String>,
    /// Country.
    pub country: Option<String>,
    /// Address.
    pub address: Option<String>,
    /// administrative_area_level_1
    pub administrative_area_level_1: Option<String>,
    /// administrative_area_level_2
    pub administrative_area_level_2: Option<String>,
    /// locality
    pub locality: Option<String>,
    /// political
    pub political: Option<String>,
    /// postal_code
    pub postal_code: Option<String>,
    /// route
    pub route: Option<String>,
    /// street_number
    pub street_number: Option<String>,
    /// place id
    pub place_id: Option<String>,
}

/// Update store wizard input object.
#[derive(Debug, Clone, PartialEq)]
pub struct UpdateWizardStoreInput {
    /// Client mutation id.
    pub client_mutation_id: String,
    /// Real store id.
    pub store_id: Option<i32>,
    /// New name of a store.
    pub name: Option<String>,
    /// Short description
    pub short_description: Option<String>,
    /// Language
    pub default_language: Option<Language>,
    /// Slug
    pub slug: Option<String>,
    /// Address
    pub address_full: AddressInput,
}

impl UpdateWizardStoreInput {
    /// The same input with nothing to update: only the mutation id kept.
    pub open spec fn without_changes(self) -> UpdateWizardStoreInput {
        UpdateWizardStoreInput {
            client_mutation_id: self.client_mutation_id,
            store_id: None,
            name: None,
            short_description: None,
            default_language: None,
            slug: None,
            address_full: AddressInput::empty(),
        }
    }

    /// Whether no field to update is given.
    pub open spec fn has_no_changes(self) -> bool {
        &&& self.store_id is None
        &&& self.name is None
        &&& self.short_description is None
        &&& self.default_language is None
        &&& self.slug is None
        &&& self.address_full.has_no_part()
    }

    /// Whether all fields to update are absent.
    pub fn is_none(&self) -> (r: bool)
        ensures
            r == self.has_no_changes(),
            r == (*self == self.without_changes()),
    {
        self.store_id.is_none() && self.name.is_none() && self.short_description.is_none()
            && self.default_language.is_none() && self.slug.is_none()
            && self.address_full.is_none()
    }
}

/// Wizard Step One
#[derive(Debug, Clone)]
pub struct WizardStepOne {
    /// New name of a store.
    pub name: Option<String>,
    /// Short description
    pub short_description: Option<String>,
    /// Slug
    pub slug: Option<String>,
}

impl From<WizardStore> for WizardStepOne {
    /// The first step's fields of a wizard record: its name, short
    /// description and slug.
    fn from(w: WizardStore) -> (r: Self)
        ensures
            r.name == w.name,
            r.short_description == w.short_description,
            r.slug == w.slug,
    {
        Self { name: w.name, short_description: w.short_description, slug: w.slug }
    }
}

impl vstd::std_specs::convert::FromSpecImpl<WizardStore> for WizardStepOne {
    open spec fn obeys_from_spec() -> bool {
        true
    }

    open spec fn from_spec(w: WizardStore) -> WizardStepOne {
        WizardStepOne { name: w.name, short_description: w.short_description, slug: w.slug }
    }
}

} // verus!

//! Store inputs: creating, updating, deactivating and searching stores.
use vstd::prelude::*;
use crate::translation::{Language, TranslationInput};

verus! {

/// Update store input object.
///
/// The rating is a floating-point number; it is held here as the bits of
/// that `f64`, which is all this crate reads of it.
#[derive(Debug, Clone, PartialEq)]
pub struct UpdateStoreInput {
    /// Client mutation id.
    pub client_mutation_id: String,
    /// Id of a store.
    pub id: String,
    /// New name of a store.
    pub name: Option<Vec<TranslationInput>>,
    /// Short description
    pub short_description: Option<Vec<TranslationInput>>,
    /// Long description
    pub long_description: Option<Vec<TranslationInput>>,
    /// Slug
    pub slug: Option<String>,
    /// Cover
    pub cover: Option<String>,
    /// Logo
    pub logo: Option<String>,
    /// Phone number
    pub phone: Option<String>,
    /// E-mail
    pub email: Option<String>,
    /// Address
    pub address: Option<String>,
    /// Facebook url
    pub facebook_url: Option<String>,
    /// Twitter url
    pub twitter_url: Option<String>,
    /// Instagram url
    pub instagram_url: Option<String>,
    /// Language
    pub default_language: Option<Language>,
    /// Slogan
    pub slogan: Option<String>,
    /// Rating, as the bits of an `f64`.
    pub rating: Option<u64>,
    /// Country
    pub country: Option<String>,
}

impl UpdateStoreInput {
    /// The same input with nothing to update: only the mutation id and the
    /// store id kept.
    pub open spec fn without_changes(self) -> UpdateStoreInput {
        UpdateStoreInput {
            client_mutation_id: self.client_mutation_id,
            id: self.id,
            name: None,
            short_description: None,
            long_description: None,
            slug: None,
            cover: None,
            logo: None,
            phone: None,
            email: None,
            address: None,
            facebook_url: None,
            twitter_url: None,
            instagram_url: None,
            default_language: None,
            slogan: None,
            rating: None,
            country: None,
        }
    }

    /// Whether no field to update is given.
    pub open spec fn has_no_changes(self) -> bool {
        &&& self.name is None
        &&& self.short_description is None
        &&& self.long_description is None
        &&& self.slug is None
        &&& self.cover is None
        &&& self.logo is None
        &&& self.phone is None
        &&& self.email is None
        &&& self.address is None
        &&& self.facebook_url is None
        &&& self.twitter_url is None
        &&& self.instagram_url is None
        &&& self.default_language is None
        &&& self.slogan is None
        &&& self.rating is None
        &&& self.country is None
    }

    /// Whether all fields to update are absent, so that the update would
    /// change nothing.
    pub fn is_none(&self) -> (r: bool)
        ensures
            r == self.has_no_changes(),
            r == (*self == self.without_changes()),
    {
        self.name.is_none() && self.short_description.is_none()
            && self.long_description.is_none() && self.slug.is_none() && self.cover.is_none()
            && self.logo.is_none() && self.phone.is_none() && self.email.is_none()
            && self.address.is_none() && self.facebook_url.is_none()
            && self.twitter_url.is_none() && self.instagram_url.is_none()
            && self.default_language.is_none() && self.slogan.is_none()
            && self.rating.is_none() && self.country.is_none()
    }
}

/// Create store input object.
#[derive(Debug, Clone)]
pub struct CreateStoreInput {
    /// Client mutation id.
    pub client_mutation_id: String,
    /// New name of a store.
    pub name: Vec<TranslationInput>,
    /// User id.
    pub user_id: i32,
    /// Short description
    pub short_description: Vec<TranslationInput>,
    /// Long description
    pub long_description: Option<Vec<TranslationInput>>,
    /// Slug
    pub slug: String,
    /// Cover
    pub cover: Option<String>,
    /// Logo
    pub logo: Option<String>,
    /// Phone number
    pub phone: Option<String>,
    /// E-mail
    pub email: Option<String>,
    /// Address
    pub address: Option<String>,
    /// Facebook url
    pub facebook_url: Option<String>,
    /// Twitter url
    pub twitter_url: Option<String>,
    /// Instagram url
    pub instagram_url: Option<String>,
    /// Default Language
    pub default_language: Language,
    /// Slogan
    pub slogan: Option<String>,
    /// Country
    pub country: Option<String>,
}

/// Deactivate store input object.
#[derive(Debug, Clone)]
pub struct DeactivateStoreInput {
    /// Client mutation id.
    pub client_mutation_id: String,
    /// Id of a store.
    pub id: String,
}

/// Options of a store search.
#[derive(Debug, Clone)]
pub struct StoresSearchOptionsInput {
    /// Category id.
    pub category_id: Option<i32>,
    /// Country.
    pub country: Option<String>,
}

/// Search store input object.
#[derive(Debug, Clone)]
pub struct SearchStoreInput {
    /// Name part of the store.
    pub name: String,
    /// Get stores total count
    pub get_stores_total_count: bool,
    /// Searching options
    pub options: Option<StoresSearchOptionsInput>,
}

/// The filters that a store search is sent with.
#[derive(Debug, Clone)]
pub struct StoresSearchFilters {
    /// What to search for.
    pub search_term: SearchStoreInput,
}

impl StoresSearchFilters {
    /// Filters that search for `search_term`.
    pub fn new(search_term: SearchStoreInput) -> (r: Self)
        ensures
            r.search_term == search_term,
    {
        Self { search_term }
    }
}

/// Why a store is not updated.
#[derive(Debug, Clone)]
pub enum UpdateStoreError {
    /// The input gives no field to update.
    NothingToUpdate,
    /// The store, in its present status, may not be changed.
    CannotBeChanged {
        /// The store's id.
        store_id: i32,
        /// Its status.
        status: String,
    },
    /// A service answered with an error.
    ServiceFailed,
    /// An answer came that the step did not ask for.
    UnexpectedEvent,
}

/// Where updating a store stands.
#[derive(Debug, Clone, Copy, PartialEq, Eq, Structural)]
pub enum UpdateStoreState {
    /// Nothing done yet.
    Start,
    /// Waiting to learn whether the store may be updated.
    AwaitValidation,
    /// Waiting for the store, to report its status.
    AwaitStore,
    /// Finished.
    Done,
}

/// What the caller reports back.
#[derive(Debug, Clone)]
pub enum UpdateStoreEvent {
    /// The update is asked for.
    Begin,
    /// Whether the store may be updated.
    Validated(bool),
    /// The store's id and status.
    Store {
        /// Its id.
        store_id: i32,
        /// Its status.
        status: String,
    },
    /// A service answered with an error.
    Failed,
}

/// What the caller is to do next.
#[derive(Debug, Clone)]
pub enum UpdateStoreAction {
    /// Ask whether the store with this raw id may be updated.
    ValidateUpdate(i32),
    /// Send the update of the store with this raw id.
    SendUpdate(i32),
    /// Read the store with this raw id.
    ReadStore(i32),
    /// Refuse the request.
    Refuse(UpdateStoreError),
}

/// One step of updating the store with raw id `store_id`: an input with
/// nothing to update is refused first; then the update is sent where the
/// stores service says that the store may be updated, and otherwise
/// refused with the store's status.
pub fn update_store_step(input: &UpdateStoreInput, store_id: i32, state: UpdateStoreState, event: UpdateStoreEvent) -> (r: (
    UpdateStoreState,
    UpdateStoreAction,
))
    ensures
        (r.1 is SendUpdate || r.1 is Refuse) <==> r.0 is Done,
        match (state, event) {
            (UpdateStoreState::Done, _) => r.1 matches UpdateStoreAction::Refuse(UpdateStoreError::UnexpectedEvent),
            (_, UpdateStoreEvent::Failed) => r.1 matches UpdateStoreAction::Refuse(UpdateStoreError::ServiceFailed),
            (UpdateStoreState::Start, UpdateStoreEvent::Begin) => if input.has_no_changes() {
                r.1 matches UpdateStoreAction::Refuse(UpdateStoreError::NothingToUpdate)
            } else {
                r.1 matches UpdateStoreAction::ValidateUpdate(id) && id == store_id && r.0 == UpdateStoreState::AwaitValidation
            },
            (UpdateStoreState::AwaitValidation, UpdateStoreEvent::Validated(ok)) => if ok {
                r.1 matches UpdateStoreAction::SendUpdate(id) && id == store_id
            } else {
                r.1 matches UpdateStoreAction::ReadStore(id) && id == store_id && r.0 == UpdateStoreState::AwaitStore
            },
            (UpdateStoreState::AwaitStore, UpdateStoreEvent::Store { store_id: id, status }) => r.1 matches UpdateStoreAction::Refuse(
                UpdateStoreError::CannotBeChanged { store_id: i, status: st },
            ) && i == id && st@ == status@,
            _ => r.1 matches UpdateStoreAction::Refuse(UpdateStoreError::UnexpectedEvent),
        },
{
    match (state, event) {
        (UpdateStoreState::Done, _) => (UpdateStoreState::Done, UpdateStoreAction::Refuse(UpdateStoreError::UnexpectedEvent)),
        (_, UpdateStoreEvent::Failed) => (UpdateStoreState::Done, UpdateStoreAction::Refuse(UpdateStoreError::ServiceFailed)),
        (UpdateStoreState::Start, UpdateStoreEvent::Begin) => {
            if input.is_none() {
                (UpdateStoreState::Done, UpdateStoreAction::Refuse(UpdateStoreError::NothingToUpdate))
            } else {
                (UpdateStoreState::AwaitValidation, UpdateStoreAction::ValidateUpdate(store_id))
            }
        },
        (UpdateStoreState::AwaitValidation, UpdateStoreEvent::Validated(ok)) => {
            if ok {
                (UpdateStoreState::Done, UpdateStoreAction::SendUpdate(store_id))
            } else {
                (UpdateStoreState::AwaitStore, UpdateStoreAction::ReadStore(store_id))
            }
        },
        (UpdateStoreState::AwaitStore, UpdateStoreEvent::Store { store_id: id, status }) => (
            UpdateStoreState::Done,
            UpdateStoreAction::Refuse(UpdateStoreError::CannotBeChanged { store_id: id, status }),
        ),
        _ => (UpdateStoreState::Done, UpdateStoreAction::Refuse(UpdateStoreError::UnexpectedEvent)),
    }
}

} // verus!

use gateway::address::AddressInput;
use gateway::attribute::{get_attribute_meta_field, AttributeMetaField, AttributeValue};
use gateway::store::{SearchStoreInput, StoresSearchFilters, StoresSearchOptionsInput, UpdateStoreInput};
use gateway::subscription::SubscriptionPaymentSearch;
use gateway::translation::{Language, Translation};
use gateway::user::{
    Gender, NewUserAdditionalData, NewUserAdditionalDataInput, UpdateUserInput, UserInputError,
    UtmMarkInput,
};
use gateway::user_delivery_address::{UpdateUserDeliveryAddressFullInput, UpdateUserDeliveryAddressInput};
use gateway::warehouse::{GeoPointInput, UpdateWarehouseInput};
use gateway::warehouse_product::{stock_quantity, WarehouseProduct};
use gateway::wizard_store::{UpdateWizardStoreInput, WizardStepOne, WizardStore};

fn empty_address() -> AddressInput {
    AddressInput {
        country: None,
        country_code: None,
        administrative_area_level_1: None,
        administrative_area_level_2: None,
        locality: None,
        political: None,
        postal_code: None,
        route: None,
        street_number: None,
        value: None,
        place_id: None,
    }
}

fn empty_store_update() -> UpdateStoreInput {
    UpdateStoreInput {
        client_mutation_id: "m".to_string(),
        id: "1".to_string(),
        name: None,
        short_description: None,
        long_description: None,
        slug: None,
        cover: None,
        logo: None,
        phone: None,
        email: None,
        address: None,
        facebook_url: None,
        twitter_url: None,
        instagram_url: None,
        default_language: None,
        slogan: None,
        rating: None,
        country: None,
    }
}

fn empty_user_update() -> UpdateUserInput {
    UpdateUserInput {
        client_mutation_id: "m".to_string(),
        id: "7".to_string(),
        is_active: None,
        phone: None,
        first_name: None,
        last_name: None,
        middle_name: None,
        gender: None,
        birthdate: None,
        avatar: None,
    }
}

#[test]
fn store_update_with_nothing_is_none() {
    assert!(empty_store_update().is_none());
    let mut u = empty_store_update();
    u.rating = Some(4.5f64.to_bits());
    assert!(!u.is_none());
    let mut u = empty_store_update();
    u.default_language = Some(Language::En);
    assert!(!u.is_none());
}

#[test]
fn store_update_ids_do_not_count_as_changes() {
    let mut u = empty_store_update();
    u.client_mutation_id = "other".to_string();
    u.id = "99".to_string();
    assert!(u.is_none());
}

#[test]
fn user_update_is_none() {
    assert!(empty_user_update().is_none());
    let mut u = empty_user_update();
    u.gender = Some(Gender::Female);
    assert!(!u.is_none());
}

#[test]
fn user_update_validate_birthdate() {
    assert!(empty_user_update().validate().is_ok());
    let mut u = empty_user_update();
    u.birthdate = Some("1990-05-17".to_string());
    assert!(u.validate().is_ok());
    u.birthdate = Some("1990-13-01".to_string());
    assert_eq!(u.validate().unwrap_err(), UserInputError::IncorrectBirthdateFormat);
    u.birthdate = Some("17.05.1990".to_string());
    assert_eq!(u.validate().unwrap_err(), UserInputError::IncorrectBirthdateFormat);
}

#[test]
fn validation_outcome_cases() {
    assert!(UpdateUserInput::validation_outcome(None).is_ok());
    assert!(UpdateUserInput::validation_outcome(Some(true)).is_ok());
    assert_eq!(
        UpdateUserInput::validation_outcome(Some(false)).unwrap_err(),
        UserInputError::IncorrectBirthdateFormat
    );
}

#[test]
fn delivery_address_updates_is_none() {
    let u = UpdateUserDeliveryAddressInput {
        client_mutation_id: "m".to_string(),
        id: "3".to_string(),
        administrative_area_level_1: None,
        administrative_area_level_2: None,
        country: None,
        locality: None,
        political: None,
        postal_code: None,
        route: None,
        street_number: None,
        address: None,
        place_id: None,
        is_priority: None,
    };
    assert!(u.is_none());
    let mut v = u.clone();
    v.is_priority = Some(false);
    assert!(!v.is_none());

    let f = UpdateUserDeliveryAddressFullInput {
        client_mutation_id: "m".to_string(),
        id: "3".to_string(),
        address_full: empty_address(),
        is_priority: None,
    };
    assert!(f.is_none());
    let mut g = f.clone();
    g.address_full.postal_code = Some("10001".to_string());
    assert!(!g.is_none());
}

#[test]
fn warehouse_update_is_none() {
    let u = UpdateWarehouseInput {
        client_mutation_id: "m".to_string(),
        id: "w".to_string(),
        name: None,
        location: None,
        address_full: empty_address(),
        slug: None,
    };
    assert!(u.is_none());
    let mut v = u.clone();
    v.location = Some(GeoPointInput { x: 1.0f64.to_bits(), y: 2.0f64.to_bits() });
    assert!(!v.is_none());
    let mut w = u.clone();
    w.address_full.country_code = Some("RUS".to_string());
    assert!(!w.is_none());
}

#[test]
fn wizard_update_is_none_and_step_one() {
    let u = UpdateWizardStoreInput {
        client_mutation_id: "m".to_string(),
        store_id: None,
        name: None,
        short_description: None,
        default_language: None,
        slug: None,
        address_full: empty_address(),
    };
    assert!(u.is_none());
    let mut v = u.clone();
    v.store_id = Some(5);
    assert!(!v.is_none());

    let w = WizardStore {
        id: 1,
        user_id: 2,
        store_id: None,
        name: Some("Shop".to_string()),
        short_description: Some("Nice".to_string()),
        default_language: Some(Language::En),
        slug: Some("shop".to_string()),
        country: None,
        address: None,
        administrative_area_level_1: None,
        administrative_area_level_2: None,
        locality: None,
        political: None,
        postal_code: None,
        route: None,
        street_number: None,
        place_id: None,
    };
    let one = WizardStepOne::from(w);
    assert_eq!(one.name.as_deref(), Some("Shop"));
    assert_eq!(one.short_description.as_deref(), Some("Nice"));
    assert_eq!(one.slug.as_deref(), Some("shop"));
}

#[test]
fn additional_data_marks_become_a_map() {
    let input = NewUserAdditionalDataInput {
        referal: Some(12),
        utm_marks: Some(vec![
            UtmMarkInput { key: "source".to_string(), value: "mail".to_string() },
            UtmMarkInput { key: "medium".to_string(), value: "banner".to_string() },
            UtmMarkInput { key: "source".to_string(), value: "search".to_string() },
        ]),
        country: Some("RU".to_string()),
        referer: None,
    };
    let data: NewUserAdditionalData = input.into();
    assert_eq!(data.referal, Some(12));
    assert_eq!(data.country.as_deref(), Some("RU"));
    let marks = data.utm_marks.unwrap();
    let pairs: Vec<(&str, &str)> = marks.iter().map(|m| (m.key.as_str(), m.value.as_str())).collect();
    assert_eq!(pairs, vec![("source", "search"), ("medium", "banner")]);
}

#[test]
fn additional_data_without_marks() {
    let none = NewUserAdditionalDataInput { referal: None, utm_marks: None, country: None, referer: None };
    assert!(none.into().utm_marks.is_none());
    let empty = NewUserAdditionalDataInput {
        referal: None,
        utm_marks: Some(vec![]),
        country: None,
        referer: Some("x.com".to_string()),
    };
    let data = empty.into();
    assert!(data.utm_marks.is_none());
    assert_eq!(data.referer.as_deref(), Some("x.com"));
}

#[test]
fn country_replaced_only_where_given() {
    let mut data = NewUserAdditionalDataInput {
        referal: None,
        utm_marks: None,
        country: Some("RU".to_string()),
        referer: None,
    }
    .into();
    data.replace_country(Some("RUS".to_string()));
    assert_eq!(data.country.as_deref(), Some("RUS"));
    data.replace_country(None);
    assert_eq!(data.country, None);
    data.replace_country(Some("USA".to_string()));
    assert_eq!(data.country, None);
}

#[test]
fn search_filters_keep_term() {
    let term = SearchStoreInput {
        name: "shoe".to_string(),
        get_stores_total_count: true,
        options: Some(StoresSearchOptionsInput { category_id: Some(3), country: None }),
    };
    let f = StoresSearchFilters::new(term);
    assert_eq!(f.search_term.name, "shoe");
    assert!(f.search_term.get_stores_total_count);
    assert_eq!(f.search_term.options.unwrap().category_id, Some(3));
}

#[test]
fn subscription_search_default_has_no_parameter() {
    let s = SubscriptionPaymentSearch::default();
    assert_eq!(s.store_id, None);
    assert_eq!(s.status, None);
}

#[test]
fn attribute_meta_field_lists() {
    let values = vec![
        AttributeValue {
            code: "red".to_string(),
            translations: Some(vec![Translation::new(Language::En, "Red".to_string())]),
        },
        AttributeValue { code: "blue".to_string(), translations: None },
    ];
    let meta = AttributeMetaField { ui_element: 7u8, values: None, translated_values: None };
    let f = get_attribute_meta_field(Some(values), Some(meta)).unwrap();
    assert_eq!(f.ui_element, 7u8);
    assert_eq!(f.values, Some(vec!["red".to_string(), "blue".to_string()]));
    let t = f.translated_values.unwrap();
    assert_eq!(t.len(), 1);
    assert_eq!(t[0][0].text, "Red");
}

#[test]
fn attribute_meta_field_absent_parts() {
    let meta = AttributeMetaField { ui_element: (), values: None, translated_values: None };
    let f = get_attribute_meta_field(Some(vec![]), Some(meta)).unwrap();
    assert_eq!(f.values, None);
    assert!(f.translated_values.is_none());
    let g = get_attribute_meta_field::<()>(None, None);
    assert!(g.is_none());
}

#[test]
fn stock_quantity_sums() {
    let stocks = vec![
        WarehouseProduct { id: 1, warehouse_id: 1, product_id: 9, quantity: 4 },
        WarehouseProduct { id: 2, warehouse_id: 2, product_id: 9, quantity: 6 },
    ];
    assert_eq!(stock_quantity(&stocks), 10);
    assert_eq!(stock_quantity(&vec![]), 0);
}

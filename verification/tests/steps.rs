use std::collections::HashMap;

use gateway::address::AddressInput;
use gateway::buy_now::{
    buy_now_step, calculate_buy_now_step, BoughtProduct, BuyNowAction, BuyNowError, BuyNowEvent, BuyNowInput,
    BuyNowPhase, CalculateBuyNowInput, CheckoutAction, CheckoutEvent, CheckoutPhase,
};
use gateway::cart::{
    remove_delivery_method_step, RemoveDeliveryMethodAction, RemoveDeliveryMethodError, RemoveDeliveryMethodEvent,
    RemoveDeliveryMethodState, set_delivery_method_step, CartCustomer, CartItem, DeliveryMethodId, FiatPriceError, OrderCartError,
    PriceCurrency, SelectPackageError, SellerPrice, SetDeliveryMethodAction, SetDeliveryMethodError,
    SetDeliveryMethodEvent, SetDeliveryMethodInCartInput, SetDeliveryMethodState,
};
use gateway::cart_increment::{
    increment_in_cart_step, IncrementAction, IncrementBaseProduct, IncrementError, IncrementEvent,
    IncrementInCartInput, IncrementState,
};
use gateway::coupon::{CouponError, CouponProduct};
use gateway::create_orders::{
    create_orders_step, CreateOrderInput, CreateOrdersAction, CreateOrdersError, CreateOrdersEvent,
    CreateOrdersState,
};
use gateway::delivery::AvailablePackageForUser;
use gateway::paging::{relay_page_info, relay_search_page, search_offset, segment_page, PageInfoSegments, PageSegment};
use gateway::store::{update_store_step, UpdateStoreAction, UpdateStoreError, UpdateStoreEvent, UpdateStoreInput, UpdateStoreState};
use gateway::warehouse::{CreateWarehouseInput, GeoPointInput, UpdateWarehouseInput, WarehouseUpdateData};
use gateway::warehouse_product::{product_stocks, Stock};
use gateway::translated_text::Language as TextLanguage;

fn address() -> AddressInput {
    AddressInput {
        country: Some("Russia".to_string()),
        country_code: Some("RUS".to_string()),
        administrative_area_level_1: None,
        administrative_area_level_2: None,
        locality: Some("Moscow".to_string()),
        political: None,
        postal_code: Some("101000".to_string()),
        route: None,
        street_number: None,
        value: None,
        place_id: None,
    }
}

fn currency(code: &str, is_fiat: bool) -> PriceCurrency {
    PriceCurrency { code: code.to_string(), is_fiat }
}

fn price(bits: u64, code: &str, is_fiat: bool) -> SellerPrice {
    SellerPrice { price: bits, currency: currency(code, is_fiat) }
}

fn package(id: i32, shipping_id: i32, store_id: i32) -> AvailablePackageForUser {
    AvailablePackageForUser {
        id,
        shipping_id,
        name: "post".to_string(),
        logo: "logo.png".to_string(),
        price: 10.0f64.to_bits(),
        store_id,
    }
}

fn cart_item(product_id: i32, store_id: i32, dm: Option<DeliveryMethodId>, coupon_id: Option<i32>) -> CartItem {
    CartItem { product_id, store_id, quantity: 1, selected: true, delivery_method_id: dm, coupon_id }
}

fn order_input(is_fiat: bool) -> CreateOrderInput {
    CreateOrderInput {
        client_mutation_id: "1".to_string(),
        address_full: address(),
        receiver_name: "Ann".to_string(),
        receiver_phone: "+7900".to_string(),
        currency: currency(if is_fiat { "RUB" } else { "STQ" }, is_fiat),
        user_country_code: Some("RUS".to_string()),
        uuid: "u-1".to_string(),
    }
}

type Step = (CreateOrdersState<String>, CreateOrdersAction<String, String>);

fn order_step(input: &CreateOrderInput, state: CreateOrdersState<String>, event: CreateOrdersEvent<String, String>) -> Step {
    create_orders_step(input, state, event)
}

fn refused_with(action: &CreateOrdersAction<String, String>) -> CreateOrdersError {
    match action {
        CreateOrdersAction::Refuse(e) => *e,
        other => panic!("not refused: {:?}", other),
    }
}

#[test]
fn create_orders_runs_to_send() {
    let input = order_input(true);
    let cart = vec![
        cart_item(7, 70, Some(DeliveryMethodId::ShippingPackage { id: 701 }), Some(5)),
        cart_item(8, 80, Some(DeliveryMethodId::ShippingPackage { id: 801 }), None),
    ];
    let (s, a) = order_step(&input, CreateOrdersState::new(), CreateOrdersEvent::User(Some(42)));
    assert!(matches!(a, CreateOrdersAction::ReadCart(42)));
    let (s, a) = order_step(&input, s, CreateOrdersEvent::Cart(cart));
    assert!(matches!(a, CreateOrdersAction::CheckCoupon(5)));
    let (s, a) = order_step(&input, s, CreateOrdersEvent::Coupon(Some("coupon five".to_string())));
    match &a {
        CreateOrdersAction::ReadPrices(ids) => assert_eq!(ids, &vec![7, 8]),
        other => panic!("{:?}", other),
    }
    let prices = vec![price(1, "RUB", true), price(2, "RUB", true)];
    let (s, a) = order_step(&input, s, CreateOrdersEvent::Prices(prices));
    match &a {
        CreateOrdersAction::ReadPackages(ids) => assert_eq!(ids, &vec![(7, 701), (8, 801)]),
        other => panic!("{:?}", other),
    }
    let (s, a) = order_step(&input, s, CreateOrdersEvent::Packages(vec![package(1, 701, 70), package(2, 801, 80)]));
    assert!(matches!(a, CreateOrdersAction::ReadCustomer(42)));
    let (s, a) = order_step(&input, s, CreateOrdersEvent::Customer("ann@example.com".to_string()));
    match &a {
        CreateOrdersAction::ReadProductInfo(ids) => assert_eq!(ids, &vec![7, 8]),
        other => panic!("{:?}", other),
    }
    let (s, a) = order_step(&input, s, CreateOrdersEvent::ProductInfo(vec!["seven".to_string(), "eight".to_string()]));
    assert!(s.is_done());
    match a {
        CreateOrdersAction::Send(o) => {
            assert_eq!(o.customer_id, 42);
            assert_eq!(o.receiver_email, "ann@example.com");
            assert_eq!(o.receiver_name, "Ann");
            assert_eq!(o.address, address());
            assert_eq!(o.uuid, "u-1");
            assert_eq!(o.currency.code, "RUB");
            assert_eq!(o.coupons, HashMap::from([(5, "coupon five".to_string())]));
            assert_eq!(o.prices.iter().map(|(k, p)| (*k, p.price)).collect::<HashMap<_, _>>(), HashMap::from([(7, 1), (8, 2)]));
            assert_eq!(
                o.delivery_info.iter().map(|(k, d)| (*k, (d.company_package_id, d.shipping_id))).collect::<HashMap<_, _>>(),
                HashMap::from([(7, (1, 701)), (8, (2, 801))])
            );
            assert_eq!(o.product_info, HashMap::from([(7, "seven".to_string()), (8, "eight".to_string())]));
        }
        other => panic!("{:?}", other),
    }
}

#[test]
fn create_orders_refuses_unauthorized_user() {
    let (s, a) = order_step(&order_input(false), CreateOrdersState::new(), CreateOrdersEvent::User(None));
    assert!(s.is_done());
    assert_eq!(refused_with(&a), CreateOrdersError::Unauthorized);
}

#[test]
fn create_orders_reports_first_item_without_delivery() {
    let input = order_input(false);
    let (s, _) = order_step(&input, CreateOrdersState::new(), CreateOrdersEvent::User(Some(1)));
    let cart = vec![
        cart_item(7, 70, Some(DeliveryMethodId::ShippingPackage { id: 1 }), Some(3)),
        cart_item(8, 80, None, None),
        cart_item(9, 90, None, None),
    ];
    let (_, a) = order_step(&input, s, CreateOrdersEvent::Cart(cart));
    assert_eq!(
        refused_with(&a),
        CreateOrdersError::Cart(OrderCartError::DeliveryPackageNotSelected { product_id: 8, store_id: 80 })
    );
}

#[test]
fn create_orders_refuses_invalid_coupon() {
    let input = order_input(false);
    let (s, _) = order_step(&input, CreateOrdersState::new(), CreateOrdersEvent::User(Some(1)));
    let cart = vec![cart_item(7, 70, Some(DeliveryMethodId::ShippingPackage { id: 1 }), Some(3))];
    let (s, _) = order_step(&input, s, CreateOrdersEvent::Cart(cart));
    let (_, a) = order_step(&input, s, CreateOrdersEvent::Coupon(None));
    assert_eq!(refused_with(&a), CreateOrdersError::InvalidCoupon(3));
}

#[test]
fn create_orders_refuses_empty_cart() {
    let input = order_input(false);
    let (s, _) = order_step(&input, CreateOrdersState::new(), CreateOrdersEvent::User(Some(1)));
    let (s, a) = order_step(&input, s, CreateOrdersEvent::Cart(vec![]));
    assert!(matches!(a, CreateOrdersAction::ReadPrices(_)));
    let (_, a) = order_step(&input, s, CreateOrdersEvent::Prices(vec![]));
    assert_eq!(refused_with(&a), CreateOrdersError::Cart(OrderCartError::EmptyCart));
}

#[test]
fn create_orders_refuses_company_package_and_foreign_package() {
    let input = order_input(false);
    let (s, _) = order_step(&input, CreateOrdersState::new(), CreateOrdersEvent::User(Some(1)));
    let cart = vec![
        cart_item(7, 70, Some(DeliveryMethodId::ShippingPackage { id: 1 }), None),
        cart_item(8, 80, Some(DeliveryMethodId::Package { id: 2 }), None),
    ];
    let (s, _) = order_step(&input, s, CreateOrdersEvent::Cart(cart));
    let (_, a) = order_step(&input, s, CreateOrdersEvent::Prices(vec![price(1, "STQ", false), price(2, "STQ", false)]));
    assert_eq!(refused_with(&a), CreateOrdersError::Package(SelectPackageError::InvalidOrder));

    let (s, _) = order_step(&input, CreateOrdersState::new(), CreateOrdersEvent::User(Some(1)));
    let cart = vec![cart_item(7, 70, Some(DeliveryMethodId::ShippingPackage { id: 1 }), None)];
    let (s, _) = order_step(&input, s, CreateOrdersEvent::Cart(cart));
    let (s, _) = order_step(&input, s, CreateOrdersEvent::Prices(vec![price(1, "STQ", false)]));
    let (_, a) = order_step(&input, s, CreateOrdersEvent::Packages(vec![package(1, 1, 71)]));
    assert_eq!(refused_with(&a), CreateOrdersError::Package(SelectPackageError::NotInStore));
}

#[test]
fn create_orders_refuses_prices_in_different_currencies_for_fiat() {
    let input = order_input(true);
    let (s, _) = order_step(&input, CreateOrdersState::new(), CreateOrdersEvent::User(Some(1)));
    let cart = vec![
        cart_item(7, 70, Some(DeliveryMethodId::ShippingPackage { id: 1 }), None),
        cart_item(8, 70, Some(DeliveryMethodId::ShippingPackage { id: 2 }), None),
    ];
    let (s, _) = order_step(&input, s, CreateOrdersEvent::Cart(cart));
    let (s, _) = order_step(&input, s, CreateOrdersEvent::Prices(vec![price(1, "RUB", true), price(2, "EUR", true)]));
    let (s, _) = order_step(&input, s, CreateOrdersEvent::Packages(vec![package(1, 1, 70), package(2, 2, 70)]));
    let (s, _) = order_step(&input, s, CreateOrdersEvent::Customer("a@b.c".to_string()));
    let (_, a) = order_step(&input, s, CreateOrdersEvent::ProductInfo(vec!["a".to_string(), "b".to_string()]));
    assert_eq!(refused_with(&a), CreateOrdersError::Fiat(FiatPriceError::DifferentCurrencies));
}

#[test]
fn create_orders_reports_failed_service() {
    let input = order_input(false);
    let (s, _) = order_step(&input, CreateOrdersState::new(), CreateOrdersEvent::User(Some(1)));
    let (s, a) = order_step(&input, s, CreateOrdersEvent::Failed);
    assert!(s.is_done());
    assert_eq!(refused_with(&a), CreateOrdersError::ServiceFailed);
    let (_, a) = order_step(&input, s, CreateOrdersEvent::User(Some(1)));
    assert_eq!(refused_with(&a), CreateOrdersError::UnexpectedEvent);
}

fn buy_input(country: Option<&str>, coupon: Option<&str>, is_fiat: bool) -> BuyNowInput {
    BuyNowInput {
        client_mutation_id: "1".to_string(),
        product_id: 7,
        quantity: 2,
        currency: currency(if is_fiat { "EUR" } else { "STQ" }, is_fiat),
        address_full: address(),
        receiver_name: "Ann".to_string(),
        receiver_phone: "+7900".to_string(),
        coupon_code: coupon.map(|c| c.to_string()),
        shipping_id: 701,
        user_country_code: country.map(|c| c.to_string()),
        uuid: "u-2".to_string(),
    }
}

type BuyStep = (BuyNowPhase<String, String>, BuyNowAction<String, String>);

fn buy_step(input: &BuyNowInput, state: BuyNowPhase<String, String>, event: BuyNowEvent<String, String>) -> BuyStep {
    buy_now_step(input, &currency("RUB", true), state, event)
}

fn bought() -> BoughtProduct<String> {
    BoughtProduct { base_product_id: 70, pre_order: true, pre_order_days: 5, info: "seven".to_string() }
}

fn buy_refused_with(action: &BuyNowAction<String, String>) -> BuyNowError {
    match action {
        BuyNowAction::Refuse(e) => *e,
        other => panic!("not refused: {:?}", other),
    }
}

fn buy_until_product(input: &BuyNowInput, seller_price: SellerPrice) -> BuyStep {
    let (s, a) = buy_step(input, BuyNowPhase::Start, BuyNowEvent::User(Some(42)));
    assert!(matches!(a, BuyNowAction::ReadSellerPrice(7)));
    let (s, a) = buy_step(input, s, BuyNowEvent::Price(seller_price));
    assert!(matches!(a, BuyNowAction::ReadStoreId(7)));
    let (s, a) = buy_step(input, s, BuyNowEvent::StoreId(9));
    assert!(matches!(a, BuyNowAction::ReadProduct(7)));
    buy_step(input, s, BuyNowEvent::Product(bought()))
}

#[test]
fn buy_now_priced_for_country_sends_order_for_shipping_store_in_seller_currency() {
    let input = buy_input(Some("RUS"), Some("SALE"), true);
    let (s, a) = buy_until_product(&input, price(3, "RUB", true));
    match &a {
        BuyNowAction::ReadPricedPackage { base_product_id, shipping_id, user_country_code } => {
            assert_eq!((*base_product_id, *shipping_id, user_country_code.as_str()), (70, 701, "RUS"));
        }
        other => panic!("{:?}", other),
    }
    let (s, a) = buy_step(&input, s, BuyNowEvent::PricedPackage { shipping_store_id: 11, package: Some(package(1, 701, 11)) });
    match &a {
        BuyNowAction::CheckCoupon { code, store_id } => assert_eq!((code.as_str(), *store_id), ("SALE", 9)),
        other => panic!("{:?}", other),
    }
    let products = vec![CouponProduct { id: 7, has_own_discount: false }];
    let (s, a) = buy_step(&input, s, BuyNowEvent::Coupon { coupon: Some("sale".to_string()), products });
    assert!(matches!(a, BuyNowAction::ReadCustomer(42)));
    let (s, a) = buy_step(&input, s, BuyNowEvent::Customer("ann@example.com".to_string()));
    assert!(matches!(s, BuyNowPhase::Done));
    match a {
        BuyNowAction::Send(o) => {
            assert_eq!(o.store_id, 11);
            assert_eq!(o.customer_id, 42);
            assert_eq!(o.currency.code, "RUB");
            assert_eq!(o.quantity, 2);
            assert_eq!((o.pre_order, o.pre_order_days), (true, 5));
            assert_eq!(o.coupon, Some("sale".to_string()));
            assert_eq!(o.delivery_info.map(|d| d.shipping_id), Some(701));
            assert_eq!(o.receiver_email, "ann@example.com");
            assert_eq!(o.product_info, "seven");
        }
        other => panic!("{:?}", other),
    }
}

#[test]
fn buy_now_keeps_crypto_currency() {
    let input = buy_input(Some("RUS"), None, false);
    let (s, _) = buy_until_product(&input, price(3, "STQ", false));
    let (s, a) = buy_step(&input, s, BuyNowEvent::PricedPackage { shipping_store_id: 11, package: Some(package(1, 701, 11)) });
    assert!(matches!(a, BuyNowAction::ReadCustomer(42)));
    let (_, a) = buy_step(&input, s, BuyNowEvent::Customer("a@b.c".to_string()));
    match a {
        BuyNowAction::Send(o) => assert_eq!(o.currency.code, "STQ"),
        other => panic!("{:?}", other),
    }
}

#[test]
fn buy_now_refuses_unauthorized_and_missing_or_foreign_packages() {
    let input = buy_input(Some("RUS"), None, false);
    let (_, a) = buy_step(&input, BuyNowPhase::Start, BuyNowEvent::User(None));
    assert_eq!(buy_refused_with(&a), BuyNowError::Unauthorized);
    let (s, _) = buy_until_product(&input, price(3, "STQ", false));
    let (_, a) = buy_step(&input, s, BuyNowEvent::PricedPackage { shipping_store_id: 11, package: None });
    assert_eq!(buy_refused_with(&a), BuyNowError::PackageNotFound);
    let (s, _) = buy_until_product(&input, price(3, "STQ", false));
    let (_, a) = buy_step(&input, s, BuyNowEvent::PricedPackage { shipping_store_id: 11, package: Some(package(1, 701, 12)) });
    assert_eq!(buy_refused_with(&a), BuyNowError::Package(SelectPackageError::NotInStore));
}

#[test]
fn buy_now_without_country_checks_store_after_customer() {
    let input = buy_input(None, Some("SALE"), false);
    let (s, a) = buy_until_product(&input, price(3, "STQ", false));
    assert!(matches!(a, BuyNowAction::CheckCoupon { .. }));
    let products = vec![CouponProduct { id: 7, has_own_discount: true }];
    let (_, a) = buy_step(&input, s.clone(), BuyNowEvent::Coupon { coupon: Some("sale".to_string()), products });
    assert_eq!(buy_refused_with(&a), BuyNowError::Coupon(CouponError::NoProductsForCoupon));
    let (_, a) = buy_step(&input, s.clone(), BuyNowEvent::Coupon { coupon: None, products: vec![] });
    assert_eq!(buy_refused_with(&a), BuyNowError::InvalidCoupon);

    let products = vec![CouponProduct { id: 7, has_own_discount: false }];
    let (s, _) = buy_step(&input, s, BuyNowEvent::Coupon { coupon: Some("sale".to_string()), products });
    let (s, a) = buy_step(&input, s, BuyNowEvent::Customer("a@b.c".to_string()));
    assert!(matches!(a, BuyNowAction::ReadPackage(701)));
    let (_, a) = buy_step(&input, s.clone(), BuyNowEvent::Package(Some(package(1, 701, 8))));
    assert_eq!(buy_refused_with(&a), BuyNowError::Package(SelectPackageError::NotInStore));
    let (_, a) = buy_step(&input, s, BuyNowEvent::Package(Some(package(1, 701, 9))));
    match a {
        BuyNowAction::Send(o) => assert_eq!(o.store_id, 9),
        other => panic!("{:?}", other),
    }
}

#[test]
fn buy_now_refuses_crypto_price_for_fiat_order() {
    let input = buy_input(None, None, true);
    let (s, _) = buy_until_product(&input, price(3, "STQ", false));
    let (s, _) = buy_step(&input, s, BuyNowEvent::Customer("a@b.c".to_string()));
    let (_, a) = buy_step(&input, s, BuyNowEvent::Package(Some(package(1, 701, 9))));
    assert_eq!(buy_refused_with(&a), BuyNowError::Fiat(FiatPriceError::NotFiat));
}

fn delivery_input(country: Option<&str>) -> SetDeliveryMethodInCartInput {
    SetDeliveryMethodInCartInput {
        client_mutation_id: "1".to_string(),
        product_id: 7,
        shipping_id: 701,
        user_country_code: country.map(|c| c.to_string()),
    }
}

fn delivery_refused_with(action: &SetDeliveryMethodAction) -> SetDeliveryMethodError {
    match action {
        SetDeliveryMethodAction::Refuse(e) => *e,
        other => panic!("not refused: {:?}", other),
    }
}

#[test]
fn set_delivery_method_checks_customer_product_then_package() {
    let input = delivery_input(Some("RUS"));
    let (_, a) = set_delivery_method_step(
        &input,
        SetDeliveryMethodState::Start,
        SetDeliveryMethodEvent::Requester { user_id: None, session_id: None },
    );
    assert_eq!(delivery_refused_with(&a), SetDeliveryMethodError::Unauthorized);

    let (s, a) = set_delivery_method_step(
        &input,
        SetDeliveryMethodState::Start,
        SetDeliveryMethodEvent::Requester { user_id: None, session_id: Some(99) },
    );
    assert!(matches!(a, SetDeliveryMethodAction::ReadProduct(7)));
    let (_, a) = set_delivery_method_step(&input, s.clone(), SetDeliveryMethodEvent::Product(None));
    assert_eq!(delivery_refused_with(&a), SetDeliveryMethodError::ProductNotFound);

    let (s, a) = set_delivery_method_step(&input, s, SetDeliveryMethodEvent::Product(Some(70)));
    assert!(matches!(a, SetDeliveryMethodAction::ReadPricedPackage { base_product_id: 70, shipping_id: 701, .. }));
    let (_, a) = set_delivery_method_step(
        &input,
        s.clone(),
        SetDeliveryMethodEvent::PricedPackage { shipping_store_id: 11, package: Some(package(1, 701, 12)) },
    );
    assert_eq!(delivery_refused_with(&a), SetDeliveryMethodError::Package(SelectPackageError::NotInStore));
    let (s, a) = set_delivery_method_step(
        &input,
        s,
        SetDeliveryMethodEvent::PricedPackage { shipping_store_id: 11, package: Some(package(1, 701, 11)) },
    );
    assert!(matches!(s, SetDeliveryMethodState::Done));
    match a {
        SetDeliveryMethodAction::SetDeliveryMethod { customer, product_id, delivery_method } => {
            assert_eq!(customer, CartCustomer::Anonymous(99));
            assert_eq!(product_id, 7);
            assert_eq!(delivery_method, DeliveryMethodId::ShippingPackage { id: 701 });
        }
        other => panic!("{:?}", other),
    }
}

#[test]
fn set_delivery_method_without_country_reads_package_by_id() {
    let input = delivery_input(None);
    let (s, _) = set_delivery_method_step(
        &input,
        SetDeliveryMethodState::Start,
        SetDeliveryMethodEvent::Requester { user_id: Some(5), session_id: None },
    );
    let (s, a) = set_delivery_method_step(&input, s, SetDeliveryMethodEvent::Product(Some(70)));
    assert!(matches!(a, SetDeliveryMethodAction::ReadPackage(701)));
    let (_, a) = set_delivery_method_step(&input, s, SetDeliveryMethodEvent::Package(None));
    assert_eq!(delivery_refused_with(&a), SetDeliveryMethodError::PackageNotFound);
}

fn increment_input(value: Option<i32>) -> IncrementInCartInput {
    IncrementInCartInput {
        client_mutation_id: "1".to_string(),
        product_id: 7,
        value,
        user_country_code: Some("RUS".to_string()),
    }
}

#[test]
fn increment_in_cart_adds_and_sets_quantity() {
    let input = increment_input(Some(3));
    let (s, a) = increment_in_cart_step(
        &input,
        IncrementState::Start,
        IncrementEvent::Requester { user_id: Some(5), session_id: Some(1) },
    );
    assert!(matches!(a, IncrementAction::ReadBaseProduct(7)));
    let base = IncrementBaseProduct { store_id: 70, currency_is_fiat: true, first_variant: Some((true, 4)) };
    let (s, a) = increment_in_cart_step(&input, s, IncrementEvent::BaseProduct(base));
    assert!(matches!(a, IncrementAction::ReadCart { customer: CartCustomer::User(5), currency_is_fiat: true }));
    let before = vec![CartItem { product_id: 7, store_id: 70, quantity: 2, selected: true, delivery_method_id: None, coupon_id: None }];
    let (s, a) = increment_in_cart_step(&input, s, IncrementEvent::Cart(before));
    match &a {
        IncrementAction::IncrementItem { customer, product_id, store_id, pre_order, pre_order_days, currency_is_fiat, user_country_code } => {
            assert_eq!(*customer, CartCustomer::User(5));
            assert_eq!((*product_id, *store_id, *pre_order, *pre_order_days, *currency_is_fiat), (7, 70, true, 4, true));
            assert_eq!(user_country_code.as_deref(), Some("RUS"));
        }
        other => panic!("{:?}", other),
    }
    let (s, a) = increment_in_cart_step(&input, s, IncrementEvent::Changed(vec![]));
    assert!(matches!(a, IncrementAction::SetQuantity { customer: CartCustomer::User(5), product_id: 7, quantity: 5 }));
    let (s, a) = increment_in_cart_step(&input, s, IncrementEvent::Changed(vec![]));
    assert!(matches!(s, IncrementState::Done));
    assert!(matches!(a, IncrementAction::ShowCart(_)));
}

#[test]
fn increment_in_cart_refuses_without_customer_or_variant() {
    let input = increment_input(None);
    let (_, a) = increment_in_cart_step(
        &input,
        IncrementState::Start,
        IncrementEvent::Requester { user_id: None, session_id: None },
    );
    assert!(matches!(a, IncrementAction::Refuse(IncrementError::Unauthorized)));
    let base = IncrementBaseProduct { store_id: 70, currency_is_fiat: false, first_variant: None };
    let (_, a) = increment_in_cart_step(
        &input,
        IncrementState::AwaitBaseProduct { customer: CartCustomer::User(1) },
        IncrementEvent::BaseProduct(base),
    );
    assert!(matches!(a, IncrementAction::Refuse(IncrementError::ProductNotInVariants)));
}

#[test]
fn relay_page_info_names_edge_cursors() {
    let cursors = vec!["a".to_string(), "b".to_string(), "c".to_string()];
    let info = relay_page_info(&cursors, true);
    assert!(info.has_next_page);
    assert!(info.has_previous_page);
    assert_eq!(info.start_cursor.as_deref(), Some("a"));
    assert_eq!(info.end_cursor.as_deref(), Some("c"));
    let empty = relay_page_info(&vec![], false);
    assert!(!empty.has_next_page);
    assert_eq!(empty.start_cursor, None);
    assert_eq!(empty.end_cursor, None);
}

#[test]
fn translated_text_language_read_from_code() {
    for l in [
        TextLanguage::English,
        TextLanguage::Chinese,
        TextLanguage::German,
        TextLanguage::Russian,
        TextLanguage::Spanish,
        TextLanguage::French,
        TextLanguage::Korean,
        TextLanguage::Portuguese,
        TextLanguage::Japanese,
    ] {
        assert_eq!(TextLanguage::from_code(l.code()).unwrap(), l);
    }
    assert_eq!(TextLanguage::from_code("de").unwrap_err().value, "de");
    assert_eq!(TextLanguage::from_code("ge").unwrap(), TextLanguage::German);
}

#[test]
fn create_orders_lists_a_shared_coupon_once() {
    let input = order_input(false);
    let (s, _) = order_step(&input, CreateOrdersState::new(), CreateOrdersEvent::User(Some(1)));
    let cart = vec![
        cart_item(7, 70, Some(DeliveryMethodId::ShippingPackage { id: 1 }), Some(5)),
        cart_item(8, 70, Some(DeliveryMethodId::ShippingPackage { id: 2 }), Some(5)),
    ];
    let (s, a) = order_step(&input, s, CreateOrdersEvent::Cart(cart));
    assert!(matches!(a, CreateOrdersAction::CheckCoupon(5)));
    let (s, a) = order_step(&input, s, CreateOrdersEvent::Coupon(Some("first".to_string())));
    assert!(matches!(a, CreateOrdersAction::CheckCoupon(5)));
    let (s, _) = order_step(&input, s, CreateOrdersEvent::Coupon(Some("second".to_string())));
    let (s, _) = order_step(&input, s, CreateOrdersEvent::Prices(vec![price(1, "STQ", false), price(2, "STQ", false)]));
    let (s, _) = order_step(&input, s, CreateOrdersEvent::Packages(vec![package(1, 1, 70), package(2, 2, 70)]));
    let (s, _) = order_step(&input, s, CreateOrdersEvent::Customer("a@b.c".to_string()));
    let (_, a) = order_step(&input, s, CreateOrdersEvent::ProductInfo(vec!["a".to_string(), "b".to_string()]));
    match a {
        CreateOrdersAction::Send(o) => assert_eq!(o.coupons, HashMap::from([(5, "second".to_string())])),
        other => panic!("{:?}", other),
    }
}

#[test]
fn set_delivery_method_refuses_package_answer_of_the_other_kind() {
    let priced = delivery_input(Some("RUS"));
    let customer = CartCustomer::User(1);
    let (_, a) = set_delivery_method_step(
        &priced,
        SetDeliveryMethodState::AwaitPackage { customer },
        SetDeliveryMethodEvent::Package(Some(package(1, 701, 11))),
    );
    assert_eq!(delivery_refused_with(&a), SetDeliveryMethodError::UnexpectedEvent);
    let plain = delivery_input(None);
    let (_, a) = set_delivery_method_step(
        &plain,
        SetDeliveryMethodState::AwaitPackage { customer },
        SetDeliveryMethodEvent::PricedPackage { shipping_store_id: 11, package: Some(package(1, 701, 11)) },
    );
    assert_eq!(delivery_refused_with(&a), SetDeliveryMethodError::UnexpectedEvent);
}

#[test]
fn relay_search_page_drops_extra_item() {
    let items = vec![10, 20, 30, 40];
    let cursors = vec!["a".to_string(), "b".to_string(), "c".to_string(), "d".to_string()];
    let page = relay_search_page(items, cursors, 3);
    assert!(page.page_info.has_next_page);
    assert!(page.page_info.has_previous_page);
    assert_eq!(page.edges, vec![("a".to_string(), 10), ("b".to_string(), 20), ("c".to_string(), 30)]);
    assert_eq!(page.page_info.start_cursor.as_deref(), Some("a"));
    assert_eq!(page.page_info.end_cursor.as_deref(), Some("c"));
    let page = relay_search_page(vec![10, 20, 30], vec!["a".to_string(), "b".to_string(), "c".to_string()], 3);
    assert!(!page.page_info.has_next_page);
    assert_eq!(page.edges.len(), 3);
    assert_eq!(page.page_info.end_cursor.as_deref(), Some("c"));
    let empty = relay_search_page(Vec::<i32>::new(), vec![], 3);
    assert_eq!(empty.page_info.start_cursor, None);
    assert_eq!(search_offset(Some(17)), 17);
    assert_eq!(search_offset(None), 0);
}

#[test]
fn segment_page_counts_pages() {
    let segment = PageSegment { current_page: 2, items_count: 10, skip: 10 };
    let page = segment_page(vec![1, 2], vec!["1|subscription_payment".to_string(), "2|subscription_payment".to_string()], segment, 21);
    assert_eq!(page.edges[1], ("2|subscription_payment".to_string(), 2));
    assert_eq!(page.page_info, PageInfoSegments { current_page: 2, page_items_count: 10, total_pages: 3 });
    let page = segment_page(Vec::<i32>::new(), vec![], segment, 0);
    assert_eq!(page.page_info.total_pages, 1);
}

#[test]
fn remove_delivery_method_checks_customer_then_product() {
    let (_, a) = remove_delivery_method_step(
        7,
        RemoveDeliveryMethodState::Start,
        RemoveDeliveryMethodEvent::Requester { user_id: None, session_id: None },
    );
    assert_eq!(a, RemoveDeliveryMethodAction::Refuse(RemoveDeliveryMethodError::Unauthorized));
    let (s, a) = remove_delivery_method_step(
        7,
        RemoveDeliveryMethodState::Start,
        RemoveDeliveryMethodEvent::Requester { user_id: Some(3), session_id: None },
    );
    assert_eq!(a, RemoveDeliveryMethodAction::ReadProduct(7));
    let (_, a) = remove_delivery_method_step(7, s, RemoveDeliveryMethodEvent::Product(false));
    assert_eq!(a, RemoveDeliveryMethodAction::Refuse(RemoveDeliveryMethodError::ProductNotFound));
    let (s, a) = remove_delivery_method_step(7, s, RemoveDeliveryMethodEvent::Product(true));
    assert_eq!(s, RemoveDeliveryMethodState::Done);
    assert_eq!(a, RemoveDeliveryMethodAction::RemoveDeliveryMethod { customer: CartCustomer::User(3), product_id: 7 });
}

fn store_update(slug: Option<&str>) -> UpdateStoreInput {
    UpdateStoreInput {
        client_mutation_id: "1".to_string(),
        id: "store_5".to_string(),
        name: None,
        short_description: None,
        long_description: None,
        slug: slug.map(|s| s.to_string()),
        cover: None,
        logo: None,
        phone: None,
        email: None,
        address: None,
        facebook_url: None,
        twitter_url: None,
        instagram_url: None,
        default_language: None,
        slogan: None,
        rating: None,
        country: None,
    }
}

#[test]
fn update_store_refuses_nothing_then_asks_service() {
    let (s, a) = update_store_step(&store_update(None), 5, UpdateStoreState::Start, UpdateStoreEvent::Begin);
    assert_eq!(s, UpdateStoreState::Done);
    assert!(matches!(a, UpdateStoreAction::Refuse(UpdateStoreError::NothingToUpdate)));
    let input = store_update(Some("shop"));
    let (s, a) = update_store_step(&input, 5, UpdateStoreState::Start, UpdateStoreEvent::Begin);
    assert!(matches!(a, UpdateStoreAction::ValidateUpdate(5)));
    let (_, a) = update_store_step(&input, 5, s, UpdateStoreEvent::Validated(true));
    assert!(matches!(a, UpdateStoreAction::SendUpdate(5)));
    let (s, a) = update_store_step(&input, 5, s, UpdateStoreEvent::Validated(false));
    assert!(matches!(a, UpdateStoreAction::ReadStore(5)));
    let (_, a) = update_store_step(&input, 5, s, UpdateStoreEvent::Store { store_id: 5, status: "blocked".to_string() });
    match a {
        UpdateStoreAction::Refuse(UpdateStoreError::CannotBeChanged { store_id, status }) => {
            assert_eq!((store_id, status.as_str()), (5, "blocked"));
        }
        other => panic!("{:?}", other),
    }
}

#[test]
fn warehouse_update_data_sets_given_fields() {
    let mut addr = address();
    addr.value = Some("Tverskaya 1".to_string());
    let input = UpdateWarehouseInput {
        client_mutation_id: "1".to_string(),
        id: "w".to_string(),
        name: Some("Main".to_string()),
        location: Some(GeoPointInput { x: 1, y: 2 }),
        address_full: addr,
        slug: None,
    };
    let data = WarehouseUpdateData::from(input);
    assert_eq!(data.name, Some(Some("Main".to_string())));
    assert_eq!(data.location, Some(Some(GeoPointInput { x: 1, y: 2 })));
    assert_eq!(data.country_code, Some(Some("RUS".to_string())));
    assert_eq!(data.address, Some(Some("Tverskaya 1".to_string())));
    assert_eq!(data.route, None);
    assert_eq!(data.slug, None);
    let create = CreateWarehouseInput {
        client_mutation_id: "1".to_string(),
        name: Some("Main".to_string()),
        slug: Some("main".to_string()),
        store_id: 4,
        location: None,
        address_full: address(),
    };
    let w = create.into_warehouse_input(99);
    assert_eq!((w.id, w.store_id, w.name.as_deref(), w.locality.as_deref()), (99, 4, Some("Main"), Some("Moscow")));
}

#[test]
fn product_stocks_fill_missing_warehouses() {
    let found = vec![Some(Stock { id: 1, product_id: 7, warehouse_id: 100, quantity: 5 }), None];
    let stocks = product_stocks(7, &vec![100, 200], &found, &vec![11, 22]);
    assert_eq!(stocks[0].quantity, 5);
    assert_eq!(stocks[1], Stock { id: 22, product_id: 7, warehouse_id: 200, quantity: 0 });
}

fn checkout_input(country: Option<&str>, coupon: Option<&str>, shipping_id: Option<i32>) -> CalculateBuyNowInput {
    CalculateBuyNowInput {
        product_id: 7,
        quantity: 2,
        user_country_code: country.map(|c| c.to_string()),
        coupon_code: coupon.map(|c| c.to_string()),
        shipping_id,
    }
}

type CheckoutStep = (CheckoutPhase<String, String>, CheckoutAction<String, String>);

fn checkout(input: &CalculateBuyNowInput, s: CheckoutPhase<String, String>, e: CheckoutEvent<String, String>) -> CheckoutStep {
    calculate_buy_now_step(input, s, e)
}

#[test]
fn calculate_buy_now_priced_reads_package_then_coupon() {
    let input = checkout_input(Some("RUS"), Some("SALE"), Some(701));
    let (s, a) = checkout(&input, CheckoutPhase::Start, CheckoutEvent::Begin);
    assert!(matches!(a, CheckoutAction::ReadStoreId(7)));
    let (s, a) = checkout(&input, s, CheckoutEvent::StoreId(9));
    assert!(matches!(a, CheckoutAction::ReadProduct(7)));
    let (s, a) = checkout(&input, s, CheckoutEvent::Product { base_product_id: 70, product: "seven".to_string() });
    assert!(matches!(a, CheckoutAction::ReadPricedPackage { base_product_id: 70, shipping_id: 701, .. }));
    let (s, a) = checkout(&input, s, CheckoutEvent::PricedPackage { shipping_store_id: 9, package: Some(package(1, 701, 9)) });
    assert!(matches!(a, CheckoutAction::CheckCoupon { store_id: 9, .. }));
    let products = vec![CouponProduct { id: 7, has_own_discount: false }];
    let (_, a) = checkout(&input, s, CheckoutEvent::Coupon { coupon: Some("sale".to_string()), products });
    match a {
        CheckoutAction::Show(c) => {
            assert_eq!((c.quantity, c.product.as_str(), c.coupon.as_deref()), (2, "seven", Some("sale")));
            assert_eq!(c.package.map(|p| p.shipping_id), Some(701));
            assert_eq!(c.user_country_code.as_deref(), Some("RUS"));
        }
        other => panic!("{:?}", other),
    }
}

#[test]
fn calculate_buy_now_without_country_reads_package_last() {
    let input = checkout_input(None, None, Some(701));
    let (s, _) = checkout(&input, CheckoutPhase::Start, CheckoutEvent::Begin);
    let (s, _) = checkout(&input, s, CheckoutEvent::StoreId(9));
    let (s, a) = checkout(&input, s, CheckoutEvent::Product { base_product_id: 70, product: "seven".to_string() });
    assert!(matches!(a, CheckoutAction::ReadPackage(701)));
    let (_, a) = checkout(&input, s.clone(), CheckoutEvent::Package(None));
    assert!(matches!(a, CheckoutAction::Refuse(BuyNowError::PackageNotFound)));
    let (_, a) = checkout(&input, s, CheckoutEvent::Package(Some(package(1, 701, 3))));
    assert!(matches!(a, CheckoutAction::Show(_)));
    let no_package = checkout_input(Some("RUS"), None, None);
    let (s, _) = checkout(&no_package, CheckoutPhase::Start, CheckoutEvent::Begin);
    let (s, _) = checkout(&no_package, s, CheckoutEvent::StoreId(9));
    let (_, a) = checkout(&no_package, s, CheckoutEvent::Product { base_product_id: 70, product: "seven".to_string() });
    match a {
        CheckoutAction::Show(c) => assert!(c.package.is_none()),
        other => panic!("{:?}", other),
    }
}

use gateway::cart::{
    cart_total_count, check_cart_for_order, get_cart_query, get_customer, initial_quantity,
    quantity_to_set, selected_shipping_id, validate_products_fiat, validate_select_package,
    CartCustomer, CartError, CartItem, CartQuery, DeliveryMethodId, FiatPriceError,
    OrderCartError, PriceCurrency, SelectPackageError,
};
use gateway::coupon::{
    coupon_cart_products, coupon_supports_product, coupon_to_delete, CouponError, CouponProduct, CouponRef,
};
use gateway::order::delivery_comment;
use gateway::paging::{
    offset_after_cursor, orders_page, page_segment, page_slice, relay_count, total_pages,
    trim_relay_page, PageSegment,
};
use gateway::pricing::{delivery_charged, price_rule, user_currency, PriceRule};

fn item(product_id: i32, store_id: i32, quantity: i32, selected: bool, dm: Option<DeliveryMethodId>) -> CartItem {
    CartItem { product_id, store_id, quantity, selected, delivery_method_id: dm, coupon_id: None }
}

#[test]
fn page_segment_bounds_and_skip() {
    assert_eq!(page_segment(3, 20, 100), PageSegment { current_page: 3, items_count: 20, skip: 40 });
    assert_eq!(page_segment(0, 20, 100), PageSegment { current_page: 1, items_count: 20, skip: 0 });
    assert_eq!(page_segment(2, 500, 100), PageSegment { current_page: 2, items_count: 100, skip: 100 });
    assert_eq!(page_segment(2, -5, 100), PageSegment { current_page: 2, items_count: 1, skip: 1 });
}

#[test]
fn segments_are_adjacent() {
    let a = page_segment(4, 10, 50);
    let b = page_segment(5, 10, 50);
    assert_eq!(b.skip, a.skip + a.items_count);
}

#[test]
fn total_pages_values() {
    assert_eq!(total_pages(0, 10), 1);
    assert_eq!(total_pages(1, 10), 1);
    assert_eq!(total_pages(10, 10), 1);
    assert_eq!(total_pages(11, 10), 2);
    assert_eq!(total_pages(95, 10), 10);
}

#[test]
fn total_pages_cover_items() {
    for total in 0i64..60 {
        for per_page in 1i32..12 {
            let pages = total_pages(total, per_page) as i64;
            let items = total.max(1);
            assert!((pages - 1) * per_page as i64 <= items - 1);
            assert!(items <= pages * per_page as i64);
        }
    }
}

#[test]
fn relay_count_values() {
    assert_eq!(relay_count(None, 100), 100);
    assert_eq!(relay_count(Some(10), 100), 10);
    assert_eq!(relay_count(Some(1000), 100), 100);
}

#[test]
fn relay_page_trimmed() {
    let mut edges = vec![1, 2, 3, 4];
    assert!(trim_relay_page(&mut edges, 3));
    assert_eq!(edges, vec![1, 2, 3]);
    let mut short = vec![1, 2];
    assert!(!trim_relay_page(&mut short, 3));
    assert_eq!(short, vec![1, 2]);
}

#[test]
fn customer_choice() {
    assert_eq!(get_customer(Some(5), Some(9)), Some(CartCustomer::User(5)));
    assert_eq!(get_customer(None, Some(9)), Some(CartCustomer::Anonymous(9)));
    assert_eq!(get_customer(None, None), None);
}

#[test]
fn cart_query_choice() {
    assert_eq!(get_cart_query(Some(5), Some(9)).unwrap(), CartQuery::Merge { from: 9, to: 5 });
    assert_eq!(get_cart_query(None, Some(9)).unwrap(), CartQuery::Get(CartCustomer::Anonymous(9)));
    assert_eq!(get_cart_query(Some(5), None).unwrap(), CartQuery::Get(CartCustomer::User(5)));
    assert_eq!(get_cart_query(None, None).unwrap_err(), CartError::NoUserOrSession);
}

#[test]
fn quantities_in_cart() {
    let cart = vec![item(1, 1, 3, true, None), item(2, 1, 5, false, None)];
    assert_eq!(initial_quantity(&cart, 2), 5);
    assert_eq!(initial_quantity(&cart, 7), 0);
    assert_eq!(quantity_to_set(&cart, 1, Some(2)), Some(5));
    assert_eq!(quantity_to_set(&cart, 9, Some(2)), Some(2));
    assert_eq!(quantity_to_set(&cart, 1, None), None);
}

#[test]
fn total_count_counts_selected_items() {
    let stores = vec![
        vec![item(1, 1, 3, true, None), item(2, 1, 5, false, None)],
        vec![item(3, 2, 4, true, None)],
        vec![],
    ];
    assert_eq!(cart_total_count(&stores), 7);
    assert_eq!(cart_total_count(&vec![]), 0);
}

#[test]
fn cart_checks_for_order() {
    let ship = Some(DeliveryMethodId::ShippingPackage { id: 1 });
    assert!(check_cart_for_order(&vec![item(1, 1, 1, true, ship)]).is_ok());
    assert_eq!(check_cart_for_order(&vec![]).unwrap_err(), OrderCartError::EmptyCart);
    assert_eq!(
        check_cart_for_order(&vec![item(1, 1, 1, true, ship), item(2, 8, 1, true, None), item(3, 9, 1, true, None)])
            .unwrap_err(),
        OrderCartError::DeliveryPackageNotSelected { product_id: 2, store_id: 8 }
    );
}

#[test]
fn package_checks() {
    assert!(validate_select_package(4, 4).is_ok());
    assert_eq!(validate_select_package(4, 5).unwrap_err(), SelectPackageError::NotInStore);
    assert_eq!(selected_shipping_id(DeliveryMethodId::ShippingPackage { id: 12 }).unwrap(), 12);
    assert_eq!(
        selected_shipping_id(DeliveryMethodId::Package { id: 12 }).unwrap_err(),
        SelectPackageError::InvalidOrder
    );
    assert_eq!(
        selected_shipping_id(DeliveryMethodId::Pickup { id: 12 }).unwrap_err(),
        SelectPackageError::NotSupported
    );
}

#[test]
fn fiat_checks() {
    let c = |code: &str, is_fiat: bool| PriceCurrency { code: code.to_string(), is_fiat };
    assert!(validate_products_fiat(&vec![]).is_ok());
    assert!(validate_products_fiat(&vec![c("usd", true), c("usd", true)]).is_ok());
    assert_eq!(validate_products_fiat(&vec![c("btc", false)]).unwrap_err(), FiatPriceError::NotFiat);
    assert_eq!(
        validate_products_fiat(&vec![c("usd", true), c("eur", true)]).unwrap_err(),
        FiatPriceError::DifferentCurrencies
    );
}

#[test]
fn coupon_product_checks() {
    let products = vec![
        CouponProduct { id: 1, has_own_discount: true },
        CouponProduct { id: 2, has_own_discount: false },
    ];
    assert!(coupon_supports_product(&products, 2).is_ok());
    assert_eq!(coupon_supports_product(&products, 1).unwrap_err(), CouponError::NoProductsForCoupon);
    assert_eq!(coupon_supports_product(&products, 3).unwrap_err(), CouponError::NoProductsForCoupon);
}

#[test]
fn price_rules() {
    assert_eq!(price_rule(0, true, true), PriceRule::Nothing);
    assert_eq!(price_rule(2, true, true), PriceRule::ProductDiscount);
    assert_eq!(price_rule(2, false, true), PriceRule::CouponOnOneItem);
    assert_eq!(price_rule(2, false, false), PriceRule::Plain);
    assert!(delivery_charged(1, true));
    assert!(!delivery_charged(0, true));
    assert!(!delivery_charged(3, false));
}

#[test]
fn user_currency_choice() {
    assert_eq!(user_currency(true, Some("eth"), Some("eur"), "btc"), "eth");
    assert_eq!(user_currency(false, Some("eth"), Some("eur"), "usd"), "eur");
    assert_eq!(user_currency(false, Some("eth"), None, "usd"), "usd");
    assert_eq!(user_currency(true, None, Some("eur"), "btc"), "btc");
}

#[test]
fn page_slices() {
    assert_eq!(page_slice(vec![1, 2, 3, 4, 5], 1, 2), vec![2, 3]);
    assert_eq!(page_slice(vec![1, 2, 3], 2, 5), vec![3]);
    assert_eq!(page_slice(vec![1, 2, 3], 7, 2), Vec::<i32>::new());
    assert_eq!(page_slice(vec![1, 2, 3], -1, 2), Vec::<i32>::new());
    assert_eq!(page_slice(vec![1, 2, 3], 0, -1), vec![1, 2, 3]);
    assert_eq!(orders_page(vec![1, 2, 3, 4, 5, 6, 7], 2, 3, 100), vec![4, 5, 6]);
    assert_eq!(orders_page(vec![1, 2, 3, 4, 5, 6, 7], 2, 3, 2), vec![4, 5]);
    assert_eq!(offset_after_cursor(Some(4)), 5);
    assert_eq!(offset_after_cursor(None), 0);
}

#[test]
fn coupon_set_in_cart_products() {
    let cart = vec![
        item(1, 1, 1, true, None),
        item(2, 1, 1, true, None),
        item(1, 1, 2, true, None),
        item(4, 2, 1, true, None),
    ];
    let products = vec![
        CouponProduct { id: 1, has_own_discount: false },
        CouponProduct { id: 2, has_own_discount: true },
        CouponProduct { id: 3, has_own_discount: false },
        CouponProduct { id: 4, has_own_discount: false },
    ];
    assert_eq!(coupon_cart_products(&cart, 10, &products).unwrap(), [1, 4].into_iter().collect::<std::collections::HashSet<i32>>());
    let mut applied = cart.clone();
    applied[3].coupon_id = Some(10);
    assert_eq!(coupon_cart_products(&applied, 10, &products).unwrap_err(), CouponError::AlreadyApplied);
    let only_discounted = vec![CouponProduct { id: 2, has_own_discount: true }];
    assert_eq!(
        coupon_cart_products(&cart, 10, &only_discounted).unwrap_err(),
        CouponError::NoProductsForCoupon
    );
}

#[test]
fn coupon_to_delete_choice() {
    assert!(matches!(coupon_to_delete(Some(3), Some("X")), Ok(CouponRef::Id(3))));
    assert!(matches!(coupon_to_delete(None, Some("X")), Ok(CouponRef::ByCode("X"))));
    assert!(matches!(coupon_to_delete::<&str>(None, None), Err(CouponError::CouponNotIdentified)));
}

#[test]
fn delivery_comments() {
    assert_eq!(
        delivery_comment(Some("left at door".to_string()), &Some("TR1".to_string())).as_deref(),
        Some("left at door | Track id: TR1")
    );
    assert_eq!(delivery_comment(None, &Some("TR1".to_string())).as_deref(), Some("Track id: TR1"));
    assert_eq!(delivery_comment(Some("c".to_string()), &None).as_deref(), Some("c"));
    assert_eq!(delivery_comment(None, &None), None);
}

//! Carts: whose cart a request reads, how many items a cart holds, which
//! quantity an increment sets, and the checks that a cart and its chosen
//! delivery packages pass before orders are made from it.
use vstd::prelude::*;
use crate::strings::str_equal;
use crate::delivery::AvailablePackageForUser;

verus! {

/// The owner of a cart: a signed-in user, or an anonymous session.
#[derive(Debug, Clone, Copy, PartialEq, Eq, Structural)]
pub enum CartCustomer {
    /// A user, by id.
    User(i32),
    /// An anonymous session, by its UUID as a 128-bit number.
    Anonymous(u128),
}

/// The customer whose cart a request changes.
pub open spec fn get_customer_spec(user_id: Option<i32>, session_id: Option<u128>) -> Option<CartCustomer> {
    match user_id {
        Some(u) => Some(CartCustomer::User(u)),
        None => match session_id {
            Some(s) => Some(CartCustomer::Anonymous(s)),
            None => None,
        },
    }
}

/// The customer whose cart a request changes: the signed-in user where
/// there is one, else the request's session, else nobody.
pub fn get_customer(user_id: Option<i32>, session_id: Option<u128>) -> (r: Option<CartCustomer>)
    ensures
        r == (match user_id {
            Some(u) => Some(CartCustomer::User(u)),
            None => match session_id {
                Some(s) => Some(CartCustomer::Anonymous(s)),
                None => None,
            },
        }),
{
    match user_id {
        Some(u) => Some(CartCustomer::User(u)),
        None => match session_id {
            Some(s) => Some(CartCustomer::Anonymous(s)),
            None => None,
        },
    }
}

/// How a request's cart is read from the orders service.
#[derive(Debug, Clone, Copy, PartialEq, Eq, Structural)]
pub enum CartQuery {
    /// Merge the session's cart into the user's, and read the result.
    Merge {
        /// The session whose cart is merged.
        from: u128,
        /// The user whose cart receives it.
        to: i32,
    },
    /// Read this customer's cart.
    Get(CartCustomer),
}

/// Why a cart request is refused.
#[derive(Debug, Clone, Copy, PartialEq, Eq, Structural)]
pub enum CartError {
    /// The request has neither a user id nor a session id.
    NoUserOrSession,
}

/// How the cart of a request is read: a signed-in user with a session has
/// the session's cart merged into theirs; otherwise the session's or the
/// user's cart is read; a request with neither is refused.
pub fn get_cart_query(user_id: Option<i32>, session_id: Option<u128>) -> (r: Result<
    CartQuery,
    CartError,
>)
    ensures
        r == (match session_id {
            Some(s) => match user_id {
                Some(u) => Ok(CartQuery::Merge { from: s, to: u }),
                None => Ok(CartQuery::Get(CartCustomer::Anonymous(s))),
            },
            None => match user_id {
                Some(u) => Ok(CartQuery::Get(CartCustomer::User(u))),
                None => Err(CartError::NoUserOrSession),
            },
        }),
{
    match session_id {
        Some(s) => match user_id {
            Some(u) => Ok(CartQuery::Merge { from: s, to: u }),
            None => Ok(CartQuery::Get(CartCustomer::Anonymous(s))),
        },
        None => match user_id {
            Some(u) => Ok(CartQuery::Get(CartCustomer::User(u))),
            None => Err(CartError::NoUserOrSession),
        },
    }
}

/// How a cart item is to be delivered.
#[derive(Debug, Clone, Copy, PartialEq, Eq, Structural)]
pub enum DeliveryMethodId {
    /// A company package, by id (the older way of choosing a delivery).
    Package {
        /// Company package id.
        id: i32,
    },
    /// A shipping package, by shipping id.
    ShippingPackage {
        /// Shipping id.
        id: i32,
    },
    /// Pickup, by id.
    Pickup {
        /// Pickup id.
        id: i32,
    },
}

/// An item of a cart.
#[derive(Debug, Clone, Copy, PartialEq, Eq, Structural)]
pub struct CartItem {
    /// Product id.
    pub product_id: i32,
    /// Store id.
    pub store_id: i32,
    /// Quantity.
    pub quantity: i32,
    /// Whether the item is selected for ordering.
    pub selected: bool,
    /// Chosen delivery, if any.
    pub delivery_method_id: Option<DeliveryMethodId>,
    /// Applied coupon, if any.
    pub coupon_id: Option<i32>,
}

/// The quantity of a product in a cart: that of the first item of that
/// product, or zero where there is none.
pub open spec fn quantity_in_cart(items: Seq<CartItem>, product_id: i32) -> int
    decreases items.len(),
{
    if items.len() == 0 {
        0
    } else if items[0].product_id == product_id {
        items[0].quantity as int
    } else {
        quantity_in_cart(items.drop_first(), product_id)
    }
}

/// The quantity of a product in a cart.
pub fn initial_quantity(items: &Vec<CartItem>, product_id: i32) -> (r: i32)
    ensures
        r == quantity_in_cart(items@, product_id),
{
    let mut i: usize = 0;
    assert(items@.skip(0) =~= items@);
    while i < items.len()
        invariant
            0 <= i <= items@.len(),
            quantity_in_cart(items@, product_id) == quantity_in_cart(items@.skip(i as int), product_id),
        decreases items@.len() - i,
    {
        assert(items@.skip(i as int).drop_first() =~= items@.skip(i + 1));
        if items[i].product_id == product_id {
            return items[i].quantity;
        }
        i = i + 1;
    }
    assert(items@.skip(i as int) =~= Seq::<CartItem>::empty());
    0
}

/// The quantity to set after adding a product to a cart: where a value is
/// given, the quantity the cart held before the addition plus that value;
/// where none is, the addition stands as it is and nothing is set.
pub fn quantity_to_set(items_before: &Vec<CartItem>, product_id: i32, value: Option<i32>) -> (r:
    Option<i32>)
    requires
        value matches Some(v) ==> i32::MIN <= quantity_in_cart(items_before@, product_id) + v
            <= i32::MAX,
    ensures
        r == (match value {
            Some(v) => Some((quantity_in_cart(items_before@, product_id) + v) as i32),
            None => None::<i32>,
        }),
{
    match value {
        Some(v) => {
            let init: i32 = initial_quantity(items_before, product_id);
            Some(init + v)
        },
        None => None,
    }
}

/// The sum of the quantities of the selected items among the first `k`.
pub open spec fn selected_quantity(items: Seq<CartItem>, k: int) -> int
    decreases k,
{
    if k <= 0 {
        0
    } else {
        selected_quantity(items, k - 1) + (if items[k - 1].selected {
            items[k - 1].quantity as int
        } else {
            0
        })
    }
}

/// The sum over the first `k` stores of their selected quantities.
pub open spec fn stores_quantity(stores: Seq<Vec<CartItem>>, k: int) -> int
    decreases k,
{
    if k <= 0 {
        0
    } else {
        stores_quantity(stores, k - 1) + selected_quantity(stores[k - 1]@, stores[k - 1]@.len() as int)
    }
}

/// Every running sum, as a cart's items are counted store by store, fits
/// in an `i32`.
pub open spec fn running_counts_fit(stores: Seq<Vec<CartItem>>) -> bool {
    &&& forall|s: int, k: int|
        0 <= s < stores.len() && 0 <= k <= stores[s]@.len() ==> i32::MIN <= #[trigger] selected_quantity(
            stores[s]@,
            k,
        ) <= i32::MAX
    &&& forall|k: int| 0 <= k <= stores.len() ==> i32::MIN <= #[trigger] stores_quantity(stores, k) <= i32::MAX
}

/// The number of products in a store's part of a cart: the quantities of
/// its selected items.
pub fn cart_store_total_count(products: &Vec<CartItem>) -> (r: i32)
    requires
        forall|k: int|
            0 <= k <= products@.len() ==> i32::MIN <= #[trigger] selected_quantity(products@, k)
                <= i32::MAX,
    ensures
        r == selected_quantity(products@, products@.len() as int),
{
    let mut store_total: i32 = 0;
    let mut k: usize = 0;
    while k < products.len()
        invariant
            0 <= k <= products@.len(),
            forall|j: int|
                0 <= j <= products@.len() ==> i32::MIN <= #[trigger] selected_quantity(products@, j)
                    <= i32::MAX,
            store_total == selected_quantity(products@, k as int),
        decreases products@.len() - k,
    {
        assert(i32::MIN <= selected_quantity(products@, k + 1) <= i32::MAX);
        if products[k].selected {
            store_total = store_total + products[k].quantity;
        }
        k = k + 1;
    }
    store_total
}

/// The number of products in a cart: the quantities of its selected items,
/// summed store by store.
pub fn cart_total_count(stores: &Vec<Vec<CartItem>>) -> (r: i32)
    requires
        running_counts_fit(stores@),
    ensures
        r == stores_quantity(stores@, stores@.len() as int),
{
    let mut total: i32 = 0;
    let mut s: usize = 0;
    while s < stores.len()
        invariant
            0 <= s <= stores@.len(),
            running_counts_fit(stores@),
            total == stores_quantity(stores@, s as int),
        decreases stores@.len() - s,
    {
        let store_total: i32 = cart_store_total_count(&stores[s]);
        assert(i32::MIN <= stores_quantity(stores@, s + 1) <= i32::MAX);
        total = total + store_total;
        s = s + 1;
    }
    total
}

/// Why a cart cannot become orders.
#[derive(Debug, Clone, Copy, PartialEq, Eq, Structural)]
pub enum OrderCartError {
    /// This item has no delivery package chosen.
    DeliveryPackageNotSelected {
        /// Its product id.
        product_id: i32,
        /// Its store id.
        store_id: i32,
    },
    /// The cart holds no product.
    EmptyCart,
}

/// Checks that a cart can become orders: every item must have a delivery
/// package chosen (the first item without one, in the order given, is
/// reported), and the cart must not be empty.
pub fn check_cart_for_order(items: &Vec<CartItem>) -> (r: Result<(), OrderCartError>)
    ensures
        match r {
            Ok(()) => items@.len() > 0 && forall|i: int|
                0 <= i < items@.len() ==> items@[i].delivery_method_id is Some,
            Err(OrderCartError::DeliveryPackageNotSelected { product_id, store_id }) => exists|
                i: int,
            |
                0 <= i < items@.len() && items@[i].delivery_method_id is None && items@[i].product_id
                    == product_id && items@[i].store_id == store_id && forall|j: int|
                    0 <= j < i ==> items@[j].delivery_method_id is Some,
            Err(OrderCartError::EmptyCart) => items@.len() == 0,
        },
{
    let mut i: usize = 0;
    while i < items.len()
        invariant
            0 <= i <= items@.len(),
            forall|j: int| 0 <= j < i ==> items@[j].delivery_method_id is Some,
        decreases items@.len() - i,
    {
        if items[i].delivery_method_id.is_none() {
            return Err(
                OrderCartError::DeliveryPackageNotSelected {
                    product_id: items[i].product_id,
                    store_id: items[i].store_id,
                },
            );
        }
        i = i + 1;
    }
    if items.len() == 0 {
        Err(OrderCartError::EmptyCart)
    } else {
        Ok(())
    }
}

/// Why a chosen delivery package is refused.
#[derive(Debug, Clone, Copy, PartialEq, Eq, Structural)]
pub enum SelectPackageError {
    /// The package belongs to another store than the product.
    NotInStore,
    /// The delivery was chosen the older way, by company package: the order
    /// must be made anew.
    InvalidOrder,
    /// The delivery method is not one that packages are chosen for.
    NotSupported,
}

/// Checks that a delivery package belongs to the store of the product that
/// it is chosen for.
pub fn validate_select_package(product_store_id: i32, package_store_id: i32) -> (r: Result<
    (),
    SelectPackageError,
>)
    ensures
        r is Ok <==> product_store_id == package_store_id,
        r is Err ==> r == Err::<(), SelectPackageError>(SelectPackageError::NotInStore),
{
    if product_store_id != package_store_id {
        Err(SelectPackageError::NotInStore)
    } else {
        Ok(())
    }
}

/// The shipping id of a chosen delivery: only a shipping package has one;
/// a company package was the older way of choosing and is refused as an
/// invalid order, pickup as not supported.
pub open spec fn shipping_id_of(delivery_method: DeliveryMethodId) -> Result<i32, SelectPackageError> {
    match delivery_method {
        DeliveryMethodId::ShippingPackage { id } => Ok(id),
        DeliveryMethodId::Package { .. } => Err(SelectPackageError::InvalidOrder),
        DeliveryMethodId::Pickup { .. } => Err(SelectPackageError::NotSupported),
    }
}

/// The shipping id of a chosen delivery: only a shipping package has one.
pub fn selected_shipping_id(delivery_method: DeliveryMethodId) -> (r: Result<i32, SelectPackageError>)
    ensures
        r == shipping_id_of(delivery_method),
{
    match delivery_method {
        DeliveryMethodId::ShippingPackage { id } => Ok(id),
        DeliveryMethodId::Package { .. } => Err(SelectPackageError::InvalidOrder),
        DeliveryMethodId::Pickup { .. } => Err(SelectPackageError::NotSupported),
    }
}

/// A currency that a product's seller price is given in: its code, and
/// whether it is a fiat currency.
#[derive(Debug, Clone)]
pub struct PriceCurrency {
    /// The currency's code.
    pub code: String,
    /// Whether it is a fiat currency.
    pub is_fiat: bool,
}

impl PriceCurrency {
    /// A copy of this currency.
    pub fn copy(&self) -> (r: PriceCurrency)
        ensures
            r == *self,
    {
        PriceCurrency { code: self.code.clone(), is_fiat: self.is_fiat }
    }
}

/// A product's price as its seller set it. The amount is a floating-point
/// number, held here as the bits of that `f64`.
#[derive(Debug, Clone)]
pub struct SellerPrice {
    /// Amount, as the bits of an `f64`.
    pub price: u64,
    /// Currency.
    pub currency: PriceCurrency,
}

/// Why prices cannot be paid together in fiat money.
#[derive(Debug, Clone, Copy, PartialEq, Eq, Structural)]
pub enum FiatPriceError {
    /// The first price is not in a fiat currency.
    NotFiat,
    /// The prices are not all in the same currency.
    DifferentCurrencies,
}

/// Every currency has the code of the first.
pub open spec fn same_currency_as_first(c: Seq<PriceCurrency>) -> bool {
    forall|i: int| 0 < i < c.len() ==> (#[trigger] c[i]).code@ == c[0].code@
}

/// Checks that products can be paid for in fiat money: where there is a
/// price at all, the first must be in a fiat currency and every other in
/// that same currency.
pub fn validate_products_fiat(currencies: &Vec<PriceCurrency>) -> (r: Result<(), FiatPriceError>)
    ensures
        currencies@.len() == 0 ==> r is Ok,
        currencies@.len() > 0 ==> r == (if !currencies@[0].is_fiat {
            Err(FiatPriceError::NotFiat)
        } else if !same_currency_as_first(currencies@) {
            Err(FiatPriceError::DifferentCurrencies)
        } else {
            Ok(())
        }),
{
    if currencies.len() == 0 {
        return Ok(());
    }
    if !currencies[0].is_fiat {
        return Err(FiatPriceError::NotFiat);
    }
    let mut i: usize = 1;
    while i < currencies.len()
        invariant
            1 <= i <= currencies@.len(),
            currencies@[0].is_fiat,
            forall|j: int| 0 < j < i ==> (#[trigger] currencies@[j]).code@ == currencies@[0].code@,
        decreases currencies@.len() - i,
    {
        if !str_equal(currencies[i].code.as_str(), currencies[0].code.as_str()) {
            assert(currencies@[i as int].code@ != currencies@[0].code@);
            return Err(FiatPriceError::DifferentCurrencies);
        }
        i = i + 1;
    }
    Ok(())
}

/// Set delivery method in cart input. A country code is given by clients
/// that have packages priced for the customer's country; without one, the
/// package is found by its shipping id alone.
#[derive(Debug, Clone)]
pub struct SetDeliveryMethodInCartInput {
    /// Client mutation id.
    pub client_mutation_id: String,
    /// Product id.
    pub product_id: i32,
    /// Shipping id of the chosen package.
    pub shipping_id: i32,
    /// Alpha-3 code of the customer's country.
    pub user_country_code: Option<String>,
}

/// Why a delivery method is not set.
#[derive(Debug, Clone, Copy, PartialEq, Eq, Structural)]
pub enum SetDeliveryMethodError {
    /// The request has neither a user id nor a session id.
    Unauthorized,
    /// The product does not exist.
    ProductNotFound,
    /// No package with that shipping id is available to the customer.
    PackageNotFound,
    /// The chosen package is refused.
    Package(SelectPackageError),
    /// A service answered with an error.
    ServiceFailed,
    /// An answer came that the step did not ask for.
    UnexpectedEvent,
}

/// Where setting a delivery method stands.
#[derive(Debug, Clone)]
pub enum SetDeliveryMethodState {
    /// Nothing done yet.
    Start,
    /// Waiting for the product.
    AwaitProduct {
        /// The customer whose cart is changed.
        customer: CartCustomer,
    },
    /// Waiting for the package.
    AwaitPackage {
        /// The customer whose cart is changed.
        customer: CartCustomer,
    },
    /// Finished.
    Done,
}

/// What the caller reports back.
#[derive(Debug, Clone)]
pub enum SetDeliveryMethodEvent {
    /// Who sent the request: the signed-in user and the session, each where
    /// there is one.
    Requester {
        /// User id.
        user_id: Option<i32>,
        /// Session id.
        session_id: Option<u128>,
    },
    /// The product's base product id, where the product exists.
    Product(Option<i32>),
    /// For a priced request: the store of the base product's shipping
    /// details, and the package, where one is available.
    PricedPackage {
        /// The store that ships the product.
        shipping_store_id: i32,
        /// The package.
        package: Option<AvailablePackageForUser>,
    },
    /// For a request without a country: the package, where one is
    /// available.
    Package(Option<AvailablePackageForUser>),
    /// A service answered with an error.
    Failed,
}

/// What the caller is to do next.
#[derive(Debug, Clone)]
pub enum SetDeliveryMethodAction {
    /// Read this product.
    ReadProduct(i32),
    /// Read the package with this shipping id for this base product, priced
    /// for this country.
    ReadPricedPackage {
        /// Base product id.
        base_product_id: i32,
        /// Shipping id.
        shipping_id: i32,
        /// Alpha-3 code of the customer's country.
        user_country_code: String,
    },
    /// Read the package with this shipping id.
    ReadPackage(i32),
    /// Set this delivery method for this product in this customer's cart.
    SetDeliveryMethod {
        /// The customer whose cart is changed.
        customer: CartCustomer,
        /// Product id.
        product_id: i32,
        /// The delivery method.
        delivery_method: DeliveryMethodId,
    },
    /// Refuse the request.
    Refuse(SetDeliveryMethodError),
}

/// One step of setting a delivery method in a cart: a request without a
/// customer is refused, then one for a product that does not exist, then
/// one for a package that is not available (or, where priced for a
/// country, that another store offers); only then is the shipping package
/// set for the product.
pub fn set_delivery_method_step(
    input: &SetDeliveryMethodInCartInput,
    state: SetDeliveryMethodState,
    event: SetDeliveryMethodEvent,
) -> (r: (SetDeliveryMethodState, SetDeliveryMethodAction))
    ensures
        (r.1 is Refuse || r.1 is SetDeliveryMethod) <==> r.0 is Done,
        event is Failed && !(state is Done) ==> r.1 matches SetDeliveryMethodAction::Refuse(
            SetDeliveryMethodError::ServiceFailed,
        ),
        match (state, event) {
            (SetDeliveryMethodState::Start, SetDeliveryMethodEvent::Requester { user_id, session_id }) => match get_customer_spec(user_id, session_id) {
                None => r.1 matches SetDeliveryMethodAction::Refuse(SetDeliveryMethodError::Unauthorized),
                Some(c) => {
                    &&& r.1 matches SetDeliveryMethodAction::ReadProduct(p) && p == input.product_id
                    &&& r.0 matches SetDeliveryMethodState::AwaitProduct { customer } && customer == c
                },
            },
            (SetDeliveryMethodState::AwaitProduct { customer }, SetDeliveryMethodEvent::Product(base)) => match base {
                None => r.1 matches SetDeliveryMethodAction::Refuse(SetDeliveryMethodError::ProductNotFound),
                Some(b) => {
                    &&& r.0 matches SetDeliveryMethodState::AwaitPackage { customer: c } && c == customer
                    &&& match input.user_country_code {
                        Some(code) => r.1 matches SetDeliveryMethodAction::ReadPricedPackage {
                            base_product_id,
                            shipping_id,
                            user_country_code,
                        } && base_product_id == b && shipping_id == input.shipping_id && user_country_code@ == code@,
                        None => r.1 matches SetDeliveryMethodAction::ReadPackage(s) && s == input.shipping_id,
                    }
                },
            },
            (SetDeliveryMethodState::AwaitPackage { customer }, SetDeliveryMethodEvent::PricedPackage { shipping_store_id, package }) => if input.user_country_code is None {
                r.1 matches SetDeliveryMethodAction::Refuse(SetDeliveryMethodError::UnexpectedEvent)
            } else {
                match package {
                Some(p) => if p.store_id != shipping_store_id {
                    r.1 matches SetDeliveryMethodAction::Refuse(SetDeliveryMethodError::Package(SelectPackageError::NotInStore))
                } else {
                    r.1 matches SetDeliveryMethodAction::SetDeliveryMethod { customer: c, product_id, delivery_method }
                        && c == customer && product_id == input.product_id
                        && delivery_method == (DeliveryMethodId::ShippingPackage { id: input.shipping_id })
                },
                None => r.1 matches SetDeliveryMethodAction::Refuse(SetDeliveryMethodError::PackageNotFound),
                }
            },
            (SetDeliveryMethodState::AwaitPackage { customer }, SetDeliveryMethodEvent::Package(package)) => if input.user_country_code is Some {
                r.1 matches SetDeliveryMethodAction::Refuse(SetDeliveryMethodError::UnexpectedEvent)
            } else {
                match package {
                Some(p) => r.1 matches SetDeliveryMethodAction::SetDeliveryMethod { customer: c, product_id, delivery_method }
                    && c == customer && product_id == input.product_id
                    && delivery_method == (DeliveryMethodId::ShippingPackage { id: input.shipping_id }),
                None => r.1 matches SetDeliveryMethodAction::Refuse(SetDeliveryMethodError::PackageNotFound),
                }
            },
            (_, SetDeliveryMethodEvent::Failed) => true,
            _ => r.1 matches SetDeliveryMethodAction::Refuse(SetDeliveryMethodError::UnexpectedEvent),
        },
        r.1 matches SetDeliveryMethodAction::SetDeliveryMethod { customer, product_id, delivery_method } ==> state is AwaitPackage && product_id == input.product_id && delivery_method == (DeliveryMethodId::ShippingPackage { id: input.shipping_id }),
{
    match (state, event) {
        (SetDeliveryMethodState::Done, _) => (
            SetDeliveryMethodState::Done,
            SetDeliveryMethodAction::Refuse(SetDeliveryMethodError::UnexpectedEvent),
        ),
        (_, SetDeliveryMethodEvent::Failed) => (
            SetDeliveryMethodState::Done,
            SetDeliveryMethodAction::Refuse(SetDeliveryMethodError::ServiceFailed),
        ),
        (SetDeliveryMethodState::Start, SetDeliveryMethodEvent::Requester { user_id, session_id }) => {
            match get_customer(user_id, session_id) {
                None => (
                    SetDeliveryMethodState::Done,
                    SetDeliveryMethodAction::Refuse(SetDeliveryMethodError::Unauthorized),
                ),
                Some(c) => (
                    SetDeliveryMethodState::AwaitProduct { customer: c },
                    SetDeliveryMethodAction::ReadProduct(input.product_id),
                ),
            }
        },
        (SetDeliveryMethodState::AwaitProduct { customer }, SetDeliveryMethodEvent::Product(base)) => {
            match base {
                None => (
                    SetDeliveryMethodState::Done,
                    SetDeliveryMethodAction::Refuse(SetDeliveryMethodError::ProductNotFound),
                ),
                Some(b) => match &input.user_country_code {
                    Some(code) => (
                        SetDeliveryMethodState::AwaitPackage { customer },
                        SetDeliveryMethodAction::ReadPricedPackage {
                            base_product_id: b,
                            shipping_id: input.shipping_id,
                            user_country_code: code.clone(),
                        },
                    ),
                    None => (
                        SetDeliveryMethodState::AwaitPackage { customer },
                        SetDeliveryMethodAction::ReadPackage(input.shipping_id),
                    ),
                },
            }
        },
        (
            SetDeliveryMethodState::AwaitPackage { customer },
            SetDeliveryMethodEvent::PricedPackage { shipping_store_id, package },
        ) => {
            if input.user_country_code.is_none() {
                return (
                    SetDeliveryMethodState::Done,
                    SetDeliveryMethodAction::Refuse(SetDeliveryMethodError::UnexpectedEvent),
                );
            }
            match package {
                Some(p) => match validate_select_package(shipping_store_id, p.store_id) {
                    Err(e) => (SetDeliveryMethodState::Done, SetDeliveryMethodAction::Refuse(SetDeliveryMethodError::Package(e))),
                    Ok(()) => (
                        SetDeliveryMethodState::Done,
                        SetDeliveryMethodAction::SetDeliveryMethod {
                            customer,
                            product_id: input.product_id,
                            delivery_method: DeliveryMethodId::ShippingPackage { id: input.shipping_id },
                        },
                    ),
                },
                None => (
                    SetDeliveryMethodState::Done,
                    SetDeliveryMethodAction::Refuse(SetDeliveryMethodError::PackageNotFound),
                ),
            }
        },
        (SetDeliveryMethodState::AwaitPackage { customer }, SetDeliveryMethodEvent::Package(package)) => {
            if input.user_country_code.is_some() {
                return (
                    SetDeliveryMethodState::Done,
                    SetDeliveryMethodAction::Refuse(SetDeliveryMethodError::UnexpectedEvent),
                );
            }
            match package {
                Some(_) => (
                    SetDeliveryMethodState::Done,
                    SetDeliveryMethodAction::SetDeliveryMethod {
                        customer,
                        product_id: input.product_id,
                        delivery_method: DeliveryMethodId::ShippingPackage { id: input.shipping_id },
                    },
                ),
                None => (
                    SetDeliveryMethodState::Done,
                    SetDeliveryMethodAction::Refuse(SetDeliveryMethodError::PackageNotFound),
                ),
            }
        },
        _ => (
            SetDeliveryMethodState::Done,
            SetDeliveryMethodAction::Refuse(SetDeliveryMethodError::UnexpectedEvent),
        ),
    }
}

/// Why a delivery method is not removed.
#[derive(Debug, Clone, Copy, PartialEq, Eq, Structural)]
pub enum RemoveDeliveryMethodError {
    /// The request has neither a user id nor a session id.
    Unauthorized,
    /// The product does not exist.
    ProductNotFound,
    /// A service answered with an error.
    ServiceFailed,
    /// An answer came that the step did not ask for.
    UnexpectedEvent,
}

/// Where removing a delivery method stands.
#[derive(Debug, Clone, Copy, PartialEq, Eq, Structural)]
pub enum RemoveDeliveryMethodState {
    /// Nothing done yet.
    Start,
    /// Waiting to learn whether the product exists.
    AwaitProduct {
        /// The customer whose cart is changed.
        customer: CartCustomer,
    },
    /// Finished.
    Done,
}

/// What the caller reports back.
#[derive(Debug, Clone, Copy, PartialEq, Eq, Structural)]
pub enum RemoveDeliveryMethodEvent {
    /// Who sent the request.
    Requester {
        /// User id.
        user_id: Option<i32>,
        /// Session id.
        session_id: Option<u128>,
    },
    /// Whether the product exists.
    Product(bool),
    /// A service answered with an error.
    Failed,
}

/// What the caller is to do next.
#[derive(Debug, Clone, Copy, PartialEq, Eq, Structural)]
pub enum RemoveDeliveryMethodAction {
    /// Read this product.
    ReadProduct(i32),
    /// Remove the delivery method of this product from this customer's
    /// cart.
    RemoveDeliveryMethod {
        /// The customer.
        customer: CartCustomer,
        /// Product id.
        product_id: i32,
    },
    /// Refuse the request.
    Refuse(RemoveDeliveryMethodError),
}

/// One step of removing the delivery method of product `product_id` from a
/// cart: a request without a customer is refused, then one for a product
/// that does not exist; otherwise the delivery method is removed.
pub fn remove_delivery_method_step(
    product_id: i32,
    state: RemoveDeliveryMethodState,
    event: RemoveDeliveryMethodEvent,
) -> (r: (RemoveDeliveryMethodState, RemoveDeliveryMethodAction))
    ensures
        (r.1 is RemoveDeliveryMethod || r.1 is Refuse) <==> r.0 is Done,
        r == match (state, event) {
            (RemoveDeliveryMethodState::Done, _) => (
                RemoveDeliveryMethodState::Done,
                RemoveDeliveryMethodAction::Refuse(RemoveDeliveryMethodError::UnexpectedEvent),
            ),
            (_, RemoveDeliveryMethodEvent::Failed) => (
                RemoveDeliveryMethodState::Done,
                RemoveDeliveryMethodAction::Refuse(RemoveDeliveryMethodError::ServiceFailed),
            ),
            (RemoveDeliveryMethodState::Start, RemoveDeliveryMethodEvent::Requester { user_id, session_id }) => match get_customer_spec(user_id, session_id) {
                None => (
                    RemoveDeliveryMethodState::Done,
                    RemoveDeliveryMethodAction::Refuse(RemoveDeliveryMethodError::Unauthorized),
                ),
                Some(c) => (RemoveDeliveryMethodState::AwaitProduct { customer: c }, RemoveDeliveryMethodAction::ReadProduct(product_id)),
            },
            (RemoveDeliveryMethodState::AwaitProduct { customer }, RemoveDeliveryMethodEvent::Product(exists)) => if exists {
                (RemoveDeliveryMethodState::Done, RemoveDeliveryMethodAction::RemoveDeliveryMethod { customer, product_id })
            } else {
                (
                    RemoveDeliveryMethodState::Done,
                    RemoveDeliveryMethodAction::Refuse(RemoveDeliveryMethodError::ProductNotFound),
                )
            },
            _ => (
                RemoveDeliveryMethodState::Done,
                RemoveDeliveryMethodAction::Refuse(RemoveDeliveryMethodError::UnexpectedEvent),
            ),
        },
{
    match (state, event) {
        (RemoveDeliveryMethodState::Done, _) => (
            RemoveDeliveryMethodState::Done,
            RemoveDeliveryMethodAction::Refuse(RemoveDeliveryMethodError::UnexpectedEvent),
        ),
        (_, RemoveDeliveryMethodEvent::Failed) => (
            RemoveDeliveryMethodState::Done,
            RemoveDeliveryMethodAction::Refuse(RemoveDeliveryMethodError::ServiceFailed),
        ),
        (RemoveDeliveryMethodState::Start, RemoveDeliveryMethodEvent::Requester { user_id, session_id }) => {
            match get_customer(user_id, session_id) {
                None => (
                    RemoveDeliveryMethodState::Done,
                    RemoveDeliveryMethodAction::Refuse(RemoveDeliveryMethodError::Unauthorized),
                ),
                Some(c) => (RemoveDeliveryMethodState::AwaitProduct { customer: c }, RemoveDeliveryMethodAction::ReadProduct(product_id)),
            }
        },
        (RemoveDeliveryMethodState::AwaitProduct { customer }, RemoveDeliveryMethodEvent::Product(exists)) => {
            if exists {
                (RemoveDeliveryMethodState::Done, RemoveDeliveryMethodAction::RemoveDeliveryMethod { customer, product_id })
            } else {
                (
                    RemoveDeliveryMethodState::Done,
                    RemoveDeliveryMethodAction::Refuse(RemoveDeliveryMethodError::ProductNotFound),
                )
            }
        },
        _ => (
            RemoveDeliveryMethodState::Done,
            RemoveDeliveryMethodAction::Refuse(RemoveDeliveryMethodError::UnexpectedEvent),
        ),
    }
}

} // verus!

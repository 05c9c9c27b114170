//! Buying one product at once, without a cart.
//!
//! Like making orders from a cart, buying now alternates requests to the
//! services with decisions; [`buy_now_step`] makes the decisions. A request
//! with a country code reads the package priced for that country from the
//! product's shipping details, and the order is made for the store that
//! ships the product; one without reads the package by its shipping id
//! alone, after the coupon and the customer, and checks that it belongs to
//! the product's store.
use vstd::prelude::*;
use crate::address::AddressInput;
use crate::cart::{validate_products_fiat, FiatPriceError, PriceCurrency, SelectPackageError, SellerPrice};
use crate::coupon::{coupon_supports_product, CouponError, CouponProduct};
use crate::create_orders::fiat_error;
use crate::delivery::{delivery_info_of, get_delivery_info, AvailablePackageForUser, DeliveryInfo};

verus! {

/// Buy now input object.
#[derive(Debug, Clone)]
pub struct BuyNowInput {
    /// Client mutation id.
    pub client_mutation_id: String,
    /// Product id.
    pub product_id: i32,
    /// Quantity bought.
    pub quantity: i32,
    /// Currency that the order is paid in.
    pub currency: PriceCurrency,
    /// Delivery address.
    pub address_full: AddressInput,
    /// Receiver name.
    pub receiver_name: String,
    /// Receiver phone.
    pub receiver_phone: String,
    /// Code of the coupon to apply, if any.
    pub coupon_code: Option<String>,
    /// Shipping id of the chosen package.
    pub shipping_id: i32,
    /// Alpha-3 code of the customer's country, where the package is priced
    /// for it.
    pub user_country_code: Option<String>,
    /// Unique id of the request.
    pub uuid: String,
}

/// What is read of the product bought.
#[derive(Debug, Clone)]
pub struct BoughtProduct<P> {
    /// Its base product.
    pub base_product_id: i32,
    /// Whether it is sold before it is made.
    pub pre_order: bool,
    /// Days until it is made, where sold before.
    pub pre_order_days: i32,
    /// Information on it, passed on as the service answered it.
    pub info: P,
}

/// The order sent to be made when buying now.
#[derive(Debug, Clone)]
pub struct BuyNow<C, P> {
    /// Product id.
    pub product_id: i32,
    /// The store that the order is made for.
    pub store_id: i32,
    /// The customer's user id.
    pub customer_id: i32,
    /// Delivery address.
    pub address: AddressInput,
    /// Receiver name.
    pub receiver_name: String,
    /// Receiver phone.
    pub receiver_phone: String,
    /// Receiver email: the customer's.
    pub receiver_email: String,
    /// The product's seller price.
    pub price: SellerPrice,
    /// Quantity bought.
    pub quantity: i32,
    /// Currency that the order is paid in.
    pub currency: PriceCurrency,
    /// Whether the product is sold before it is made.
    pub pre_order: bool,
    /// Days until it is made.
    pub pre_order_days: i32,
    /// The coupon applied, if any.
    pub coupon: Option<C>,
    /// How the product is delivered.
    pub delivery_info: Option<DeliveryInfo>,
    /// Information on the product.
    pub product_info: P,
    /// Unique id of the request.
    pub uuid: String,
}

/// Why the product is not bought.
#[derive(Debug, Clone, Copy, PartialEq, Eq, Structural)]
pub enum BuyNowError {
    /// The request has no user.
    Unauthorized,
    /// No package with the shipping id is available to the customer.
    PackageNotFound,
    /// The package is refused.
    Package(SelectPackageError),
    /// The coupon is not found or not valid.
    InvalidCoupon,
    /// The coupon may not be used on the product.
    Coupon(CouponError),
    /// The order is paid in fiat money, but the price cannot be.
    Fiat(FiatPriceError),
    /// A service answered with an error.
    ServiceFailed,
    /// An answer came that the step did not ask for.
    UnexpectedEvent,
}

/// Where buying now stands, and what has been learnt so far.
#[derive(Debug, Clone)]
pub enum BuyNowPhase<C, P> {
    /// Nothing done yet.
    Start,
    /// Waiting for the product's seller price.
    AwaitPrice {
        /// The user.
        user: i32,
    },
    /// Waiting for the product's store.
    AwaitStore {
        /// The user.
        user: i32,
        /// The seller price.
        price: SellerPrice,
    },
    /// Waiting for the product.
    AwaitProduct {
        /// The user.
        user: i32,
        /// The seller price.
        price: SellerPrice,
        /// The product's store.
        store_id: i32,
    },
    /// Waiting for the package priced for the customer's country.
    AwaitPricedPackage {
        /// The user.
        user: i32,
        /// The seller price.
        price: SellerPrice,
        /// The product's store.
        store_id: i32,
        /// The product.
        product: BoughtProduct<P>,
    },
    /// Waiting for the coupon.
    AwaitCoupon {
        /// The user.
        user: i32,
        /// The seller price.
        price: SellerPrice,
        /// The product's store.
        store_id: i32,
        /// The product.
        product: BoughtProduct<P>,
        /// Where priced for a country: the store that ships the product,
        /// and the package.
        shipped: Option<(i32, AvailablePackageForUser)>,
    },
    /// Waiting for the customer's record.
    AwaitCustomer {
        /// The user.
        user: i32,
        /// The seller price.
        price: SellerPrice,
        /// The product's store.
        store_id: i32,
        /// The product.
        product: BoughtProduct<P>,
        /// Where priced for a country: the store that ships the product,
        /// and the package.
        shipped: Option<(i32, AvailablePackageForUser)>,
        /// The coupon applied, if any.
        coupon: Option<C>,
    },
    /// Waiting for the package, found by its shipping id alone.
    AwaitPackage {
        /// The user.
        user: i32,
        /// The seller price.
        price: SellerPrice,
        /// The product's store.
        store_id: i32,
        /// The product.
        product: BoughtProduct<P>,
        /// The coupon applied, if any.
        coupon: Option<C>,
        /// The customer's email.
        email: String,
    },
    /// Finished.
    Done,
}

/// What the caller reports back.
#[derive(Debug, Clone)]
pub enum BuyNowEvent<C, P> {
    /// The user of the request, if any.
    User(Option<i32>),
    /// The product's seller price.
    Price(SellerPrice),
    /// The product's store.
    StoreId(i32),
    /// The product.
    Product(BoughtProduct<P>),
    /// The store of the base product's shipping details, and the package
    /// priced for the customer's country, where one is available.
    PricedPackage {
        /// The store that ships the product.
        shipping_store_id: i32,
        /// The package.
        package: Option<AvailablePackageForUser>,
    },
    /// The coupon with the code, where it is found and valid, and the
    /// products that it was issued for.
    Coupon {
        /// The coupon.
        coupon: Option<C>,
        /// Its products.
        products: Vec<CouponProduct>,
    },
    /// The customer's email.
    Customer(String),
    /// The package with the shipping id, where one is available.
    Package(Option<AvailablePackageForUser>),
    /// A service answered with an error.
    Failed,
}

/// What the caller is to do next.
#[derive(Debug, Clone)]
pub enum BuyNowAction<C, P> {
    /// Read this product's seller price.
    ReadSellerPrice(i32),
    /// Read the store of this product.
    ReadStoreId(i32),
    /// Read this product.
    ReadProduct(i32),
    /// Read the shipping details of this base product, and the package with
    /// this shipping id priced for this country.
    ReadPricedPackage {
        /// Base product id.
        base_product_id: i32,
        /// Shipping id.
        shipping_id: i32,
        /// Alpha-3 code of the customer's country.
        user_country_code: String,
    },
    /// Check the coupon with this code in this store, and read it and its
    /// products.
    CheckCoupon {
        /// Coupon code.
        code: String,
        /// Store id.
        store_id: i32,
    },
    /// Read this user's record.
    ReadCustomer(i32),
    /// Read the package with this shipping id.
    ReadPackage(i32),
    /// Send the order.
    Send(BuyNow<C, P>),
    /// Refuse the request.
    Refuse(BuyNowError),
}

/// The currency that the order is paid in: a fiat currency is replaced by
/// the one fiat currency that sellers are paid in.
pub open spec fn order_currency(input: BuyNowInput, fiat_seller_currency: PriceCurrency) -> PriceCurrency {
    if input.currency.is_fiat {
        fiat_seller_currency
    } else {
        input.currency
    }
}

/// The order that buying now sends, once everything is read.
pub open spec fn is_buy_now_order<C, P>(
    o: BuyNow<C, P>,
    input: BuyNowInput,
    fiat_seller_currency: PriceCurrency,
    user: i32,
    price: SellerPrice,
    store_id: i32,
    product: BoughtProduct<P>,
    coupon: Option<C>,
    email: Seq<char>,
    package: AvailablePackageForUser,
) -> bool {
    &&& o.product_id == input.product_id
    &&& o.store_id == store_id
    &&& o.customer_id == user
    &&& o.address == input.address_full
    &&& o.receiver_name@ == input.receiver_name@
    &&& o.receiver_phone@ == input.receiver_phone@
    &&& o.receiver_email@ == email
    &&& o.price == price
    &&& o.quantity == input.quantity
    &&& o.currency == order_currency(input, fiat_seller_currency)
    &&& o.pre_order == product.pre_order
    &&& o.pre_order_days == product.pre_order_days
    &&& o.coupon == coupon
    &&& o.delivery_info == Some(delivery_info_of(package))
    &&& o.product_info == product.info
    &&& o.uuid@ == input.uuid@
}

/// What the last step of buying now does: refuse a price that cannot be
/// paid in fiat money where the order is paid in it, else send the order.
pub open spec fn finishes<C, P>(
    r: (BuyNowPhase<C, P>, BuyNowAction<C, P>),
    input: BuyNowInput,
    fiat_seller_currency: PriceCurrency,
    user: i32,
    price: SellerPrice,
    store_id: i32,
    product: BoughtProduct<P>,
    coupon: Option<C>,
    email: Seq<char>,
    package: AvailablePackageForUser,
) -> bool {
    &&& r.0 is Done
    &&& if order_currency(input, fiat_seller_currency).is_fiat && fiat_error(seq![price.currency]) is Some {
        r.1 == BuyNowAction::<C, P>::Refuse(BuyNowError::Fiat(fiat_error(seq![price.currency])->0))
    } else {
        r.1 matches BuyNowAction::Send(o) && is_buy_now_order(
            o,
            input,
            fiat_seller_currency,
            user,
            price,
            store_id,
            product,
            coupon,
            email,
            package,
        )
    }
}

/// The step refuses the request for this reason and finishes.
pub open spec fn refuses<C, P>(r: (BuyNowPhase<C, P>, BuyNowAction<C, P>), e: BuyNowError) -> bool {
    &&& r.0 is Done
    &&& r.1 == BuyNowAction::<C, P>::Refuse(e)
}

/// Once the package, if read first, is known: check the coupon where a
/// code is given, else read the customer.
pub open spec fn after_package<C, P>(
    r: (BuyNowPhase<C, P>, BuyNowAction<C, P>),
    input: BuyNowInput,
    user: i32,
    price: SellerPrice,
    store_id: i32,
    product: BoughtProduct<P>,
    shipped: Option<(i32, AvailablePackageForUser)>,
) -> bool {
    match input.coupon_code {
        Some(code) => {
            &&& r.1 matches BuyNowAction::CheckCoupon { code: c, store_id: s } && c@ == code@ && s == store_id
            &&& r.0 == BuyNowPhase::<C, P>::AwaitCoupon { user, price, store_id, product, shipped }
        },
        None => {
            &&& r.1 == BuyNowAction::<C, P>::ReadCustomer(user)
            &&& r.0 == BuyNowPhase::<C, P>::AwaitCustomer { user, price, store_id, product, shipped, coupon: None }
        },
    }
}

/// Builds the order and checks its price against a fiat currency.
fn finish<C, P>(
    input: &BuyNowInput,
    fiat_seller_currency: &PriceCurrency,
    user: i32,
    price: SellerPrice,
    store_id: i32,
    product: BoughtProduct<P>,
    coupon: Option<C>,
    email: String,
    package: AvailablePackageForUser,
) -> (r: (BuyNowPhase<C, P>, BuyNowAction<C, P>))
    ensures
        finishes(r, *input, *fiat_seller_currency, user, price, store_id, product, coupon, email@, package),
{
    let currency = if input.currency.is_fiat {
        fiat_seller_currency.copy()
    } else {
        input.currency.copy()
    };
    if currency.is_fiat {
        let currencies = vec![price.currency.copy()];
        if let Err(e) = validate_products_fiat(&currencies) {
            assert(currencies@ == seq![price.currency]);
            return (BuyNowPhase::Done, BuyNowAction::Refuse(BuyNowError::Fiat(e)));
        }
        assert(currencies@ == seq![price.currency]);
    }
    let order = BuyNow {
        product_id: input.product_id,
        store_id,
        customer_id: user,
        address: input.address_full.copy(),
        receiver_name: input.receiver_name.clone(),
        receiver_phone: input.receiver_phone.clone(),
        receiver_email: email,
        price,
        quantity: input.quantity,
        currency,
        pre_order: product.pre_order,
        pre_order_days: product.pre_order_days,
        coupon,
        delivery_info: Some(get_delivery_info(package)),
        product_info: product.info,
        uuid: input.uuid.clone(),
    };
    (BuyNowPhase::Done, BuyNowAction::Send(order))
}

/// Checks the coupon where a code is given, else reads the customer.
fn ask_coupon<C, P>(
    input: &BuyNowInput,
    user: i32,
    price: SellerPrice,
    store_id: i32,
    product: BoughtProduct<P>,
    shipped: Option<(i32, AvailablePackageForUser)>,
) -> (r: (BuyNowPhase<C, P>, BuyNowAction<C, P>))
    ensures
        after_package(r, *input, user, price, store_id, product, shipped),
{
    match &input.coupon_code {
        Some(code) => (
            BuyNowPhase::AwaitCoupon { user, price, store_id, product, shipped },
            BuyNowAction::CheckCoupon { code: code.clone(), store_id },
        ),
        None => (
            BuyNowPhase::AwaitCustomer { user, price, store_id, product, shipped, coupon: None },
            BuyNowAction::ReadCustomer(user),
        ),
    }
}

/// One step of buying a product at once. The checks run in this order,
/// and the first that fails refuses the request: there must be a user;
/// where the package is priced for the customer's country, one must be
/// available and belong to the store that ships the product; the coupon,
/// where a code is given, must be valid and may be used on the product;
/// where the package is found by its shipping id alone, it must be
/// available and belong to the product's store; and, where the order is
/// paid in fiat money (the fiat currency that sellers are paid in, whatever
/// fiat currency was asked for), the price must be in a fiat currency. Only
/// then is the order sent.
#[verifier::rlimit(60)]
pub fn buy_now_step<C, P>(
    input: &BuyNowInput,
    fiat_seller_currency: &PriceCurrency,
    state: BuyNowPhase<C, P>,
    event: BuyNowEvent<C, P>,
) -> (r: (BuyNowPhase<C, P>, BuyNowAction<C, P>))
    ensures
        (r.1 is Send || r.1 is Refuse) <==> r.0 is Done,
        match (state, event) {
            (BuyNowPhase::Done, _) => refuses(r, BuyNowError::UnexpectedEvent),
            (_, BuyNowEvent::Failed) => refuses(r, BuyNowError::ServiceFailed),
            (BuyNowPhase::Start, BuyNowEvent::User(u)) => match u {
                None => refuses(r, BuyNowError::Unauthorized),
                Some(id) => {
                    &&& r.1 == BuyNowAction::<C, P>::ReadSellerPrice(input.product_id)
                    &&& r.0 == BuyNowPhase::<C, P>::AwaitPrice { user: id }
                },
            },
            (BuyNowPhase::AwaitPrice { user }, BuyNowEvent::Price(price)) => {
                &&& r.1 == BuyNowAction::<C, P>::ReadStoreId(input.product_id)
                &&& r.0 == BuyNowPhase::<C, P>::AwaitStore { user, price }
            },
            (BuyNowPhase::AwaitStore { user, price }, BuyNowEvent::StoreId(store_id)) => {
                &&& r.1 == BuyNowAction::<C, P>::ReadProduct(input.product_id)
                &&& r.0 == BuyNowPhase::<C, P>::AwaitProduct { user, price, store_id }
            },
            (BuyNowPhase::AwaitProduct { user, price, store_id }, BuyNowEvent::Product(product)) => match input.user_country_code {
                Some(code) => {
                    &&& r.1 matches BuyNowAction::ReadPricedPackage { base_product_id, shipping_id, user_country_code }
                        && base_product_id == product.base_product_id && shipping_id == input.shipping_id
                        && user_country_code@ == code@
                    &&& r.0 == BuyNowPhase::<C, P>::AwaitPricedPackage { user, price, store_id, product }
                },
                None => after_package(r, *input, user, price, store_id, product, None),
            },
            (
                BuyNowPhase::AwaitPricedPackage { user, price, store_id, product },
                BuyNowEvent::PricedPackage { shipping_store_id, package },
            ) => match package {
                None => refuses(r, BuyNowError::PackageNotFound),
                Some(p) => if p.store_id != shipping_store_id {
                    refuses(r, BuyNowError::Package(SelectPackageError::NotInStore))
                } else {
                    after_package(r, *input, user, price, store_id, product, Some((shipping_store_id, p)))
                },
            },
            (
                BuyNowPhase::AwaitCoupon { user, price, store_id, product, shipped },
                BuyNowEvent::Coupon { coupon, products },
            ) => match coupon {
                None => refuses(r, BuyNowError::InvalidCoupon),
                Some(c) => if exists|i: int|
                    0 <= i < products@.len() && (#[trigger] products@[i]).id == input.product_id
                        && !products@[i].has_own_discount {
                    &&& r.1 == BuyNowAction::<C, P>::ReadCustomer(user)
                    &&& r.0 == BuyNowPhase::<C, P>::AwaitCustomer { user, price, store_id, product, shipped, coupon: Some(c) }
                } else {
                    refuses(r, BuyNowError::Coupon(CouponError::NoProductsForCoupon))
                },
            },
            (
                BuyNowPhase::AwaitCustomer { user, price, store_id, product, shipped, coupon },
                BuyNowEvent::Customer(email),
            ) => match shipped {
                Some((shipping_store_id, p)) => finishes(
                    r,
                    *input,
                    *fiat_seller_currency,
                    user,
                    price,
                    shipping_store_id,
                    product,
                    coupon,
                    email@,
                    p,
                ),
                None => {
                    &&& r.1 == BuyNowAction::<C, P>::ReadPackage(input.shipping_id)
                    &&& r.0 matches BuyNowPhase::AwaitPackage { user: u, price: pr, store_id: s, product: pd, coupon: cp, email: em }
                        && u == user && pr == price && s == store_id && pd == product && cp == coupon && em@ == email@
                },
            },
            (
                BuyNowPhase::AwaitPackage { user, price, store_id, product, coupon, email },
                BuyNowEvent::Package(package),
            ) => match package {
                None => refuses(r, BuyNowError::PackageNotFound),
                Some(p) => if p.store_id != store_id {
                    refuses(r, BuyNowError::Package(SelectPackageError::NotInStore))
                } else {
                    finishes(r, *input, *fiat_seller_currency, user, price, store_id, product, coupon, email@, p)
                },
            },
            _ => refuses(r, BuyNowError::UnexpectedEvent),
        },
{
    match (state, event) {
        (BuyNowPhase::Done, _) => (BuyNowPhase::Done, BuyNowAction::Refuse(BuyNowError::UnexpectedEvent)),
        (_, BuyNowEvent::Failed) => (BuyNowPhase::Done, BuyNowAction::Refuse(BuyNowError::ServiceFailed)),
        (BuyNowPhase::Start, BuyNowEvent::User(u)) => match u {
            None => (BuyNowPhase::Done, BuyNowAction::Refuse(BuyNowError::Unauthorized)),
            Some(id) => (BuyNowPhase::AwaitPrice { user: id }, BuyNowAction::ReadSellerPrice(input.product_id)),
        },
        (BuyNowPhase::AwaitPrice { user }, BuyNowEvent::Price(price)) => (
            BuyNowPhase::AwaitStore { user, price },
            BuyNowAction::ReadStoreId(input.product_id),
        ),
        (BuyNowPhase::AwaitStore { user, price }, BuyNowEvent::StoreId(store_id)) => (
            BuyNowPhase::AwaitProduct { user, price, store_id },
            BuyNowAction::ReadProduct(input.product_id),
        ),
        (BuyNowPhase::AwaitProduct { user, price, store_id }, BuyNowEvent::Product(product)) => {
            match &input.user_country_code {
                Some(code) => {
                    let base_product_id: i32 = product.base_product_id;
                    (
                        BuyNowPhase::AwaitPricedPackage { user, price, store_id, product },
                        BuyNowAction::ReadPricedPackage {
                            base_product_id,
                            shipping_id: input.shipping_id,
                            user_country_code: code.clone(),
                        },
                    )
                },
                None => ask_coupon(input, user, price, store_id, product, None),
            }
        },
        (
            BuyNowPhase::AwaitPricedPackage { user, price, store_id, product },
            BuyNowEvent::PricedPackage { shipping_store_id, package },
        ) => match package {
            None => (BuyNowPhase::Done, BuyNowAction::Refuse(BuyNowError::PackageNotFound)),
            Some(p) => {
                if p.store_id != shipping_store_id {
                    (BuyNowPhase::Done, BuyNowAction::Refuse(BuyNowError::Package(SelectPackageError::NotInStore)))
                } else {
                    ask_coupon(input, user, price, store_id, product, Some((shipping_store_id, p)))
                }
            },
        },
        (
            BuyNowPhase::AwaitCoupon { user, price, store_id, product, shipped },
            BuyNowEvent::Coupon { coupon, products },
        ) => match coupon {
            None => (BuyNowPhase::Done, BuyNowAction::Refuse(BuyNowError::InvalidCoupon)),
            Some(c) => match coupon_supports_product(&products, input.product_id) {
                Err(e) => (BuyNowPhase::Done, BuyNowAction::Refuse(BuyNowError::Coupon(e))),
                Ok(()) => (
                    BuyNowPhase::AwaitCustomer { user, price, store_id, product, shipped, coupon: Some(c) },
                    BuyNowAction::ReadCustomer(user),
                ),
            },
        },
        (
            BuyNowPhase::AwaitCustomer { user, price, store_id, product, shipped, coupon },
            BuyNowEvent::Customer(email),
        ) => match shipped {
            Some((shipping_store_id, p)) => finish(
                input,
                fiat_seller_currency,
                user,
                price,
                shipping_store_id,
                product,
                coupon,
                email,
                p,
            ),
            None => (
                BuyNowPhase::AwaitPackage { user, price, store_id, product, coupon, email },
                BuyNowAction::ReadPackage(input.shipping_id),
            ),
        },
        (
            BuyNowPhase::AwaitPackage { user, price, store_id, product, coupon, email },
            BuyNowEvent::Package(package),
        ) => match package {
            None => (BuyNowPhase::Done, BuyNowAction::Refuse(BuyNowError::PackageNotFound)),
            Some(p) => {
                if p.store_id != store_id {
                    (BuyNowPhase::Done, BuyNowAction::Refuse(BuyNowError::Package(SelectPackageError::NotInStore)))
                } else {
                    finish(input, fiat_seller_currency, user, price, store_id, product, coupon, email, p)
                }
            },
        },
        _ => (BuyNowPhase::Done, BuyNowAction::Refuse(BuyNowError::UnexpectedEvent)),
    }
}

/// Input of the buy-now checkout: what buying a product at once would
/// cost, before anything is ordered.
#[derive(Debug, Clone)]
pub struct CalculateBuyNowInput {
    /// Product id.
    pub product_id: i32,
    /// Quantity.
    pub quantity: i32,
    /// Alpha-3 code of the customer's country, where the package is priced
    /// for it.
    pub user_country_code: Option<String>,
    /// Code of the coupon to apply, if any.
    pub coupon_code: Option<String>,
    /// Shipping id of the chosen package, if any.
    pub shipping_id: Option<i32>,
}

/// What the checkout shows: the product, the quantity, the coupon and the
/// package, from which its costs are computed.
#[derive(Debug, Clone)]
pub struct BuyNowCheckout<C, P> {
    /// Alpha-3 code of the customer's country, where given.
    pub user_country_code: Option<String>,
    /// The product, as the service answered it.
    pub product: P,
    /// Quantity.
    pub quantity: i32,
    /// The coupon applied, if any.
    pub coupon: Option<C>,
    /// The package chosen, if any.
    pub package: Option<AvailablePackageForUser>,
}

/// Where the checkout stands.
#[derive(Debug, Clone)]
pub enum CheckoutPhase<C, P> {
    /// Nothing done yet.
    Start,
    /// Waiting for the product's store.
    AwaitStore,
    /// Waiting for the product.
    AwaitProduct {
        /// The product's store.
        store_id: i32,
    },
    /// Waiting for the package priced for the customer's country.
    AwaitPricedPackage {
        /// The product's store.
        store_id: i32,
        /// The product.
        product: P,
    },
    /// Waiting for the coupon.
    AwaitCoupon {
        /// The product's store.
        store_id: i32,
        /// The product.
        product: P,
        /// The package, where priced for a country.
        package: Option<AvailablePackageForUser>,
    },
    /// Waiting for the package, found by its shipping id alone.
    AwaitPackage {
        /// The product.
        product: P,
        /// The coupon, if any.
        coupon: Option<C>,
    },
    /// Finished.
    Done,
}

/// What the caller reports back.
#[derive(Debug, Clone)]
pub enum CheckoutEvent<C, P> {
    /// The checkout is asked for.
    Begin,
    /// The product's store.
    StoreId(i32),
    /// The product and its base product.
    Product {
        /// Base product id.
        base_product_id: i32,
        /// The product.
        product: P,
    },
    /// The store of the base product's shipping details, and the package
    /// priced for the customer's country, where one is available.
    PricedPackage {
        /// The store that ships the product.
        shipping_store_id: i32,
        /// The package.
        package: Option<AvailablePackageForUser>,
    },
    /// The coupon with the code, where it is found and valid, and the
    /// products that it was issued for.
    Coupon {
        /// The coupon.
        coupon: Option<C>,
        /// Its products.
        products: Vec<CouponProduct>,
    },
    /// The package with the shipping id, where one is available.
    Package(Option<AvailablePackageForUser>),
    /// A service answered with an error.
    Failed,
}

/// What the caller is to do next.
#[derive(Debug, Clone)]
pub enum CheckoutAction<C, P> {
    /// Read the store of this product.
    ReadStoreId(i32),
    /// Read this product.
    ReadProduct(i32),
    /// Read the package with this shipping id for this base product,
    /// priced for this country.
    ReadPricedPackage {
        /// Base product id.
        base_product_id: i32,
        /// Shipping id.
        shipping_id: i32,
        /// Alpha-3 code of the customer's country.
        user_country_code: String,
    },
    /// Check the coupon with this code in this store.
    CheckCoupon {
        /// Coupon code.
        code: String,
        /// Store id.
        store_id: i32,
    },
    /// Read the package with this shipping id.
    ReadPackage(i32),
    /// Show the checkout.
    Show(BuyNowCheckout<C, P>),
    /// Refuse the request.
    Refuse(BuyNowError),
}

/// The checkout shown for a product, coupon and package.
pub open spec fn shows<C, P>(
    r: (CheckoutPhase<C, P>, CheckoutAction<C, P>),
    input: CalculateBuyNowInput,
    product: P,
    coupon: Option<C>,
    package: Option<AvailablePackageForUser>,
) -> bool {
    &&& r.0 is Done
    &&& r.1 matches CheckoutAction::Show(c) && c.user_country_code == input.user_country_code
        && c.product == product && c.quantity == input.quantity && c.coupon == coupon && c.package == package
}

/// What the checkout does once the coupon, if any, is known: priced for a
/// country, it shows; else it reads the package by its shipping id, where
/// one is given.
pub open spec fn after_checkout_coupon<C, P>(
    r: (CheckoutPhase<C, P>, CheckoutAction<C, P>),
    input: CalculateBuyNowInput,
    product: P,
    coupon: Option<C>,
    package: Option<AvailablePackageForUser>,
) -> bool {
    if input.user_country_code is Some {
        shows(r, input, product, coupon, package)
    } else {
        match input.shipping_id {
            Some(sid) => {
                &&& r.1 matches CheckoutAction::ReadPackage(x) && x == sid
                &&& r.0 matches CheckoutPhase::AwaitPackage { product: p, coupon: c } && p == product && c == coupon
            },
            None => shows(r, input, product, coupon, None),
        }
    }
}

/// What the checkout does once the package, if read first, is known: check
/// the coupon where a code is given.
pub open spec fn before_checkout_coupon<C, P>(
    r: (CheckoutPhase<C, P>, CheckoutAction<C, P>),
    input: CalculateBuyNowInput,
    store_id: i32,
    product: P,
    package: Option<AvailablePackageForUser>,
) -> bool {
    match input.coupon_code {
        Some(code) => {
            &&& r.1 matches CheckoutAction::CheckCoupon { code: c, store_id: s } && c@ == code@ && s == store_id
            &&& r.0 matches CheckoutPhase::AwaitCoupon { store_id: s, product: p, package: pk } && s == store_id
                && p == product && pk == package
        },
        None => after_checkout_coupon(r, input, product, None, package),
    }
}

fn checkout_after_coupon<C, P>(
    input: &CalculateBuyNowInput,
    product: P,
    coupon: Option<C>,
    package: Option<AvailablePackageForUser>,
) -> (r: (CheckoutPhase<C, P>, CheckoutAction<C, P>))
    ensures
        after_checkout_coupon(r, *input, product, coupon, package),
{
    if input.user_country_code.is_some() {
        return (CheckoutPhase::Done, CheckoutAction::Show(BuyNowCheckout {
            user_country_code: input.user_country_code.clone(),
            product,
            quantity: input.quantity,
            coupon,
            package,
        }));
    }
    match input.shipping_id {
        Some(sid) => (CheckoutPhase::AwaitPackage { product, coupon }, CheckoutAction::ReadPackage(sid)),
        None => (CheckoutPhase::Done, CheckoutAction::Show(BuyNowCheckout {
            user_country_code: input.user_country_code.clone(),
            product,
            quantity: input.quantity,
            coupon,
            package: None,
        })),
    }
}

fn checkout_before_coupon<C, P>(
    input: &CalculateBuyNowInput,
    store_id: i32,
    product: P,
    package: Option<AvailablePackageForUser>,
) -> (r: (CheckoutPhase<C, P>, CheckoutAction<C, P>))
    ensures
        before_checkout_coupon(r, *input, store_id, product, package),
{
    match &input.coupon_code {
        Some(code) => (
            CheckoutPhase::AwaitCoupon { store_id, product, package },
            CheckoutAction::CheckCoupon { code: code.clone(), store_id },
        ),
        None => checkout_after_coupon(input, product, None, package),
    }
}

/// One step of the buy-now checkout. The product's store and the product
/// are read. Where the package is priced for the customer's country, it is
/// read first (where a shipping id is given), and must be available and
/// belong to the store that ships the product; then the coupon, where a
/// code is given, must be valid and may be used on the product. Without a
/// country, the coupon comes first and the package (where a shipping id is
/// given) is read by its shipping id alone and must be available.
pub fn calculate_buy_now_step<C, P>(
    input: &CalculateBuyNowInput,
    state: CheckoutPhase<C, P>,
    event: CheckoutEvent<C, P>,
) -> (r: (CheckoutPhase<C, P>, CheckoutAction<C, P>))
    ensures
        (r.1 is Show || r.1 is Refuse) <==> r.0 is Done,
        match (state, event) {
            (CheckoutPhase::Done, _) => r.1 matches CheckoutAction::Refuse(BuyNowError::UnexpectedEvent),
            (_, CheckoutEvent::Failed) => r.1 matches CheckoutAction::Refuse(BuyNowError::ServiceFailed),
            (CheckoutPhase::Start, CheckoutEvent::Begin) => {
                &&& r.1 matches CheckoutAction::ReadStoreId(x) && x == input.product_id
                &&& r.0 is AwaitStore
            },
            (CheckoutPhase::AwaitStore, CheckoutEvent::StoreId(store_id)) => {
                &&& r.1 matches CheckoutAction::ReadProduct(x) && x == input.product_id
                &&& r.0 matches CheckoutPhase::AwaitProduct { store_id: s } && s == store_id
            },
            (CheckoutPhase::AwaitProduct { store_id }, CheckoutEvent::Product { base_product_id, product }) => match (
                input.user_country_code,
                input.shipping_id,
            ) {
                (Some(code), Some(sid)) => {
                    &&& r.1 matches CheckoutAction::ReadPricedPackage { base_product_id: b, shipping_id, user_country_code }
                        && b == base_product_id && shipping_id == sid && user_country_code@ == code@
                    &&& r.0 matches CheckoutPhase::AwaitPricedPackage { store_id: s, product: p } && s == store_id
                        && p == product
                },
                _ => before_checkout_coupon(r, *input, store_id, product, None),
            },
            (
                CheckoutPhase::AwaitPricedPackage { store_id, product },
                CheckoutEvent::PricedPackage { shipping_store_id, package },
            ) => match package {
                None => r.1 matches CheckoutAction::Refuse(BuyNowError::PackageNotFound),
                Some(p) => if p.store_id != shipping_store_id {
                    r.1 matches CheckoutAction::Refuse(BuyNowError::Package(SelectPackageError::NotInStore))
                } else {
                    before_checkout_coupon(r, *input, store_id, product, Some(p))
                },
            },
            (CheckoutPhase::AwaitCoupon { store_id, product, package }, CheckoutEvent::Coupon { coupon, products }) => match coupon {
                None => r.1 matches CheckoutAction::Refuse(BuyNowError::InvalidCoupon),
                Some(c) => if exists|i: int|
                    0 <= i < products@.len() && (#[trigger] products@[i]).id == input.product_id
                        && !products@[i].has_own_discount {
                    after_checkout_coupon(r, *input, product, Some(c), package)
                } else {
                    r.1 matches CheckoutAction::Refuse(BuyNowError::Coupon(CouponError::NoProductsForCoupon))
                },
            },
            (CheckoutPhase::AwaitPackage { product, coupon }, CheckoutEvent::Package(package)) => match package {
                None => r.1 matches CheckoutAction::Refuse(BuyNowError::PackageNotFound),
                Some(p) => shows(r, *input, product, coupon, Some(p)),
            },
            _ => r.1 matches CheckoutAction::Refuse(BuyNowError::UnexpectedEvent),
        },
{
    match (state, event) {
        (CheckoutPhase::Done, _) => (CheckoutPhase::Done, CheckoutAction::Refuse(BuyNowError::UnexpectedEvent)),
        (_, CheckoutEvent::Failed) => (CheckoutPhase::Done, CheckoutAction::Refuse(BuyNowError::ServiceFailed)),
        (CheckoutPhase::Start, CheckoutEvent::Begin) => (CheckoutPhase::AwaitStore, CheckoutAction::ReadStoreId(input.product_id)),
        (CheckoutPhase::AwaitStore, CheckoutEvent::StoreId(store_id)) => (
            CheckoutPhase::AwaitProduct { store_id },
            CheckoutAction::ReadProduct(input.product_id),
        ),
        (CheckoutPhase::AwaitProduct { store_id }, CheckoutEvent::Product { base_product_id, product }) => {
            match (&input.user_country_code, input.shipping_id) {
                (Some(code), Some(sid)) => (
                    CheckoutPhase::AwaitPricedPackage { store_id, product },
                    CheckoutAction::ReadPricedPackage {
                        base_product_id,
                        shipping_id: sid,
                        user_country_code: code.clone(),
                    },
                ),
                _ => checkout_before_coupon(input, store_id, product, None),
            }
        },
        (
            CheckoutPhase::AwaitPricedPackage { store_id, product },
            CheckoutEvent::PricedPackage { shipping_store_id, package },
        ) => match package {
            None => (CheckoutPhase::Done, CheckoutAction::Refuse(BuyNowError::PackageNotFound)),
            Some(p) => {
                if p.store_id != shipping_store_id {
                    (CheckoutPhase::Done, CheckoutAction::Refuse(BuyNowError::Package(SelectPackageError::NotInStore)))
                } else {
                    checkout_before_coupon(input, store_id, product, Some(p))
                }
            },
        },
        (CheckoutPhase::AwaitCoupon { store_id, product, package }, CheckoutEvent::Coupon { coupon, products }) => {
            match coupon {
                None => (CheckoutPhase::Done, CheckoutAction::Refuse(BuyNowError::InvalidCoupon)),
                Some(c) => match coupon_supports_product(&products, input.product_id) {
                    Err(e) => (CheckoutPhase::Done, CheckoutAction::Refuse(BuyNowError::Coupon(e))),
                    Ok(()) => checkout_after_coupon(input, product, Some(c), package),
                },
            }
        },
        (CheckoutPhase::AwaitPackage { product, coupon }, CheckoutEvent::Package(package)) => match package {
            None => (CheckoutPhase::Done, CheckoutAction::Refuse(BuyNowError::PackageNotFound)),
            Some(p) => (CheckoutPhase::Done, CheckoutAction::Show(BuyNowCheckout {
                user_country_code: input.user_country_code.clone(),
                product,
                quantity: input.quantity,
                coupon,
                package: Some(p),
            })),
        },
        _ => (CheckoutPhase::Done, CheckoutAction::Refuse(BuyNowError::UnexpectedEvent)),
    }
}

} // verus!

//! Making orders from a customer's cart.
//!
//! Making orders alternates requests to the services with decisions. The
//! decisions are [`create_orders_step`]: from where the process stands and
//! what the last request answered, it says what to ask next, or that the
//! orders are to be sent, or that the request is refused. The caller makes
//! the requests and reports each answer back.
use std::collections::HashMap;
use vstd::prelude::*;
use crate::address::AddressInput;
use crate::cart::{
    same_currency_as_first, selected_shipping_id, shipping_id_of, validate_products_fiat, CartItem,
    DeliveryMethodId, FiatPriceError, OrderCartError, PriceCurrency, SelectPackageError,
    SellerPrice,
};
use crate::delivery::{delivery_info_of, get_delivery_info, AvailablePackageForUser, DeliveryInfo};

verus! {

/// The first index in `i..n` that `bad` holds of, if any.
pub open spec fn first_where(i: int, n: int, bad: spec_fn(int) -> bool) -> Option<int>
    decreases n - i,
{
    if i >= n {
        None
    } else if bad(i) {
        Some(i)
    } else {
        first_where(i + 1, n, bad)
    }
}

/// What `first_where` finds: the first index that `bad` holds of.
pub proof fn lemma_first_where(i: int, n: int, bad: spec_fn(int) -> bool)
    ensures
        match first_where(i, n, bad) {
            Some(k) => i <= k < n && bad(k) && forall|j: int| i <= j < k ==> !#[trigger] bad(j),
            None => forall|j: int| i <= j < n ==> !#[trigger] bad(j),
        },
    decreases n - i,
{
    if i < n && !bad(i) {
        lemma_first_where(i + 1, n, bad);
    }
}

/// The item at an index has no delivery chosen.
pub open spec fn lacks_delivery(cart: Seq<CartItem>) -> spec_fn(int) -> bool {
    |i: int| cart[i].delivery_method_id is None
}

/// The item at an index has a coupon applied.
pub open spec fn has_coupon(cart: Seq<CartItem>) -> spec_fn(int) -> bool {
    |i: int| cart[i].coupon_id is Some
}

/// The item at an index has a delivery chosen other than a shipping
/// package.
pub open spec fn not_shipping_package(cart: Seq<CartItem>) -> spec_fn(int) -> bool {
    |i: int| !(cart[i].delivery_method_id matches Some(DeliveryMethodId::ShippingPackage { .. }))
}

/// The package at an index belongs to another store than the item.
pub open spec fn package_elsewhere(cart: Seq<CartItem>, packages: Seq<AvailablePackageForUser>) -> spec_fn(
    int,
) -> bool {
    |i: int| packages[i].store_id != cart[i].store_id
}

/// The product id of each item.
pub open spec fn product_ids(cart: Seq<CartItem>) -> Seq<i32> {
    cart.map_values(|it: CartItem| it.product_id)
}

/// The ids of the coupons applied to the items, in the items' order.
pub open spec fn coupon_ids(cart: Seq<CartItem>) -> Seq<i32>
    decreases cart.len(),
{
    if cart.len() == 0 {
        Seq::empty()
    } else {
        let before = coupon_ids(cart.drop_last());
        match cart.last().coupon_id {
            Some(c) => before.push(c),
            None => before,
        }
    }
}

/// The keys of a list of keyed values.
pub open spec fn keys<T>(s: Seq<(i32, T)>) -> Seq<i32> {
    s.map_values(|p: (i32, T)| p.0)
}

/// The map that a list of keyed values is collected into: where a key
/// comes more than once, its last value stands.
pub open spec fn map_of<V>(s: Seq<(i32, V)>) -> Map<i32, V>
    decreases s.len(),
{
    if s.len() == 0 {
        Map::empty()
    } else {
        map_of(s.drop_last()).insert(s.last().0, s.last().1)
    }
}

/// The keys of the map that a list is collected into are the list's keys.
pub proof fn lemma_map_of_dom<V>(s: Seq<(i32, V)>)
    ensures
        map_of(s).dom() == keys(s).to_set(),
    decreases s.len(),
{
    if s.len() > 0 {
        lemma_map_of_dom(s.drop_last());
        assert(keys(s.drop_last()) =~= keys(s).drop_last());
        assert(keys(s) =~= keys(s).drop_last().push(s.last().0));
        keys(s).drop_last().lemma_push_to_set_commute(s.last().0);
        assert(map_of(s).dom() =~= keys(s).to_set());
    } else {
        assert(map_of(s).dom() =~= keys(s).to_set());
    }
}

/// Each item's product id, paired with the value at the same position.
pub open spec fn keyed<V>(cart: Seq<CartItem>, values: Seq<V>) -> Seq<(i32, V)> {
    Seq::new(cart.len(), |i: int| (cart[i].product_id, values[i]))
}

/// The delivery information of each package.
pub open spec fn delivery_infos_of(packages: Seq<AvailablePackageForUser>) -> Seq<DeliveryInfo> {
    packages.map_values(|p: AvailablePackageForUser| delivery_info_of(p))
}

/// The shipping id of the package chosen for each item (zero where the
/// item has no shipping package).
pub open spec fn shipping_ids(cart: Seq<CartItem>) -> Seq<(i32, i32)> {
    cart.map_values(
        |it: CartItem|
            (
                it.product_id,
                match it.delivery_method_id {
                    Some(DeliveryMethodId::ShippingPackage { id }) => id,
                    _ => 0,
                },
            ),
    )
}

/// Every item has a delivery chosen.
pub open spec fn all_delivery_chosen(cart: Seq<CartItem>) -> bool {
    forall|i: int| 0 <= i < cart.len() ==> (#[trigger] cart[i]).delivery_method_id is Some
}

/// Every package belongs to the store of its item.
pub open spec fn packages_in_store(cart: Seq<CartItem>, packages: Seq<AvailablePackageForUser>) -> bool {
    &&& packages.len() == cart.len()
    &&& forall|i: int| 0 <= i < cart.len() ==> (#[trigger] packages[i]).store_id == cart[i].store_id
}

/// The currency of each price.
pub open spec fn seller_currencies(prices: Seq<SellerPrice>) -> Seq<PriceCurrency> {
    prices.map_values(|p: SellerPrice| p.currency)
}

/// Why prices cannot be paid together in fiat money, if they cannot: the
/// first must be in a fiat currency, and every other in that same one.
pub open spec fn fiat_error(currencies: Seq<PriceCurrency>) -> Option<FiatPriceError> {
    if currencies.len() == 0 {
        None
    } else if !currencies[0].is_fiat {
        Some(FiatPriceError::NotFiat)
    } else if !same_currency_as_first(currencies) {
        Some(FiatPriceError::DifferentCurrencies)
    } else {
        None
    }
}

/// Every item's delivery is a shipping package.
pub open spec fn all_shipping_packages(cart: Seq<CartItem>) -> bool {
    forall|i: int|
        0 <= i < cart.len() ==> ((#[trigger] cart[i]).delivery_method_id matches Some(
            DeliveryMethodId::ShippingPackage { .. },
        ))
}

/// Create orders input object.
#[derive(Debug, Clone)]
pub struct CreateOrderInput {
    /// Client mutation id.
    pub client_mutation_id: String,
    /// Delivery address.
    pub address_full: AddressInput,
    /// Receiver name.
    pub receiver_name: String,
    /// Receiver phone.
    pub receiver_phone: String,
    /// Currency that the orders are paid in.
    pub currency: PriceCurrency,
    /// Alpha-3 code of the customer's country, where packages are priced
    /// for it.
    pub user_country_code: Option<String>,
    /// Unique id of the request.
    pub uuid: String,
}

/// The orders sent to be made: who orders, where to, what each product
/// costs, which coupons apply, how each product is delivered. `C` is a
/// coupon record and `P` the product information, both passed on as the
/// services answered them.
#[derive(Debug, Clone)]
pub struct CreateOrder<C, P> {
    /// The customer's user id.
    pub customer_id: i32,
    /// Delivery address.
    pub address: AddressInput,
    /// Receiver name.
    pub receiver_name: String,
    /// Receiver phone.
    pub receiver_phone: String,
    /// Receiver email: the customer's.
    pub receiver_email: String,
    /// Seller price of each product, by product id.
    pub prices: HashMap<i32, SellerPrice>,
    /// Currency that the orders are paid in.
    pub currency: PriceCurrency,
    /// The coupons applied, by id.
    pub coupons: HashMap<i32, C>,
    /// Delivery of each product, by product id.
    pub delivery_info: HashMap<i32, DeliveryInfo>,
    /// Information on each product, by product id.
    pub product_info: HashMap<i32, P>,
    /// Unique id of the request.
    pub uuid: String,
}

/// Why orders are not made.
#[derive(Debug, Clone, Copy, PartialEq, Eq, Structural)]
pub enum CreateOrdersError {
    /// The request has no user.
    Unauthorized,
    /// The cart cannot become orders.
    Cart(OrderCartError),
    /// The coupon with this id is not valid.
    InvalidCoupon(i32),
    /// A chosen package is refused.
    Package(SelectPackageError),
    /// The orders are paid in fiat money, but the prices cannot be.
    Fiat(FiatPriceError),
    /// A service answered with an error.
    ServiceFailed,
    /// An answer came that the step did not ask for.
    UnexpectedEvent,
}

/// Where making orders stands, and what has been learnt so far.
#[derive(Debug, Clone)]
pub enum CreateOrdersPhase<C> {
    /// Nothing done yet.
    Start,
    /// Waiting for the user's cart.
    AwaitCart {
        /// The user.
        user: i32,
    },
    /// Waiting for the check of the coupon of item `next`.
    AwaitCoupon {
        /// The user.
        user: i32,
        /// The cart.
        cart: Vec<CartItem>,
        /// The item whose coupon is checked.
        next: usize,
        /// The coupons checked so far, by id.
        coupons: Vec<(i32, C)>,
    },
    /// Waiting for the seller prices of the cart's products.
    AwaitPrices {
        /// The user.
        user: i32,
        /// The cart.
        cart: Vec<CartItem>,
        /// The coupons, by id.
        coupons: Vec<(i32, C)>,
    },
    /// Waiting for the chosen packages.
    AwaitPackages {
        /// The user.
        user: i32,
        /// The cart.
        cart: Vec<CartItem>,
        /// The coupons, by id.
        coupons: Vec<(i32, C)>,
        /// The price of each item.
        prices: Vec<SellerPrice>,
    },
    /// Waiting for the customer's record.
    AwaitCustomer {
        /// The user.
        user: i32,
        /// The cart.
        cart: Vec<CartItem>,
        /// The coupons, by id.
        coupons: Vec<(i32, C)>,
        /// The price of each item.
        prices: Vec<SellerPrice>,
        /// The package of each item.
        packages: Vec<AvailablePackageForUser>,
    },
    /// Waiting for the information on the cart's products.
    AwaitProductInfo {
        /// The user.
        user: i32,
        /// The cart.
        cart: Vec<CartItem>,
        /// The coupons, by id.
        coupons: Vec<(i32, C)>,
        /// The price of each item.
        prices: Vec<SellerPrice>,
        /// The package of each item.
        packages: Vec<AvailablePackageForUser>,
        /// The customer's email.
        email: String,
    },
    /// Finished.
    Done,
}

/// What holds of each phase: the checks that it is past.
pub open spec fn phase_inv<C>(p: CreateOrdersPhase<C>) -> bool {
    match p {
        CreateOrdersPhase::AwaitCoupon { cart, next, coupons, .. } => {
            &&& all_delivery_chosen(cart@)
            &&& next < cart@.len()
            &&& cart@[next as int].coupon_id is Some
            &&& keys(coupons@) == coupon_ids(cart@.take(next as int))
        },
        CreateOrdersPhase::AwaitPrices { cart, coupons, .. } => {
            &&& all_delivery_chosen(cart@)
            &&& keys(coupons@) == coupon_ids(cart@)
        },
        CreateOrdersPhase::AwaitPackages { cart, coupons, prices, .. } => {
            &&& all_delivery_chosen(cart@)
            &&& all_shipping_packages(cart@)
            &&& keys(coupons@) == coupon_ids(cart@)
            &&& cart@.len() > 0
            &&& prices@.len() == cart@.len()
        },
        CreateOrdersPhase::AwaitCustomer { cart, coupons, prices, packages, .. } => {
            &&& all_delivery_chosen(cart@)
            &&& all_shipping_packages(cart@)
            &&& keys(coupons@) == coupon_ids(cart@)
            &&& cart@.len() > 0
            &&& prices@.len() == cart@.len()
            &&& packages_in_store(cart@, packages@)
        },
        CreateOrdersPhase::AwaitProductInfo { cart, coupons, prices, packages, .. } => {
            &&& all_delivery_chosen(cart@)
            &&& all_shipping_packages(cart@)
            &&& keys(coupons@) == coupon_ids(cart@)
            &&& cart@.len() > 0
            &&& prices@.len() == cart@.len()
            &&& packages_in_store(cart@, packages@)
        },
        _ => true,
    }
}

/// Where making orders stands.
pub struct CreateOrdersState<C> {
    phase: CreateOrdersPhase<C>,
}

impl<C> CreateOrdersState<C> {
    /// The checks that the phase is past hold.
    #[verifier::type_invariant]
    spec fn inv(self) -> bool {
        phase_inv(self.phase)
    }

    /// The phase.
    pub closed spec fn phase(self) -> CreateOrdersPhase<C> {
        self.phase
    }

    /// The state before anything is done.
    pub fn new() -> (s: Self)
        ensures
            s.phase() is Start,
    {
        CreateOrdersState { phase: CreateOrdersPhase::Start }
    }

    /// Whether making orders has finished.
    pub fn is_done(&self) -> (r: bool)
        ensures
            r == self.phase() is Done,
    {
        match self.phase {
            CreateOrdersPhase::Done => true,
            _ => false,
        }
    }
}

/// What the caller reports back.
#[derive(Debug, Clone)]
pub enum CreateOrdersEvent<C, P> {
    /// The user of the request, if any.
    User(Option<i32>),
    /// The user's cart.
    Cart(Vec<CartItem>),
    /// The coupon asked about, where it is valid.
    Coupon(Option<C>),
    /// The seller price of each product asked about, in order.
    Prices(Vec<SellerPrice>),
    /// The package of each product asked about, in order.
    Packages(Vec<AvailablePackageForUser>),
    /// The customer's email.
    Customer(String),
    /// The information on each product asked about, in order.
    ProductInfo(Vec<P>),
    /// A service answered with an error.
    Failed,
}

/// What the caller is to do next.
#[derive(Debug, Clone)]
pub enum CreateOrdersAction<C, P> {
    /// Read this user's cart.
    ReadCart(i32),
    /// Check the coupon with this id, and read it.
    CheckCoupon(i32),
    /// Read the seller prices of these products.
    ReadPrices(Vec<i32>),
    /// Read the packages with these shipping ids, one for each product.
    ReadPackages(Vec<(i32, i32)>),
    /// Read this user's record.
    ReadCustomer(i32),
    /// Read the information on these products.
    ReadProductInfo(Vec<i32>),
    /// Send the orders.
    Send(CreateOrder<C, P>),
    /// Refuse the request.
    Refuse(CreateOrdersError),
}

/// The first item, at or after `from`, with a coupon applied; the coupons
/// of the items before it are those of the items before `from`.
fn next_coupon_from(cart: &Vec<CartItem>, from: usize) -> (r: Option<usize>)
    requires
        from <= cart@.len(),
    ensures
        first_where(from as int, cart@.len() as int, has_coupon(cart@)) == match r {
            Some(j) => Some(j as int),
            None => None::<int>,
        },
        match r {
            Some(j) => from <= j < cart@.len() && cart@[j as int].coupon_id is Some && coupon_ids(
                cart@.take(j as int),
            ) == coupon_ids(cart@.take(from as int)),
            None => coupon_ids(cart@) == coupon_ids(cart@.take(from as int)),
        },
{
    let mut i: usize = from;
    while i < cart.len()
        invariant
            from <= i <= cart@.len(),
            first_where(from as int, cart@.len() as int, has_coupon(cart@)) == first_where(
                i as int,
                cart@.len() as int,
                has_coupon(cart@),
            ),
            coupon_ids(cart@.take(i as int)) == coupon_ids(cart@.take(from as int)),
        decreases cart@.len() - i,
    {
        if cart[i].coupon_id.is_some() {
            return Some(i);
        }
        assert(cart@.take(i + 1).drop_last() =~= cart@.take(i as int));
        i = i + 1;
    }
    assert(cart@.take(cart@.len() as int) =~= cart@);
    None
}

/// Pairs each key with the value at the same position.
fn zip_keys<T>(keys_of: &Vec<CartItem>, values: Vec<T>) -> (r: Vec<(i32, T)>)
    requires
        values@.len() == keys_of@.len(),
    ensures
        r@.len() == values@.len(),
        r@ == keyed(keys_of@, values@),
        keys(r@) == product_ids(keys_of@),
{
    let ghost orig = values@;
    let n: usize = values.len();
    let mut values = values;
    let mut r: Vec<(i32, T)> = Vec::new();
    let mut k: usize = 0;
    while values.len() > 0
        invariant
            orig.len() == n,
            n == keys_of@.len(),
            0 <= k <= n,
            values@ == orig.skip(k as int),
            values@.len() == n - k,
            r@.len() == k,
            forall|i: int| 0 <= i < k ==> #[trigger] r@[i] == (keys_of@[i].product_id, orig[i]),
        decreases values@.len(),
    {
        let v: T = values.remove(0);
        assert(orig.skip(k as int).remove(0) =~= orig.skip(k + 1));
        r.push((keys_of[k].product_id, v));
        k = k + 1;
    }
    assert(keys(r@) =~= product_ids(keys_of@));
    assert(r@ =~= keyed(keys_of@, orig));
    r
}

/// The delivery information of each item, from its package.
fn delivery_infos(cart: &Vec<CartItem>, packages: Vec<AvailablePackageForUser>) -> (r: Vec<(i32, DeliveryInfo)>)
    requires
        packages@.len() == cart@.len(),
    ensures
        r@.len() == cart@.len(),
        r@ == keyed(cart@, delivery_infos_of(packages@)),
        keys(r@) == product_ids(cart@),
{
    let ghost orig = packages@;
    let n: usize = packages.len();
    let mut packages = packages;
    let mut r: Vec<(i32, DeliveryInfo)> = Vec::new();
    let mut k: usize = 0;
    while packages.len() > 0
        invariant
            orig.len() == n,
            n == cart@.len(),
            0 <= k <= n,
            packages@ == orig.skip(k as int),
            packages@.len() == n - k,
            r@.len() == k,
            forall|i: int| 0 <= i < k ==> #[trigger] r@[i] == (cart@[i].product_id, delivery_info_of(orig[i])),
        decreases packages@.len(),
    {
        let p: AvailablePackageForUser = packages.remove(0);
        assert(orig.skip(k as int).remove(0) =~= orig.skip(k + 1));
        r.push((cart[k].product_id, get_delivery_info(p)));
        k = k + 1;
    }
    assert(keys(r@) =~= product_ids(cart@));
    assert(r@ =~= keyed(cart@, delivery_infos_of(orig)));
    r
}

/// Collects keyed values into a map; where a key comes more than once,
/// its last value stands.
fn into_map<V>(entries: Vec<(i32, V)>) -> (r: HashMap<i32, V>)
    ensures
        r@ == map_of(entries@),
{
    broadcast use vstd::std_specs::hash::group_hash_axioms;

    let ghost orig = entries@;
    let n: usize = entries.len();
    let mut entries = entries;
    let mut r: HashMap<i32, V> = HashMap::new();
    let mut k: usize = 0;
    while entries.len() > 0
        invariant
            orig.len() == n,
            0 <= k <= n,
            entries@.len() == n - k,
            entries@ == orig.skip(k as int),
            r@ == map_of(orig.take(k as int)),
        decreases entries@.len(),
    {
        let (key, value) = entries.remove(0);
        assert(orig.skip(k as int).remove(0) =~= orig.skip(k + 1));
        assert(orig.take(k + 1).drop_last() =~= orig.take(k as int));
        r.insert(key, value);
        k = k + 1;
    }
    assert(orig.take(k as int) =~= orig);
    r
}

/// The product id of each item.
fn product_id_list(cart: &Vec<CartItem>) -> (r: Vec<i32>)
    ensures
        r@ == product_ids(cart@),
{
    let mut r: Vec<i32> = Vec::new();
    let mut i: usize = 0;
    while i < cart.len()
        invariant
            0 <= i <= cart@.len(),
            r@ == product_ids(cart@.take(i as int)),
        decreases cart@.len() - i,
    {
        r.push(cart[i].product_id);
        assert(product_ids(cart@.take(i + 1)) =~= product_ids(cart@.take(i as int)).push(cart@[i as int].product_id));
        i = i + 1;
    }
    assert(cart@.take(cart@.len() as int) =~= cart@);
    r
}

/// The currency of each price.
fn currencies_of(prices: &Vec<SellerPrice>) -> (r: Vec<PriceCurrency>)
    ensures
        r@ == seller_currencies(prices@),
{
    let mut r: Vec<PriceCurrency> = Vec::new();
    let mut i: usize = 0;
    while i < prices.len()
        invariant
            0 <= i <= prices@.len(),
            r@ == seller_currencies(prices@.take(i as int)),
        decreases prices@.len() - i,
    {
        r.push(prices[i].currency.copy());
        assert(seller_currencies(prices@.take(i + 1)) =~= seller_currencies(prices@.take(i as int)).push(
            prices@[i as int].currency,
        ));
        i = i + 1;
    }
    assert(prices@.take(prices@.len() as int) =~= prices@);
    r
}

/// The first item with no delivery chosen.
fn first_lacking_delivery(cart: &Vec<CartItem>) -> (r: Option<usize>)
    ensures
        first_where(0, cart@.len() as int, lacks_delivery(cart@)) == match r {
            Some(j) => Some(j as int),
            None => None::<int>,
        },
{
    let mut i: usize = 0;
    while i < cart.len()
        invariant
            0 <= i <= cart@.len(),
            first_where(0, cart@.len() as int, lacks_delivery(cart@)) == first_where(i as int, cart@.len() as int, lacks_delivery(cart@)),
        decreases cart@.len() - i,
    {
        if cart[i].delivery_method_id.is_none() {
            return Some(i);
        }
        i = i + 1;
    }
    None
}

/// The shipping id of each item's package, or why one is refused: the
/// first item whose delivery is not a shipping package.
fn shipping_id_list(cart: &Vec<CartItem>) -> (r: Result<Vec<(i32, i32)>, SelectPackageError>)
    requires
        all_delivery_chosen(cart@),
    ensures
        match first_where(0, cart@.len() as int, not_shipping_package(cart@)) {
            None => r matches Ok(v) && v@ == shipping_ids(cart@) && all_shipping_packages(cart@),
            Some(k) => r matches Err(e) && shipping_id_of(cart@[k].delivery_method_id->0) == Err::<
                i32,
                SelectPackageError,
            >(e),
        },
{
    let mut r: Vec<(i32, i32)> = Vec::new();
    let mut i: usize = 0;
    while i < cart.len()
        invariant
            0 <= i <= cart@.len(),
            all_delivery_chosen(cart@),
            first_where(0, cart@.len() as int, not_shipping_package(cart@)) == first_where(i as int, cart@.len() as int, not_shipping_package(cart@)),
            r@ == shipping_ids(cart@.take(i as int)),
        decreases cart@.len() - i,
    {
        assert(cart@[i as int].delivery_method_id is Some);
        let dm: DeliveryMethodId = cart[i].delivery_method_id.unwrap();
        match selected_shipping_id(dm) {
            Err(e) => {
                return Err(e);
            },
            Ok(id) => {
                r.push((cart[i].product_id, id));
                assert(shipping_ids(cart@.take(i + 1)) =~= shipping_ids(cart@.take(i as int)).push((cart@[i as int].product_id, id)));
            },
        }
        i = i + 1;
    }
    assert(cart@.take(cart@.len() as int) =~= cart@);
    proof {
        lemma_first_where(0, cart@.len() as int, not_shipping_package(cart@));
        assert forall|j: int| 0 <= j < cart@.len() implies ((#[trigger] cart@[j]).delivery_method_id matches Some(
            DeliveryMethodId::ShippingPackage { .. },
        )) by {
            assert(!not_shipping_package(cart@)(j));
        }
    }
    Ok(r)
}

/// The first package that belongs to another store than its item.
fn first_package_elsewhere(cart: &Vec<CartItem>, packages: &Vec<AvailablePackageForUser>) -> (r: Option<usize>)
    requires
        packages@.len() == cart@.len(),
    ensures
        first_where(0, cart@.len() as int, package_elsewhere(cart@, packages@)) == match r {
            Some(j) => Some(j as int),
            None => None::<int>,
        },
{
    let mut i: usize = 0;
    while i < cart.len()
        invariant
            0 <= i <= cart@.len(),
            packages@.len() == cart@.len(),
            first_where(0, cart@.len() as int, package_elsewhere(cart@, packages@)) == first_where(i as int, cart@.len() as int, package_elsewhere(cart@, packages@)),
        decreases cart@.len() - i,
    {
        if packages[i].store_id != cart[i].store_id {
            return Some(i);
        }
        i = i + 1;
    }
    None
}


/// The coupon id of the item at `k`.
pub open spec fn coupon_at(cart: Seq<CartItem>, k: int) -> i32 {
    cart[k].coupon_id->0
}

/// What making orders is to do once the coupons are checked: read the
/// prices of the cart's products.
pub open spec fn reads_prices<C, P>(
    r: (CreateOrdersState<C>, CreateOrdersAction<C, P>),
    user: i32,
    cart: Seq<CartItem>,
    coupons: Seq<(i32, C)>,
) -> bool {
    &&& r.1 matches CreateOrdersAction::ReadPrices(ids) && ids@ == product_ids(cart)
    &&& r.0.phase() matches CreateOrdersPhase::AwaitPrices { user: u, cart: c, coupons: cs }
        && u == user && c@ == cart && cs@ == coupons
}

/// What making orders is to do to check the coupon of the item at `k`.
pub open spec fn checks_coupon<C, P>(
    r: (CreateOrdersState<C>, CreateOrdersAction<C, P>),
    user: i32,
    cart: Seq<CartItem>,
    k: int,
    coupons: Seq<(i32, C)>,
) -> bool {
    &&& r.1 matches CreateOrdersAction::CheckCoupon(id) && id == coupon_at(cart, k)
    &&& r.0.phase() matches CreateOrdersPhase::AwaitCoupon { user: u, cart: c, next, coupons: cs }
        && u == user && c@ == cart && next == k && cs@ == coupons
}

/// The step refuses the request for this reason and finishes.
pub open spec fn refuses<C, P>(r: (CreateOrdersState<C>, CreateOrdersAction<C, P>), e: CreateOrdersError) -> bool {
    r.1 matches CreateOrdersAction::Refuse(x) && x == e
}

/// Once the cart's deliveries are known to be chosen: check the first
/// coupon, or read the prices where no item has one.
fn after_cart<C, P>(user: i32, cart: Vec<CartItem>, from: usize, coupons: Vec<(i32, C)>) -> (r: (
    CreateOrdersState<C>,
    CreateOrdersAction<C, P>,
))
    requires
        all_delivery_chosen(cart@),
        from <= cart@.len(),
        keys(coupons@) == coupon_ids(cart@.take(from as int)),
    ensures
        match first_where(from as int, cart@.len() as int, has_coupon(cart@)) {
            Some(k) => checks_coupon(r, user, cart@, k, coupons@),
            None => reads_prices(r, user, cart@, coupons@),
        },
{
    match next_coupon_from(&cart, from) {
        Some(j) => {
            let id: i32 = cart[j].coupon_id.unwrap();
            (
                CreateOrdersState {
                    phase: CreateOrdersPhase::AwaitCoupon { user, cart, next: j, coupons },
                },
                CreateOrdersAction::CheckCoupon(id),
            )
        },
        None => {
            let ids = product_id_list(&cart);
            (
                CreateOrdersState { phase: CreateOrdersPhase::AwaitPrices { user, cart, coupons } },
                CreateOrdersAction::ReadPrices(ids),
            )
        },
    }
}

/// One step of making orders from the user's cart. The checks run in this
/// order, and the first that fails refuses the request: there must be a
/// user; every item of the cart must have a delivery chosen (the first item
/// without one is reported); every coupon applied must be valid, in the
/// items' order; the cart must not be empty; every delivery must be a
/// shipping package (the first that is not is reported); every package
/// must belong to the store of its item; and, where the orders are paid in
/// fiat money, the prices must all be in one fiat currency. Only when all
/// have passed are the orders sent, for the user, to the customer's email,
/// with the prices, deliveries and product information keyed by the cart's
/// product ids and the coupons keyed by the ids applied in the cart.
#[verifier::rlimit(60)]
pub fn create_orders_step<C, P>(
    input: &CreateOrderInput,
    state: CreateOrdersState<C>,
    event: CreateOrdersEvent<C, P>,
) -> (r: (CreateOrdersState<C>, CreateOrdersAction<C, P>))
    ensures
        (r.1 is Send || r.1 is Refuse) <==> r.0.phase() is Done,
        match (state.phase(), event) {
            (CreateOrdersPhase::Done, _) => refuses(r, CreateOrdersError::UnexpectedEvent),
            (_, CreateOrdersEvent::Failed) => refuses(r, CreateOrdersError::ServiceFailed),
            (CreateOrdersPhase::Start, CreateOrdersEvent::User(u)) => match u {
                None => refuses(r, CreateOrdersError::Unauthorized),
                Some(id) => {
                    &&& r.1 matches CreateOrdersAction::ReadCart(x) && x == id
                    &&& r.0.phase() matches CreateOrdersPhase::AwaitCart { user } && user == id
                },
            },
            (CreateOrdersPhase::AwaitCart { user }, CreateOrdersEvent::Cart(cart)) => match first_where(
                0,
                cart@.len() as int,
                lacks_delivery(cart@),
            ) {
                Some(k) => refuses(
                    r,
                    CreateOrdersError::Cart(
                        OrderCartError::DeliveryPackageNotSelected {
                            product_id: cart@[k].product_id,
                            store_id: cart@[k].store_id,
                        },
                    ),
                ),
                None => match first_where(0, cart@.len() as int, has_coupon(cart@)) {
                    Some(k) => checks_coupon(r, user, cart@, k, Seq::empty()),
                    None => reads_prices(r, user, cart@, Seq::empty()),
                },
            },
            (CreateOrdersPhase::AwaitCoupon { user, cart, next, coupons }, CreateOrdersEvent::Coupon(c)) => match c {
                None => refuses(r, CreateOrdersError::InvalidCoupon(coupon_at(cart@, next as int))),
                Some(cv) => {
                    let coupons2 = coupons@.push((coupon_at(cart@, next as int), cv));
                    match first_where(next + 1, cart@.len() as int, has_coupon(cart@)) {
                        Some(k) => checks_coupon(r, user, cart@, k, coupons2),
                        None => reads_prices(r, user, cart@, coupons2),
                    }
                },
            },
            (CreateOrdersPhase::AwaitPrices { user, cart, coupons }, CreateOrdersEvent::Prices(prices)) => {
                if prices@.len() != cart@.len() {
                    refuses(r, CreateOrdersError::UnexpectedEvent)
                } else if cart@.len() == 0 {
                    refuses(r, CreateOrdersError::Cart(OrderCartError::EmptyCart))
                } else {
                    match first_where(0, cart@.len() as int, not_shipping_package(cart@)) {
                        Some(k) => r.1 matches CreateOrdersAction::Refuse(CreateOrdersError::Package(e))
                            && shipping_id_of(cart@[k].delivery_method_id->0) == Err::<i32, SelectPackageError>(e),
                        None => {
                            &&& r.1 matches CreateOrdersAction::ReadPackages(ids) && ids@ == shipping_ids(cart@)
                            &&& r.0.phase() matches CreateOrdersPhase::AwaitPackages { user: u, cart: c, coupons: cs, prices: ps }
                                && u == user && c@ == cart@ && cs@ == coupons@ && ps@ == prices@
                        },
                    }
                }
            },
            (CreateOrdersPhase::AwaitPackages { user, cart, coupons, prices }, CreateOrdersEvent::Packages(packages)) => {
                if packages@.len() != cart@.len() {
                    refuses(r, CreateOrdersError::UnexpectedEvent)
                } else {
                    match first_where(0, cart@.len() as int, package_elsewhere(cart@, packages@)) {
                        Some(_) => refuses(r, CreateOrdersError::Package(SelectPackageError::NotInStore)),
                        None => {
                            &&& r.1 matches CreateOrdersAction::ReadCustomer(x) && x == user
                            &&& r.0.phase() matches CreateOrdersPhase::AwaitCustomer { user: u, cart: c, coupons: cs, prices: ps, packages: pk }
                                && u == user && c@ == cart@ && cs@ == coupons@ && ps@ == prices@ && pk@ == packages@
                        },
                    }
                }
            },
            (CreateOrdersPhase::AwaitCustomer { user, cart, coupons, prices, packages }, CreateOrdersEvent::Customer(email)) => {
                &&& r.1 matches CreateOrdersAction::ReadProductInfo(ids) && ids@ == product_ids(cart@)
                &&& r.0.phase() matches CreateOrdersPhase::AwaitProductInfo { user: u, cart: c, coupons: cs, prices: ps, packages: pk, email: em }
                    && u == user && c@ == cart@ && cs@ == coupons@ && ps@ == prices@ && pk@ == packages@ && em@ == email@
            },
            (CreateOrdersPhase::AwaitProductInfo { user, cart, coupons, prices, packages, email }, CreateOrdersEvent::ProductInfo(infos)) => {
                if infos@.len() != cart@.len() {
                    refuses(r, CreateOrdersError::UnexpectedEvent)
                } else if input.currency.is_fiat && fiat_error(seller_currencies(prices@)) is Some {
                    refuses(r, CreateOrdersError::Fiat(fiat_error(seller_currencies(prices@))->0))
                } else {
                    r.1 matches CreateOrdersAction::Send(o) && {
                        &&& o.customer_id == user
                        &&& o.address == input.address_full
                        &&& o.receiver_name@ == input.receiver_name@
                        &&& o.receiver_phone@ == input.receiver_phone@
                        &&& o.receiver_email@ == email@
                        &&& o.currency == input.currency
                        &&& o.uuid@ == input.uuid@
                        &&& o.coupons@ == map_of(coupons@)
                        &&& o.prices@ == map_of(keyed(cart@, prices@))
                        &&& o.delivery_info@ == map_of(keyed(cart@, delivery_infos_of(packages@)))
                        &&& o.product_info@ == map_of(keyed(cart@, infos@))
                    }
                }
            },
            _ => refuses(r, CreateOrdersError::UnexpectedEvent),
        },
        r.1 matches CreateOrdersAction::Send(o) ==> state.phase() matches CreateOrdersPhase::AwaitProductInfo {
            user,
            cart,
            packages,
            prices,
            email,
            ..
        } && {
            &&& cart@.len() > 0
            &&& all_delivery_chosen(cart@)
            &&& all_shipping_packages(cart@)
            &&& packages_in_store(cart@, packages@)
            &&& o.customer_id == user
            &&& o.receiver_email@ == email@
            &&& o.prices@.dom() == product_ids(cart@).to_set()
            &&& o.delivery_info@.dom() == product_ids(cart@).to_set()
            &&& o.product_info@.dom() == product_ids(cart@).to_set()
            &&& o.coupons@.dom() == coupon_ids(cart@).to_set()
            &&& input.currency.is_fiat ==> fiat_error(seller_currencies(prices@)) is None
        },
{
    proof {
        use_type_invariant(&state);
    }
    let ghost phase0 = state.phase();
    match (state.phase, event) {
        (CreateOrdersPhase::Done, _) => (
            CreateOrdersState { phase: CreateOrdersPhase::Done },
            CreateOrdersAction::Refuse(CreateOrdersError::UnexpectedEvent),
        ),
        (_, CreateOrdersEvent::Failed) => (
            CreateOrdersState { phase: CreateOrdersPhase::Done },
            CreateOrdersAction::Refuse(CreateOrdersError::ServiceFailed),
        ),
        (CreateOrdersPhase::Start, CreateOrdersEvent::User(u)) => match u {
            None => (
                CreateOrdersState { phase: CreateOrdersPhase::Done },
                CreateOrdersAction::Refuse(CreateOrdersError::Unauthorized),
            ),
            Some(id) => (
                CreateOrdersState { phase: CreateOrdersPhase::AwaitCart { user: id } },
                CreateOrdersAction::ReadCart(id),
            ),
        },
        (CreateOrdersPhase::AwaitCart { user }, CreateOrdersEvent::Cart(cart)) => {
            match first_lacking_delivery(&cart) {
                Some(k) => {
                    proof {
                        lemma_first_where(0, cart@.len() as int, lacks_delivery(cart@));
                    }
                    (
                    CreateOrdersState { phase: CreateOrdersPhase::Done },
                    CreateOrdersAction::Refuse(
                        CreateOrdersError::Cart(
                            OrderCartError::DeliveryPackageNotSelected {
                                product_id: cart[k].product_id,
                                store_id: cart[k].store_id,
                            },
                        ),
                    ),
                )
                },
                None => {
                    proof {
                        lemma_first_where(0, cart@.len() as int, lacks_delivery(cart@));
                        assert forall|j: int| 0 <= j < cart@.len() implies (#[trigger] cart@[j]).delivery_method_id is Some by {
                            assert(!lacks_delivery(cart@)(j));
                        }
                        assert(cart@.take(0) =~= Seq::<CartItem>::empty());
                    }
                    let coupons: Vec<(i32, C)> = Vec::new();
                    proof {
                        assert(keys(coupons@) =~= Seq::<i32>::empty());
                    }
                    after_cart(user, cart, 0, coupons)
                },
            }
        },
        (CreateOrdersPhase::AwaitCoupon { user, cart, next, coupons }, CreateOrdersEvent::Coupon(c)) => {
            match c {
                None => {
                    let id: i32 = cart[next].coupon_id.unwrap();
                    (
                        CreateOrdersState { phase: CreateOrdersPhase::Done },
                        CreateOrdersAction::Refuse(CreateOrdersError::InvalidCoupon(id)),
                    )
                },
                Some(cv) => {
                    let id: i32 = cart[next].coupon_id.unwrap();
                    let count: usize = cart.len();
                    assert(next < count);
                    let after: usize = next + 1;
                    let mut coupons = coupons;
                    let ghost before = coupons@;
                    coupons.push((id, cv));
                    proof {
                        assert(cart@.take(next + 1).drop_last() =~= cart@.take(next as int));
                        assert(keys(coupons@) =~= keys(before).push(id));
                    }
                    after_cart(user, cart, after, coupons)
                },
            }
        },
        (CreateOrdersPhase::AwaitPrices { user, cart, coupons }, CreateOrdersEvent::Prices(prices)) => {
            if prices.len() != cart.len() {
                return (
                    CreateOrdersState { phase: CreateOrdersPhase::Done },
                    CreateOrdersAction::Refuse(CreateOrdersError::UnexpectedEvent),
                );
            }
            if cart.len() == 0 {
                return (
                    CreateOrdersState { phase: CreateOrdersPhase::Done },
                    CreateOrdersAction::Refuse(CreateOrdersError::Cart(OrderCartError::EmptyCart)),
                );
            }
            match shipping_id_list(&cart) {
                Err(e) => (
                    CreateOrdersState { phase: CreateOrdersPhase::Done },
                    CreateOrdersAction::Refuse(CreateOrdersError::Package(e)),
                ),
                Ok(ids) => (
                    CreateOrdersState {
                        phase: CreateOrdersPhase::AwaitPackages { user, cart, coupons, prices },
                    },
                    CreateOrdersAction::ReadPackages(ids),
                ),
            }
        },
        (
            CreateOrdersPhase::AwaitPackages { user, cart, coupons, prices },
            CreateOrdersEvent::Packages(packages),
        ) => {
            if packages.len() != cart.len() {
                return (
                    CreateOrdersState { phase: CreateOrdersPhase::Done },
                    CreateOrdersAction::Refuse(CreateOrdersError::UnexpectedEvent),
                );
            }
            match first_package_elsewhere(&cart, &packages) {
                Some(_) => (
                    CreateOrdersState { phase: CreateOrdersPhase::Done },
                    CreateOrdersAction::Refuse(CreateOrdersError::Package(SelectPackageError::NotInStore)),
                ),
                None => {
                    proof {
                        lemma_first_where(0, cart@.len() as int, package_elsewhere(cart@, packages@));
                        assert forall|j: int| 0 <= j < cart@.len() implies (#[trigger] packages@[j]).store_id == cart@[j].store_id by {
                            assert(!package_elsewhere(cart@, packages@)(j));
                        }
                    }
                    (
                        CreateOrdersState {
                            phase: CreateOrdersPhase::AwaitCustomer { user, cart, coupons, prices, packages },
                        },
                        CreateOrdersAction::ReadCustomer(user),
                    )
                },
            }
        },
        (
            CreateOrdersPhase::AwaitCustomer { user, cart, coupons, prices, packages },
            CreateOrdersEvent::Customer(email),
        ) => {
            let ids = product_id_list(&cart);
            (
                CreateOrdersState {
                    phase: CreateOrdersPhase::AwaitProductInfo { user, cart, coupons, prices, packages, email },
                },
                CreateOrdersAction::ReadProductInfo(ids),
            )
        },
        (
            CreateOrdersPhase::AwaitProductInfo { user, cart, coupons, prices, packages, email },
            CreateOrdersEvent::ProductInfo(infos),
        ) => {
            if infos.len() != cart.len() {
                return (
                    CreateOrdersState { phase: CreateOrdersPhase::Done },
                    CreateOrdersAction::Refuse(CreateOrdersError::UnexpectedEvent),
                );
            }
            let currencies = currencies_of(&prices);
            if input.currency.is_fiat {
                if let Err(e) = validate_products_fiat(&currencies) {
                    return (
                        CreateOrdersState { phase: CreateOrdersPhase::Done },
                        CreateOrdersAction::Refuse(CreateOrdersError::Fiat(e)),
                    );
                }
            }
            let keyed_prices = zip_keys(&cart, prices);
            let keyed_delivery = delivery_infos(&cart, packages);
            let keyed_info = zip_keys(&cart, infos);
            proof {
                lemma_map_of_dom(keyed_prices@);
                lemma_map_of_dom(keyed_delivery@);
                lemma_map_of_dom(keyed_info@);
                lemma_map_of_dom(coupons@);
            }
            let keyed_prices = into_map(keyed_prices);
            let delivery_info = into_map(keyed_delivery);
            let product_info = into_map(keyed_info);
            let coupons = into_map(coupons);
            let order = CreateOrder {
                customer_id: user,
                address: input.address_full.copy(),
                receiver_name: input.receiver_name.clone(),
                receiver_phone: input.receiver_phone.clone(),
                receiver_email: email,
                prices: keyed_prices,
                currency: input.currency.copy(),
                coupons,
                delivery_info,
                product_info,
                uuid: input.uuid.clone(),
            };
            (CreateOrdersState { phase: CreateOrdersPhase::Done }, CreateOrdersAction::Send(order))
        },
        _ => (
            CreateOrdersState { phase: CreateOrdersPhase::Done },
            CreateOrdersAction::Refuse(CreateOrdersError::UnexpectedEvent),
        ),
    }
}

} // verus!

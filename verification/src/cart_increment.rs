//! Adding a product to a cart, or adding to its quantity.
//!
//! The decisions are [`increment_in_cart_step`]; the caller makes the
//! requests to the services and reports each answer back.
use vstd::prelude::*;
use crate::cart::{get_customer, get_customer_spec, quantity_in_cart, quantity_to_set, CartCustomer, CartItem};

verus! {

/// Increment in cart input object. A country code is given by clients
/// that have packages priced for the customer's country.
#[derive(Debug, Clone)]
pub struct IncrementInCartInput {
    /// Client mutation id.
    pub client_mutation_id: String,
    /// Product id.
    pub product_id: i32,
    /// How much to add to the quantity the cart held, if anything.
    pub value: Option<i32>,
    /// Alpha-3 code of the customer's country.
    pub user_country_code: Option<String>,
}

/// What is read of the base product of the product added.
#[derive(Debug, Clone)]
pub struct IncrementBaseProduct {
    /// Its store.
    pub store_id: i32,
    /// Whether its currency is a fiat currency.
    pub currency_is_fiat: bool,
    /// Whether its first variant is sold before it is made, and the days
    /// until it is made, where it has a variant.
    pub first_variant: Option<(bool, i32)>,
}

/// Why nothing is added.
#[derive(Debug, Clone, Copy, PartialEq, Eq, Structural)]
pub enum IncrementError {
    /// The request has neither a user id nor a session id.
    Unauthorized,
    /// The base product has no variant.
    ProductNotInVariants,
    /// A service answered with an error.
    ServiceFailed,
    /// An answer came that the step did not ask for.
    UnexpectedEvent,
}

/// Where adding to a cart stands.
#[derive(Debug, Clone)]
pub enum IncrementState {
    /// Nothing done yet.
    Start,
    /// Waiting for the base product.
    AwaitBaseProduct {
        /// The customer whose cart is changed.
        customer: CartCustomer,
    },
    /// Waiting for the cart as it was.
    AwaitCart {
        /// The customer whose cart is changed.
        customer: CartCustomer,
        /// The base product.
        base: IncrementBaseProduct,
    },
    /// Waiting for the cart after the product was added.
    AwaitIncremented {
        /// The customer whose cart is changed.
        customer: CartCustomer,
        /// The quantity to set then, where a value was given: what the cart
        /// held before plus that value.
        quantity: Option<i32>,
    },
    /// Waiting for the cart after its quantity was set.
    AwaitQuantitySet,
    /// Finished.
    Done,
}

/// What the caller reports back.
#[derive(Debug, Clone)]
pub enum IncrementEvent {
    /// Who sent the request: the signed-in user and the session, each where
    /// there is one.
    Requester {
        /// User id.
        user_id: Option<i32>,
        /// Session id.
        session_id: Option<u128>,
    },
    /// The base product of the product added.
    BaseProduct(IncrementBaseProduct),
    /// The customer's cart, as the service answered it.
    Cart(Vec<CartItem>),
    /// A service answered with the cart after a change.
    Changed(Vec<CartItem>),
    /// A service answered with an error.
    Failed,
}

/// What the caller is to do next.
#[derive(Debug, Clone)]
pub enum IncrementAction {
    /// Read the base product of this product.
    ReadBaseProduct(i32),
    /// Read this customer's cart, in currencies of this type.
    ReadCart {
        /// The customer.
        customer: CartCustomer,
        /// Whether the currencies are fiat ones.
        currency_is_fiat: bool,
    },
    /// Add the product to the cart, or add one to its quantity.
    IncrementItem {
        /// The customer.
        customer: CartCustomer,
        /// Product id.
        product_id: i32,
        /// The base product's store.
        store_id: i32,
        /// Whether the first variant is sold before it is made.
        pre_order: bool,
        /// Days until it is made.
        pre_order_days: i32,
        /// Whether the base product's currency is a fiat one.
        currency_is_fiat: bool,
        /// Alpha-3 code of the customer's country, where given.
        user_country_code: Option<String>,
    },
    /// Set the product's quantity in the cart.
    SetQuantity {
        /// The customer.
        customer: CartCustomer,
        /// Product id.
        product_id: i32,
        /// The quantity.
        quantity: i32,
    },
    /// Show the cart.
    ShowCart(Vec<CartItem>),
    /// Refuse the request.
    Refuse(IncrementError),
}

/// The step refuses the request for this reason and finishes.
pub open spec fn refuses(r: (IncrementState, IncrementAction), e: IncrementError) -> bool {
    &&& r.0 is Done
    &&& r.1 matches IncrementAction::Refuse(x) && x == e
}

/// The sum that setting the quantity asks for fits in an `i32`: the
/// quantity of the product that a cart holds, plus the value given.
pub open spec fn quantity_fits(items: Seq<CartItem>, product_id: i32, value: Option<i32>) -> bool {
    value matches Some(v) ==> i32::MIN <= quantity_in_cart(items, product_id) + v <= i32::MAX
}

/// One step of adding a product to a cart. A request without a customer
/// is refused, then one whose base product has no variant; otherwise the
/// product is added with the store of its base product and the pre-order
/// terms of its first variant, and, where a value is given, its quantity is
/// set to what the cart held before plus that value.
pub fn increment_in_cart_step(input: &IncrementInCartInput, state: IncrementState, event: IncrementEvent) -> (r: (
    IncrementState,
    IncrementAction,
))
    requires
        state is AwaitCart ==> (event matches IncrementEvent::Cart(items) ==> quantity_fits(
            items@,
            input.product_id,
            input.value,
        )),
    ensures
        (r.1 is ShowCart || r.1 is Refuse) <==> r.0 is Done,
        match (state, event) {
            (IncrementState::Done, _) => refuses(r, IncrementError::UnexpectedEvent),
            (_, IncrementEvent::Failed) => refuses(r, IncrementError::ServiceFailed),
            (IncrementState::Start, IncrementEvent::Requester { user_id, session_id }) => match get_customer_spec(
                user_id,
                session_id,
            ) {
                None => refuses(r, IncrementError::Unauthorized),
                Some(c) => {
                    &&& r.1 matches IncrementAction::ReadBaseProduct(p) && p == input.product_id
                    &&& r.0 matches IncrementState::AwaitBaseProduct { customer } && customer == c
                },
            },
            (IncrementState::AwaitBaseProduct { customer }, IncrementEvent::BaseProduct(base)) => match base.first_variant {
                None => refuses(r, IncrementError::ProductNotInVariants),
                Some(_) => {
                    &&& r.1 matches IncrementAction::ReadCart { customer: c, currency_is_fiat }
                        && c == customer && currency_is_fiat == base.currency_is_fiat
                    &&& r.0 matches IncrementState::AwaitCart { customer: c, base: b } && c == customer
                        && b.store_id == base.store_id && b.currency_is_fiat == base.currency_is_fiat
                        && b.first_variant == base.first_variant
                },
            },
            (IncrementState::AwaitCart { customer, base }, IncrementEvent::Cart(items)) => match base.first_variant {
                None => refuses(r, IncrementError::ProductNotInVariants),
                Some((pre_order, pre_order_days)) => {
                    &&& r.1 matches IncrementAction::IncrementItem {
                        customer: c,
                        product_id,
                        store_id,
                        pre_order: po,
                        pre_order_days: pod,
                        currency_is_fiat,
                        user_country_code,
                    } && c == customer && product_id == input.product_id && store_id == base.store_id
                        && po == pre_order && pod == pre_order_days && currency_is_fiat == base.currency_is_fiat
                        && user_country_code == input.user_country_code
                    &&& r.0 matches IncrementState::AwaitIncremented { customer: c, quantity } && c == customer
                        && quantity == match input.value {
                        Some(v) => Some((quantity_in_cart(items@, input.product_id) + v) as i32),
                        None => None::<i32>,
                    }
                },
            },
            (IncrementState::AwaitIncremented { customer, quantity }, IncrementEvent::Changed(items)) => match quantity {
                Some(q) => {
                    &&& r.1 matches IncrementAction::SetQuantity { customer: c, product_id, quantity: x }
                        && c == customer && product_id == input.product_id && x == q
                    &&& r.0 is AwaitQuantitySet
                },
                None => {
                    &&& r.0 is Done
                    &&& r.1 matches IncrementAction::ShowCart(shown) && shown@ == items@
                },
            },
            (IncrementState::AwaitQuantitySet, IncrementEvent::Changed(items)) => {
                &&& r.0 is Done
                &&& r.1 matches IncrementAction::ShowCart(shown) && shown@ == items@
            },
            _ => refuses(r, IncrementError::UnexpectedEvent),
        },
{
    match (state, event) {
        (IncrementState::Done, _) => (IncrementState::Done, IncrementAction::Refuse(IncrementError::UnexpectedEvent)),
        (_, IncrementEvent::Failed) => (IncrementState::Done, IncrementAction::Refuse(IncrementError::ServiceFailed)),
        (IncrementState::Start, IncrementEvent::Requester { user_id, session_id }) => match get_customer(user_id, session_id) {
            None => (IncrementState::Done, IncrementAction::Refuse(IncrementError::Unauthorized)),
            Some(c) => (
                IncrementState::AwaitBaseProduct { customer: c },
                IncrementAction::ReadBaseProduct(input.product_id),
            ),
        },
        (IncrementState::AwaitBaseProduct { customer }, IncrementEvent::BaseProduct(base)) => {
            if base.first_variant.is_none() {
                return (IncrementState::Done, IncrementAction::Refuse(IncrementError::ProductNotInVariants));
            }
            let currency_is_fiat: bool = base.currency_is_fiat;
            (IncrementState::AwaitCart { customer, base }, IncrementAction::ReadCart { customer, currency_is_fiat })
        },
        (IncrementState::AwaitCart { customer, base }, IncrementEvent::Cart(items)) => {
            match base.first_variant {
                None => (IncrementState::Done, IncrementAction::Refuse(IncrementError::ProductNotInVariants)),
                Some((pre_order, pre_order_days)) => {
                    let quantity = quantity_to_set(&items, input.product_id, input.value);
                    (
                        IncrementState::AwaitIncremented { customer, quantity },
                        IncrementAction::IncrementItem {
                            customer,
                            product_id: input.product_id,
                            store_id: base.store_id,
                            pre_order,
                            pre_order_days,
                            currency_is_fiat: base.currency_is_fiat,
                            user_country_code: input.user_country_code.clone(),
                        },
                    )
                },
            }
        },
        (IncrementState::AwaitIncremented { customer, quantity }, IncrementEvent::Changed(items)) => {
            match quantity {
                Some(q) => (
                    IncrementState::AwaitQuantitySet,
                    IncrementAction::SetQuantity { customer, product_id: input.product_id, quantity: q },
                ),
                None => (IncrementState::Done, IncrementAction::ShowCart(items)),
            }
        },
        (IncrementState::AwaitQuantitySet, IncrementEvent::Changed(items)) => (
            IncrementState::Done,
            IncrementAction::ShowCart(items),
        ),
        _ => (IncrementState::Done, IncrementAction::Refuse(IncrementError::UnexpectedEvent)),
    }
}

} // verus!

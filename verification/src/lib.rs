//! Models and request-shaping rules of the marketplace GraphQL gateway.
//!
//! The gateway receives GraphQL inputs, turns them into payloads for the
//! back-end microservices and turns their answers back into GraphQL values.
//! This crate holds the part of that work that does not talk to the network:
//! the input and output models, how languages, translations and visibilities
//! are written and read, which update inputs carry nothing to update, how
//! pages of search results are cut, and the checks that a cart passes before
//! an order is made from it.
//!
//! The mutations that alternate requests to the services with decisions
//! (making orders from a cart, buying now and its checkout, choosing or
//! removing a delivery, adding to a cart, updating a store) are written as
//! step functions: from where the mutation stands and
//! what the last request answered, each says what to ask next, what to
//! send, or why the request is refused. The caller makes the requests.

pub mod address;
pub mod attribute;
pub mod buy_now;
pub mod cart;
pub mod cart_increment;
pub mod create_orders;
pub mod coupon;
pub mod delivery;
pub mod order;
pub mod paging;
pub mod pricing;
pub mod store;
pub mod strings;
pub mod stripe;
pub mod subscription;
pub mod translated_text;
pub mod translation;
pub mod user;
pub mod user_delivery_address;
pub mod user_role;
pub mod visibility;
pub mod warehouse;
pub mod warehouse_product;
pub mod wizard_store;

//! Which formula prices a line of a cart or a buy-now checkout.
//!
//! Prices, discounts and exchange rates are floating-point numbers; this
//! module decides, from the integers and flags that a line carries, which
//! formula applies, and leaves the arithmetic on the amounts to the caller.
use vstd::prelude::*;

verus! {

/// The formula that prices a line.
#[derive(Debug, Clone, Copy, PartialEq, Eq, Structural)]
pub enum PriceRule {
    /// The line has no items: it costs nothing.
    Nothing,
    /// The product's own discount applies to every item:
    /// `price * quantity * (1 - discount)`.
    ProductDiscount,
    /// A coupon's discount applies to one item only:
    /// `(price - coupon discount) + price * (quantity - 1)`.
    CouponOnOneItem,
    /// No discount: `price * quantity`.
    Plain,
}

/// The formula for a line of `quantity` items, given whether the product's
/// own discount is large enough to count and whether a coupon is applied.
/// The product's discount takes precedence over a coupon.
pub fn price_rule(quantity: i32, product_discount_applies: bool, has_coupon: bool) -> (r: PriceRule)
    ensures
        r == (if quantity <= 0 {
            PriceRule::Nothing
        } else if product_discount_applies {
            PriceRule::ProductDiscount
        } else if has_coupon {
            PriceRule::CouponOnOneItem
        } else {
            PriceRule::Plain
        }),
{
    if quantity <= 0 {
        PriceRule::Nothing
    } else if product_discount_applies {
        PriceRule::ProductDiscount
    } else if has_coupon {
        PriceRule::CouponOnOneItem
    } else {
        PriceRule::Plain
    }
}

/// Whether a buy-now checkout's delivery is charged: only one with items
/// and a chosen package is.
pub fn delivery_charged(quantity: i32, has_package: bool) -> (r: bool)
    ensures
        r == (quantity > 0 && has_package),
{
    quantity > 0 && has_package
}

/// The currency in which a customer sees prices of a product priced in
/// `own`: the customer's chosen crypto currency for a crypto-priced
/// product, the chosen fiat currency for a fiat-priced one, and the
/// product's own currency where the customer chose none of that kind.
pub fn user_currency<C>(own_is_crypto: bool, crypto_choice: Option<C>, fiat_choice: Option<C>, own: C) -> (r: C)
    ensures
        r == (if own_is_crypto {
            match crypto_choice {
                Some(c) => c,
                None => own,
            }
        } else {
            match fiat_choice {
                Some(c) => c,
                None => own,
            }
        }),
{
    let choice: Option<C> = if own_is_crypto {
        crypto_choice
    } else {
        fiat_choice
    };
    match choice {
        Some(c) => c,
        None => own,
    }
}

} // verus!

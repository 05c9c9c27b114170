//! Which products a coupon may be used on.
use vstd::prelude::*;
use std::collections::HashSet;
use crate::cart::CartItem;

verus! {

/// A product that a coupon was issued for.
#[derive(Debug, Clone, Copy, PartialEq, Eq, Structural)]
pub struct CouponProduct {
    /// Product id.
    pub id: i32,
    /// Whether the product carries a discount of its own that counts (one
    /// at least as large as the smallest discount that the shop counts);
    /// a coupon is not used on such a product.
    pub has_own_discount: bool,
}

/// Why a coupon is refused for a product.
#[derive(Debug, Clone, Copy, PartialEq, Eq, Structural)]
pub enum CouponError {
    /// No product that the coupon may be used on is the one bought.
    NoProductsForCoupon,
    /// The coupon is already applied to an item of the cart.
    AlreadyApplied,
    /// Neither a coupon id nor a coupon code is given.
    CouponNotIdentified,
}

/// Checks that a coupon may be used on a product: it must be among the
/// coupon's products, and carry no discount of its own.
pub fn coupon_supports_product(products: &Vec<CouponProduct>, product_id: i32) -> (r: Result<
    (),
    CouponError,
>)
    ensures
        r is Ok <==> exists|i: int|
            0 <= i < products@.len() && (#[trigger] products@[i]).id == product_id
                && !products@[i].has_own_discount,
        r is Err ==> r == Err::<(), CouponError>(CouponError::NoProductsForCoupon),
{
    let mut i: usize = 0;
    while i < products.len()
        invariant
            0 <= i <= products@.len(),
            forall|j: int|
                0 <= j < i ==> !((#[trigger] products@[j]).id == product_id
                    && !products@[j].has_own_discount),
        decreases products@.len() - i,
    {
        if products[i].id == product_id && !products[i].has_own_discount {
            assert(products@[i as int].id == product_id);
            return Ok(());
        }
        i = i + 1;
    }
    Err(CouponError::NoProductsForCoupon)
}

/// Whether some item of a cart has the coupon applied.
pub open spec fn coupon_applied(cart: Seq<CartItem>, coupon_id: i32) -> bool {
    exists|i: int| 0 <= i < cart.len() && (#[trigger] cart[i]).coupon_id == Some(coupon_id)
}

/// Whether a coupon may be used on a product: it is one of the coupon's
/// products that carries no discount of its own.
pub open spec fn coupon_usable_on(products: Seq<CouponProduct>, product_id: i32) -> bool {
    exists|i: int|
        0 <= i < products.len() && (#[trigger] products[i]).id == product_id
            && !products[i].has_own_discount
}

/// Whether some item of a cart is of this product.
pub open spec fn in_cart(cart: Seq<CartItem>, product_id: i32) -> bool {
    exists|i: int| 0 <= i < cart.len() && (#[trigger] cart[i]).product_id == product_id
}

/// Whether a coupon applies to a product.
fn usable_on(products: &Vec<CouponProduct>, product_id: i32) -> (r: bool)
    ensures
        r == coupon_usable_on(products@, product_id),
{
    coupon_supports_product(products, product_id).is_ok()
}

/// The products of a cart that a coupon may be used on.
pub open spec fn coupon_cart_product_set(cart: Seq<CartItem>, products: Seq<CouponProduct>) -> Set<i32> {
    Set::new(|p: i32| in_cart(cart, p) && coupon_usable_on(products, p))
}

/// The products of a cart that a coupon is to be set on: refused where the
/// coupon is already applied to an item of the cart; otherwise the set of
/// the cart's products that the coupon may be used on, refused where it is
/// empty.
pub fn coupon_cart_products(cart: &Vec<CartItem>, coupon_id: i32, products: &Vec<CouponProduct>) -> (r: Result<
    HashSet<i32>,
    CouponError,
>)
    ensures
        match r {
            Err(e) => {
                ||| coupon_applied(cart@, coupon_id) && e == CouponError::AlreadyApplied
                ||| !coupon_applied(cart@, coupon_id) && e == CouponError::NoProductsForCoupon
                    && coupon_cart_product_set(cart@, products@).is_empty()
            },
            Ok(s) => {
                &&& !coupon_applied(cart@, coupon_id)
                &&& !s@.is_empty()
                &&& s@ == coupon_cart_product_set(cart@, products@)
            },
        },
{
    broadcast use vstd::std_specs::hash::group_hash_axioms;

    let mut i: usize = 0;
    while i < cart.len()
        invariant
            0 <= i <= cart@.len(),
            forall|j: int| 0 <= j < i ==> (#[trigger] cart@[j]).coupon_id != Some(coupon_id),
        decreases cart@.len() - i,
    {
        if cart[i].coupon_id == Some(coupon_id) {
            assert(cart@[i as int].coupon_id == Some(coupon_id));
            return Err(CouponError::AlreadyApplied);
        }
        i = i + 1;
    }
    let mut chosen: HashSet<i32> = HashSet::new();
    let mut k: usize = 0;
    while k < cart.len()
        invariant
            0 <= k <= cart@.len(),
            chosen@ == Set::new(
                |p: i32|
                    (exists|j: int| 0 <= j < k && (#[trigger] cart@[j]).product_id == p)
                        && coupon_usable_on(products@, p),
            ),
        decreases cart@.len() - k,
    {
        let p: i32 = cart[k].product_id;
        let ghost before = chosen@;
        if usable_on(products, p) {
            chosen.insert(p);
        }
        assert forall|q: i32|
            chosen@.contains(q) <==> (exists|j: int| 0 <= j < k + 1 && (#[trigger] cart@[j]).product_id == q)
                && coupon_usable_on(products@, q) by {
            if (exists|j: int| 0 <= j < k + 1 && (#[trigger] cart@[j]).product_id == q) && q != p {
                let j = choose|j: int| 0 <= j < k + 1 && (#[trigger] cart@[j]).product_id == q;
                assert(j != k);
            }
            if q == p {
                assert(cart@[k as int].product_id == q);
            }
        }
        assert(chosen@ =~= Set::new(
            |q: i32|
                (exists|j: int| 0 <= j < k + 1 && (#[trigger] cart@[j]).product_id == q)
                    && coupon_usable_on(products@, q),
        ));
        k = k + 1;
    }
    assert(chosen@ =~= coupon_cart_product_set(cart@, products@));
    if chosen.is_empty() {
        Err(CouponError::NoProductsForCoupon)
    } else {
        Ok(chosen)
    }
}

/// How a coupon to delete from a cart is named.
#[derive(Debug, Clone)]
pub enum CouponRef<C> {
    /// By its id.
    Id(i32),
    /// By a code, to be looked up.
    ByCode(C),
}

/// The coupon to delete from a cart: by id where one is given, else by the
/// code given; a request with neither is refused.
pub fn coupon_to_delete<C>(coupon_id: Option<i32>, coupon_code: Option<C>) -> (r: Result<
    CouponRef<C>,
    CouponError,
>)
    ensures
        match coupon_id {
            Some(id) => r matches Ok(CouponRef::Id(i)) && i == id,
            None => match coupon_code {
                Some(c) => r matches Ok(CouponRef::ByCode(d)) && d == c,
                None => r matches Err(CouponError::CouponNotIdentified),
            },
        },
{
    match coupon_id {
        Some(id) => Ok(CouponRef::Id(id)),
        None => match coupon_code {
            Some(c) => Ok(CouponRef::ByCode(c)),
            None => Err(CouponError::CouponNotIdentified),
        },
    }
}

} // verus!

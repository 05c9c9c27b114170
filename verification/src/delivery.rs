//! Delivery packages available to a customer, and the delivery information
//! that an order carries.
use vstd::prelude::*;

verus! {

/// A delivery package available to a customer, as the delivery service
/// answers it. Its price is a floating-point number, held here as the bits
/// of that `f64`.
#[derive(Debug, Clone)]
pub struct AvailablePackageForUser {
    /// Company package id.
    pub id: i32,
    /// Shipping id.
    pub shipping_id: i32,
    /// Name of the package.
    pub name: String,
    /// Logo of the delivery company.
    pub logo: String,
    /// Price, as the bits of an `f64`.
    pub price: u64,
    /// The store that offers the package.
    pub store_id: i32,
}

/// The delivery information that an order carries for a product.
#[derive(Debug, Clone)]
pub struct DeliveryInfo {
    /// Company package id.
    pub company_package_id: i32,
    /// Shipping id.
    pub shipping_id: i32,
    /// Name of the package.
    pub name: String,
    /// Logo of the delivery company.
    pub logo: String,
    /// Price, as the bits of an `f64`.
    pub price: u64,
}

/// The delivery information of a chosen package.
pub open spec fn delivery_info_of(package: AvailablePackageForUser) -> DeliveryInfo {
    DeliveryInfo {
        company_package_id: package.id,
        shipping_id: package.shipping_id,
        name: package.name,
        logo: package.logo,
        price: package.price,
    }
}

/// The delivery information of a chosen package: its ids, name, logo and
/// price.
pub fn get_delivery_info(package: AvailablePackageForUser) -> (r: DeliveryInfo)
    ensures
        r == delivery_info_of(package),
        r.company_package_id == package.id,
        r.shipping_id == package.shipping_id,
        r.name == package.name,
        r.logo == package.logo,
        r.price == package.price,
{
    DeliveryInfo {
        company_package_id: package.id,
        shipping_id: package.shipping_id,
        name: package.name,
        logo: package.logo,
        price: package.price,
    }
}

/// The delivery information that an order carries for a product is the
/// chosen package's own: its company package id, shipping id, name, logo
/// and price are the package's, so a delivery costs what its package
/// costs.
pub proof fn lemma_delivery_info_is_the_packages(package: AvailablePackageForUser)
    ensures
        delivery_info_of(package).company_package_id == package.id,
        delivery_info_of(package).shipping_id == package.shipping_id,
        delivery_info_of(package).name == package.name,
        delivery_info_of(package).logo == package.logo,
        delivery_info_of(package).price == package.price,
{
}

} // verus!

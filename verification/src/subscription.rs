//! Store subscription statuses and the search of subscription payments.
use vstd::prelude::*;

verus! {

/// Status of a store's subscription.
#[derive(Debug, Clone, Copy, PartialEq, Eq, Hash, Structural)]
pub enum StoreSubscriptionStatus {
    /// In its trial period.
    Trial,
    /// Paid.
    Paid,
    /// Free of charge.
    Free,
}

/// Subscription payment status.
#[derive(Debug, Clone, Copy, PartialEq, Eq, Hash, Structural)]
pub enum SubscriptionPaymentStatus {
    /// Paid.
    Paid,
    /// Failed.
    Failed,
}

/// Subscription payment search parameters object.
#[derive(Debug, Clone, Copy, PartialEq, Eq, Hash, Structural)]
pub struct SubscriptionPaymentSearch {
    /// Store id.
    pub store_id: Option<i32>,
    /// Payment status.
    pub status: Option<SubscriptionPaymentStatus>,
}

impl Default for SubscriptionPaymentSearch {
    /// A search with no parameter: every payment.
    fn default() -> (r: Self)
        ensures
            r.store_id is None,
            r.status is None,
    {
        SubscriptionPaymentSearch { store_id: None, status: None }
    }
}

} // verus!

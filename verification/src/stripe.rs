//! Payment-provider inputs.
use vstd::prelude::*;

verus! {

/// Stripe Customer input.
#[derive(Debug, Clone, PartialEq)]
pub struct CreateCustomerWithSourceInput {
    /// Client mutation id.
    pub client_mutation_id: String,
    /// Customer's email address.
    pub email: Option<String>,
    /// Credit card token for use Stripe API.
    pub card_token: String,
}

} // verus!

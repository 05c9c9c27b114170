//! Roles of users in the users, stores and billing services.
use vstd::prelude::*;

verus! {

/// Users microservice role
#[derive(Debug, Clone, Copy, PartialEq, Eq, Hash, Structural)]
pub enum UserMicroserviceRole {
    /// Superuser.
    Superuser,
    /// Moderator.
    Moderator,
    /// User.
    User,
}

/// Stores microservice role
#[derive(Debug, Clone, Copy, PartialEq, Eq, Hash, Structural)]
pub enum StoresMicroserviceRole {
    /// Superuser.
    Superuser,
    /// Moderator.
    Moderator,
    /// Platform administrator.
    PlatformAdmin,
    /// User.
    User,
}

/// Billing microservice role
#[derive(Debug, Clone, Copy, PartialEq, Eq, Hash, Structural)]
pub enum BillingMicroserviceRole {
    /// Superuser.
    Superuser,
    /// User.
    User,
    /// Store manager.
    StoreManager,
    /// Financial manager.
    FinancialManager,
}

/// New role input object.
#[derive(Debug, Clone, PartialEq, Eq, Hash)]
pub struct NewUsersRoleInput {
    /// Client mutation id.
    pub client_mutation_id: String,
    /// User id
    pub user_id: i32,
    /// New Role
    pub name: UserMicroserviceRole,
}

/// Remove role input object.
#[derive(Debug, Clone, PartialEq, Eq, Hash)]
pub struct RemoveUsersRoleInput {
    /// Client mutation id.
    pub client_mutation_id: String,
    /// User id
    pub user_id: i32,
    /// Removed Role
    pub name: UserMicroserviceRole,
}

/// New role input object.
#[derive(Debug, Clone, PartialEq, Eq, Hash)]
pub struct NewStoresRoleInput {
    /// Client mutation id.
    pub client_mutation_id: String,
    /// User id
    pub user_id: i32,
    /// New Role
    pub name: StoresMicroserviceRole,
}

/// Remove role input object.
#[derive(Debug, Clone, PartialEq, Eq, Hash)]
pub struct RemoveStoresRoleInput {
    /// Client mutation id.
    pub client_mutation_id: String,
    /// User id
    pub user_id: i32,
    /// Removed Role
    pub name: StoresMicroserviceRole,
}

/// New role input object.
#[derive(Debug, Clone, PartialEq, Eq, Hash)]
pub struct NewBillingRoleInput {
    /// Client mutation id.
    pub client_mutation_id: String,
    /// User id
    pub user_id: i32,
    /// New Role
    pub name: BillingMicroserviceRole,
}

/// Remove role input object.
#[derive(Debug, Clone, PartialEq, Eq, Hash)]
pub struct RemoveBillingRoleInput {
    /// Client mutation id.
    pub client_mutation_id: String,
    /// User id
    pub user_id: i32,
    /// Removed Role
    pub name: BillingMicroserviceRole,
}

} // verus!

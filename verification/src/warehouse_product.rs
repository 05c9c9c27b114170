//! Products held in warehouses.
use vstd::prelude::*;

verus! {

/// A product's stock in a warehouse.
#[derive(Debug, Clone, Copy, PartialEq, Eq, Structural)]
pub struct WarehouseProduct {
    /// Id.
    pub id: i32,
    /// Warehouse id.
    pub warehouse_id: i32,
    /// Product id.
    pub product_id: i32,
    /// Quantity.
    pub quantity: i32,
}

/// Create warehouse product input object.
#[derive(Debug, Clone)]
pub struct CreateWarehouseProductInput {
    /// Client mutation id.
    pub client_mutation_id: String,
    /// Warehouse id.
    pub warehouse_id: i32,
    /// Product id.
    pub product_id: i32,
}

/// Update warehouse product input object.
#[derive(Debug, Clone)]
pub struct UpdateWarehouseProductInput {
    /// Client mutation id.
    pub client_mutation_id: String,
    /// Warehouse id.
    pub warehouse_id: i32,
    /// Product id.
    pub product_id: i32,
    /// Quantity.
    pub quantity: i32,
}

/// Delete warehouse product input object.
#[derive(Debug, Clone)]
pub struct DeleteWarehouseProductInput {
    /// Client mutation id.
    pub client_mutation_id: String,
    /// Warehouse id.
    pub warehouse_id: i32,
    /// Product id.
    pub product_id: i32,
}

/// The sum of the quantities of the first `k` stocks.
pub open spec fn stock_sum(stocks: Seq<WarehouseProduct>, k: int) -> int
    decreases k,
{
    if k <= 0 {
        0
    } else {
        stock_sum(stocks, k - 1) + stocks[k - 1].quantity as int
    }
}

/// The quantity of a product held in all warehouses: the sum of the
/// quantities of its stocks.
pub fn stock_quantity(stocks: &Vec<WarehouseProduct>) -> (r: i32)
    requires
        forall|k: int| 0 <= k <= stocks@.len() ==> i32::MIN <= #[trigger] stock_sum(stocks@, k) <= i32::MAX,
    ensures
        r == stock_sum(stocks@, stocks@.len() as int),
{
    let mut total: i32 = 0;
    let mut k: usize = 0;
    while k < stocks.len()
        invariant
            0 <= k <= stocks@.len(),
            forall|j: int| 0 <= j <= stocks@.len() ==> i32::MIN <= #[trigger] stock_sum(stocks@, j) <= i32::MAX,
            total == stock_sum(stocks@, k as int),
        decreases stocks@.len() - k,
    {
        assert(i32::MIN <= stock_sum(stocks@, k + 1) <= i32::MAX);
        total = total + stocks[k].quantity;
        k = k + 1;
    }
    total
}

/// A product's stock in a warehouse, as the warehouses service keeps it:
/// the stock's and the warehouse's ids are UUIDs, given as 128-bit numbers.
#[derive(Debug, Clone, Copy, PartialEq, Eq, Structural)]
pub struct Stock {
    /// Stock id.
    pub id: u128,
    /// Product id.
    pub product_id: i32,
    /// Warehouse id.
    pub warehouse_id: u128,
    /// Quantity.
    pub quantity: i32,
}

/// The stock shown for a product in a warehouse: the one found there, or,
/// where there is none, an empty stock with the fresh id given.
pub open spec fn shown_stock(found: Option<Stock>, warehouse_id: u128, product_id: i32, fresh_id: u128) -> Stock {
    match found {
        Some(s) => s,
        None => Stock { id: fresh_id, product_id, warehouse_id, quantity: 0 },
    }
}

/// The stocks shown for a product, one for each warehouse of its store, in
/// the warehouses' order: where a warehouse holds no stock of the product,
/// an empty stock with the fresh id at the same position.
pub fn product_stocks(
    product_id: i32,
    warehouse_ids: &Vec<u128>,
    found: &Vec<Option<Stock>>,
    fresh_ids: &Vec<u128>,
) -> (r: Vec<Stock>)
    requires
        found@.len() == warehouse_ids@.len(),
        fresh_ids@.len() == warehouse_ids@.len(),
    ensures
        r@.len() == warehouse_ids@.len(),
        forall|i: int|
            0 <= i < r@.len() ==> #[trigger] r@[i] == shown_stock(found@[i], warehouse_ids@[i], product_id, fresh_ids@[i]),
        forall|i: int| 0 <= i < r@.len() ==> (found@[i] matches Some(s) ==> #[trigger] r@[i] == s),
        forall|i: int|
            0 <= i < r@.len() ==> (found@[i] is None ==> (#[trigger] r@[i]).id == fresh_ids@[i]
                && r@[i].product_id == product_id && r@[i].warehouse_id == warehouse_ids@[i]
                && r@[i].quantity == 0),
{
    let mut r: Vec<Stock> = Vec::new();
    let mut i: usize = 0;
    while i < warehouse_ids.len()
        invariant
            0 <= i <= warehouse_ids@.len(),
            found@.len() == warehouse_ids@.len(),
            fresh_ids@.len() == warehouse_ids@.len(),
            r@.len() == i,
            forall|j: int|
                0 <= j < i ==> #[trigger] r@[j] == shown_stock(found@[j], warehouse_ids@[j], product_id, fresh_ids@[j]),
        decreases warehouse_ids@.len() - i,
    {
        let stock = match found[i] {
            Some(s) => s,
            None => Stock { id: fresh_ids[i], product_id, warehouse_id: warehouse_ids[i], quantity: 0 },
        };
        r.push(stock);
        i = i + 1;
    }
    r
}

/// A stock found in a warehouse is shown as it is stored, its own id
/// included; only where none is found is an empty stock of the product in
/// that warehouse shown, under the fresh id.
pub proof fn lemma_shown_stock_keeps_found(found: Option<Stock>, warehouse_id: u128, product_id: i32, fresh_id: u128)
    ensures
        found matches Some(s) ==> shown_stock(found, warehouse_id, product_id, fresh_id) == s,
        found is None ==> shown_stock(found, warehouse_id, product_id, fresh_id).id == fresh_id,
        found is None ==> shown_stock(found, warehouse_id, product_id, fresh_id).product_id == product_id,
        found is None ==> shown_stock(found, warehouse_id, product_id, fresh_id).warehouse_id == warehouse_id,
        found is None ==> shown_stock(found, warehouse_id, product_id, fresh_id).quantity == 0,
{
}

} // verus!

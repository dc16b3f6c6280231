//! What the inventory endpoints compute: how a stock movement changes the
//! stock of a menu item.
use vstd::prelude::*;
use vstd::string::*;
use crate::text::str_equal;

verus! {

/// The kind of a stock movement.
#[derive(Debug, Clone, Copy, PartialEq, Eq, Structural)]
pub enum InventoryTransactionType {
    StockIn,
    StockOut,
    Adjustment,
    Transfer,
}

/// The change of stock a movement of this kind and quantity makes: stock
/// coming in and adjustments add the quantity, stock going out and
/// transfers take it away.
pub open spec fn stock_change(kind: InventoryTransactionType, quantity: int) -> int {
    match kind {
        InventoryTransactionType::StockIn | InventoryTransactionType::Adjustment => quantity,
        InventoryTransactionType::StockOut | InventoryTransactionType::Transfer => -quantity,
    }
}

/// The change of stock a movement makes (see `stock_change`).
pub fn stock_adjustment(kind: InventoryTransactionType, quantity: i32) -> (d: i32)
    requires
        quantity != i32::MIN,
    ensures
        d == stock_change(kind, quantity as int),
{
    match kind {
        InventoryTransactionType::StockIn | InventoryTransactionType::Adjustment => quantity,
        InventoryTransactionType::StockOut | InventoryTransactionType::Transfer => -quantity,
    }
}

/// The name a movement kind is stored under.
pub open spec fn movement_name(kind: InventoryTransactionType) -> Seq<char> {
    match kind {
        InventoryTransactionType::StockIn => "StockIn"@,
        InventoryTransactionType::StockOut => "StockOut"@,
        InventoryTransactionType::Adjustment => "Adjustment"@,
        InventoryTransactionType::Transfer => "Transfer"@,
    }
}

/// The name a movement kind is stored under.
pub fn movement_text(kind: InventoryTransactionType) -> (s: &'static str)
    ensures
        s@ == movement_name(kind),
{
    match kind {
        InventoryTransactionType::StockIn => "StockIn",
        InventoryTransactionType::StockOut => "StockOut",
        InventoryTransactionType::Adjustment => "Adjustment",
        InventoryTransactionType::Transfer => "Transfer",
    }
}

/// The movement kind stored under this name; an adjustment for any text that
/// names no kind.
pub fn parse_movement(text: &str) -> (kind: InventoryTransactionType)
    ensures
        text@ == "StockIn"@ ==> kind == InventoryTransactionType::StockIn,
        text@ == "StockOut"@ ==> kind == InventoryTransactionType::StockOut,
        text@ == "Transfer"@ ==> kind == InventoryTransactionType::Transfer,
        text@ != "StockIn"@ && text@ != "StockOut"@ && text@ != "Transfer"@ ==> kind
            == InventoryTransactionType::Adjustment,
{
    proof {
        reveal_strlit("StockIn");
        reveal_strlit("StockOut");
        reveal_strlit("Transfer");
        assert("StockIn"@.len() == 7 && "StockOut"@.len() == 8 && "Transfer"@.len() == 8);
        assert("StockOut"@[0] != "Transfer"@[0]);
    }
    if str_equal(text, "StockIn") {
        InventoryTransactionType::StockIn
    } else if str_equal(text, "StockOut") {
        InventoryTransactionType::StockOut
    } else if str_equal(text, "Transfer") {
        InventoryTransactionType::Transfer
    } else {
        InventoryTransactionType::Adjustment
    }
}

/// How much of a menu item is in stock, and the level at which its stock
/// counts as low.
#[derive(Debug, Clone, Copy, PartialEq, Eq)]
pub struct StockLevel {
    pub stock_quantity: i32,
    pub low_stock_threshold: i32,
}

/// The stock is low: some is left, but no more than the threshold.
pub open spec fn is_low_stock(l: StockLevel) -> bool {
    0 < l.stock_quantity <= l.low_stock_threshold
}

/// The number of items whose stock is low.
pub open spec fn low_stock_count(ls: Seq<StockLevel>) -> nat
    decreases ls.len(),
{
    if ls.len() == 0 {
        0
    } else {
        low_stock_count(ls.drop_last()) + if is_low_stock(ls.last()) { 1nat } else { 0nat }
    }
}

/// The number of items with no stock left.
pub open spec fn out_of_stock_count(ls: Seq<StockLevel>) -> nat
    decreases ls.len(),
{
    if ls.len() == 0 {
        0
    } else {
        out_of_stock_count(ls.drop_last()) + if ls.last().stock_quantity == 0 { 1nat } else { 0nat }
    }
}

/// The numbers of items whose stock is low and of items out of stock, as
/// the inventory page shows them.
pub fn stock_alerts(levels: &[StockLevel]) -> (r: (usize, usize))
    ensures
        r.0 == low_stock_count(levels@),
        r.1 == out_of_stock_count(levels@),
{
    let ghost ls = levels@;
    let mut low: usize = 0;
    let mut out: usize = 0;
    let mut i: usize = 0;
    proof {
        assert(ls.take(0) =~= Seq::<StockLevel>::empty());
    }
    while i < levels.len()
        invariant
            i <= ls.len(),
            ls == levels@,
            low == low_stock_count(ls.take(i as int)),
            out == out_of_stock_count(ls.take(i as int)),
            low <= i,
            out <= i,
        decreases levels.len() - i,
    {
        proof {
            assert(ls.take(i + 1).drop_last() =~= ls.take(i as int));
            assert(ls.take(i + 1).last() == ls[i as int]);
        }
        let l = levels[i];
        if l.stock_quantity <= l.low_stock_threshold && l.stock_quantity > 0 {
            low = low + 1;
        }
        if l.stock_quantity == 0 {
            out = out + 1;
        }
        i = i + 1;
    }
    proof {
        assert(ls.take(ls.len() as int) =~= ls);
    }
    (low, out)
}

proof fn lemma_counts_filter(ls: Seq<StockLevel>)
    ensures
        low_stock_count(ls) == ls.filter(
            |l: StockLevel| 0 < l.stock_quantity && l.stock_quantity <= l.low_stock_threshold,
        ).len(),
        out_of_stock_count(ls) == ls.filter(|l: StockLevel| l.stock_quantity == 0).len(),
    decreases ls.len(),
{
    reveal(Seq::filter);
    if ls.len() > 0 {
        lemma_counts_filter(ls.drop_last());
    }
}

/// The alerts count the items exactly: the first number is how many items
/// have some stock left but no more than their threshold, the second how
/// many have none left.
pub proof fn lemma_stock_alerts_count(ls: Seq<StockLevel>, r: (usize, usize))
    requires
        r.0 == low_stock_count(ls),
        r.1 == out_of_stock_count(ls),
    ensures
        r.0 == ls.filter(|l: StockLevel| 0 < l.stock_quantity && l.stock_quantity <= l.low_stock_threshold).len(),
        r.1 == ls.filter(|l: StockLevel| l.stock_quantity == 0).len(),
{
    lemma_counts_filter(ls);
}

} // verus!

//! The sales figures the reports page shows, computed from the orders.
use vstd::prelude::*;
use crate::decimal::{checked_quotient, checked_sum, decimal_quotient, dparts, Decimal};
use crate::models::{MenuItem, Order, OrderStatus};
use crate::money::{fold_sum, parts_of, sum_of};

verus! {

/// The sales figures of a list of orders.
#[derive(Debug, Clone, Copy)]
pub struct SalesSummary {
    /// The sum of the totals of the closed orders.
    pub total_revenue: Decimal,
    pub closed_orders: usize,
    /// The revenue per closed order; zero where there is none.
    pub average_order_value: Decimal,
    pub open_orders: usize,
    pub cancelled_orders: usize,
}

/// The number of orders with this status.
pub open spec fn status_count(os: Seq<Order>, status: OrderStatus) -> nat
    decreases os.len(),
{
    if os.len() == 0 {
        0
    } else if os.last().status == status {
        status_count(os.drop_last(), status) + 1
    } else {
        status_count(os.drop_last(), status)
    }
}

/// The sum of the totals of the closed orders, from zero; `None` where an
/// addition fails.
pub open spec fn closed_revenue(os: Seq<Order>) -> Option<(i128, u32)>
    decreases os.len(),
{
    if os.len() == 0 {
        Some((0i128, 0u32))
    } else {
        match closed_revenue(os.drop_last()) {
            None => None,
            Some(acc) => if os.last().status == OrderStatus::Closed {
                sum_of(acc, parts_of(os.last().total_amount))
            } else {
                Some(acc)
            },
        }
    }
}

proof fn lemma_closed_revenue_prefix(os: Seq<Order>, i: int)
    requires
        0 <= i <= os.len(),
        closed_revenue(os.take(i)) is None,
    ensures
        closed_revenue(os) is None,
    decreases os.len() - i,
{
    if i < os.len() {
        assert(os.take(i + 1).drop_last() =~= os.take(i));
        lemma_closed_revenue_prefix(os, i + 1);
    } else {
        assert(os.take(i) =~= os);
    }
}

/// The revenue of the closed orders, their number and the average order
/// value (revenue divided by their number, zero where there are none), and
/// the numbers of open and cancelled orders. `None` where the revenue or the
/// average cannot be computed.
pub fn summarize_orders(orders: &[Order]) -> (r: Option<SalesSummary>)
    ensures
        r is None <==> closed_revenue(orders@) is None,
        r matches Some(s) ==> {
            let total = closed_revenue(orders@).unwrap();
            let n = status_count(orders@, OrderStatus::Closed);
            &&& dparts(s.total_revenue) == total
            &&& s.closed_orders == n
            &&& s.open_orders == status_count(orders@, OrderStatus::Open)
            &&& s.cancelled_orders == status_count(orders@, OrderStatus::Cancelled)
            &&& n == 0 ==> dparts(s.average_order_value) == (0i128, 0u32)
            &&& n > 0 ==> Some(dparts(s.average_order_value)) == decimal_quotient(total.0, total.1, n as i128, 0)
        },
{
    let ghost os = orders@;
    let mut revenue = Decimal::zero();
    let mut closed: usize = 0;
    let mut open: usize = 0;
    let mut cancelled: usize = 0;
    let mut i: usize = 0;
    proof {
        assert(os.take(0) =~= Seq::<Order>::empty());
    }
    while i < orders.len()
        invariant
            i <= os.len(),
            os == orders@,
            closed_revenue(os.take(i as int)) == Some(dparts(revenue)),
            revenue@ >= 0,
            closed == status_count(os.take(i as int), OrderStatus::Closed),
            open == status_count(os.take(i as int), OrderStatus::Open),
            cancelled == status_count(os.take(i as int), OrderStatus::Cancelled),
            closed <= i,
            open <= i,
            cancelled <= i,
        decreases orders.len() - i,
    {
        proof {
            assert(os.take(i + 1).drop_last() =~= os.take(i as int));
            assert(os.take(i + 1).last() == os[i as int]);
        }
        let order = &orders[i];
        match order.status {
            OrderStatus::Closed => {
                let amount = order.total_amount.amount();
                proof {
                    use_type_invariant(&order.total_amount);
                }
                match checked_sum(&revenue, &amount) {
                    Some(v) => {
                        revenue = v;
                    },
                    None => {
                        proof {
                            lemma_closed_revenue_prefix(os, i + 1);
                        }
                        return None;
                    },
                }
                closed = closed + 1;
            },
            OrderStatus::Open => {
                open = open + 1;
            },
            OrderStatus::Cancelled => {
                cancelled = cancelled + 1;
            },
        }
        i = i + 1;
    }
    proof {
        assert(os.take(os.len() as int) =~= os);
    }
    let average = if closed > 0 {
        let count = Decimal::from_i128_with_scale(closed as i128, 0);
        proof {
            crate::decimal::lemma_pow10_positive(28);
            assert(count@ == closed * crate::decimal::pow10(28)) by {
                assert(count@ == count.mant() * crate::decimal::pow10((28 - count.sc()) as nat));
            }
            assert(count@ >= crate::decimal::unit()) by (nonlinear_arith)
                requires
                    count@ == closed * crate::decimal::pow10(28),
                    closed >= 1,
                    crate::decimal::pow10(28) > 0,
            ;
        }
        match checked_quotient(&revenue, &count) {
            Some(q) => q,
            None => {
                return None;
            },
        }
    } else {
        Decimal::zero()
    };
    Some(
        SalesSummary {
            total_revenue: revenue,
            closed_orders: closed,
            average_order_value: average,
            open_orders: open,
            cancelled_orders: cancelled,
        },
    )
}

/// The menu items the reports page lists as popular: the first five.
pub fn popular_items(menu_items: &[MenuItem]) -> (r: Vec<&MenuItem>)
    ensures
        r@.len() == if menu_items@.len() < 5 { menu_items@.len() } else { 5 },
        forall|i: int| 0 <= i < r@.len() ==> *r@[i] == menu_items@[i],
{
    let mut r: Vec<&MenuItem> = Vec::new();
    let mut i: usize = 0;
    while i < menu_items.len() && i < 5
        invariant
            i <= menu_items@.len(),
            i <= 5,
            r@.len() == i,
            forall|k: int| 0 <= k < i ==> *r@[k] == menu_items@[k],
        decreases 5 - i,
    {
        r.push(&menu_items[i]);
        i = i + 1;
    }
    r
}

/// The totals of the orders, in order.
pub open spec fn order_totals(os: Seq<Order>) -> Seq<(i128, u32)> {
    os.map_values(|o: Order| parts_of(o.total_amount))
}

proof fn lemma_closed_revenue_fold(os: Seq<Order>)
    ensures
        closed_revenue(os) == fold_sum(order_totals(os.filter(|o: Order| o.status == OrderStatus::Closed))),
        status_count(os, OrderStatus::Closed) == os.filter(|o: Order| o.status == OrderStatus::Closed).len(),
        status_count(os, OrderStatus::Open) == os.filter(|o: Order| o.status == OrderStatus::Open).len(),
        status_count(os, OrderStatus::Cancelled) == os.filter(|o: Order| o.status == OrderStatus::Cancelled).len(),
    decreases os.len(),
{
    let closed = |o: Order| o.status == OrderStatus::Closed;
    let open = |o: Order| o.status == OrderStatus::Open;
    let cancelled = |o: Order| o.status == OrderStatus::Cancelled;
    reveal(Seq::filter);
    if os.len() == 0 {
        assert(order_totals(os.filter(closed)) =~= Seq::<(i128, u32)>::empty());
    } else {
        let init = os.drop_last();
        let o = os.last();
        lemma_closed_revenue_fold(init);
        let ts = order_totals(init.filter(closed));
        if o.status == OrderStatus::Closed {
            assert(order_totals(os.filter(closed)) =~= ts.push(parts_of(o.total_amount)));
            assert(ts.push(parts_of(o.total_amount)).drop_last() =~= ts);
        } else {
            assert(order_totals(os.filter(closed)) =~= ts);
        }
    }
}

/// The revenue is that of the closed orders alone: the sum of the totals of
/// the closed orders, in the order they come, with open and cancelled
/// orders adding nothing; the counts are the numbers of closed, open and
/// cancelled orders.
pub proof fn lemma_revenue_of_closed_orders(os: Seq<Order>, s: SalesSummary)
    requires
        closed_revenue(os) == Some(dparts(s.total_revenue)),
        s.closed_orders == status_count(os, OrderStatus::Closed),
        s.open_orders == status_count(os, OrderStatus::Open),
        s.cancelled_orders == status_count(os, OrderStatus::Cancelled),
    ensures
        fold_sum(order_totals(os.filter(|o: Order| o.status == OrderStatus::Closed))) == Some(dparts(s.total_revenue)),
        s.closed_orders == os.filter(|o: Order| o.status == OrderStatus::Closed).len(),
        s.open_orders == os.filter(|o: Order| o.status == OrderStatus::Open).len(),
        s.cancelled_orders == os.filter(|o: Order| o.status == OrderStatus::Cancelled).len(),
{
    lemma_closed_revenue_fold(os);
}

/// An order that is not closed changes nothing of the revenue: summing the
/// orders with one more open or cancelled order gives the same revenue and
/// the same number of closed orders.
pub proof fn lemma_unclosed_order_adds_no_revenue(os: Seq<Order>, o: Order, before: SalesSummary, after: SalesSummary)
    requires
        o.status != OrderStatus::Closed,
        closed_revenue(os) == Some(dparts(before.total_revenue)),
        closed_revenue(os.push(o)) == Some(dparts(after.total_revenue)),
        before.closed_orders == status_count(os, OrderStatus::Closed),
        after.closed_orders == status_count(os.push(o), OrderStatus::Closed),
    ensures
        dparts(after.total_revenue) == dparts(before.total_revenue),
        after.closed_orders == before.closed_orders,
{
    assert(os.push(o).drop_last() =~= os);
}

} // verus!

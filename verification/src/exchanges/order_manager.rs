//! Order book-keeping: orders filed by exchange order id, the client order
//! id each was placed under, and the queries and cleanup the trading loop
//! needs. Prices and quantities travel in each order's `amounts`, which this
//! module stores and hands back without reading.

use vstd::prelude::*;
use vstd::string::StringExecFns;

use crate::exchanges::{active_status, retained_at, OrderSide, OrderStatus};
use crate::utils::text::same_text;

verus! {

/// The state of one order. `amounts` holds its prices and quantities.
#[derive(Debug, Clone)]
pub struct OrderState<A> {
    pub order_id: String,
    pub client_order_id: String,
    pub symbol: String,
    pub side: OrderSide,
    pub status: OrderStatus,
    pub create_time: i64,
    pub update_time: i64,
    pub amounts: A,
}

/// No two orders share an order id.
pub open spec fn distinct_order_ids<A>(orders: Seq<OrderState<A>>) -> bool {
    forall|i: int, j: int|
        0 <= i < orders.len() && 0 <= j < orders.len() && i != j ==> #[trigger] orders[i].order_id@
            != #[trigger] orders[j].order_id@
}

/// Whether an order with order id `id` is filed.
pub open spec fn holds_order<A>(orders: Seq<OrderState<A>>, id: Seq<char>) -> bool {
    exists|i: int| 0 <= i < orders.len() && (#[trigger] orders[i]).order_id@ == id
}

/// The position of the order with order id `id` (meaningful when it is filed).
pub open spec fn order_index<A>(orders: Seq<OrderState<A>>, id: Seq<char>) -> int {
    choose|i: int| 0 <= i < orders.len() && (#[trigger] orders[i]).order_id@ == id
}

/// The order filed under order id `id`, if any.
pub open spec fn order_with_id<A>(orders: Seq<OrderState<A>>, id: Seq<char>) -> Option<
    OrderState<A>,
> {
    if holds_order(orders, id) {
        Some(orders[order_index(orders, id)])
    } else {
        None
    }
}

/// The orders after filing `order`: it replaces the order with the same
/// order id, or is appended when there is none.
pub open spec fn with_order<A>(orders: Seq<OrderState<A>>, order: OrderState<A>) -> Seq<
    OrderState<A>,
> {
    if holds_order(orders, order.order_id@) {
        orders.update(order_index(orders, order.order_id@), order)
    } else {
        orders.push(order)
    }
}

/// No client order id is filed twice.
pub open spec fn distinct_client_ids(pairs: Seq<(Seq<char>, Seq<char>)>) -> bool {
    forall|i: int, j: int|
        0 <= i < pairs.len() && 0 <= j < pairs.len() && i != j ==> (#[trigger] pairs[i]).0 != (
        #[trigger] pairs[j]).0
}

/// Whether client order id `cid` is filed.
pub open spec fn holds_client_id(pairs: Seq<(Seq<char>, Seq<char>)>, cid: Seq<char>) -> bool {
    exists|i: int| 0 <= i < pairs.len() && (#[trigger] pairs[i]).0 == cid
}

/// The position of client order id `cid` (meaningful when it is filed).
pub open spec fn client_index(pairs: Seq<(Seq<char>, Seq<char>)>, cid: Seq<char>) -> int {
    choose|i: int| 0 <= i < pairs.len() && (#[trigger] pairs[i]).0 == cid
}

/// The order id filed under client order id `cid`, if any.
pub open spec fn order_id_for(pairs: Seq<(Seq<char>, Seq<char>)>, cid: Seq<char>) -> Option<
    Seq<char>,
> {
    if holds_client_id(pairs, cid) {
        Some(pairs[client_index(pairs, cid)].1)
    } else {
        None
    }
}

/// The client ids after filing `cid` for order `oid`: the last filing wins.
pub open spec fn with_client_id(
    pairs: Seq<(Seq<char>, Seq<char>)>,
    cid: Seq<char>,
    oid: Seq<char>,
) -> Seq<(Seq<char>, Seq<char>)> {
    if holds_client_id(pairs, cid) {
        pairs.update(client_index(pairs, cid), (cid, oid))
    } else {
        pairs.push((cid, oid))
    }
}

/// Whether an order of `symbol` can still trade.
pub open spec fn active_in<A>(order: OrderState<A>, symbol: Seq<char>) -> bool {
    order.symbol@ == symbol && active_status(order.status)
}

/// Whether an order belongs to `symbol` and has `status`.
pub open spec fn in_status<A>(order: OrderState<A>, symbol: Seq<char>, status: OrderStatus) -> bool {
    order.symbol@ == symbol && order.status == status
}

/// Order counts of one symbol.
#[derive(Debug, Clone, Copy, PartialEq, Eq, Structural)]
pub struct OrderCounts {
    pub total: usize,
    pub filled: usize,
    pub partially_filled: usize,
    pub cancelled: usize,
}

/// What the book-keeping holds: the orders in the order they were first
/// filed, and the client order ids with the order id each maps to.
pub struct OrderRegistryView<A> {
    pub orders: Seq<OrderState<A>>,
    pub client_ids: Seq<(Seq<char>, Seq<char>)>,
}

/// What every registry keeps: order ids and client order ids are each filed once.
pub open spec fn registry_valid<A>(view: OrderRegistryView<A>) -> bool {
    distinct_order_ids(view.orders) && distinct_client_ids(view.client_ids)
}

/// Orders by order id and by client order id.
pub struct OrderRegistry<A> {
    orders: Vec<OrderState<A>>,
    client_ids: Vec<(String, String)>,
}

/// The views of client id filings.
pub open spec fn pair_views(pairs: Seq<(String, String)>) -> Seq<(Seq<char>, Seq<char>)> {
    pairs.map_values(|p: (String, String)| (p.0@, p.1@))
}

impl<A> View for OrderRegistry<A> {
    type V = OrderRegistryView<A>;

    closed spec fn view(&self) -> OrderRegistryView<A> {
        OrderRegistryView { orders: self.orders@, client_ids: pair_views(self.client_ids@) }
    }
}

proof fn lemma_order_index_unique<A>(orders: Seq<OrderState<A>>, i: int)
    requires
        distinct_order_ids(orders),
        0 <= i < orders.len(),
    ensures
        holds_order(orders, orders[i].order_id@),
        order_index(orders, orders[i].order_id@) == i,
{
    let id = orders[i].order_id@;
    assert(0 <= i < orders.len() && orders[i].order_id@ == id);
    let j = order_index(orders, id);
    if j != i {
        assert(orders[j].order_id@ != orders[i].order_id@);
    }
}

proof fn lemma_client_index_unique(pairs: Seq<(Seq<char>, Seq<char>)>, i: int)
    requires
        distinct_client_ids(pairs),
        0 <= i < pairs.len(),
    ensures
        holds_client_id(pairs, pairs[i].0),
        client_index(pairs, pairs[i].0) == i,
{
    let cid = pairs[i].0;
    assert(0 <= i < pairs.len() && pairs[i].0 == cid);
    let j = client_index(pairs, cid);
    if j != i {
        assert(pairs[j].0 != pairs[i].0);
    }
}

/// Filing an order makes it the one found under its order id, leaves the
/// orders found under every other id as they were, and keeps order ids
/// distinct.
pub proof fn lemma_filed_order_found<A>(orders: Seq<OrderState<A>>, order: OrderState<A>, id: Seq<char>)
    requires
        distinct_order_ids(orders),
    ensures
        distinct_order_ids(with_order(orders, order)),
        order_with_id(with_order(orders, order), order.order_id@) == Some(order),
        id != order.order_id@ ==> order_with_id(with_order(orders, order), id) == order_with_id(
            orders,
            id,
        ),
{
    let after = with_order(orders, order);
    let key = order.order_id@;
    if holds_order(orders, key) {
        let i = order_index(orders, key);
        assert forall|a: int, b: int|
            0 <= a < after.len() && 0 <= b < after.len() && a != b implies #[trigger] after[a].order_id@
            != #[trigger] after[b].order_id@ by {
            if a != i && b != i {
                assert(orders[a] == after[a] && orders[b] == after[b]);
            } else if a == i {
                assert(orders[b] == after[b]);
                assert(orders[a].order_id@ == key);
            } else {
                assert(orders[a] == after[a]);
                assert(orders[b].order_id@ == key);
            }
        }
        lemma_order_index_unique(after, i);
        if id != key && holds_order(orders, id) {
            let j = order_index(orders, id);
            assert(j != i);
            assert(after[j] == orders[j]);
            lemma_order_index_unique(after, j);
        }
        if id != key && holds_order(after, id) {
            let j = order_index(after, id);
            assert(j != i);
            assert(after[j] == orders[j]);
        }
    } else {
        let n = orders.len() as int;
        assert forall|a: int, b: int|
            0 <= a < after.len() && 0 <= b < after.len() && a != b implies #[trigger] after[a].order_id@
            != #[trigger] after[b].order_id@ by {
            if a < n && b < n {
                assert(orders[a] == after[a] && orders[b] == after[b]);
            } else if a < n {
                assert(orders[a] == after[a]);
            } else {
                assert(orders[b] == after[b]);
            }
        }
        lemma_order_index_unique(after, n);
        if id != key && holds_order(orders, id) {
            let j = order_index(orders, id);
            assert(after[j] == orders[j]);
            lemma_order_index_unique(after, j);
        }
        if id != key && holds_order(after, id) {
            let j = order_index(after, id);
            assert(j != n);
            assert(after[j] == orders[j]);
        }
    }
}

/// Filing a client order id makes it map to the given order id, and leaves
/// every other client id mapping as it was.
pub proof fn lemma_filed_client_id_found(
    pairs: Seq<(Seq<char>, Seq<char>)>,
    cid: Seq<char>,
    oid: Seq<char>,
    other: Seq<char>,
)
    requires
        distinct_client_ids(pairs),
    ensures
        distinct_client_ids(with_client_id(pairs, cid, oid)),
        order_id_for(with_client_id(pairs, cid, oid), cid) == Some(oid),
        other != cid ==> order_id_for(with_client_id(pairs, cid, oid), other) == order_id_for(
            pairs,
            other,
        ),
{
    let after = with_client_id(pairs, cid, oid);
    if holds_client_id(pairs, cid) {
        let i = client_index(pairs, cid);
        assert forall|a: int, b: int|
            0 <= a < after.len() && 0 <= b < after.len() && a != b implies (#[trigger] after[a]).0
            != (#[trigger] after[b]).0 by {
            if a != i && b != i {
                assert(pairs[a] == after[a] && pairs[b] == after[b]);
            } else if a == i {
                assert(pairs[b] == after[b]);
                assert(pairs[a].0 == cid);
            } else {
                assert(pairs[a] == after[a]);
                assert(pairs[b].0 == cid);
            }
        }
        lemma_client_index_unique(after, i);
        if other != cid && holds_client_id(pairs, other) {
            let j = client_index(pairs, other);
            assert(after[j] == pairs[j]);
            lemma_client_index_unique(after, j);
        }
        if other != cid && holds_client_id(after, other) {
            let j = client_index(after, other);
            assert(after[j] == pairs[j]);
        }
    } else {
        let n = pairs.len() as int;
        assert forall|a: int, b: int|
            0 <= a < after.len() && 0 <= b < after.len() && a != b implies (#[trigger] after[a]).0
            != (#[trigger] after[b]).0 by {
            if a < n && b < n {
                assert(pairs[a] == after[a] && pairs[b] == after[b]);
            } else if a < n {
                assert(pairs[a] == after[a]);
            } else {
                assert(pairs[b] == after[b]);
            }
        }
        lemma_client_index_unique(after, n);
        if other != cid && holds_client_id(pairs, other) {
            let j = client_index(pairs, other);
            assert(after[j] == pairs[j]);
            lemma_client_index_unique(after, j);
        }
        if other != cid && holds_client_id(after, other) {
            let j = client_index(after, other);
            assert(j != n);
            assert(after[j] == pairs[j]);
        }
    }
}

/// Right after an order is added, its client order id maps to its order id,
/// and that order id finds the order: looking it up by client id gives it back.
pub proof fn lemma_client_lookup_after_add<A>(view: OrderRegistryView<A>, order: OrderState<A>)
    requires
        registry_valid(view),
    ensures
        order_id_for(
            with_client_id(view.client_ids, order.client_order_id@, order.order_id@),
            order.client_order_id@,
        ) == Some(order.order_id@),
        order_with_id(with_order(view.orders, order), order.order_id@) == Some(order),
{
    lemma_filed_order_found(view.orders, order, order.order_id@);
    lemma_filed_client_id_found(
        view.client_ids,
        order.client_order_id@,
        order.order_id@,
        order.client_order_id@,
    );
}

/// Cleanup never drops an order that can still trade (new or partially
/// filled), whatever the cutoff.
pub proof fn lemma_cleanup_keeps_active<A>(orders: Seq<OrderState<A>>, cutoff: i64, i: int)
    requires
        0 <= i < orders.len(),
        active_status(orders[i].status),
    ensures
        orders.filter(|o: OrderState<A>| retained_at(o.status, o.update_time, cutoff)).contains(
            orders[i],
        ),
{
    orders.lemma_filter_contains(|o: OrderState<A>| retained_at(o.status, o.update_time, cutoff), i);
}

proof fn lemma_filter_take_step<T>(s: Seq<T>, i: int, pred: spec_fn(T) -> bool)
    requires
        0 <= i < s.len(),
    ensures
        s.take(i + 1).filter(pred) == (if pred(s[i]) {
            s.take(i).filter(pred).push(s[i])
        } else {
            s.take(i).filter(pred)
        }),
{
    reveal(Seq::filter);
    assert(s.take(i + 1).drop_last() =~= s.take(i));
    assert(s.take(i + 1).last() == s[i]);
}

impl<A> OrderRegistry<A> {
    #[verifier::type_invariant]
    closed spec fn inv(self) -> bool {
        &&& distinct_order_ids(self.orders@)
        &&& distinct_client_ids(pair_views(self.client_ids@))
    }

    /// No orders and no client ids.
    pub fn new() -> (registry: Self)
        ensures
            registry@.orders == Seq::<OrderState<A>>::empty(),
            registry@.client_ids == Seq::<(Seq<char>, Seq<char>)>::empty(),
            registry_valid(registry@),
    {
        let registry = OrderRegistry { orders: Vec::new(), client_ids: Vec::new() };
        assert(pair_views(registry.client_ids@) =~= Seq::<(Seq<char>, Seq<char>)>::empty());
        registry
    }

    /// Position of the order with order id `id`.
    fn find_order(&self, id: &str) -> (found: Option<usize>)
        ensures
            match found {
                Some(i) => i < self@.orders.len() && self@.orders[i as int].order_id@ == id@,
                None => !holds_order(self@.orders, id@),
            },
    {
        let n = self.orders.len();
        let mut i: usize = 0;
        while i < n
            invariant
                n == self.orders@.len(),
                i <= n,
                forall|k: int| 0 <= k < i ==> (#[trigger] self.orders@[k]).order_id@ != id@,
            decreases n - i,
        {
            if same_text(self.orders[i].order_id.as_str(), id) {
                return Some(i);
            }
            i = i + 1;
        }
        None
    }

    /// Position of client order id `cid`.
    fn find_client_id(&self, cid: &str) -> (found: Option<usize>)
        ensures
            match found {
                Some(i) => i < self@.client_ids.len() && self@.client_ids[i as int].0 == cid@,
                None => !holds_client_id(self@.client_ids, cid@),
            },
    {
        let n = self.client_ids.len();
        let mut i: usize = 0;
        while i < n
            invariant
                n == self.client_ids@.len(),
                i <= n,
                forall|k: int| 0 <= k < i ==> (#[trigger] self.client_ids@[k]).0@ != cid@,
            decreases n - i,
        {
            if same_text(self.client_ids[i].0.as_str(), cid) {
                return Some(i);
            }
            i = i + 1;
        }
        proof {
            assert forall|k: int| 0 <= k < self@.client_ids.len() implies (
            #[trigger] self@.client_ids[k]).0 != cid@ by {
                assert(self.client_ids@[k].0@ != cid@);
            }
        }
        None
    }

    /// The order filed under order id `id`, if any.
    pub fn get_order(&self, id: &str) -> (order: Option<&OrderState<A>>)
        ensures
            match order {
                Some(o) => order_with_id(self@.orders, id@) == Some(*o),
                None => order_with_id(self@.orders, id@) is None,
            },
    {
        proof {
            use_type_invariant(self);
        }
        match self.find_order(id) {
            Some(i) => {
                proof {
                    lemma_order_index_unique(self@.orders, i as int);
                }
                Some(&self.orders[i])
            },
            None => None,
        }
    }

    /// Files `order` under its order id (replacing an order with the same
    /// id) and files its client order id as mapping to that order id.
    pub fn add_order(&mut self, order: OrderState<A>)
        ensures
            final(self)@.orders == with_order(old(self)@.orders, order),
            final(self)@.client_ids == with_client_id(
                old(self)@.client_ids,
                order.client_order_id@,
                order.order_id@,
            ),
            registry_valid(final(self)@),
    {
        proof {
            use_type_invariant(&*self);
        }
        let order_id = order.order_id.clone();
        let client_id = order.client_order_id.clone();
        let ghost order_view = order;
        let ghost orders_before = self@.orders;
        let ghost pairs_before = self@.client_ids;
        let found_order = self.find_order(order_id.as_str());
        let found_client = self.find_client_id(client_id.as_str());
        let mut orders = Vec::new();
        std::mem::swap(&mut orders, &mut self.orders);
        match found_order {
            Some(i) => {
                proof {
                    lemma_order_index_unique(orders_before, i as int);
                }
                orders[i] = order;
                proof {
                    assert forall|a: int, b: int|
                        0 <= a < orders@.len() && 0 <= b < orders@.len() && a != b
                            implies #[trigger] orders@[a].order_id@
                        != #[trigger] orders@[b].order_id@ by {
                        assert(orders_before[a].order_id@ == orders@[a].order_id@);
                        assert(orders_before[b].order_id@ == orders@[b].order_id@);
                    }
                }
            },
            None => {
                orders.push(order);
                proof {
                    assert forall|a: int, b: int|
                        0 <= a < orders@.len() && 0 <= b < orders@.len() && a != b
                            implies #[trigger] orders@[a].order_id@
                        != #[trigger] orders@[b].order_id@ by {
                        let n = orders_before.len() as int;
                        if a < n && b < n {
                            assert(orders_before[a] == orders@[a]);
                            assert(orders_before[b] == orders@[b]);
                        } else if a < n {
                            assert(orders_before[a] == orders@[a]);
                        } else {
                            assert(orders_before[b] == orders@[b]);
                        }
                    }
                }
            },
        }
        self.orders = orders;
        let mut client_ids = Vec::new();
        std::mem::swap(&mut client_ids, &mut self.client_ids);
        match found_client {
            Some(j) => {
                proof {
                    lemma_client_index_unique(pairs_before, j as int);
                }
                client_ids[j] = (client_id, order_id);
                proof {
                    assert(pair_views(client_ids@) =~= pairs_before.update(
                        j as int,
                        (order_view.client_order_id@, order_view.order_id@),
                    ));
                }
            },
            None => {
                client_ids.push((client_id, order_id));
                proof {
                    assert(pair_views(client_ids@) =~= pairs_before.push(
                        (order_view.client_order_id@, order_view.order_id@),
                    ));
                }
            },
        }
        proof {
            let pairs = pair_views(client_ids@);
            assert forall|a: int, b: int|
                0 <= a < pairs.len() && 0 <= b < pairs.len() && a != b implies (
            #[trigger] pairs[a]).0 != (#[trigger] pairs[b]).0 by {
                let n = pairs_before.len() as int;
                if a < n && b < n {
                    if pairs[a] != pairs_before[a] {
                        assert(pairs_before[b] == pairs[b]);
                    } else if pairs[b] != pairs_before[b] {
                        assert(pairs_before[a] == pairs[a]);
                    }
                }
            }
        }
        self.client_ids = client_ids;
    }

    /// The order filed under client order id `cid`, looked up through the
    /// order id that client id maps to.
    pub fn get_order_by_client_id(&self, cid: &str) -> (order: Option<&OrderState<A>>)
        ensures
            match order {
                Some(o) => (match order_id_for(self@.client_ids, cid@) {
                    Some(oid) => order_with_id(self@.orders, oid) == Some(*o),
                    None => false,
                }),
                None => (match order_id_for(self@.client_ids, cid@) {
                    Some(oid) => order_with_id(self@.orders, oid) is None,
                    None => true,
                }),
            },
    {
        proof {
            use_type_invariant(self);
        }
        match self.find_client_id(cid) {
            Some(j) => {
                proof {
                    lemma_client_index_unique(self@.client_ids, j as int);
                }
                self.get_order(self.client_ids[j].1.as_str())
            },
            None => None,
        }
    }

    /// Sets the status, update time and amounts of the order filed under
    /// `id`; returns whether there was one. Nothing changes when there is none.
    pub fn update_order(&mut self, id: &str, status: OrderStatus, update_time: i64, amounts: A) -> (found: bool)
        ensures
            found == holds_order(old(self)@.orders, id@),
            final(self)@.client_ids == old(self)@.client_ids,
            found ==> final(self)@.orders == old(self)@.orders.update(
                order_index(old(self)@.orders, id@),
                (OrderState {
                    status,
                    update_time,
                    amounts,
                    ..old(self)@.orders[order_index(old(self)@.orders, id@)]
                }),
            ),
            !found ==> final(self)@.orders == old(self)@.orders,
            registry_valid(final(self)@),
    {
        proof {
            use_type_invariant(&*self);
        }
        match self.find_order(id) {
            Some(i) => {
                proof {
                    lemma_order_index_unique(self@.orders, i as int);
                }
                let mut orders = Vec::new();
                std::mem::swap(&mut orders, &mut self.orders);
                orders[i].status = status;
                orders[i].update_time = update_time;
                orders[i].amounts = amounts;
                proof {
                    assert forall|a: int, b: int|
                        0 <= a < orders@.len() && 0 <= b < orders@.len() && a != b
                            implies #[trigger] orders@[a].order_id@
                        != #[trigger] orders@[b].order_id@ by {
                        assert(old(self).orders@[a].order_id@ == orders@[a].order_id@);
                        assert(old(self).orders@[b].order_id@ == orders@[b].order_id@);
                    }
                }
                self.orders = orders;
                true
            },
            None => false,
        }
    }

    /// The orders of `symbol` that can still trade (new or partially
    /// filled), in filing order.
    pub fn get_active_orders(&self, symbol: &str) -> (active: Vec<&OrderState<A>>)
        ensures
            active@.map_values(|o: &OrderState<A>| *o) == self@.orders.filter(
                |o: OrderState<A>| active_in(o, symbol@),
            ),
    {
        let n = self.orders.len();
        let mut active: Vec<&OrderState<A>> = Vec::new();
        let mut i: usize = 0;
        while i < n
            invariant
                n == self@.orders.len(),
                i <= n,
                active@.map_values(|o: &OrderState<A>| *o) =~= self@.orders.take(i as int).filter(
                    |o: OrderState<A>| active_in(o, symbol@),
                ),
            decreases n - i,
        {
            proof {
                lemma_filter_take_step(
                    self@.orders,
                    i as int,
                    |o: OrderState<A>| active_in(o, symbol@),
                );
            }
            let order = &self.orders[i];
            if same_text(order.symbol.as_str(), symbol) && crate::exchanges::is_active(order.status) {
                active.push(order);
            }
            i = i + 1;
        }
        proof {
            assert(self@.orders.take(n as int) =~= self@.orders);
        }
        active
    }

    /// How many orders of `symbol` there are, and how many of them are
    /// filled, partially filled and cancelled.
    pub fn count_orders(&self, symbol: &str) -> (counts: OrderCounts)
        ensures
            counts.total == self@.orders.filter(|o: OrderState<A>| o.symbol@ == symbol@).len(),
            counts.filled == self@.orders.filter(
                |o: OrderState<A>| in_status(o, symbol@, OrderStatus::Filled),
            ).len(),
            counts.partially_filled == self@.orders.filter(
                |o: OrderState<A>| in_status(o, symbol@, OrderStatus::PartiallyFilled),
            ).len(),
            counts.cancelled == self@.orders.filter(
                |o: OrderState<A>| in_status(o, symbol@, OrderStatus::Cancelled),
            ).len(),
    {
        let n = self.orders.len();
        let mut counts = OrderCounts { total: 0, filled: 0, partially_filled: 0, cancelled: 0 };
        let mut i: usize = 0;
        while i < n
            invariant
                n == self@.orders.len(),
                i <= n,
                counts.total == self@.orders.take(i as int).filter(
                    |o: OrderState<A>| o.symbol@ == symbol@,
                ).len(),
                counts.filled == self@.orders.take(i as int).filter(
                    |o: OrderState<A>| in_status(o, symbol@, OrderStatus::Filled),
                ).len(),
                counts.partially_filled == self@.orders.take(i as int).filter(
                    |o: OrderState<A>| in_status(o, symbol@, OrderStatus::PartiallyFilled),
                ).len(),
                counts.cancelled == self@.orders.take(i as int).filter(
                    |o: OrderState<A>| in_status(o, symbol@, OrderStatus::Cancelled),
                ).len(),
            decreases n - i,
        {
            proof {
                let prefix = self@.orders.take(i as int);
                lemma_filter_take_step(self@.orders, i as int, |o: OrderState<A>| o.symbol@ == symbol@);
                lemma_filter_take_step(
                    self@.orders,
                    i as int,
                    |o: OrderState<A>| in_status(o, symbol@, OrderStatus::Filled),
                );
                lemma_filter_take_step(
                    self@.orders,
                    i as int,
                    |o: OrderState<A>| in_status(o, symbol@, OrderStatus::PartiallyFilled),
                );
                lemma_filter_take_step(
                    self@.orders,
                    i as int,
                    |o: OrderState<A>| in_status(o, symbol@, OrderStatus::Cancelled),
                );
                prefix.lemma_filter_len(|o: OrderState<A>| o.symbol@ == symbol@);
                prefix.lemma_filter_len(|o: OrderState<A>| in_status(o, symbol@, OrderStatus::Filled));
                prefix.lemma_filter_len(
                    |o: OrderState<A>| in_status(o, symbol@, OrderStatus::PartiallyFilled),
                );
                prefix.lemma_filter_len(
                    |o: OrderState<A>| in_status(o, symbol@, OrderStatus::Cancelled),
                );
            }
            let order = &self.orders[i];
            if same_text(order.symbol.as_str(), symbol) {
                counts.total = counts.total + 1;
                match order.status {
                    OrderStatus::Filled => {
                        counts.filled = counts.filled + 1;
                    },
                    OrderStatus::PartiallyFilled => {
                        counts.partially_filled = counts.partially_filled + 1;
                    },
                    OrderStatus::Cancelled => {
                        counts.cancelled = counts.cancelled + 1;
                    },
                    _ => {},
                }
            }
            i = i + 1;
        }
        proof {
            assert(self@.orders.take(n as int) =~= self@.orders);
        }
        counts
    }

    /// Drops the filled and cancelled orders last updated at or before
    /// `cutoff`, keeping the others in their order. Client ids stay filed.
    pub fn retain_recent(&mut self, cutoff: i64)
        ensures
            final(self)@.orders == old(self)@.orders.filter(
                |o: OrderState<A>| retained_at(o.status, o.update_time, cutoff),
            ),
            final(self)@.client_ids == old(self)@.client_ids,
            registry_valid(final(self)@),
    {
        proof {
            use_type_invariant(&*self);
        }
        let ghost pred = |o: OrderState<A>| retained_at(o.status, o.update_time, cutoff);
        let ghost initial = self@.orders;
        let mut remaining = Vec::new();
        std::mem::swap(&mut remaining, &mut self.orders);
        let mut kept: Vec<OrderState<A>> = Vec::new();
        proof {
            assert(initial.skip(0) =~= initial);
            assert(initial.take(0).filter(pred) =~= Seq::<OrderState<A>>::empty());
        }
        while remaining.len() > 0
            invariant
                pred == (|o: OrderState<A>| retained_at(o.status, o.update_time, cutoff)),
                distinct_order_ids(initial),
                remaining@.len() <= initial.len(),
                remaining@ =~= initial.skip(initial.len() - remaining@.len()),
                kept@ =~= initial.take(initial.len() - remaining@.len()).filter(pred),
                distinct_order_ids(kept@),
                forall|a: int, b: int|
                    0 <= a < kept@.len() && 0 <= b < remaining@.len() ==> (#[trigger] kept@[a]).order_id@
                        != (#[trigger] remaining@[b]).order_id@,
            decreases remaining@.len(),
        {
            let ghost k = initial.len() - remaining@.len();
            let ghost before = remaining@;
            let ghost kept_before = kept@;
            let order = remaining.remove(0);
            proof {
                assert(remaining@ =~= initial.skip(k + 1));
                assert(order == initial[k]);
                lemma_filter_take_step(initial, k, pred);
                assert forall|b: int| 0 <= b < remaining@.len() implies (
                #[trigger] remaining@[b]).order_id@ != order.order_id@ by {
                    assert(remaining@[b] == initial[k + 1 + b]);
                    assert(order == initial[k]);
                }
            }
            if crate::exchanges::order_retained(order.status, order.update_time, cutoff) {
                kept.push(order);
                proof {
                    assert forall|a: int, c: int|
                        0 <= a < kept@.len() && 0 <= c < kept@.len() && a != c
                            implies #[trigger] kept@[a].order_id@ != #[trigger] kept@[c].order_id@ by {
                        let last = kept_before.len() as int;
                        if a == last {
                            assert(before[0] == kept@[a]);
                            assert(kept_before[c] == kept@[c]);
                            assert(kept_before[c].order_id@ != before[0].order_id@);
                        } else if c == last {
                            assert(before[0] == kept@[c]);
                            assert(kept_before[a] == kept@[a]);
                            assert(kept_before[a].order_id@ != before[0].order_id@);
                        } else {
                            assert(kept_before[a] == kept@[a]);
                            assert(kept_before[c] == kept@[c]);
                        }
                    }
                    assert forall|a: int, b: int|
                        0 <= a < kept@.len() && 0 <= b < remaining@.len() implies (
                        #[trigger] kept@[a]).order_id@ != (#[trigger] remaining@[b]).order_id@ by {
                        if a < kept_before.len() {
                            assert(kept_before[a] == kept@[a]);
                            assert(before[b + 1] == remaining@[b]);
                        }
                    }
                }
            } else {
                proof {
                    assert forall|a: int, b: int|
                        0 <= a < kept@.len() && 0 <= b < remaining@.len() implies (
                        #[trigger] kept@[a]).order_id@ != (#[trigger] remaining@[b]).order_id@ by {
                        assert(before[b + 1] == remaining@[b]);
                    }
                }
            }
        }
        proof {
            assert(initial.take(initial.len() as int) =~= initial);
        }
        self.orders = kept;
    }

    /// The orders, in filing order.
    pub fn orders(&self) -> (orders: &Vec<OrderState<A>>)
        ensures
            orders@ == self@.orders,
    {
        &self.orders
    }

    /// Whether an order is filed under order id `id`.
    pub fn contains_order(&self, id: &str) -> (found: bool)
        ensures
            found == holds_order(self@.orders, id@),
    {
        self.find_order(id).is_some()
    }
}

} // verus!

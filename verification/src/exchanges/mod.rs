//! Order vocabulary shared by the exchange connectors, the order rules and
//! book-keeping, and the protocol logic of the Bybit and Deribit connectors
//! and of the market data stream.

pub mod bybit;
pub mod deribit;
pub mod order_manager;
pub mod websocket;

use vstd::prelude::*;

verus! {

/// Direction of an order.
#[derive(Debug, Clone, Copy, PartialEq, Eq, Structural)]
pub enum OrderSide {
    Buy,
    Sell,
}

/// Kind of an order.
#[derive(Debug, Clone, Copy, PartialEq, Eq, Structural)]
pub enum OrderType {
    Limit,
    Market,
    PostOnly,
}

/// Lifecycle status of an order.
#[derive(Debug, Clone, Copy, PartialEq, Eq, Structural)]
pub enum OrderStatus {
    New,
    PartiallyFilled,
    Filled,
    Cancelled,
    Rejected,
}

/// How long an order stays on the book.
#[derive(Debug, Clone, Copy, PartialEq, Eq, Structural)]
pub enum TimeInForce {
    /// Good till cancelled.
    GTC,
    /// Immediate or cancel.
    IOC,
    /// Fill or kill.
    FOK,
    /// Maker only.
    PostOnly,
}

/// An order can still trade while it is new or partially filled.
pub open spec fn active_status(status: OrderStatus) -> bool {
    status == OrderStatus::New || status == OrderStatus::PartiallyFilled
}

/// Whether an order can still trade: it is new or partially filled.
pub fn is_active(status: OrderStatus) -> (active: bool)
    ensures
        active == active_status(status),
{
    match status {
        OrderStatus::New | OrderStatus::PartiallyFilled => true,
        _ => false,
    }
}

/// The status of an order after a fill was recorded against it: filled once
/// the filled quantity reaches the order quantity, partially filled while
/// some but not all of it is filled, and otherwise unchanged.
pub fn status_after_fill(current: OrderStatus, reaches_quantity: bool, some_filled: bool) -> (status: OrderStatus)
    ensures
        status == (if reaches_quantity {
            OrderStatus::Filled
        } else if some_filled {
            OrderStatus::PartiallyFilled
        } else {
            current
        }),
{
    if reaches_quantity {
        OrderStatus::Filled
    } else if some_filled {
        OrderStatus::PartiallyFilled
    } else {
        current
    }
}

/// Milliseconds in one hour.
pub const MILLIS_PER_HOUR: i64 = 3_600_000;

/// The update time before which completed orders are discarded: `hours` before `now_ms`.
pub fn cleanup_cutoff(now_ms: i64, hours: i64) -> (cutoff: i64)
    requires
        i64::MIN <= now_ms - hours * MILLIS_PER_HOUR <= i64::MAX,
        i64::MIN <= hours * MILLIS_PER_HOUR <= i64::MAX,
    ensures
        cutoff == now_ms - hours * MILLIS_PER_HOUR,
{
    now_ms - hours * MILLIS_PER_HOUR
}

/// Cleanup keeps orders that are not filled or cancelled, and completed
/// ones updated after `cutoff`.
pub open spec fn retained_at(status: OrderStatus, update_time: i64, cutoff: i64) -> bool {
    !(status == OrderStatus::Filled || status == OrderStatus::Cancelled) || update_time > cutoff
}

/// Whether cleanup keeps an order: orders that are not filled or cancelled
/// are always kept, completed ones only when updated after `cutoff`.
pub fn order_retained(status: OrderStatus, update_time: i64, cutoff: i64) -> (kept: bool)
    ensures
        kept == retained_at(status, update_time, cutoff),
{
    match status {
        OrderStatus::Filled | OrderStatus::Cancelled => update_time > cutoff,
        _ => true,
    }
}

/// Cleanup keeps every order updated after the cutoff, whatever its status.
pub proof fn lemma_recent_orders_kept(status: OrderStatus, update_time: i64, cutoff: i64)
    requires
        update_time > cutoff,
    ensures
        retained_at(status, update_time, cutoff),
{
}

/// Cleanup keeps every order that is not filled or cancelled (new,
/// partially filled or rejected), however long ago it was updated, and drops
/// a filled or cancelled order exactly when it was updated at or before the
/// cutoff.
pub proof fn lemma_cleanup_drops_only_old_completed(status: OrderStatus, update_time: i64, cutoff: i64)
    ensures
        status != OrderStatus::Filled && status != OrderStatus::Cancelled ==> retained_at(
            status,
            update_time,
            cutoff,
        ),
        (status == OrderStatus::Filled || status == OrderStatus::Cancelled) ==> (retained_at(
            status,
            update_time,
            cutoff,
        ) <==> update_time > cutoff),
{
}

/// The cutoff lies `hours` hours before `now_ms`: an order updated less than
/// that long ago (strictly after the cutoff) is kept by cleanup.
pub proof fn lemma_cutoff_window(now_ms: i64, hours: i64, status: OrderStatus, update_time: i64)
    requires
        i64::MIN <= hours * MILLIS_PER_HOUR <= i64::MAX,
        i64::MIN <= now_ms - hours * MILLIS_PER_HOUR <= i64::MAX,
        now_ms - hours * MILLIS_PER_HOUR < update_time,
    ensures
        retained_at(status, update_time, (now_ms - hours * MILLIS_PER_HOUR) as i64),
{
}

} // verus!

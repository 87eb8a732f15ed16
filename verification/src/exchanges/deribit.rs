//! Deribit JSON-RPC protocol details: endpoint, instrument and method names,
//! order field names, and when to renew the access token.

use vstd::prelude::*;
use vstd::string::StringExecFns;

use crate::exchanges::{OrderSide, OrderStatus, OrderType, TimeInForce};
use crate::utils::text::same_text;

verus! {

/// The error code Deribit answers when the access token has expired.
pub const TOKEN_EXPIRED_CODE: i64 = 13009;

/// Deribit's API endpoint, on the testnet or on the live exchange.
pub fn base_url(testnet: bool) -> (url: &'static str)
    ensures
        url@ == (if testnet {
            "https://test.deribit.com/api/v2"@
        } else {
            "https://www.deribit.com/api/v2"@
        }),
{
    if testnet {
        "https://test.deribit.com/api/v2"
    } else {
        "https://www.deribit.com/api/v2"
    }
}

/// The perpetual future of an underlying, `<underlying>-PERPETUAL`.
pub fn perpetual_instrument(underlying: &str) -> (name: String)
    ensures
        name@ == underlying@ + "-PERPETUAL"@,
{
    let name = underlying.to_owned();
    name.concat("-PERPETUAL")
}

/// Deribit's name of an order direction.
pub open spec fn deribit_direction_name(side: OrderSide) -> Seq<char> {
    match side {
        OrderSide::Buy => "buy"@,
        OrderSide::Sell => "sell"@,
    }
}

/// Deribit's direction for an order side.
pub fn direction_name(side: OrderSide) -> (name: &'static str)
    ensures
        name@ == deribit_direction_name(side),
{
    match side {
        OrderSide::Buy => "buy",
        OrderSide::Sell => "sell",
    }
}

/// The private method that places an order on a side.
pub fn order_method(side: OrderSide) -> (method: &'static str)
    ensures
        method@ == (match side {
            OrderSide::Buy => "private/buy"@,
            OrderSide::Sell => "private/sell"@,
        }),
{
    match side {
        OrderSide::Buy => "private/buy",
        OrderSide::Sell => "private/sell",
    }
}

/// Deribit's name for an order type; post-only orders are limit orders.
pub fn order_type_name(order_type: OrderType) -> (name: &'static str)
    ensures
        name@ == (match order_type {
            OrderType::Limit => "limit"@,
            OrderType::Market => "market"@,
            OrderType::PostOnly => "limit"@,
        }),
{
    match order_type {
        OrderType::Limit => "limit",
        OrderType::Market => "market",
        OrderType::PostOnly => "limit",
    }
}

/// Whether an order is sent with Deribit's `post_only` flag.
pub fn is_post_only(time_in_force: TimeInForce) -> (flag: bool)
    ensures
        flag == (time_in_force == TimeInForce::PostOnly),
{
    time_in_force == TimeInForce::PostOnly
}

/// The side a Deribit direction names, if it is one.
pub open spec fn direction_named(name: Seq<char>) -> Option<OrderSide> {
    if name == "buy"@ {
        Some(OrderSide::Buy)
    } else if name == "sell"@ {
        Some(OrderSide::Sell)
    } else {
        None
    }
}

/// Reads a Deribit direction (`"buy"` or `"sell"`).
pub fn parse_direction(name: &str) -> (side: Option<OrderSide>)
    ensures
        side == direction_named(name@),
{
    if same_text(name, "buy") {
        Some(OrderSide::Buy)
    } else if same_text(name, "sell") {
        Some(OrderSide::Sell)
    } else {
        None
    }
}

/// The status of a Deribit order state; states it does not list count as new.
pub open spec fn order_state_status(name: Seq<char>) -> OrderStatus {
    if name == "filled"@ {
        OrderStatus::Filled
    } else if name == "cancelled"@ {
        OrderStatus::Cancelled
    } else if name == "rejected"@ {
        OrderStatus::Rejected
    } else {
        OrderStatus::New
    }
}

/// Reads a Deribit order state (`"open"`, `"filled"`, `"cancelled"`, `"rejected"`).
pub fn parse_order_state(name: &str) -> (status: OrderStatus)
    ensures
        status == order_state_status(name@),
{
    proof {
        reveal_strlit("open");
        reveal_strlit("filled");
        reveal_strlit("cancelled");
        reveal_strlit("rejected");
        assert("open"@.len() == 4);
        assert("open"@ != "filled"@);
        assert("open"@ != "cancelled"@);
        assert("open"@ != "rejected"@);
    }
    if same_text(name, "open") {
        OrderStatus::New
    } else if same_text(name, "filled") {
        OrderStatus::Filled
    } else if same_text(name, "cancelled") {
        OrderStatus::Cancelled
    } else if same_text(name, "rejected") {
        OrderStatus::Rejected
    } else {
        OrderStatus::New
    }
}

/// Seconds in one day.
pub const SECS_PER_DAY: i64 = 86_400;

/// The latest expiration (Unix seconds) a hedge option may have: `max_days`
/// days after `now_secs`.
pub fn expiry_cutoff(now_secs: i64, max_days: i64) -> (cutoff: i64)
    requires
        i64::MIN <= max_days * SECS_PER_DAY <= i64::MAX,
        i64::MIN <= now_secs + max_days * SECS_PER_DAY <= i64::MAX,
    ensures
        cutoff == now_secs + max_days * SECS_PER_DAY,
{
    now_secs + max_days * SECS_PER_DAY
}

/// Whether an error answer asks for a fresh access token and one retry.
pub fn needs_reauthentication(error_code: Option<i64>) -> (renew: bool)
    ensures
        renew == (error_code == Some(TOKEN_EXPIRED_CODE)),
{
    match error_code {
        Some(code) => code == TOKEN_EXPIRED_CODE,
        None => false,
    }
}

/// Which attempt of a JSON-RPC call a reply answers.
#[derive(Debug, Clone, Copy, PartialEq, Eq, Structural)]
pub enum RpcAttempt {
    /// The call as first sent.
    First,
    /// The call sent again with a fresh token.
    Retry,
}

/// What to do with a JSON-RPC reply.
#[derive(Debug, Clone, Copy, PartialEq, Eq, Structural)]
pub enum RpcStep {
    /// The reply carries a result: hand it back.
    Accept,
    /// The token expired: authenticate again and resend the call.
    RenewTokenAndRetry,
    /// The reply carries an error: fail with it.
    Reject,
}

/// The step for a reply: `error` is `None` when the reply has no error
/// member, and otherwise the error's numeric code, if it has one. Only the
/// first attempt is retried, and only for an expired token.
pub open spec fn rpc_step(attempt: RpcAttempt, error: Option<Option<i64>>) -> RpcStep {
    match error {
        None => RpcStep::Accept,
        Some(code) => if attempt == RpcAttempt::First && code == Some(TOKEN_EXPIRED_CODE) {
            RpcStep::RenewTokenAndRetry
        } else {
            RpcStep::Reject
        },
    }
}

/// Decides what to do with a JSON-RPC reply.
pub fn next_rpc_step(attempt: RpcAttempt, error: Option<Option<i64>>) -> (step: RpcStep)
    ensures
        step == rpc_step(attempt, error),
{
    match error {
        None => RpcStep::Accept,
        Some(code) => if attempt == RpcAttempt::First && needs_reauthentication(code) {
            RpcStep::RenewTokenAndRetry
        } else {
            RpcStep::Reject
        },
    }
}

/// A call is sent at most twice: the reply to a retry is accepted or
/// rejected, never retried again.
pub proof fn lemma_at_most_one_retry(error: Option<Option<i64>>)
    ensures
        rpc_step(RpcAttempt::Retry, error) != RpcStep::RenewTokenAndRetry,
        error is None ==> rpc_step(RpcAttempt::Retry, error) == RpcStep::Accept,
{
}

/// Reading a direction inverts naming it: Deribit's name of every side
/// reads back as that side, and a name reads as a side only if it is that
/// side's name ("buy" is a buy, never a sell).
pub proof fn lemma_direction_names_read_back(side: OrderSide, name: Seq<char>)
    ensures
        direction_named(deribit_direction_name(side)) == Some(side),
        direction_named(name) == Some(side) ==> name == deribit_direction_name(side),
{
    reveal_strlit("buy");
    reveal_strlit("sell");
    assert("buy"@ != "sell"@) by {
        assert("buy"@.len() != "sell"@.len());
    }
}

/// Deribit's name of the order state each status is read from.
pub open spec fn deribit_state_name(status: OrderStatus) -> Seq<char> {
    match status {
        OrderStatus::Filled => "filled"@,
        OrderStatus::Cancelled => "cancelled"@,
        OrderStatus::Rejected => "rejected"@,
        _ => "open"@,
    }
}

/// Reading an order state inverts naming it for the four states Deribit
/// reports: "open" reads as new, "filled", "cancelled" and "rejected" as
/// themselves; any other name reads as new.
pub proof fn lemma_order_states_read_back(status: OrderStatus, name: Seq<char>)
    requires
        status != OrderStatus::PartiallyFilled,
    ensures
        order_state_status(deribit_state_name(status)) == status,
        order_state_status(name) != OrderStatus::New ==> name == deribit_state_name(
            order_state_status(name),
        ),
        order_state_status(name) != OrderStatus::PartiallyFilled,
{
    reveal_strlit("open");
    reveal_strlit("filled");
    reveal_strlit("cancelled");
    reveal_strlit("rejected");
    assert("open"@ != "filled"@) by {
        assert("open"@.len() != "filled"@.len());
    }
    assert("open"@ != "cancelled"@) by {
        assert("open"@.len() != "cancelled"@.len());
    }
    assert("open"@ != "rejected"@) by {
        assert("open"@.len() != "rejected"@.len());
    }
    assert("filled"@ != "cancelled"@) by {
        assert("filled"@.len() != "cancelled"@.len());
    }
    assert("filled"@ != "rejected"@) by {
        assert("filled"@.len() != "rejected"@.len());
    }
    assert("cancelled"@ != "rejected"@) by {
        assert("cancelled"@.len() != "rejected"@.len());
    }
}

} // verus!

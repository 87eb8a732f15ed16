//! Bybit public market data stream: subscription topics, routing of incoming
//! messages, connection bookkeeping, liveness and reconnection back-off.
//! Durations are in nanoseconds.

use std::time::Instant;
use vstd::prelude::*;
use vstd::string::StringExecFns;

use crate::utils::clock::instant_now;
use crate::utils::text::{decimal, has_prefix, push_decimal};

verus! {

/// First delay before reconnecting: one second.
pub const INITIAL_RECONNECT_DELAY: u64 = 1_000_000_000;

/// Longest delay before reconnecting: sixty seconds.
pub const MAX_RECONNECT_DELAY: u64 = 60_000_000_000;

/// Silence after which a connection is taken for dead: sixty seconds.
pub const MAX_SILENCE: u64 = 60_000_000_000;

/// Subscription topic for the order book of `symbol` at `depth` levels.
pub fn orderbook_topic(symbol: &str, depth: u32) -> (topic: String)
    ensures
        topic@ == "orderbook."@ + decimal(depth as nat) + "."@ + symbol@,
{
    let mut topic = String::from_str("orderbook.");
    push_decimal(&mut topic, depth as u128);
    topic.append(".");
    topic.append(symbol);
    topic
}

/// Subscription topic for the public trades of `symbol`.
pub fn trade_topic(symbol: &str) -> (topic: String)
    ensures
        topic@ == "publicTrade."@ + symbol@,
{
    String::from_str("publicTrade.").concat(symbol)
}

/// What an incoming stream message carries, judged by its topic.
#[derive(Debug, Clone, Copy, PartialEq, Eq, Structural)]
pub enum TopicKind {
    /// An order book snapshot or delta.
    OrderBook,
    /// A batch of public trades.
    Trade,
    /// Anything else; it is ignored.
    Other,
}

/// The kind of a topic: order book topics start with `orderbook`, trade
/// topics with `publicTrade`.
pub open spec fn topic_kind_of(topic: Seq<char>) -> TopicKind {
    if "orderbook"@.is_prefix_of(topic) {
        TopicKind::OrderBook
    } else if "publicTrade"@.is_prefix_of(topic) {
        TopicKind::Trade
    } else {
        TopicKind::Other
    }
}

/// Routes a message by its topic.
pub fn classify_topic(topic: &str) -> (kind: TopicKind)
    ensures
        kind == topic_kind_of(topic@),
{
    if has_prefix(topic, "orderbook") {
        TopicKind::OrderBook
    } else if has_prefix(topic, "publicTrade") {
        TopicKind::Trade
    } else {
        TopicKind::Other
    }
}

/// The topics the client subscribes to route back to their own kind: an
/// order book topic is handled as an order book update and a trade topic as
/// trades, whatever the symbol and depth.
pub proof fn lemma_subscribed_topics_route_back(symbol: Seq<char>, depth: nat)
    ensures
        topic_kind_of("orderbook."@ + decimal(depth) + "."@ + symbol) == TopicKind::OrderBook,
        topic_kind_of("publicTrade."@ + symbol) == TopicKind::Trade,
{
    reveal_strlit("orderbook");
    reveal_strlit("orderbook.");
    reveal_strlit("publicTrade");
    reveal_strlit("publicTrade.");
    reveal_strlit(".");
    let book = "orderbook."@ + decimal(depth) + "."@ + symbol;
    let trade = "publicTrade."@ + symbol;
    assert("orderbook"@.is_prefix_of(book)) by {
        assert forall|i: int| 0 <= i < "orderbook"@.len() implies "orderbook"@[i] == book[i] by {
            assert(book[i] == "orderbook."@[i]);
        }
    }
    assert(!"orderbook"@.is_prefix_of(trade)) by {
        assert(trade[0] == 'p');
        if "orderbook"@.len() <= trade.len() {
            assert(trade.subrange(0, "orderbook"@.len() as int)[0] == 'p');
        }
    }
    assert("publicTrade"@.is_prefix_of(trade)) by {
        assert forall|i: int| 0 <= i < "publicTrade"@.len() implies "publicTrade"@[i] == trade[i] by {
            assert(trade[i] == "publicTrade."@[i]);
        }
    }
}

/// The delay before the next reconnection attempt after one more failure:
/// doubled, capped at [`MAX_RECONNECT_DELAY`].
pub open spec fn next_delay(delay: int) -> int {
    if 2 * delay < MAX_RECONNECT_DELAY {
        2 * delay
    } else {
        MAX_RECONNECT_DELAY as int
    }
}

/// Doubles the reconnection delay, capped at sixty seconds.
pub fn next_reconnect_delay(delay: u64) -> (next: u64)
    ensures
        next == next_delay(delay as int),
{
    if delay < MAX_RECONNECT_DELAY / 2 {
        delay * 2
    } else {
        MAX_RECONNECT_DELAY
    }
}

/// The delay after `failures` failed connections in a row.
pub open spec fn delay_after(failures: nat) -> int
    decreases failures,
{
    if failures == 0 {
        INITIAL_RECONNECT_DELAY as int
    } else {
        next_delay(delay_after((failures - 1) as nat))
    }
}

/// After `failures` failed connections in a row the delay is
/// `min(2^failures, 60)` seconds: it never drops below one second, never
/// exceeds sixty, and never shrinks while failures go on.
pub proof fn lemma_backoff_bounded(failures: nat)
    ensures
        INITIAL_RECONNECT_DELAY <= delay_after(failures) <= MAX_RECONNECT_DELAY,
        delay_after(failures) <= delay_after(failures + 1),
        delay_after(failures) == (if failures >= 6 {
            MAX_RECONNECT_DELAY as int
        } else {
            INITIAL_RECONNECT_DELAY * vstd::arithmetic::power2::pow2(failures) as int
        }),
    decreases failures,
{
    vstd::arithmetic::power2::lemma2_to64();
    if failures > 0 {
        lemma_backoff_bounded((failures - 1) as nat);
        if failures < 6 {
            vstd::arithmetic::power2::lemma_pow2_unfold(failures);
        }
    }
}

/// How a connection session ended.
#[derive(Debug, Clone, Copy, PartialEq, Eq, Structural)]
pub enum SessionEnd {
    /// The session ended without an error.
    Closed,
    /// The session failed (connect error, stream error, close by the
    /// server, or silence).
    Failed,
}

/// What to do after a session ended: how long to wait before reconnecting
/// (ns, 0 for at once) and the delay to use after the next failure.
#[derive(Debug, Clone, Copy, PartialEq, Eq, Structural)]
pub struct ReconnectPlan {
    pub wait: u64,
    pub next_delay: u64,
}

/// The plan after a session ended with the given delay: after a clean close
/// the client reconnects at once and the delay goes back to one second;
/// after a failure it waits the current delay, which then doubles up to
/// sixty seconds.
pub open spec fn reconnect_plan(delay: int, end: SessionEnd) -> ReconnectPlan {
    match end {
        SessionEnd::Closed => ReconnectPlan { wait: 0, next_delay: INITIAL_RECONNECT_DELAY },
        SessionEnd::Failed => ReconnectPlan { wait: delay as u64, next_delay: next_delay(delay) as u64 },
    }
}

/// After a clean close the client reconnects at once and the delay goes
/// back to one second; after a failure it waits the current delay, which
/// then doubles up to sixty seconds.
pub fn plan_reconnect(delay: u64, end: SessionEnd) -> (plan: ReconnectPlan)
    ensures
        plan == reconnect_plan(delay as int, end),
{
    match end {
        SessionEnd::Closed => ReconnectPlan { wait: 0, next_delay: INITIAL_RECONNECT_DELAY },
        SessionEnd::Failed => ReconnectPlan { wait: delay, next_delay: next_reconnect_delay(delay) },
    }
}

/// Reconnection over a run of failures: starting from one second, the
/// `j`-th failure in a row (counting from 1) is followed by a wait of
/// `min(2^(j-1), 60)` seconds, after which the delay is `delay_after(j)`;
/// a clean close at any point resets the delay to one second.
pub proof fn lemma_reconnect_waits(j: nat)
    requires
        j >= 1,
    ensures
        reconnect_plan(delay_after((j - 1) as nat), SessionEnd::Failed).wait == (if j - 1 >= 6 {
            MAX_RECONNECT_DELAY as int
        } else {
            INITIAL_RECONNECT_DELAY * vstd::arithmetic::power2::pow2((j - 1) as nat) as int
        }),
        reconnect_plan(delay_after((j - 1) as nat), SessionEnd::Failed).next_delay == delay_after(j),
        reconnect_plan(delay_after((j - 1) as nat), SessionEnd::Closed).next_delay
            == INITIAL_RECONNECT_DELAY,
{
    lemma_backoff_bounded((j - 1) as nat);
    lemma_backoff_bounded(j);
}

/// Interval between the pings the client sends: twenty seconds.
pub const PING_INTERVAL: u64 = 20_000_000_000;

/// Interval between liveness checks: thirty seconds.
pub const HEALTH_CHECK_INTERVAL: u64 = 30_000_000_000;

/// What the stream delivered.
#[derive(Debug, Clone, Copy, PartialEq, Eq, Structural)]
pub enum StreamInput {
    /// A text frame.
    Text,
    /// A ping from the server.
    Ping,
    /// A pong from the server.
    Pong,
    /// A close frame.
    Close,
    /// A transport or protocol error.
    Error,
    /// The stream ended.
    End,
    /// Any other frame (binary or raw).
    Other,
}

/// What the session does with an input.
#[derive(Debug, Clone, Copy, PartialEq, Eq, Structural)]
pub enum StreamReaction {
    /// Decode and route the message.
    Handle,
    /// Answer with a pong carrying the ping's payload.
    ReplyPong,
    /// Nothing.
    Ignore,
    /// End the session as failed.
    Fail,
}

/// The session's reaction to an input: text is handled, a ping answered, a
/// close, an error or the end of the stream fail the session, anything else
/// is ignored.
pub open spec fn stream_reaction(input: StreamInput) -> StreamReaction {
    match input {
        StreamInput::Text => StreamReaction::Handle,
        StreamInput::Ping => StreamReaction::ReplyPong,
        StreamInput::Close | StreamInput::Error | StreamInput::End => StreamReaction::Fail,
        StreamInput::Pong | StreamInput::Other => StreamReaction::Ignore,
    }
}

/// Decides what the session does with an input.
pub fn react_to(input: StreamInput) -> (reaction: StreamReaction)
    ensures
        reaction == stream_reaction(input),
{
    match input {
        StreamInput::Text => StreamReaction::Handle,
        StreamInput::Ping => StreamReaction::ReplyPong,
        StreamInput::Close | StreamInput::Error | StreamInput::End => StreamReaction::Fail,
        StreamInput::Pong | StreamInput::Other => StreamReaction::Ignore,
    }
}

/// Whether a connection silent for `silence` ns is taken for dead.
pub fn is_connection_dead(silence: u128) -> (dead: bool)
    ensures
        dead == (silence > MAX_SILENCE),
{
    silence > MAX_SILENCE as u128
}

/// The topics a stream connection subscribes to once it is up, in the order
/// they were asked for.
#[derive(Debug, Clone)]
pub struct StreamSubscriptions {
    topics: Vec<String>,
}

impl View for StreamSubscriptions {
    type V = Seq<Seq<char>>;

    closed spec fn view(&self) -> Seq<Seq<char>> {
        self.topics@.map_values(|topic: String| topic@)
    }
}

impl StreamSubscriptions {
    /// No topics yet.
    pub fn new() -> (subscriptions: Self)
        ensures
            subscriptions@ == Seq::<Seq<char>>::empty(),
    {
        let subscriptions = StreamSubscriptions { topics: Vec::new() };
        assert(subscriptions@ =~= Seq::<Seq<char>>::empty());
        subscriptions
    }

    /// Adds the order book topic of `symbol` at `depth` levels.
    pub fn subscribe_orderbook(&mut self, symbol: &str, depth: u32)
        ensures
            final(self)@ == old(self)@.push("orderbook."@ + decimal(depth as nat) + "."@ + symbol@),
    {
        let topic = orderbook_topic(symbol, depth);
        self.topics.push(topic);
        assert(self@ =~= old(self)@.push("orderbook."@ + decimal(depth as nat) + "."@ + symbol@));
    }

    /// Adds the public trade topic of `symbol`.
    pub fn subscribe_trades(&mut self, symbol: &str)
        ensures
            final(self)@ == old(self)@.push("publicTrade."@ + symbol@),
    {
        let topic = trade_topic(symbol);
        self.topics.push(topic);
        assert(self@ =~= old(self)@.push("publicTrade."@ + symbol@));
    }

    /// Number of topics.
    pub fn len(&self) -> (n: usize)
        ensures
            n == self@.len(),
    {
        self.topics.len()
    }

    /// Whether there is no topic.
    pub fn is_empty(&self) -> (empty: bool)
        ensures
            empty == (self@.len() == 0),
    {
        self.topics.len() == 0
    }

    /// The topics, in the order they were added.
    pub fn topics(&self) -> (topics: &Vec<String>)
        ensures
            topics@.map_values(|topic: String| topic@) == self@,
    {
        &self.topics
    }
}

/// Bookkeeping of the stream connection.
#[derive(Debug, Clone, Copy)]
pub struct ConnectionState {
    pub connected: bool,
    pub last_message_time: Instant,
    pub reconnect_count: u32,
    pub total_messages: u64,
}

impl ConnectionState {
    /// Not connected yet, no reconnections, no messages.
    pub fn new() -> (state: Self)
        ensures
            !state.connected,
            state.reconnect_count == 0,
            state.total_messages == 0,
    {
        ConnectionState {
            connected: false,
            last_message_time: instant_now(),
            reconnect_count: 0,
            total_messages: 0,
        }
    }

    /// The connection came up; the silence clock restarts.
    pub fn mark_connected(&mut self)
        ensures
            final(self).connected,
            final(self).reconnect_count == old(self).reconnect_count,
            final(self).total_messages == old(self).total_messages,
    {
        self.connected = true;
        self.last_message_time = instant_now();
    }

    /// A message arrived; the silence clock restarts.
    pub fn record_message(&mut self)
        requires
            old(self).total_messages < u64::MAX,
        ensures
            final(self).connected == old(self).connected,
            final(self).reconnect_count == old(self).reconnect_count,
            final(self).total_messages == old(self).total_messages + 1,
    {
        self.last_message_time = instant_now();
        self.total_messages = self.total_messages + 1;
    }

    /// The connection failed; one more reconnection will be attempted.
    pub fn mark_connection_lost(&mut self)
        requires
            old(self).reconnect_count < u32::MAX,
        ensures
            !final(self).connected,
            final(self).reconnect_count == old(self).reconnect_count + 1,
            final(self).total_messages == old(self).total_messages,
            final(self).last_message_time == old(self).last_message_time,
    {
        self.connected = false;
        self.reconnect_count = self.reconnect_count + 1;
    }

    /// A session ended: a failure marks the connection lost (one more
    /// reconnection); either way the plan for reconnecting is returned.
    pub fn end_session(&mut self, delay: u64, end: SessionEnd) -> (plan: ReconnectPlan)
        requires
            end == SessionEnd::Failed ==> old(self).reconnect_count < u32::MAX,
        ensures
            plan == reconnect_plan(delay as int, end),
            end == SessionEnd::Failed ==> !final(self).connected && final(self).reconnect_count
                == old(self).reconnect_count + 1,
            end == SessionEnd::Closed ==> *final(self) == *old(self),
            final(self).total_messages == old(self).total_messages,
    {
        if end == SessionEnd::Failed {
            self.mark_connection_lost();
        }
        plan_reconnect(delay, end)
    }
}

} // verus!

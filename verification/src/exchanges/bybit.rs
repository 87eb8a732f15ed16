//! Bybit V5 REST protocol: endpoints, request signing, query strings, and
//! the names Bybit uses for order fields.

use hmac::{Hmac, Mac};
use sha2::Sha256;
use vstd::prelude::*;
use vstd::string::StringExecFns;
use vstd::utf8::encode_utf8;

use crate::exchanges::{OrderSide, OrderStatus, OrderType, TimeInForce};
use crate::models::Side;
use crate::utils::text::{decimal, push_decimal, same_text};

verus! {

/// What HMAC-SHA256 (RFC 2104 over SHA-256) computes for `key` and `message`.
pub uninterp spec fn hmac_sha256_tag(key: Seq<u8>, message: Seq<u8>) -> Seq<u8>;

/// Computes HMAC-SHA256 with the `hmac` and `sha2` crates:
/// `Hmac::<Sha256>::new_from_slice(key)`, `update(message)`, `finalize().into_bytes()`.
/// Claimed: the tag is `hmac_sha256_tag(key, message)` and is 32 bytes long
/// (SHA-256's output size). `new_from_slice` accepts keys of every length.
#[verifier::external_body]
fn hmac_sha256(key: &[u8], message: &[u8]) -> (tag: Vec<u8>)
    ensures
        tag@ == hmac_sha256_tag(key@, message@),
        tag@.len() == 32,
{
    let mut mac = <Hmac<Sha256> as Mac>::new_from_slice(key).expect("HMAC accepts any key length");
    mac.update(message);
    mac.finalize().into_bytes().to_vec()
}

/// The lowercase hexadecimal digit of `d < 16`.
pub open spec fn hex_digit(d: nat) -> char {
    if d < 10 {
        crate::utils::text::digit_char(d)
    } else if d == 10 {
        'a'
    } else if d == 11 {
        'b'
    } else if d == 12 {
        'c'
    } else if d == 13 {
        'd'
    } else if d == 14 {
        'e'
    } else {
        'f'
    }
}

/// Lowercase hexadecimal encoding: two digits per byte, high nibble first.
pub open spec fn hex_lower(bytes: Seq<u8>) -> Seq<char>
    decreases bytes.len(),
{
    if bytes.len() == 0 {
        Seq::empty()
    } else {
        seq![hex_digit((bytes[0] / 16) as nat), hex_digit((bytes[0] % 16) as nat)] + hex_lower(
            bytes.drop_first(),
        )
    }
}

/// `hex::encode`: claimed to give two lowercase hex digits per byte, high
/// nibble first, as its source writes them from the table `0123456789abcdef`.
#[verifier::external_body]
fn hex_encode(bytes: &[u8]) -> (text: String)
    ensures
        text@ == hex_lower(bytes@),
{
    hex::encode(bytes)
}

/// Bybit's REST endpoint, on the testnet or on the live exchange.
pub fn rest_base_url(testnet: bool) -> (url: &'static str)
    ensures
        url@ == (if testnet {
            "https://api-testnet.bybit.com"@
        } else {
            "https://api.bybit.com"@
        }),
{
    if testnet {
        "https://api-testnet.bybit.com"
    } else {
        "https://api.bybit.com"
    }
}

/// Bybit's public spot stream, on the testnet or on the live exchange.
pub fn public_stream_url(testnet: bool) -> (url: &'static str)
    ensures
        url@ == (if testnet {
            "wss://stream-testnet.bybit.com/v5/public/spot"@
        } else {
            "wss://stream.bybit.com/v5/public/spot"@
        }),
{
    if testnet {
        "wss://stream-testnet.bybit.com/v5/public/spot"
    } else {
        "wss://stream.bybit.com/v5/public/spot"
    }
}

/// The text Bybit signs: the timestamp in decimal, the API key, the parameters.
pub open spec fn sign_payload_text(timestamp: nat, api_key: Seq<char>, params: Seq<char>) -> Seq<
    char,
> {
    decimal(timestamp) + api_key + params
}

/// Builds the text to sign for a request made at `timestamp` (ms).
pub fn sign_payload(timestamp: u128, api_key: &str, params: &str) -> (payload: String)
    ensures
        payload@ == sign_payload_text(timestamp as nat, api_key@, params@),
{
    let mut payload = String::new();
    push_decimal(&mut payload, timestamp);
    payload.append(api_key);
    payload.append(params);
    payload
}

/// The request signature: HMAC-SHA256 of the UTF-8 payload under the UTF-8
/// secret, in lowercase hex.
pub open spec fn signature_text(
    api_key: Seq<char>,
    api_secret: Seq<char>,
    timestamp: nat,
    params: Seq<char>,
) -> Seq<char> {
    hex_lower(
        hmac_sha256_tag(
            encode_utf8(api_secret),
            encode_utf8(sign_payload_text(timestamp, api_key, params)),
        ),
    )
}

/// Signs a request made at `timestamp` (ms) with parameters `params`.
pub fn generate_signature(api_key: &str, api_secret: &str, timestamp: u128, params: &str) -> (signature: String)
    ensures
        signature@ == signature_text(api_key@, api_secret@, timestamp as nat, params@),
        signature@.len() == 64,
{
    let payload = sign_payload(timestamp, api_key, params);
    let tag = hmac_sha256(api_secret.as_bytes(), payload.as_str().as_bytes());
    let signature = hex_encode(tag.as_slice());
    proof {
        lemma_hex_lower_len(tag@);
    }
    signature
}

proof fn lemma_hex_lower_len(bytes: Seq<u8>)
    ensures
        hex_lower(bytes).len() == 2 * bytes.len(),
    decreases bytes.len(),
{
    if bytes.len() > 0 {
        lemma_hex_lower_len(bytes.drop_first());
    }
}

/// One `key=value` pair of a query string.
pub open spec fn query_pair(pair: (Seq<char>, Seq<char>)) -> Seq<char> {
    pair.0 + seq!['='] + pair.1
}

/// The pairs joined with `&`, in order.
pub open spec fn query_text(pairs: Seq<(Seq<char>, Seq<char>)>) -> Seq<char>
    decreases pairs.len(),
{
    if pairs.len() == 0 {
        Seq::empty()
    } else if pairs.len() == 1 {
        query_pair(pairs[0])
    } else {
        query_text(pairs.drop_last()) + seq!['&'] + query_pair(pairs.last())
    }
}

/// The views of the keys and values of a parameter list.
pub open spec fn param_views(params: Seq<(&str, &str)>) -> Seq<(Seq<char>, Seq<char>)> {
    params.map_values(|p: (&str, &str)| (p.0@, p.1@))
}

/// Joins the parameters into a query string `k1=v1&k2=v2...`.
pub fn query_string(params: &[(&str, &str)]) -> (query: String)
    ensures
        query@ == query_text(param_views(params@)),
{
    let mut query = String::new();
    let n = params.len();
    let mut i: usize = 0;
    while i < n
        invariant
            n == params@.len(),
            i <= n,
            query@ == query_text(param_views(params@.take(i as int))),
        decreases n - i,
    {
        let (key, value) = params[i];
        let ghost before = query@;
        if i > 0 {
            query.append("&");
        }
        query.append(key);
        query.append("=");
        query.append(value);
        proof {
            reveal_strlit("&");
            reveal_strlit("=");
            let pairs = param_views(params@.take(i + 1));
            assert(pairs.drop_last() =~= param_views(params@.take(i as int)));
            assert(pairs.last() == (key@, value@));
            if i > 0 {
                assert(query@ =~= query_text(pairs.drop_last()) + seq!['&'] + query_pair(pairs.last()));
            } else {
                assert(query@ =~= query_pair(pairs[0]));
            }
        }
        i = i + 1;
    }
    proof {
        assert(params@.take(n as int) =~= params@);
    }
    query
}

/// The full URL of a request: base, endpoint, and `?query` when there is a query.
pub fn request_url(base_url: &str, endpoint: &str, query: &str) -> (url: String)
    ensures
        url@ == (if query@.len() == 0 {
            base_url@ + endpoint@
        } else {
            base_url@ + endpoint@ + seq!['?'] + query@
        }),
{
    let mut url = base_url.to_owned();
    url.append(endpoint);
    if !query.is_empty() {
        url.append("?");
        url.append(query);
        proof {
            reveal_strlit("?");
        }
    }
    url
}

/// Whether a Bybit response body reports success: its `retCode` is the integer 0.
pub fn ret_code_accepted(ret_code: Option<i64>) -> (accepted: bool)
    ensures
        accepted == (ret_code == Some(0i64)),
{
    match ret_code {
        Some(code) => code == 0,
        None => false,
    }
}

/// Bybit's name of an order side.
pub open spec fn bybit_side_name(side: OrderSide) -> Seq<char> {
    match side {
        OrderSide::Buy => "Buy"@,
        OrderSide::Sell => "Sell"@,
    }
}

/// Bybit's name for an order side.
pub fn side_name(side: OrderSide) -> (name: &'static str)
    ensures
        name@ == bybit_side_name(side),
{
    match side {
        OrderSide::Buy => "Buy",
        OrderSide::Sell => "Sell",
    }
}

/// Bybit's name for an order type; post-only orders are limit orders.
pub fn order_type_name(order_type: OrderType) -> (name: &'static str)
    ensures
        name@ == (match order_type {
            OrderType::Limit => "Limit"@,
            OrderType::Market => "Market"@,
            OrderType::PostOnly => "Limit"@,
        }),
{
    match order_type {
        OrderType::Limit => "Limit",
        OrderType::Market => "Market",
        OrderType::PostOnly => "Limit",
    }
}

/// Bybit's name for a time in force.
pub fn time_in_force_name(time_in_force: TimeInForce) -> (name: &'static str)
    ensures
        name@ == (match time_in_force {
            TimeInForce::GTC => "GTC"@,
            TimeInForce::IOC => "IOC"@,
            TimeInForce::FOK => "FOK"@,
            TimeInForce::PostOnly => "PostOnly"@,
        }),
{
    match time_in_force {
        TimeInForce::GTC => "GTC",
        TimeInForce::IOC => "IOC",
        TimeInForce::FOK => "FOK",
        TimeInForce::PostOnly => "PostOnly",
    }
}

/// The side a Bybit order record names, if it is one.
pub open spec fn side_named(name: Seq<char>) -> Option<OrderSide> {
    if name == "Buy"@ {
        Some(OrderSide::Buy)
    } else if name == "Sell"@ {
        Some(OrderSide::Sell)
    } else {
        None
    }
}

/// Reads a Bybit order side (`"Buy"` or `"Sell"`).
pub fn parse_side(name: &str) -> (side: Option<OrderSide>)
    ensures
        side == side_named(name@),
{
    if same_text(name, "Buy") {
        Some(OrderSide::Buy)
    } else if same_text(name, "Sell") {
        Some(OrderSide::Sell)
    } else {
        None
    }
}

/// The aggressor side of a public trade: `"Buy"` is a buy, anything else a sell.
pub fn trade_side(name: &str) -> (side: Side)
    ensures
        side == (if name@ == "Buy"@ {
            Side::Buy
        } else {
            Side::Sell
        }),
{
    if same_text(name, "Buy") {
        Side::Buy
    } else {
        Side::Sell
    }
}

/// The status a Bybit order record names, if it is one.
pub open spec fn status_named(name: Seq<char>) -> Option<OrderStatus> {
    if name == "New"@ {
        Some(OrderStatus::New)
    } else if name == "PartiallyFilled"@ {
        Some(OrderStatus::PartiallyFilled)
    } else if name == "Filled"@ {
        Some(OrderStatus::Filled)
    } else if name == "Cancelled"@ {
        Some(OrderStatus::Cancelled)
    } else if name == "Rejected"@ {
        Some(OrderStatus::Rejected)
    } else {
        None
    }
}

/// Reads a Bybit order status.
pub fn parse_order_status(name: &str) -> (status: Option<OrderStatus>)
    ensures
        status == status_named(name@),
{
    if same_text(name, "New") {
        Some(OrderStatus::New)
    } else if same_text(name, "PartiallyFilled") {
        Some(OrderStatus::PartiallyFilled)
    } else if same_text(name, "Filled") {
        Some(OrderStatus::Filled)
    } else if same_text(name, "Cancelled") {
        Some(OrderStatus::Cancelled)
    } else if same_text(name, "Rejected") {
        Some(OrderStatus::Rejected)
    } else {
        None
    }
}

/// Bybit's name of an order status.
pub open spec fn bybit_status_name(status: OrderStatus) -> Seq<char> {
    match status {
        OrderStatus::New => "New"@,
        OrderStatus::PartiallyFilled => "PartiallyFilled"@,
        OrderStatus::Filled => "Filled"@,
        OrderStatus::Cancelled => "Cancelled"@,
        OrderStatus::Rejected => "Rejected"@,
    }
}

/// Reading a side inverts naming it: Bybit's name of every side reads back
/// as that side, and a name reads as a side only if it is that side's name.
pub proof fn lemma_side_names_read_back(side: OrderSide, name: Seq<char>)
    ensures
        side_named(bybit_side_name(side)) == Some(side),
        side_named(name) == Some(side) ==> name == bybit_side_name(side),
{
    reveal_strlit("Buy");
    reveal_strlit("Sell");
    assert("Buy"@ != "Sell"@) by {
        assert("Buy"@.len() != "Sell"@.len());
    }
}

/// Reading a status inverts naming it: Bybit's name of every status reads
/// back as that status, and a name reads as a status only if it is that
/// status's name. In particular "Filled" reads as filled, never as
/// partially filled.
pub proof fn lemma_status_names_read_back(status: OrderStatus, name: Seq<char>)
    ensures
        status_named(bybit_status_name(status)) == Some(status),
        status_named(name) == Some(status) ==> name == bybit_status_name(status),
{
    reveal_strlit("New");
    reveal_strlit("PartiallyFilled");
    reveal_strlit("Filled");
    reveal_strlit("Cancelled");
    reveal_strlit("Rejected");
    assert("New"@ != "PartiallyFilled"@) by {
        assert("New"@.len() != "PartiallyFilled"@.len());
    }
    assert("New"@ != "Filled"@) by {
        assert("New"@.len() != "Filled"@.len());
    }
    assert("New"@ != "Cancelled"@) by {
        assert("New"@.len() != "Cancelled"@.len());
    }
    assert("New"@ != "Rejected"@) by {
        assert("New"@.len() != "Rejected"@.len());
    }
    assert("PartiallyFilled"@ != "Filled"@) by {
        assert("PartiallyFilled"@.len() != "Filled"@.len());
    }
    assert("PartiallyFilled"@ != "Cancelled"@) by {
        assert("PartiallyFilled"@.len() != "Cancelled"@.len());
    }
    assert("PartiallyFilled"@ != "Rejected"@) by {
        assert("PartiallyFilled"@.len() != "Rejected"@.len());
    }
    assert("Filled"@ != "Cancelled"@) by {
        assert("Filled"@.len() != "Cancelled"@.len());
    }
    assert("Filled"@ != "Rejected"@) by {
        assert("Filled"@[0] != "Rejected"@[0]);
    }
    assert("Cancelled"@ != "Rejected"@) by {
        assert("Cancelled"@.len() != "Rejected"@.len());
    }
}

} // verus!

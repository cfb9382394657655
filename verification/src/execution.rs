//! The order entity, its canonical byte encoding, its business-rule
//! validation, and the execution coordinator.
//!
//! Prices and quantities travel through the gateway as IEEE-754 binary64
//! values; the core holds them as their 64-bit patterns (`f64::to_bits`), so
//! that validation and encoding are exact functions on plain integers.

use vstd::prelude::*;

use crate::crypto::ed25519_accepts;
use crate::crypto::ed25519_public_key_of;
use crate::crypto::ed25519_signature_of;
use crate::crypto::Signature;
use crate::crypto::SigningKey;
use crate::errors::Error;
use vstd::bytes::spec_u64_to_le_bytes;
use vstd::bytes::u64_to_le_bytes;
use vstd::slice::slice_to_vec;
use vstd::utf8::encode_utf8;

verus! {

/// The side of an order.
#[derive(Debug, Clone, Copy, PartialEq, Eq, Structural)]
pub enum OrderSide {
    Buy,
    Sell,
}

/// The kind of an order: market, or limit at a requested price.
///
/// A limit price is the bit pattern of a binary64 value.
#[derive(Debug, Clone, Copy, PartialEq, Eq, Structural)]
pub enum OrderType {
    Market,
    Limit { price: u64 },
}

/// A trade intent.
///
/// All economic fields are fixed at construction; the identifier is a
/// process-unique 128-bit random token and the timestamp a UTC instant in
/// whole seconds since the epoch.  `quantity` is the bit pattern of a
/// binary64 value.  The signature is absent until the order is signed.
#[derive(Debug, Clone)]
pub struct Order {
    pub id: u128,
    pub symbol: String,
    pub side: OrderSide,
    pub order_type: OrderType,
    pub quantity: u64,
    pub timestamp: i64,
    pub signature: Option<Signature>,
}

/// Whether `bits` is the binary64 pattern of a value strictly greater than
/// zero: sign bit clear, not a zero, not a NaN.  (Positive infinity counts,
/// exactly as it does for the `>` comparison on doubles.)
pub open spec fn is_positive_double_bits(bits: u64) -> bool {
    0 < bits <= 0x7ff0000000000000
}

/// The discriminant byte of a side in the canonical encoding.
pub open spec fn spec_side_byte(side: OrderSide) -> u8 {
    match side {
        OrderSide::Buy => 0,
        OrderSide::Sell => 1,
    }
}

/// The discriminant byte of an order kind, followed by its payload: the limit
/// price as 8 little-endian bytes, nothing for market.
pub open spec fn spec_kind_bytes(kind: OrderType) -> Seq<u8> {
    match kind {
        OrderType::Market => seq![0u8],
        OrderType::Limit { price } => seq![1u8] + spec_u64_to_le_bytes(price),
    }
}

/// The 16 big-endian bytes of a 128-bit order identifier.
pub open spec fn spec_u128_to_be_bytes(x: u128) -> Seq<u8> {
    seq![
        ((x >> 120) & 0xff) as u8,
        ((x >> 112) & 0xff) as u8,
        ((x >> 104) & 0xff) as u8,
        ((x >> 96) & 0xff) as u8,
        ((x >> 88) & 0xff) as u8,
        ((x >> 80) & 0xff) as u8,
        ((x >> 72) & 0xff) as u8,
        ((x >> 64) & 0xff) as u8,
        ((x >> 56) & 0xff) as u8,
        ((x >> 48) & 0xff) as u8,
        ((x >> 40) & 0xff) as u8,
        ((x >> 32) & 0xff) as u8,
        ((x >> 24) & 0xff) as u8,
        ((x >> 16) & 0xff) as u8,
        ((x >> 8) & 0xff) as u8,
        (x & 0xff) as u8,
    ]
}

/// The canonical byte encoding of an order: identifier, symbol bytes (UTF-8),
/// side discriminant, kind discriminant and payload, quantity, and timestamp.
/// Same order state, same bytes, always; the signature field plays no part.
pub open spec fn spec_canonical_bytes(o: Order) -> Seq<u8> {
    spec_u128_to_be_bytes(o.id) + encode_utf8(o.symbol@) + seq![spec_side_byte(o.side)]
        + spec_kind_bytes(o.order_type) + spec_u64_to_le_bytes(o.quantity) + spec_u64_to_le_bytes(
        o.timestamp as u64,
    )
}

/// Whether two orders agree on every field the canonical encoding reads,
/// that is, on everything but the signature.
pub open spec fn spec_same_core_fields(a: Order, b: Order) -> bool {
    &&& a.id == b.id
    &&& a.symbol@ == b.symbol@
    &&& a.side == b.side
    &&& a.order_type == b.order_type
    &&& a.quantity == b.quantity
    &&& a.timestamp == b.timestamp
}

/// Law: the canonical encoding reads only the core fields, so orders that
/// agree on them (signed or not) encode to the same bytes.
pub proof fn lemma_canonical_bytes_ignore_signature(a: Order, b: Order)
    requires
        spec_same_core_fields(a, b),
    ensures
        spec_canonical_bytes(a) == spec_canonical_bytes(b),
{
}

/// Relies on `uuid::Uuid::new_v4`: a fresh random 128-bit token, with a
/// negligible collision probability.  Nothing is promised of the value.
#[verifier::external_body]
fn fresh_order_id() -> (id: u128) {
    uuid::Uuid::new_v4().as_u128()
}

/// Relies on `chrono::Utc::now`: the current UTC time, reduced to whole
/// seconds since the epoch.  Nothing is promised of the value.
#[verifier::external_body]
fn now_timestamp() -> (ts: i64) {
    chrono::Utc::now().timestamp()
}

/// Writes the 16 big-endian bytes of a 128-bit identifier.
fn u128_to_be_bytes(x: u128) -> (r: Vec<u8>)
    ensures
        r@ == spec_u128_to_be_bytes(x),
{
    let mut r: Vec<u8> = Vec::new();
    r.push(((x >> 120) & 0xff) as u8);
    r.push(((x >> 112) & 0xff) as u8);
    r.push(((x >> 104) & 0xff) as u8);
    r.push(((x >> 96) & 0xff) as u8);
    r.push(((x >> 88) & 0xff) as u8);
    r.push(((x >> 80) & 0xff) as u8);
    r.push(((x >> 72) & 0xff) as u8);
    r.push(((x >> 64) & 0xff) as u8);
    r.push(((x >> 56) & 0xff) as u8);
    r.push(((x >> 48) & 0xff) as u8);
    r.push(((x >> 40) & 0xff) as u8);
    r.push(((x >> 32) & 0xff) as u8);
    r.push(((x >> 24) & 0xff) as u8);
    r.push(((x >> 16) & 0xff) as u8);
    r.push(((x >> 8) & 0xff) as u8);
    r.push((x & 0xff) as u8);
    proof {
        assert(r@ =~= spec_u128_to_be_bytes(x));
    }
    r
}

impl Order {
    /// Creates an order with a fresh random identifier and the current
    /// timestamp; all economic fields are fixed here, and the order is
    /// unsigned.
    pub fn new(symbol: String, side: OrderSide, order_type: OrderType, quantity: u64) -> (r: Order)
        ensures
            r.symbol@ == symbol@,
            r.side == side,
            r.order_type == order_type,
            r.quantity == quantity,
            r.signature is None,
    {
        Order {
            id: fresh_order_id(),
            symbol,
            side,
            order_type,
            quantity,
            timestamp: now_timestamp(),
            signature: None,
        }
    }

    /// Returns the canonical bytes of this order, the exact message that is
    /// signed.  Pure and total: same order state, same bytes.
    pub fn canonical_bytes(&self) -> (r: Result<Vec<u8>, Error>)
        ensures
            r matches Ok(data) && data@ == spec_canonical_bytes(*self),
    {
        let mut data: Vec<u8> = Vec::new();
        let mut id_bytes = u128_to_be_bytes(self.id);
        data.append(&mut id_bytes);
        let mut symbol_bytes = slice_to_vec(self.symbol.as_str().as_bytes());
        data.append(&mut symbol_bytes);
        match self.side {
            OrderSide::Buy => data.push(0u8),
            OrderSide::Sell => data.push(1u8),
        }
        match self.order_type {
            OrderType::Market => data.push(0u8),
            OrderType::Limit { price } => {
                data.push(1u8);
                let mut price_bytes = u64_to_le_bytes(price);
                data.append(&mut price_bytes);
            },
        }
        let mut quantity_bytes = u64_to_le_bytes(self.quantity);
        data.append(&mut quantity_bytes);
        let mut ts_bytes = u64_to_le_bytes(#[verifier::truncate] (self.timestamp as u64));
        data.append(&mut ts_bytes);
        proof {
            assert(data@ =~= spec_canonical_bytes(*self));
        }
        Ok(data)
    }

    /// Signs the order: attaches the signature over its canonical bytes,
    /// leaving every other field unchanged.
    pub fn sign(&mut self, key: &SigningKey) -> (r: Result<(), Error>)
        ensures
            r is Ok,
            final(self).signature matches Some(sig) && sig@ == ed25519_signature_of(
                key@,
                spec_canonical_bytes(*old(self)),
            ) && ed25519_accepts(
                ed25519_public_key_of(key@),
                spec_canonical_bytes(*old(self)),
                sig@,
            ),
            spec_same_core_fields(*old(self), *final(self)),
    {
        let data = match self.canonical_bytes() {
            Ok(data) => data,
            Err(e) => { return Err(e); },
        };
        self.signature = Some(key.sign(data.as_slice()));
        Ok(())
    }
}

/// The lifecycle state of one execution attempt.  `Pending` is the implicit
/// state before any result exists; the others are terminal outcomes.
#[derive(Debug, Clone, Copy, PartialEq, Eq, Structural)]
pub enum OrderStatus {
    Pending,
    Executed,
    Failed,
    Cancelled,
}

impl OrderStatus {
    /// The lowercase label under which a status is handed to persistence.
    pub open spec fn spec_label(&self) -> Seq<char> {
        match self {
            OrderStatus::Pending => "pending"@,
            OrderStatus::Executed => "executed"@,
            OrderStatus::Failed => "failed"@,
            OrderStatus::Cancelled => "cancelled"@,
        }
    }

    /// Returns the lowercase label under which a status is handed to
    /// persistence.
    pub fn label(&self) -> (s: String)
        ensures
            s@ == self.spec_label(),
    {
        match self {
            OrderStatus::Pending => "pending".to_owned(),
            OrderStatus::Executed => "executed".to_owned(),
            OrderStatus::Failed => "failed".to_owned(),
            OrderStatus::Cancelled => "cancelled".to_owned(),
        }
    }
}

/// The auditable outcome of one execution attempt; immutable once returned.
///
/// `execution_price` and `executed_quantity` are bit patterns of binary64
/// values, as in [`Order`].
#[derive(Debug, Clone)]
pub struct OrderResult {
    pub order_id: u128,
    pub status: OrderStatus,
    pub execution_price: Option<u64>,
    pub executed_quantity: Option<u64>,
    pub timestamp: i64,
    pub message: Option<String>,
}

/// The simulated fill price for market orders, standing in for a quote from
/// the out-of-scope exchange: the binary64 pattern of fifty thousand.
pub const SIMULATED_MARKET_FILL_BITS: u64 = 0x40e8_6a00_0000_0000;

/// Whether an order's quantity is positive.
pub open spec fn spec_quantity_ok(o: Order) -> bool {
    is_positive_double_bits(o.quantity)
}

/// Whether an order's symbol is non-empty.
pub open spec fn spec_symbol_ok(o: Order) -> bool {
    o.symbol@.len() > 0
}

/// Whether an order's requested limit price, if any, is positive.
pub open spec fn spec_price_ok(o: Order) -> bool {
    match o.order_type {
        OrderType::Market => true,
        OrderType::Limit { price } => is_positive_double_bits(price),
    }
}

/// Whether an order passes business-rule validation.
pub open spec fn spec_valid_order(o: Order) -> bool {
    spec_quantity_ok(o) && spec_symbol_ok(o) && spec_price_ok(o)
}

/// The reason an invalid order is rejected; the rules are checked in a fixed
/// order and the first failure wins.
pub open spec fn spec_validation_message(o: Order) -> Seq<char>
    recommends
        !spec_valid_order(o),
{
    if !spec_quantity_ok(o) {
        "Quantity must be positive"@
    } else if !spec_symbol_ok(o) {
        "Symbol cannot be empty"@
    } else {
        "Limit price must be positive"@
    }
}

/// The price at which a valid order fills: the simulated exchange quote for
/// market orders, the requested price for limit orders.
pub open spec fn spec_fill_price(kind: OrderType) -> u64 {
    match kind {
        OrderType::Market => SIMULATED_MARKET_FILL_BITS,
        OrderType::Limit { price } => price,
    }
}

/// What the result of a successful execution attempt holds.
pub open spec fn spec_executed_result(o: Order, res: OrderResult) -> bool {
    &&& res.order_id == o.id
    &&& res.status is Executed
    &&& res.execution_price == Some(spec_fill_price(o.order_type))
    &&& res.executed_quantity == Some(o.quantity)
    &&& res.message matches Some(m) && m@ == "Order executed successfully"@
}

/// Law: a valid order fills at a positive price — the simulated exchange
/// quote is positive, and a limit order's validated price is its own fill
/// price.
pub proof fn lemma_fill_price_positive(o: Order)
    requires
        spec_price_ok(o),
    ensures
        is_positive_double_bits(spec_fill_price(o.order_type)),
{
}

/// The execution coordinator: validates, signs with the process's key pair,
/// and produces an auditable result.
pub struct ExecutionEngine {
    signing_key: SigningKey,
}

impl View for ExecutionEngine {
    type V = Seq<u8>;

    closed spec fn view(&self) -> Seq<u8> {
        self.signing_key@
    }
}

impl ExecutionEngine {
    /// Creates a coordinator around injected key material.
    pub fn new(signing_key: SigningKey) -> (r: ExecutionEngine)
        ensures
            r@ == signing_key@,
    {
        ExecutionEngine { signing_key }
    }

    /// Validates order parameters; no side effects, and no signing required.
    /// The rules are checked in a fixed order and the first failure wins:
    /// positive quantity, non-empty symbol, positive limit price.
    pub fn validate_order(&self, order: &Order) -> (r: Result<(), Error>)
        ensures
            r is Ok <==> spec_valid_order(*order),
            r matches Err(e) ==> e matches Error::Execution(m) && m@ == spec_validation_message(
                *order,
            ),
    {
        if order.quantity == 0 || order.quantity > 0x7ff0000000000000 {
            return Err(Error::Execution("Quantity must be positive".to_owned()));
        }
        if order.symbol.as_str().is_empty() {
            return Err(Error::Execution("Symbol cannot be empty".to_owned()));
        }
        if let OrderType::Limit { price } = order.order_type {
            if price == 0 || price > 0x7ff0000000000000 {
                return Err(Error::Execution("Limit price must be positive".to_owned()));
            }
        }
        Ok(())
    }

    /// Executes an order: validates it, signs its canonical bytes with the
    /// coordinator's key, and reports the attempt's terminal outcome.  An
    /// invalid order is rejected before any signing occurs; a valid one is
    /// reported executed in full, at the simulated exchange quote for market
    /// orders and at the requested price for limit orders.
    pub fn execute_order(&self, order: Order) -> (r: Result<OrderResult, Error>)
        ensures
            spec_valid_order(order) ==> (r matches Ok(res) && spec_executed_result(order, res)),
            !spec_valid_order(order) ==> (r matches Err(e) && e matches Error::Execution(m) && m@
                == spec_validation_message(order)),
    {
        if let Err(e) = self.validate_order(&order) {
            return Err(e);
        }
        let mut order = order;
        if let Err(e) = order.sign(&self.signing_key) {
            return Err(e);
        }
        let execution_price: u64 = match order.order_type {
            OrderType::Market => SIMULATED_MARKET_FILL_BITS,
            OrderType::Limit { price } => price,
        };
        Ok(
            OrderResult {
                order_id: order.id,
                status: OrderStatus::Executed,
                execution_price: Some(execution_price),
                executed_quantity: Some(order.quantity),
                timestamp: now_timestamp(),
                message: Some("Order executed successfully".to_owned()),
            },
        )
    }
}

/// Law: for every order, the signature its key produces over the canonical
/// bytes is accepted by the key pair's verification key over those same
/// bytes.
pub fn canonical_signature_verifies(key: &SigningKey, order: &Order) -> (r: Result<(), Error>)
    ensures
        r is Ok,
{
    let bytes = match order.canonical_bytes() {
        Ok(bytes) => bytes,
        Err(e) => { return Err(e); },
    };
    let signature = key.sign(bytes.as_slice());
    let vk = key.verification_key();
    vk.verify(bytes.as_slice(), &signature)
}

/// Law: once an order is signed, the signature it carries is accepted over
/// the signed order's own canonical bytes by the signer's verification key —
/// the canonical encoding does not read the signature field, so attaching the
/// signature does not invalidate it.
pub fn attached_signature_verifies(key: &SigningKey, order: &mut Order) -> (r: Result<(), Error>)
    ensures
        r is Ok,
{
    if let Err(e) = order.sign(key) {
        return Err(e);
    }
    proof {
        lemma_canonical_bytes_ignore_signature(*old(order), *order);
    }
    let bytes = match order.canonical_bytes() {
        Ok(bytes) => bytes,
        Err(e) => { return Err(e); },
    };
    let vk = key.verification_key();
    match &order.signature {
        Some(signature) => vk.verify(bytes.as_slice(), signature),
        None => Err(Error::Crypto("Order is unsigned".to_owned())),
    }
}

} // verus!

//! Tests of the order entity, the canonical encoder, validation, and the
//! execution coordinator.

use execution_engine::execution::{OrderSide, OrderStatus, OrderType, SIMULATED_MARKET_FILL_BITS};
use execution_engine::{ExecutionEngine, Order, SigningKey};

#[test]
fn test_order_creation() {
    let order = Order::new(
        "BTC/USD".to_string(),
        OrderSide::Buy,
        OrderType::Market,
        0.1f64.to_bits(),
    );

    assert_eq!(order.symbol, "BTC/USD");
    assert_eq!(order.quantity, 0.1f64.to_bits());
}

#[test]
fn test_order_signing() {
    let key = SigningKey::generate();
    let mut order = Order::new(
        "BTC/USD".to_string(),
        OrderSide::Buy,
        OrderType::Market,
        0.1f64.to_bits(),
    );

    assert!(order.sign(&key).is_ok());
    assert!(order.signature.is_some());
}

#[test]
fn test_execution_engine() {
    let key = SigningKey::generate();
    let engine = ExecutionEngine::new(key);

    let order = Order::new(
        "BTC/USD".to_string(),
        OrderSide::Buy,
        OrderType::Market,
        0.1f64.to_bits(),
    );

    let result = engine.execute_order(order);
    assert!(result.is_ok());
}

#[test]
fn test_full_execution_flow() {
    let key = SigningKey::generate();
    let engine = ExecutionEngine::new(key.clone());

    let mut order = Order::new(
        "BTC/USD".to_string(),
        OrderSide::Buy,
        OrderType::Market,
        0.1f64.to_bits(),
    );

    assert!(engine.validate_order(&order).is_ok());

    assert!(order.sign(&key).is_ok());
    assert!(order.signature.is_some());

    let result = engine.execute_order(order);
    assert!(result.is_ok());
}

#[test]
fn test_order_validation() {
    let key = SigningKey::generate();
    let engine = ExecutionEngine::new(key);

    // Invalid quantity.
    let order = Order::new(
        "BTC/USD".to_string(),
        OrderSide::Buy,
        OrderType::Market,
        (-0.1f64).to_bits(),
    );
    assert!(engine.validate_order(&order).is_err());

    // Empty symbol.
    let order = Order::new(
        "".to_string(),
        OrderSide::Buy,
        OrderType::Market,
        0.1f64.to_bits(),
    );
    assert!(engine.validate_order(&order).is_err());

    // Invalid limit price.
    let order = Order::new(
        "BTC/USD".to_string(),
        OrderSide::Buy,
        OrderType::Limit { price: (-50000.0f64).to_bits() },
        0.1f64.to_bits(),
    );
    assert!(engine.validate_order(&order).is_err());
}

#[test]
fn test_signature_verification() {
    let key = SigningKey::generate();
    let verification_key = key.verification_key();

    let mut order = Order::new(
        "ETH/USD".to_string(),
        OrderSide::Sell,
        OrderType::Market,
        1.0f64.to_bits(),
    );

    order.sign(&key).unwrap();

    let data = order.canonical_bytes().unwrap();
    let signature = order.signature.as_ref().unwrap();
    assert!(verification_key.verify(&data, signature).is_ok());
}

#[test]
fn test_validation_rejection_reasons() {
    let engine = ExecutionEngine::new(SigningKey::generate());

    let zero_qty = Order::new(
        "BTC/USD".to_string(),
        OrderSide::Buy,
        OrderType::Market,
        0.0f64.to_bits(),
    );
    let err = engine.validate_order(&zero_qty).unwrap_err();
    assert_eq!(err.message().as_str(), "Quantity must be positive");

    let nan_qty = Order::new(
        "BTC/USD".to_string(),
        OrderSide::Buy,
        OrderType::Market,
        f64::NAN.to_bits(),
    );
    let err = engine.validate_order(&nan_qty).unwrap_err();
    assert_eq!(err.message().as_str(), "Quantity must be positive");

    let empty_symbol = Order::new(
        "".to_string(),
        OrderSide::Sell,
        OrderType::Market,
        2.0f64.to_bits(),
    );
    let err = engine.validate_order(&empty_symbol).unwrap_err();
    assert_eq!(err.message().as_str(), "Symbol cannot be empty");

    let zero_limit = Order::new(
        "BTC/USD".to_string(),
        OrderSide::Buy,
        OrderType::Limit { price: 0.0f64.to_bits() },
        2.0f64.to_bits(),
    );
    let err = engine.validate_order(&zero_limit).unwrap_err();
    assert_eq!(err.message().as_str(), "Limit price must be positive");

    // An all-positive market order with a non-empty symbol is accepted.
    let accepted = Order::new(
        "BTC/USD".to_string(),
        OrderSide::Buy,
        OrderType::Market,
        2.0f64.to_bits(),
    );
    assert!(engine.validate_order(&accepted).is_ok());
}

#[test]
fn test_market_order_executes_in_full_at_positive_price() {
    let engine = ExecutionEngine::new(SigningKey::generate());
    let order = Order::new(
        "BTC/USD".to_string(),
        OrderSide::Buy,
        OrderType::Market,
        0.1f64.to_bits(),
    );
    let order_id = order.id;

    let result = engine.execute_order(order).unwrap();
    assert_eq!(result.order_id, order_id);
    assert!(matches!(result.status, OrderStatus::Executed));
    assert_eq!(result.executed_quantity, Some(0.1f64.to_bits()));
    let price = f64::from_bits(result.execution_price.unwrap());
    assert!(price > 0.0);
    assert_eq!(price, 50000.0);
    assert_eq!(result.message.as_deref(), Some("Order executed successfully"));
}

#[test]
fn test_limit_order_executes_at_requested_price() {
    let engine = ExecutionEngine::new(SigningKey::generate());
    let order = Order::new(
        "ETH/USD".to_string(),
        OrderSide::Sell,
        OrderType::Limit { price: 1234.5f64.to_bits() },
        2.0f64.to_bits(),
    );

    let result = engine.execute_order(order).unwrap();
    assert!(matches!(result.status, OrderStatus::Executed));
    assert_eq!(result.execution_price, Some(1234.5f64.to_bits()));
    assert_eq!(result.executed_quantity, Some(2.0f64.to_bits()));
}

#[test]
fn test_negative_limit_price_rejected_before_signing() {
    let engine = ExecutionEngine::new(SigningKey::generate());
    let order = Order::new(
        "BTC/USD".to_string(),
        OrderSide::Buy,
        OrderType::Limit { price: (-50000.0f64).to_bits() },
        0.1f64.to_bits(),
    );

    let err = engine.validate_order(&order).unwrap_err();
    assert_eq!(err.message().as_str(), "Limit price must be positive");

    // The coordinator rejects the order outright: no result, no signature.
    let err = engine.execute_order(order).unwrap_err();
    assert_eq!(err.message().as_str(), "Limit price must be positive");
}

#[test]
fn test_simulated_market_fill_is_fifty_thousand() {
    assert_eq!(SIMULATED_MARKET_FILL_BITS, 50000.0f64.to_bits());
}

#[test]
fn test_canonical_bytes_layout() {
    let order = Order {
        id: 0x0102030405060708090a0b0c0d0e0f10,
        symbol: "BTC/USD".to_string(),
        side: OrderSide::Sell,
        order_type: OrderType::Limit { price: 50000.0f64.to_bits() },
        quantity: 0.1f64.to_bits(),
        timestamp: 1_700_000_000,
        signature: None,
    };

    let mut expected: Vec<u8> = Vec::new();
    expected.extend_from_slice(&0x0102030405060708090a0b0c0d0e0f10u128.to_be_bytes());
    expected.extend_from_slice(b"BTC/USD");
    expected.push(1); // Sell
    expected.push(1); // Limit
    expected.extend_from_slice(&50000.0f64.to_le_bytes());
    expected.extend_from_slice(&0.1f64.to_le_bytes());
    expected.extend_from_slice(&1_700_000_000i64.to_le_bytes());

    assert_eq!(order.canonical_bytes().unwrap(), expected);
}

#[test]
fn test_canonical_bytes_are_stable_and_signature_blind() {
    let mut order = Order {
        id: 42,
        symbol: "ETH/USD".to_string(),
        side: OrderSide::Buy,
        order_type: OrderType::Market,
        quantity: 1.5f64.to_bits(),
        timestamp: 123,
        signature: None,
    };

    let before = order.canonical_bytes().unwrap();
    let again = order.canonical_bytes().unwrap();
    assert_eq!(before, again);

    let key = SigningKey::generate();
    order.sign(&key).unwrap();
    let after_signing = order.canonical_bytes().unwrap();
    assert_eq!(before, after_signing);
}

#[test]
fn test_signed_canonical_bytes_verify() {
    let key = SigningKey::generate();
    let mut order = Order::new(
        "BTC/USD".to_string(),
        OrderSide::Buy,
        OrderType::Limit { price: 30000.0f64.to_bits() },
        0.25f64.to_bits(),
    );
    order.sign(&key).unwrap();

    let data = order.canonical_bytes().unwrap();
    let signature = order.signature.as_ref().unwrap();
    assert!(key.verification_key().verify(&data, signature).is_ok());

    // Any single-byte mutation of the canonical bytes breaks verification.
    for i in 0..data.len() {
        let mut mutated = data.clone();
        mutated[i] = mutated[i].wrapping_add(1);
        assert!(key.verification_key().verify(&mutated, signature).is_err());
    }
}

#[test]
fn test_status_labels() {
    assert_eq!(OrderStatus::Pending.label(), "pending");
    assert_eq!(OrderStatus::Executed.label(), "executed");
    assert_eq!(OrderStatus::Failed.label(), "failed");
    assert_eq!(OrderStatus::Cancelled.label(), "cancelled");
}

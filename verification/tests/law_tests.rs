//! Tests that run the library's proved laws on concrete values.

use execution_engine::crypto::{
    derived_key_hex_roundtrip, signature_bytes_roundtrip, signature_hex_roundtrip,
    signing_key_bytes_roundtrip, signing_then_verifying_succeeds, verification_key_bytes_roundtrip,
};
use execution_engine::execution::{
    attached_signature_verifies, canonical_signature_verifies, OrderSide, OrderType,
};
use execution_engine::{Order, SigningKey};

#[test]
fn test_signing_then_verifying_succeeds() {
    let key = SigningKey::generate();
    assert!(signing_then_verifying_succeeds(&key, b"any message at all").is_ok());
    assert!(signing_then_verifying_succeeds(&key, b"").is_ok());
}

#[test]
fn test_key_and_signature_roundtrip_laws() {
    let key = SigningKey::generate();
    assert_eq!(
        signing_key_bytes_roundtrip(&key).unwrap().to_bytes(),
        key.to_bytes()
    );
    assert_eq!(
        verification_key_bytes_roundtrip(&key).unwrap().to_bytes(),
        key.verification_key().to_bytes()
    );
    assert_eq!(
        derived_key_hex_roundtrip(&key).unwrap().to_bytes(),
        key.verification_key().to_bytes()
    );

    let signature = key.sign(b"payload");
    assert_eq!(
        signature_bytes_roundtrip(&signature).unwrap().to_bytes(),
        signature.to_bytes()
    );
    assert_eq!(
        signature_hex_roundtrip(&signature).unwrap().to_bytes(),
        signature.to_bytes()
    );
}

#[test]
fn test_order_signature_laws() {
    let key = SigningKey::generate();
    let order = Order::new(
        "BTC/USD".to_string(),
        OrderSide::Buy,
        OrderType::Limit { price: 42000.0f64.to_bits() },
        0.5f64.to_bits(),
    );

    assert!(canonical_signature_verifies(&key, &order).is_ok());

    let mut order = order;
    assert!(attached_signature_verifies(&key, &mut order).is_ok());
    assert!(order.signature.is_some());
}

//! Signed-order execution core of a trading gateway.
//!
//! Trade intents are modelled as [`execution::Order`] values, encoded
//! deterministically by a canonical byte encoder, signed and checked with an
//! Ed25519 key pair, validated against the business rules, and turned into an
//! auditable [`execution::OrderResult`].  Persistence and signal transport are
//! external collaborators and live outside this library.

pub mod codec;
pub mod crypto;
pub mod errors;
pub mod execution;

pub use crypto::Signature;
pub use crypto::SigningKey;
pub use crypto::VerificationKey;
pub use errors::Error;
pub use execution::ExecutionEngine;
pub use execution::Order;
pub use execution::OrderResult;

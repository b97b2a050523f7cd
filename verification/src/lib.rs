//! Algebraic Message Authentication Codes (AMACs): symmetrically keyed MACs
//! with an algebraic polynomial structure over the Ristretto prime-order
//! group, the primitive underlying an anonymous credential scheme.
//!
//! The issuer holds a [`SecretKey`], tags a vector of [`Attribute`]s to
//! obtain an [`Amac`], and later re-derives the expected tag with the same
//! key to validate a presented credential.

pub mod amacs;
pub mod errors;
pub mod group;
pub mod parameters;
pub mod symmetric;

pub use amacs::Amac;
pub use amacs::Attribute;
pub use amacs::EncryptedAttribute;
pub use amacs::Messages;
pub use amacs::SecretKey;
pub use amacs::sizeof_secret_key;
pub use errors::MacError;
pub use group::Point;
pub use group::Scalar;
pub use parameters::SystemParameters;
pub use symmetric::Plaintext;

//! Request gates: signature validation and per-address rate limiting.
pub mod rate_limit;
pub mod validate_signature;

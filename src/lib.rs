//! Payment-provider notification intake: authenticity checks, replay and
//! duplicate protection, admission control and the subscription lifecycle.
pub mod keyed;
pub mod text;
pub mod trusted;
pub mod signature;
pub mod rate_limit;
pub mod subscription;
pub mod idempotency;
pub mod stripe;
pub mod paypal;
pub mod checkout;
pub mod laws;

//! On-ledger escrow for service bookings.
//!
//! A client's payment is locked when a reservation is created and later
//! disbursed among the client (refund), the salon owner (fee or payment),
//! and the platform treasury (commission) according to a deterministic,
//! time-sensitive policy. The refund policy engine and the reservation
//! state machine are verified; moving balances on the ledger and reading
//! the clock are the caller's concern.

pub mod errors;
pub mod events;
pub mod model;
pub mod ops;
pub mod policy;

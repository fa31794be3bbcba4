//! Structured notification records: each successful operation returns one
//! (or two) of these, carrying the identities, amounts, and computed splits
//! for off-core observers.

use vstd::prelude::*;
use crate::model::AccountId;

verus! {

/// The platform singleton was created.
#[derive(Clone, Copy, Debug)]
pub struct PlatformInitialized {
    pub admin: AccountId,
    pub treasury_wallet: AccountId,
}

/// A salon was registered.
#[derive(Clone, Debug)]
pub struct SalonRegistered {
    pub salon: AccountId,
    pub owner: AccountId,
    pub name: String,
}

/// A reservation was created and its escrow funded.
#[derive(Clone, Copy, Debug)]
pub struct ReservationCreated {
    pub reservation: AccountId,
    pub client: AccountId,
    pub salon: AccountId,
    pub service_id: u8,
    pub amount: u64,
    pub appointment_time: i64,
}

/// A reservation was cancelled; the escrow was split three ways.
#[derive(Clone, Copy, Debug)]
pub struct ReservationCancelled {
    pub reservation: AccountId,
    pub client: AccountId,
    pub refund_amount: u64,
    pub salon_fee: u64,
    pub app_commission: u64,
    pub time_until_appointment: i64,
}

/// The client's refund leg of a cancellation.
#[derive(Clone, Copy, Debug)]
pub struct RefundProcessed {
    pub reservation: AccountId,
    pub client: AccountId,
    pub amount: u64,
}

/// A reservation was completed; the escrow went to the salon owner minus
/// the platform's commission.
#[derive(Clone, Copy, Debug)]
pub struct ReservationCompleted {
    pub reservation: AccountId,
    pub salon_payment: u64,
    pub app_commission: u64,
}

/// A reservation was marked as a no-show; the escrow was disbursed as on
/// completion.
#[derive(Clone, Copy, Debug)]
pub struct ReservationNoShow {
    pub reservation: AccountId,
    pub client: AccountId,
    pub salon_payment: u64,
    pub app_commission: u64,
}

} // verus!

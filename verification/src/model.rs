//! The persisted record kinds: the platform singleton, salons with their
//! service catalogs, and reservations with their escrow snapshot and
//! lifecycle status.

use vstd::prelude::*;

verus! {

/// A 256-bit ledger account address, held as four 64-bit words.
#[derive(Clone, Copy, Debug, PartialEq, Eq, Structural)]
pub struct AccountId {
    pub w0: u64,
    pub w1: u64,
    pub w2: u64,
    pub w3: u64,
}

/// Lifecycle of a reservation: `Confirmed` at creation, then exactly one
/// transition to exactly one of the three terminal states.
#[derive(Clone, Copy, Debug, PartialEq, Eq, Structural)]
pub enum ReservationStatus {
    Confirmed,
    Cancelled,
    Completed,
    NoShow,
}

/// A catalog entry of a salon, immutable once stored.
#[derive(Clone, Debug)]
pub struct Service {
    pub id: u8,
    pub name: String,
    pub price_lamports: u64,
    pub duration_minutes: u16,
    pub is_active: bool,
}

/// A catalog entry as handed in at registration; stored entries add the
/// active flag.
#[derive(Clone, Debug)]
pub struct ServiceInput {
    pub id: u8,
    pub name: String,
    pub price_lamports: u64,
    pub duration_minutes: u16,
}

/// The platform singleton: administrator and treasury identities, and
/// running counters incremented by every successful booking.
#[derive(Clone, Copy, Debug)]
pub struct Platform {
    pub admin: AccountId,
    pub treasury_wallet: AccountId,
    pub total_reservations: u64,
    pub total_volume: u64,
}

/// A salon: owner identity, display name, running totals, and a bounded
/// catalog of services.
#[derive(Clone, Debug)]
pub struct Salon {
    pub owner: AccountId,
    pub name: String,
    pub is_active: bool,
    pub total_earnings: u64,
    pub reservation_count: u64,
    pub services: Vec<Service>,
}

/// The core entity: one escrowed balance, one lifecycle. The salon owner
/// is denormalized at creation so authorization needs no second lookup.
#[derive(Clone, Debug)]
pub struct Reservation {
    pub client: AccountId,
    pub salon: AccountId,
    pub salon_owner: AccountId,
    pub service_id: u8,
    pub service_name: String,
    pub amount: u64,
    pub appointment_time: i64,
    pub created_at: i64,
    pub status: ReservationStatus,
    pub cancelled_at: Option<i64>,
    pub completed_at: Option<i64>,
}

impl Reservation {
    /// Well-formedness: the appointment lies strictly after creation, and
    /// the optional timestamps agree with the lifecycle status. Only a
    /// cancellation records a cancellation time, only a completion records
    /// a completion time, and a no-show records neither.
    pub open spec fn wf(self) -> bool {
        &&& self.appointment_time > self.created_at
        &&& (self.status is Confirmed ==> self.cancelled_at is None && self.completed_at is None)
        &&& (self.status is Cancelled ==> self.cancelled_at is Some && self.completed_at is None)
        &&& (self.status is Completed ==> self.cancelled_at is None && self.completed_at is Some)
        &&& (self.status is NoShow ==> self.cancelled_at is None && self.completed_at is None)
    }
}

} // verus!

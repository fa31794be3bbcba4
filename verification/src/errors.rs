//! Every way a platform operation can be refused. Each precondition check
//! is local and ends the operation at once with one specific variant;
//! nothing is retried and nothing is swallowed.

use vstd::prelude::*;

verus! {

#[derive(Clone, Copy, Debug, PartialEq, Eq, Structural)]
pub enum GlamBookError {
    /// A salon name longer than the 64-character limit.
    NameTooLong,
    /// A catalog of more than 10 services.
    TooManyServices,
    /// The requested service id is absent from the catalog, or inactive.
    ServiceNotFound,
    /// An appointment time that does not lie strictly in the future.
    InvalidAppointmentTime,
    /// A cancellation attempted by anyone but the reservation's client.
    UnauthorizedCancellation,
    /// A transition attempted from a status other than `Confirmed`.
    InvalidReservationStatus,
    /// A disbursement aimed at an account that is not the stored salon owner.
    InvalidSalonOwner,
    /// A disbursement aimed at an account that is not the platform treasury.
    InvalidTreasury,
    /// A completion attempted by anyone but the stored salon owner.
    UnauthorizedCompletion,
    /// A completion attempted before the appointment time.
    AppointmentNotYetDue,
    /// A no-show mark attempted by anyone but the stored salon owner.
    UnauthorizedNoShow,
    /// A no-show mark attempted before the grace period has elapsed.
    TooEarlyForNoShow,
}

} // verus!

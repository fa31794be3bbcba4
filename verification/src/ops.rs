//! The reservation state machine: the operations of the platform's public
//! surface. Each validates authorization, time, and lifecycle status against
//! the stored records, computes the split owed on success, applies the state
//! transition, and returns the notification record whose amounts the caller
//! must disburse. A failed precondition returns its specific error and
//! changes nothing.

use vstd::prelude::*;

use crate::errors::GlamBookError;
use crate::events::{
    PlatformInitialized, ReservationCancelled, ReservationCompleted, ReservationCreated,
    ReservationNoShow, RefundProcessed, SalonRegistered,
};
use crate::model::{
    AccountId, Platform, Reservation, ReservationStatus, Salon, Service, ServiceInput,
};
use crate::policy::{
    calculate_completion_split, calculate_refund, spec_client_refund, spec_commission,
    spec_completion_commission, spec_completion_payment, spec_provider_fee,
};

verus! {

/// Delay after the appointment time before a no-show can be declared,
/// in seconds (15 minutes).
pub const NO_SHOW_GRACE_SECONDS: i64 = 15 * 60;

/// Upper limit on a salon name, in characters.
pub const MAX_NAME_CHARS: usize = 64;

/// Upper limit on a salon's service catalog.
pub const MAX_SERVICES: usize = 10;

/// A stored catalog entry carries exactly the registered fields and is
/// active from the start.
pub open spec fn service_matches_input(s: Service, input: ServiceInput) -> bool {
    &&& s.id == input.id
    &&& s.name == input.name
    &&& s.price_lamports == input.price_lamports
    &&& s.duration_minutes == input.duration_minutes
    &&& s.is_active
}

/// Create the platform singleton with zeroed counters.
pub fn initialize_platform(admin: AccountId, treasury_wallet: AccountId) -> (r: (
    Platform,
    PlatformInitialized,
))
    ensures
        r.0 == (Platform { admin, treasury_wallet, total_reservations: 0, total_volume: 0 }),
        r.1 == (PlatformInitialized { admin, treasury_wallet }),
{
    let platform = Platform { admin, treasury_wallet, total_reservations: 0, total_volume: 0 };
    let event = PlatformInitialized { admin, treasury_wallet };
    (platform, event)
}

/// Register a salon under `salon_key`: validate the name and catalog limits,
/// store each offered service as active, and start the running totals at zero.
pub fn register_salon(
    owner: AccountId,
    salon_key: AccountId,
    name: String,
    services: Vec<ServiceInput>,
) -> (r: Result<(Salon, SalonRegistered), GlamBookError>)
    ensures
        r is Err <==> name@.len() > 64 || services@.len() > 10,
        name@.len() > 64 ==> r == Err::<(Salon, SalonRegistered), GlamBookError>(
            GlamBookError::NameTooLong,
        ),
        name@.len() <= 64 && services@.len() > 10 ==> r == Err::<
            (Salon, SalonRegistered),
            GlamBookError,
        >(GlamBookError::TooManyServices),
        r is Ok ==> {
            let salon = r->Ok_0.0;
            let event = r->Ok_0.1;
            &&& salon.owner == owner
            &&& salon.name == name
            &&& salon.is_active
            &&& salon.total_earnings == 0
            &&& salon.reservation_count == 0
            &&& salon.services@.len() == services@.len()
            &&& forall|i: int|
                0 <= i < services@.len() ==> service_matches_input(
                    #[trigger] salon.services@[i],
                    services@[i],
                )
            &&& event == (SalonRegistered { salon: salon_key, owner, name })
        },
{
    if name.as_str().unicode_len() > MAX_NAME_CHARS {
        return Err(GlamBookError::NameTooLong);
    }
    if services.len() > MAX_SERVICES {
        return Err(GlamBookError::TooManyServices);
    }
    let mut stored: Vec<Service> = Vec::new();
    let mut i: usize = 0;
    while i < services.len()
        invariant
            i <= services@.len(),
            stored@.len() == i,
            forall|j: int|
                0 <= j < i ==> service_matches_input(#[trigger] stored@[j], services@[j]),
        decreases services@.len() - i,
    {
        let input = &services[i];
        stored.push(
            Service {
                id: input.id,
                name: input.name.clone(),
                price_lamports: input.price_lamports,
                duration_minutes: input.duration_minutes,
                is_active: true,
            },
        );
        i = i + 1;
    }
    let event = SalonRegistered { salon: salon_key, owner, name: name.clone() };
    let salon = Salon {
        owner,
        name,
        is_active: true,
        total_earnings: 0,
        reservation_count: 0,
        services: stored,
    };
    Ok((salon, event))
}

/// Whether a catalog entry can be booked under `service_id`.
pub open spec fn service_available(s: Service, service_id: u8) -> bool {
    s.id == service_id && s.is_active
}

/// The first active catalog entry with the requested id, if any.
pub open spec fn find_active_service(services: Seq<Service>, service_id: u8) -> Option<Service>
    decreases services.len(),
{
    if services.len() == 0 {
        None
    } else if service_available(services[0], service_id) {
        Some(services[0])
    } else {
        find_active_service(services.drop_first(), service_id)
    }
}

/// Skipping a prefix in which nothing is available leaves the lookup result
/// unchanged.
proof fn lemma_find_skip(services: Seq<Service>, service_id: u8, k: int)
    requires
        0 <= k <= services.len(),
        forall|j: int| 0 <= j < k ==> !service_available(#[trigger] services[j], service_id),
    ensures
        find_active_service(services, service_id) == find_active_service(
            services.skip(k),
            service_id,
        ),
    decreases k,
{
    if k == 0 {
        assert(services.skip(0) =~= services);
    } else {
        let rest = services.drop_first();
        assert(rest =~= services.skip(1));
        assert forall|j: int| 0 <= j < k - 1 implies !service_available(
            #[trigger] rest[j],
            service_id,
        ) by {
            assert(rest[j] == services[j + 1]);
        }
        lemma_find_skip(rest, service_id, k - 1);
        assert(rest.skip(k - 1) =~= services.skip(k));
    }
}

/// Find the index of the first active service with the requested id.
fn find_service(services: &Vec<Service>, service_id: u8) -> (r: Option<usize>)
    ensures
        match r {
            Some(i) => {
                &&& i < services@.len()
                &&& service_available(services@[i as int], service_id)
                &&& find_active_service(services@, service_id) == Some(services@[i as int])
            },
            None => find_active_service(services@, service_id) is None,
        },
{
    let mut i: usize = 0;
    while i < services.len()
        invariant
            i <= services@.len(),
            forall|j: int|
                0 <= j < i ==> !service_available(#[trigger] services@[j], service_id),
        decreases services@.len() - i,
    {
        let s = &services[i];
        if s.id == service_id && s.is_active {
            proof {
                lemma_find_skip(services@, service_id, i as int);
                assert(services@.skip(i as int)[0] == services@[i as int]);
            }
            return Some(i);
        }
        i = i + 1;
    }
    proof {
        lemma_find_skip(services@, service_id, services@.len() as int);
    }
    None
}

/// Book a service: validate that the appointment lies strictly in the future
/// and that the service is offered and active, snapshot the price as the
/// escrowed amount, and bump the platform and salon counters. The caller
/// must fund the reservation's escrow with exactly the returned amount,
/// atomically with persisting the record.
pub fn create_reservation(
    platform: &mut Platform,
    salon: &mut Salon,
    salon_key: AccountId,
    reservation_key: AccountId,
    client: AccountId,
    service_id: u8,
    appointment_time: i64,
    now: i64,
) -> (r: Result<(Reservation, ReservationCreated), GlamBookError>)
    requires
        appointment_time > now && find_active_service(old(salon).services@, service_id) is Some
            ==> {
            &&& old(platform).total_reservations < u64::MAX
            &&& old(platform).total_volume + find_active_service(
                old(salon).services@,
                service_id,
            )->Some_0.price_lamports <= u64::MAX
            &&& old(salon).reservation_count < u64::MAX
        },
    ensures
        r is Ok <==> appointment_time > now && find_active_service(
            old(salon).services@,
            service_id,
        ) is Some,
        appointment_time <= now ==> r == Err::<(Reservation, ReservationCreated), GlamBookError>(
            GlamBookError::InvalidAppointmentTime,
        ),
        appointment_time > now && find_active_service(old(salon).services@, service_id) is None
            ==> r == Err::<(Reservation, ReservationCreated), GlamBookError>(
            GlamBookError::ServiceNotFound,
        ),
        r is Err ==> *final(platform) == *old(platform) && *final(salon) == *old(salon),
        r is Ok ==> {
            let service = find_active_service(old(salon).services@, service_id)->Some_0;
            let reservation = r->Ok_0.0;
            let event = r->Ok_0.1;
            &&& reservation.client == client
            &&& reservation.salon == salon_key
            &&& reservation.salon_owner == old(salon).owner
            &&& reservation.service_id == service_id
            &&& reservation.service_name == service.name
            &&& reservation.amount == service.price_lamports
            &&& reservation.appointment_time == appointment_time
            &&& reservation.created_at == now
            &&& reservation.status is Confirmed
            &&& reservation.cancelled_at is None
            &&& reservation.completed_at is None
            &&& reservation.wf()
            &&& *final(platform) == (Platform {
                total_reservations: (old(platform).total_reservations + 1) as u64,
                total_volume: (old(platform).total_volume + service.price_lamports) as u64,
                ..*old(platform)
            })
            &&& *final(salon) == (Salon {
                reservation_count: (old(salon).reservation_count + 1) as u64,
                ..*old(salon)
            })
            &&& event == (ReservationCreated {
                reservation: reservation_key,
                client,
                salon: salon_key,
                service_id,
                amount: service.price_lamports,
                appointment_time,
            })
        },
{
    if appointment_time <= now {
        return Err(GlamBookError::InvalidAppointmentTime);
    }
    let found = find_service(&salon.services, service_id);
    match found {
        None => Err(GlamBookError::ServiceNotFound),
        Some(i) => {
            let amount = salon.services[i].price_lamports;
            let service_name = salon.services[i].name.clone();
            let reservation = Reservation {
                client,
                salon: salon_key,
                salon_owner: salon.owner,
                service_id,
                service_name,
                amount,
                appointment_time,
                created_at: now,
                status: ReservationStatus::Confirmed,
                cancelled_at: None,
                completed_at: None,
            };
            platform.total_reservations = platform.total_reservations + 1;
            platform.total_volume = platform.total_volume + amount;
            salon.reservation_count = salon.reservation_count + 1;
            let event = ReservationCreated {
                reservation: reservation_key,
                client,
                salon: salon_key,
                service_id,
                amount,
                appointment_time,
            };
            Ok((reservation, event))
        },
    }
}

/// Cancel a reservation. Only the reservation's client may cancel, and only
/// from `Confirmed`; authorization is checked before status, so a stranger
/// is refused the same way whatever the status. On success the tiered refund
/// policy splits the escrow by the time remaining until the appointment, the
/// status becomes `Cancelled`, and the cancellation time is recorded. The
/// caller must disburse each nonzero leg of the returned split. Every failure
/// leaves the reservation unchanged.
pub fn cancel_reservation(
    reservation: &mut Reservation,
    reservation_key: AccountId,
    caller: AccountId,
    now: i64,
) -> (r: Result<(ReservationCancelled, RefundProcessed), GlamBookError>)
    requires
        old(reservation).wf(),
        caller == old(reservation).client && old(reservation).status is Confirmed ==> i64::MIN
            <= old(reservation).appointment_time - now <= i64::MAX,
    ensures
        final(reservation).wf(),
        r is Ok <==> caller == old(reservation).client && old(reservation).status is Confirmed,
        caller != old(reservation).client ==> r == Err::<
            (ReservationCancelled, RefundProcessed),
            GlamBookError,
        >(GlamBookError::UnauthorizedCancellation),
        caller == old(reservation).client && !(old(reservation).status is Confirmed) ==> r
            == Err::<(ReservationCancelled, RefundProcessed), GlamBookError>(
            GlamBookError::InvalidReservationStatus,
        ),
        !(old(reservation).status is Confirmed) ==> r is Err,
        r is Err ==> *final(reservation) == *old(reservation),
        r is Ok ==> {
            let t = old(reservation).appointment_time - now;
            let amount = old(reservation).amount as int;
            let cancelled = r->Ok_0.0;
            let refunded = r->Ok_0.1;
            &&& *final(reservation) == (Reservation {
                status: ReservationStatus::Cancelled,
                cancelled_at: Some(now),
                ..*old(reservation)
            })
            &&& cancelled.reservation == reservation_key
            &&& cancelled.client == old(reservation).client
            &&& cancelled.refund_amount == spec_client_refund(amount, t)
            &&& cancelled.salon_fee == spec_provider_fee(amount, t)
            &&& cancelled.app_commission == spec_commission(amount, t)
            &&& cancelled.time_until_appointment == t
            &&& cancelled.refund_amount + cancelled.salon_fee + cancelled.app_commission
                <= amount
            &&& refunded == (RefundProcessed {
                reservation: reservation_key,
                client: old(reservation).client,
                amount: cancelled.refund_amount,
            })
        },
{
    if caller != reservation.client {
        return Err(GlamBookError::UnauthorizedCancellation);
    }
    if reservation.status != ReservationStatus::Confirmed {
        return Err(GlamBookError::InvalidReservationStatus);
    }
    let time_until_appointment = reservation.appointment_time - now;
    let (client_refund, salon_fee, app_commission) = calculate_refund(
        reservation.amount,
        time_until_appointment,
    );
    reservation.status = ReservationStatus::Cancelled;
    reservation.cancelled_at = Some(now);
    let cancelled = ReservationCancelled {
        reservation: reservation_key,
        client: reservation.client,
        refund_amount: client_refund,
        salon_fee,
        app_commission,
        time_until_appointment,
    };
    let refunded = RefundProcessed {
        reservation: reservation_key,
        client: reservation.client,
        amount: client_refund,
    };
    Ok((cancelled, refunded))
}

/// Complete a reservation. Only the stored salon owner may complete, only
/// from `Confirmed`, and only once the appointment time has passed. On
/// success the commission is taken on the full escrowed amount, the rest is
/// owed to the salon owner (and added to the salon's earnings), the status
/// becomes `Completed`, and the completion time is recorded. Every failure
/// leaves both records unchanged.
pub fn complete_reservation(
    reservation: &mut Reservation,
    salon: &mut Salon,
    reservation_key: AccountId,
    caller: AccountId,
    now: i64,
) -> (r: Result<ReservationCompleted, GlamBookError>)
    requires
        old(reservation).wf(),
        caller == old(reservation).salon_owner && old(reservation).status is Confirmed && now
            >= old(reservation).appointment_time ==> old(salon).total_earnings + old(
            reservation,
        ).amount <= u64::MAX,
    ensures
        final(reservation).wf(),
        r is Ok <==> caller == old(reservation).salon_owner && old(
            reservation,
        ).status is Confirmed && now >= old(reservation).appointment_time,
        caller != old(reservation).salon_owner ==> r == Err::<ReservationCompleted, GlamBookError>(
            GlamBookError::UnauthorizedCompletion,
        ),
        caller == old(reservation).salon_owner && !(old(reservation).status is Confirmed) ==> r
            == Err::<ReservationCompleted, GlamBookError>(GlamBookError::InvalidReservationStatus),
        caller == old(reservation).salon_owner && old(reservation).status is Confirmed && now < old(
            reservation,
        ).appointment_time ==> r == Err::<ReservationCompleted, GlamBookError>(
            GlamBookError::AppointmentNotYetDue,
        ),
        !(old(reservation).status is Confirmed) ==> r is Err,
        r is Err ==> *final(reservation) == *old(reservation) && *final(salon) == *old(salon),
        r is Ok ==> {
            let amount = old(reservation).amount as int;
            let event = r->Ok_0;
            &&& *final(reservation) == (Reservation {
                status: ReservationStatus::Completed,
                completed_at: Some(now),
                ..*old(reservation)
            })
            &&& event.reservation == reservation_key
            &&& event.salon_payment == spec_completion_payment(amount)
            &&& event.app_commission == spec_completion_commission(amount)
            &&& event.salon_payment + event.app_commission == amount
            &&& *final(salon) == (Salon {
                total_earnings: (old(salon).total_earnings + spec_completion_payment(
                    amount,
                )) as u64,
                ..*old(salon)
            })
        },
{
    if caller != reservation.salon_owner {
        return Err(GlamBookError::UnauthorizedCompletion);
    }
    if reservation.status != ReservationStatus::Confirmed {
        return Err(GlamBookError::InvalidReservationStatus);
    }
    if now < reservation.appointment_time {
        return Err(GlamBookError::AppointmentNotYetDue);
    }
    let (salon_payment, app_commission) = calculate_completion_split(reservation.amount);
    reservation.status = ReservationStatus::Completed;
    reservation.completed_at = Some(now);
    salon.total_earnings = salon.total_earnings + salon_payment;
    Ok(ReservationCompleted { reservation: reservation_key, salon_payment, app_commission })
}

/// Mark a reservation as a no-show. Only the stored salon owner may do so,
/// only from `Confirmed`, and only once the grace period after the
/// appointment time has elapsed. The split is the same as on completion;
/// only the terminal status is recorded, no completion time. Every failure
/// leaves both records unchanged.
pub fn mark_no_show(
    reservation: &mut Reservation,
    salon: &mut Salon,
    reservation_key: AccountId,
    caller: AccountId,
    now: i64,
) -> (r: Result<ReservationNoShow, GlamBookError>)
    requires
        old(reservation).wf(),
        caller == old(reservation).salon_owner && old(reservation).status is Confirmed && now
            >= old(reservation).appointment_time + NO_SHOW_GRACE_SECONDS ==> old(
            salon,
        ).total_earnings + old(reservation).amount <= u64::MAX,
    ensures
        final(reservation).wf(),
        r is Ok <==> caller == old(reservation).salon_owner && old(
            reservation,
        ).status is Confirmed && now >= old(reservation).appointment_time
            + NO_SHOW_GRACE_SECONDS,
        caller != old(reservation).salon_owner ==> r == Err::<ReservationNoShow, GlamBookError>(
            GlamBookError::UnauthorizedNoShow,
        ),
        caller == old(reservation).salon_owner && !(old(reservation).status is Confirmed) ==> r
            == Err::<ReservationNoShow, GlamBookError>(GlamBookError::InvalidReservationStatus),
        caller == old(reservation).salon_owner && old(reservation).status is Confirmed && now < old(
            reservation,
        ).appointment_time + NO_SHOW_GRACE_SECONDS ==> r == Err::<
            ReservationNoShow,
            GlamBookError,
        >(GlamBookError::TooEarlyForNoShow),
        !(old(reservation).status is Confirmed) ==> r is Err,
        r is Err ==> *final(reservation) == *old(reservation) && *final(salon) == *old(salon),
        r is Ok ==> {
            let amount = old(reservation).amount as int;
            let event = r->Ok_0;
            &&& *final(reservation) == (Reservation {
                status: ReservationStatus::NoShow,
                ..*old(reservation)
            })
            &&& event.reservation == reservation_key
            &&& event.client == old(reservation).client
            &&& event.salon_payment == spec_completion_payment(amount)
            &&& event.app_commission == spec_completion_commission(amount)
            &&& event.salon_payment + event.app_commission == amount
            &&& *final(salon) == (Salon {
                total_earnings: (old(salon).total_earnings + spec_completion_payment(
                    amount,
                )) as u64,
                ..*old(salon)
            })
        },
{
    if caller != reservation.salon_owner {
        return Err(GlamBookError::UnauthorizedNoShow);
    }
    if reservation.status != ReservationStatus::Confirmed {
        return Err(GlamBookError::InvalidReservationStatus);
    }
    if (now as i128) < (reservation.appointment_time as i128) + (NO_SHOW_GRACE_SECONDS as i128) {
        return Err(GlamBookError::TooEarlyForNoShow);
    }
    let (salon_payment, app_commission) = calculate_completion_split(reservation.amount);
    reservation.status = ReservationStatus::NoShow;
    salon.total_earnings = salon.total_earnings + salon_payment;
    Ok(ReservationNoShow {
        reservation: reservation_key,
        client: reservation.client,
        salon_payment,
        app_commission,
    })
}

} // verus!

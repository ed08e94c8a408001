use chrono::{DateTime, Duration, TimeZone, Utc};
use venue_flow::error::{DomainCoreError, RentalError};
use venue_flow::rental::rental_update::RentalUpdate;
use venue_flow::rental::{ActivityType, Rental, RentalBuilder, RentalStatus};
use venue_flow::time::{Clock, Timestamp};

struct RentalMockClock {
    now: DateTime<Utc>,
}

fn rental_ts(t: DateTime<Utc>) -> Timestamp {
    Timestamp::from_unix(t.timestamp(), t.timestamp_subsec_nanos()).unwrap()
}

impl Clock for RentalMockClock {
    fn now(&self) -> Timestamp {
        rental_ts(self.now)
    }
}

fn create_test_rental(organizer_id: i64, status: RentalStatus) -> Rental {
    let now = Utc.with_ymd_and_hms(2025, 8, 1, 12, 0, 0).unwrap();
    RentalBuilder::default()
        .venue_id(100)
        .organizer_id(organizer_id)
        .start_time(rental_ts(now + Duration::days(1)))
        .end_time(rental_ts(now + Duration::days(2)))
        .activity_type(ActivityType::All)
        .status(status)
        .createtime(rental_ts(now))
        .updatetime(rental_ts(now))
        .build()
        .expect("Failed to build test rental")
}

#[test]
fn test_accept_rental_fails_if_not_pending() {
    let rental = create_test_rental(123, RentalStatus::Accepted);
    let clock = RentalMockClock { now: Utc::now() };

    let result = rental.accepet_rental(&clock);

    assert!(result.is_err());
    assert!(matches!(
        result.err().unwrap(),
        DomainCoreError::RentalError(RentalError::RentalMustBePending)
    ));
}

#[test]
fn test_cancel_rental_fails_for_wrong_organizer() {
    let rental = create_test_rental(123, RentalStatus::Pending);
    let clock = RentalMockClock { now: Utc::now() };

    let result = rental.cancel_rental(999, &clock);

    assert!(result.is_err());
    assert!(matches!(
        result.err().unwrap(),
        DomainCoreError::RentalError(RentalError::RentalNotOwnedOrganizer(999))
    ));
}

#[test]
fn test_set_rental_date_fails_for_past_start_time() {
    let rental = create_test_rental(123, RentalStatus::Pending);
    let clock = RentalMockClock { now: Utc.with_ymd_and_hms(2025, 8, 1, 13, 0, 0).unwrap() };
    let past_start = clock.now - Duration::minutes(1);
    let new_end = clock.now + Duration::days(1);

    let result = rental.set_rental_date(&clock, rental_ts(past_start), rental_ts(new_end), 123);

    assert!(result.is_err());
    assert!(matches!(
        result.err().unwrap(),
        DomainCoreError::RentalError(RentalError::RentalStartTimeMustBeFuture)
    ));
}

#[test]
fn rental_builder_defaults_and_missing_fields() {
    let rental = create_test_rental(5, RentalStatus::Pending);
    assert_eq!(rental.id(), None);
    assert_eq!(rental.request_comments(), &None);
    let now = rental_ts(Utc.with_ymd_and_hms(2025, 8, 1, 12, 0, 0).unwrap());
    let built = RentalBuilder::default()
        .venue_id(1)
        .organizer_id(2)
        .start_time(now)
        .end_time(now)
        .activity_type(ActivityType::Seminar)
        .createtime(now)
        .updatetime(now)
        .build()
        .unwrap();
    assert_eq!(built.status(), &RentalStatus::Pending);
    let missing = RentalBuilder::default().venue_id(1).organizer_id(2).build();
    assert_eq!(missing, Err(DomainCoreError::MissingField("start_time".to_string())));
    let missing = RentalBuilder::default().build();
    assert_eq!(missing, Err(DomainCoreError::MissingField("venue_id".to_string())));
}

#[test]
fn rental_decisions_from_pending() {
    let clock = RentalMockClock { now: Utc.with_ymd_and_hms(2025, 8, 2, 9, 0, 0).unwrap() };
    let accepted = create_test_rental(1, RentalStatus::Pending).accepet_rental(&clock).unwrap();
    assert_eq!(accepted.status(), &RentalStatus::Accepted);
    assert_eq!(accepted.updatetime(), &clock.now());
    let rejected = create_test_rental(1, RentalStatus::Pending).reject_rental(&clock).unwrap();
    assert_eq!(rejected.status(), &RentalStatus::Rejected);
    let canceled = create_test_rental(1, RentalStatus::Pending).cancel_rental(1, &clock).unwrap();
    assert_eq!(canceled.status(), &RentalStatus::Canceled);
    assert_eq!(canceled.organizer_id(), 1);
    assert_eq!(canceled.venue_id(), 100);
}

#[test]
fn rental_decision_is_final() {
    let clock = RentalMockClock { now: Utc.with_ymd_and_hms(2025, 8, 2, 9, 0, 0).unwrap() };
    let accepted = create_test_rental(1, RentalStatus::Pending).accepet_rental(&clock).unwrap();
    let must_pend = DomainCoreError::RentalError(RentalError::RentalMustBePending);
    assert_eq!(accepted.clone().reject_rental(&clock), Err(must_pend.clone()));
    assert_eq!(accepted.clone().accepet_rental(&clock), Err(must_pend.clone()));
    assert_eq!(accepted.clone().cancel_rental(1, &clock), Err(must_pend.clone()));
    let canceled = create_test_rental(1, RentalStatus::Pending).cancel_rental(1, &clock).unwrap();
    assert_eq!(canceled.accepet_rental(&clock), Err(must_pend));
    // A request that is not pending fails the status check before the owner check.
    let rejected = create_test_rental(1, RentalStatus::Rejected);
    assert_eq!(
        rejected.cancel_rental(2, &clock),
        Err(DomainCoreError::RentalError(RentalError::RentalMustBePending))
    );
}

#[test]
fn rental_finish_from_any_status() {
    let clock = RentalMockClock { now: Utc.with_ymd_and_hms(2025, 9, 1, 0, 0, 0).unwrap() };
    for s in [RentalStatus::Pending, RentalStatus::Accepted, RentalStatus::Canceled] {
        let r = create_test_rental(3, s).finish_request(&clock);
        assert_eq!(r.status(), &RentalStatus::Finished);
        assert_eq!(r.updatetime(), &clock.now());
    }
}

#[test]
fn rental_set_date_success_and_reversed_period() {
    let now = Utc.with_ymd_and_hms(2025, 8, 1, 13, 0, 0).unwrap();
    let clock = RentalMockClock { now };
    let start = now + Duration::days(3);
    let end = now + Duration::days(4);
    let r = create_test_rental(9, RentalStatus::Pending)
        .set_rental_date(&clock, rental_ts(start), rental_ts(end), 9)
        .unwrap();
    assert_eq!(r.start_time(), &rental_ts(start));
    assert_eq!(r.end_time(), &rental_ts(end));
    assert_eq!(r.updatetime(), &rental_ts(now));
    assert_eq!(r.status(), &RentalStatus::Pending);

    let reversed = create_test_rental(9, RentalStatus::Pending).set_rental_date(
        &clock,
        rental_ts(end),
        rental_ts(start),
        9,
    );
    assert_eq!(
        reversed,
        Err(DomainCoreError::RentalError(RentalError::InvalidRentalTime(
            "2025-08-05 13:00:00".to_string(),
            "2025-08-04 13:00:00".to_string()
        )))
    );
    let empty = create_test_rental(9, RentalStatus::Pending).set_rental_date(
        &clock,
        rental_ts(start),
        rental_ts(start),
        9,
    );
    assert!(matches!(empty, Err(DomainCoreError::RentalError(RentalError::InvalidRentalTime(_, _)))));
    let other = create_test_rental(9, RentalStatus::Pending).set_rental_date(
        &clock,
        rental_ts(start),
        rental_ts(end),
        8,
    );
    assert_eq!(other, Err(DomainCoreError::RentalError(RentalError::RentalNotOwnedOrganizer(8))));
}

#[test]
fn rental_set_date_at_uses_both_times() {
    let now = rental_ts(Utc.with_ymd_and_hms(2025, 8, 1, 13, 0, 0).unwrap());
    let stamp = rental_ts(Utc.with_ymd_and_hms(2025, 8, 1, 13, 5, 0).unwrap());
    let start = now;
    let end = rental_ts(Utc.with_ymd_and_hms(2025, 8, 1, 14, 0, 0).unwrap());
    let r = create_test_rental(4, RentalStatus::Accepted)
        .set_rental_date_at(now, stamp, start, end, 4)
        .unwrap();
    assert_eq!(r.updatetime(), &stamp);
    assert_eq!(r.status(), &RentalStatus::Accepted);
}

#[test]
fn rental_status_and_activity_names() {
    assert_eq!(RentalStatus::Pending.to_string(), "pending");
    assert_eq!(RentalStatus::Accepted.to_string(), "accepted");
    assert_eq!(RentalStatus::Rejected.to_string(), "rejected");
    assert_eq!(RentalStatus::Finished.to_string(), "finished");
    assert_eq!(RentalStatus::Canceled.to_string(), "canceled");
    assert_eq!(ActivityType::All.to_string(), "all");
    assert_eq!(ActivityType::Exhibition.to_string(), "exhibition");
    assert_eq!(ActivityType::Seminar.to_string(), "seminar");
}

#[test]
fn rental_update_requires_a_field() {
    let update = RentalUpdate::new();
    assert!(update.is_empty());
    assert_eq!(update.is_vaild_update_command(), Err(DomainCoreError::MustIncludeFieldForUpdate));
    let update = RentalUpdate { status: Some(RentalStatus::Finished), ..RentalUpdate::new() };
    assert!(!update.is_empty());
    assert_eq!(update.is_vaild_update_command(), Ok(()));
}

#[test]
fn rental_update_id_sets_id() {
    let r = create_test_rental(1, RentalStatus::Pending).update_id(42);
    assert_eq!(r.id(), Some(42));
}

#[test]
fn set_rental_date_follows_the_clock_reading() {
    let now = Utc.with_ymd_and_hms(2025, 8, 1, 13, 0, 0).unwrap();
    let clock = RentalMockClock { now };
    let start = rental_ts(now + Duration::hours(1));
    let end = rental_ts(now + Duration::days(1));
    let moved = create_test_rental(123, RentalStatus::Pending)
        .set_rental_date(&clock, start, end, 123)
        .unwrap();
    assert_eq!(*moved.start_time(), start);
    assert_eq!(*moved.end_time(), end);
    assert_eq!(*moved.updatetime(), rental_ts(now));
    assert_eq!(*moved.status(), RentalStatus::Pending);
    let same = create_test_rental(123, RentalStatus::Pending).set_rental_date_at(
        rental_ts(now),
        rental_ts(now),
        start,
        end,
        123,
    );
    assert_eq!(same, Ok(moved));
    assert_eq!(
        create_test_rental(123, RentalStatus::Pending).set_rental_date(&clock, end, start, 5),
        Err(DomainCoreError::RentalError(RentalError::RentalNotOwnedOrganizer(5)))
    );
    assert_eq!(
        create_test_rental(123, RentalStatus::Pending).set_rental_date(&clock, end, start, 123),
        Err(DomainCoreError::RentalError(RentalError::InvalidRentalTime(
            "2025-08-02 13:00:00".to_string(),
            "2025-08-01 14:00:00".to_string()
        )))
    );
}

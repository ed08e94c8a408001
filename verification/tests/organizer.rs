use chrono::{DateTime, Duration, TimeZone, Utc};
use venue_flow::error::DomainCoreError;
use venue_flow::time::{Clock, Timestamp};
use venue_flow::user::organizer::OrganizerBuilder;
use venue_flow::user::{User, UserBuilder, UserGender, UserStatus};

struct OrganizerMockClock {
    current_time: DateTime<Utc>,
}

impl OrganizerMockClock {
    fn new(start_time: DateTime<Utc>) -> Self {
        Self { current_time: start_time }
    }
    fn advance(&mut self, duration: Duration) {
        self.current_time += duration;
    }
}

fn organizer_ts(t: DateTime<Utc>) -> Timestamp {
    Timestamp::from_unix(t.timestamp(), t.timestamp_subsec_nanos()).unwrap()
}

impl Clock for OrganizerMockClock {
    fn now(&self) -> Timestamp {
        organizer_ts(self.current_time)
    }
}

fn create_organizer_test_user() -> User {
    let now = organizer_ts(Utc.with_ymd_and_hms(2025, 1, 1, 10, 0, 0).unwrap());
    UserBuilder::default()
        .username("test_user_for_organizer".to_string())
        .email("organizer@example.com".to_string())
        .password("a_valid_password_for_organizer".to_string())
        .avatar("https://example.com/organizer.png".to_string())
        .gender(UserGender::Female)
        .createtime(now)
        .updatetime(now)
        .build()
        .unwrap()
}

fn create_test_organizer_builder() -> OrganizerBuilder {
    let now = organizer_ts(Utc.with_ymd_and_hms(2025, 6, 13, 12, 0, 0).unwrap());
    OrganizerBuilder::default()
        .user(create_organizer_test_user())
        .phone("1234567890".to_string())
        .createtime(now)
        .updatetime(now)
}

#[test]
fn test_build_organizer_success_with_defaults() {
    let builder = create_test_organizer_builder();
    let organizer_result = builder.build();

    assert!(organizer_result.is_ok());
    let organizer = organizer_result.unwrap();

    assert_eq!(organizer.id(), None);
    assert_eq!(organizer.is_delete(), false);
}

#[test]
fn test_build_organizer_fail_missing_user() {
    let mut builder = create_test_organizer_builder();
    builder.user = None;
    let result = builder.build();
    assert!(matches!(result, Err(DomainCoreError::MissingField(field)) if field == "user"));
}

#[test]
fn test_build_organizer_fail_missing_phone() {
    let mut builder = create_test_organizer_builder();
    builder.phone = None;
    let result = builder.build();
    assert!(matches!(result, Err(DomainCoreError::MissingField(field)) if field == "phone"));
}

#[test]
fn organizer_test_set_id() {
    let organizer = create_test_organizer_builder().build().unwrap();
    assert_eq!(organizer.id(), None);

    let organizer_with_id = organizer.set_id(Some(101));
    assert_eq!(organizer_with_id.id(), Some(101));
}

#[test]
fn organizer_test_set_delete_updates_flag_and_time() {
    let start_time = Utc.with_ymd_and_hms(2025, 6, 13, 12, 0, 0).unwrap();
    let mut clock = OrganizerMockClock::new(start_time);
    let organizer = create_test_organizer_builder().updatetime(clock.now()).build().unwrap();

    assert!(!organizer.is_delete());

    clock.advance(Duration::minutes(5));

    let deleted_organizer = organizer.set_delete(&clock);

    assert!(deleted_organizer.is_delete());
    assert_eq!(deleted_organizer.updatetime(), clock.now());
    assert_ne!(deleted_organizer.updatetime(), organizer_ts(start_time));
}

#[test]
fn organizer_test_getters_return_correct_values() {
    let now = organizer_ts(Utc.with_ymd_and_hms(2025, 6, 13, 12, 0, 0).unwrap());
    let user = create_organizer_test_user();
    let organizer = create_test_organizer_builder()
        .id(Some(99))
        .phone("555-1234".to_string())
        .user(user.clone())
        .createtime(now)
        .build()
        .unwrap();

    assert_eq!(organizer.id(), Some(99));
    assert_eq!(organizer.phone(), "555-1234");
    assert_eq!(organizer.user(), &user);
    assert_eq!(organizer.createtime(), now);
    assert_eq!(organizer.updatetime(), now);

    let mut mutable_organizer = organizer.clone();
    let user_ref_mut = mutable_organizer.user_mut();

    let clock = OrganizerMockClock::new(Utc.with_ymd_and_hms(2025, 6, 13, 12, 0, 0).unwrap());
    *user_ref_mut = user_ref_mut.clone().ban_user(&clock);

    assert_eq!(mutable_organizer.user().status(), &UserStatus::Ban);
}

use chrono::{DateTime, Duration, TimeZone, Utc};
use venue_flow::error::DomainCoreError;
use venue_flow::time::{Clock, Timestamp};
use venue_flow::user::lessor::LessorBuilder;
use venue_flow::user::{User, UserBuilder, UserGender, UserStatus};

struct LessorMockClock {
    current_time: DateTime<Utc>,
}

impl LessorMockClock {
    fn new(start_time: DateTime<Utc>) -> Self {
        Self { current_time: start_time }
    }
    fn advance(&mut self, duration: Duration) {
        self.current_time += duration;
    }
}

fn lessor_ts(t: DateTime<Utc>) -> Timestamp {
    Timestamp::from_unix(t.timestamp(), t.timestamp_subsec_nanos()).unwrap()
}

impl Clock for LessorMockClock {
    fn now(&self) -> Timestamp {
        lessor_ts(self.current_time)
    }
}

fn create_lessor_test_user() -> User {
    let now = lessor_ts(Utc.with_ymd_and_hms(2025, 1, 1, 11, 0, 0).unwrap());
    UserBuilder::default()
        .username("test_user_for_lessor".to_string())
        .email("lessor@example.com".to_string())
        .password("a_valid_password_for_lessor".to_string())
        .avatar("https://example.com/lessor.png".to_string())
        .gender(UserGender::Male)
        .createtime(now)
        .updatetime(now)
        .build()
        .unwrap()
}

fn create_test_lessor_builder() -> LessorBuilder {
    let now = lessor_ts(Utc.with_ymd_and_hms(2025, 6, 14, 10, 0, 0).unwrap());
    LessorBuilder::default()
        .user(create_lessor_test_user())
        .phone("0987654321".to_string())
        .createtime(now)
        .updatetime(now)
}

#[test]
fn test_build_lessor_success_with_defaults() {
    let builder = create_test_lessor_builder();
    let lessor_result = builder.build();

    assert!(lessor_result.is_ok());
    let lessor = lessor_result.unwrap();

    assert_eq!(lessor.id(), None);
    assert_eq!(lessor.is_delete(), false);
}

#[test]
fn test_build_lessor_fail_missing_user() {
    let mut builder = create_test_lessor_builder();
    builder.user = None;
    let result = builder.build();
    assert!(matches!(result, Err(DomainCoreError::MissingField(field)) if field == "user"));
}

#[test]
fn test_build_lessor_fail_missing_phone() {
    let mut builder = create_test_lessor_builder();
    builder.phone = None;
    let result = builder.build();
    assert!(matches!(result, Err(DomainCoreError::MissingField(field)) if field == "phone"));
}

#[test]
fn lessor_test_set_id() {
    let lessor = create_test_lessor_builder().build().unwrap();
    assert_eq!(lessor.id(), None);

    let lessor_with_id = lessor.set_id(Some(202));
    assert_eq!(lessor_with_id.id(), Some(202));
}

#[test]
fn lessor_test_set_delete_updates_flag_and_time() {
    let start_time = Utc.with_ymd_and_hms(2025, 6, 14, 10, 0, 0).unwrap();
    let mut clock = LessorMockClock::new(start_time);
    let lessor = create_test_lessor_builder().updatetime(clock.now()).build().unwrap();

    assert!(!lessor.is_delete());

    clock.advance(Duration::days(1));

    let deleted_lessor = lessor.set_delete(&clock);

    assert!(deleted_lessor.is_delete());
    assert_eq!(deleted_lessor.updatetime(), clock.now());
    assert_ne!(deleted_lessor.updatetime(), lessor_ts(start_time));
}

#[test]
fn lessor_test_getters_return_correct_values() {
    let now = lessor_ts(Utc.with_ymd_and_hms(2025, 6, 14, 10, 0, 0).unwrap());
    let user = create_lessor_test_user();
    let lessor = create_test_lessor_builder()
        .id(Some(88))
        .phone("555-5678".to_string())
        .user(user.clone())
        .createtime(now)
        .build()
        .unwrap();

    assert_eq!(lessor.id(), Some(88));
    assert_eq!(lessor.phone(), "555-5678");
    assert_eq!(lessor.user(), &user);
    assert_eq!(lessor.createtime(), now);
    assert_eq!(lessor.updatetime(), now);

    let mut mutable_lessor = lessor.clone();
    let user_ref_mut = mutable_lessor.user_mut();

    let clock = LessorMockClock::new(Utc.with_ymd_and_hms(2025, 6, 14, 10, 0, 0).unwrap());
    *user_ref_mut = user_ref_mut.clone().ban_user(&clock);

    assert_eq!(mutable_lessor.user().status(), &UserStatus::Ban);
}

use std::sync::Arc;

use venue_flow::event::email_service::{
    generate_cancellation_email_simple, generate_cancellation_email_simple_for_organizer,
    generate_rental_email_simple, EmailService,
};
use venue_flow::event::event_error::EventError;
use venue_flow::event::queue::{
    settle_event, PollerConfig, QueueAction, QueueEvent,
};
use venue_flow::event::{
    AppEvent, DispatchStep, EventConsumer, EventDispatcher, EventExecutionMode,
};
use venue_flow::time::{Clock, Timestamp};

struct EventMockClock(i64);

impl Clock for EventMockClock {
    fn now(&self) -> Timestamp {
        Timestamp::from_unix(self.0, 0).unwrap()
    }
}

fn canceled() -> AppEvent {
    AppEvent::CanceledRentalRequest {
        organizer_email: "org@example.com".to_string(),
        organizer_name: "Olivia".to_string(),
        organizer_id: 7,
        lessor_id: 9,
        lessor_name: "Leo".to_string(),
        lessor_email: "leo@example.com".to_string(),
    }
}

fn approved() -> AppEvent {
    AppEvent::ApprovedRentalRequest {
        organizer_email: "org@example.com".to_string(),
        organizer_name: "Olivia".to_string(),
        organizer_id: 7,
    }
}

fn rejected() -> AppEvent {
    AppEvent::RejectedRentalRequest {
        organizer_email: "org@example.com".to_string(),
        organizer_name: "Olivia".to_string(),
        organizer_id: 7,
    }
}

fn consumer() -> EventConsumer {
    EventConsumer::new(Arc::new(EmailService { sender: "noreply@venueflow".to_string() }))
}

#[test]
fn cancellation_mail_names_lessor_then_organizer_and_venue() {
    let text = generate_cancellation_email_simple("Olivia", "Leo", "Hall A");
    let expected = "尊敬的 Leo，\n\n您好！\n\n我们特此通知您，用户Olivia已取消了对场地Hall A的租赁请求。\n\n您无需进行任何操作。该场地现在可供其他用户预订。\n\n此致，\n\nVenueFlow团队";
    assert_eq!(text, expected);
}

#[test]
fn cancellation_mail_for_organizer_text() {
    let text = generate_cancellation_email_simple_for_organizer("Olivia", "Leo", "Hall A");
    let expected = "尊敬的 Olivia，\n\n您好！\n\n我们特此通知您,您已经已取消了对用户Leo的场地Hall A的租赁请求。\n\n此为通知邮件，您无需进行任何操作。\n\n此致，\n\nVenueFlow团队";
    assert_eq!(text, expected);
}

#[test]
fn rental_mail_places_status_then_venue() {
    let text = generate_rental_email_simple("Olivia", "Hall A", "同意租赁");
    let expected = "尊敬的 Olivia，\n\n您好！\n\n我们特此通知您,您对场地同意租赁的租赁请求为Hall A\n\n此为通知邮件，您无需进行任何操作。\n\n此致，\n\nVenueFlow团队";
    assert_eq!(text, expected);
}

#[test]
fn canceled_request_mails_both_parties() {
    let mails = consumer().plan_emails(&canceled()).unwrap();
    assert_eq!(mails.len(), 2);
    assert_eq!(mails[0].from, "noreply@venueflow");
    assert_eq!(mails[0].to, "org@example.com");
    assert_eq!(
        mails[0].content,
        generate_cancellation_email_simple_for_organizer("Olivia", "Leo", "test")
    );
    assert_eq!(mails[1].from, "noreply@venueflow");
    assert_eq!(mails[1].to, "leo@example.com");
    assert_eq!(mails[1].content, generate_cancellation_email_simple("Olivia", "Leo", "test"));
}

#[test]
fn approved_and_rejected_requests_mail_the_organizer() {
    let a = consumer().plan_emails(&approved()).unwrap();
    assert_eq!(a.len(), 1);
    assert_eq!(a[0].to, "org@example.com");
    assert_eq!(a[0].content, generate_rental_email_simple("Olivia", "test", "同意租赁"));
    let r = consumer().plan_emails(&rejected()).unwrap();
    assert_eq!(r.len(), 1);
    assert_eq!(r[0].content, generate_rental_email_simple("Olivia", "test", "拒绝租赁"));
}

#[test]
fn log_event_is_not_mailed() {
    assert_eq!(consumer().plan_emails(&AppEvent::LogUseCase), Err(EventError::WrongExecutionMode));
}

#[test]
fn execution_modes() {
    assert_eq!(AppEvent::LogUseCase.execution_mode(), EventExecutionMode::Immediate);
    assert_eq!(canceled().execution_mode(), EventExecutionMode::Async);
    assert_eq!(approved().execution_mode(), EventExecutionMode::Async);
    assert_eq!(rejected().execution_mode(), EventExecutionMode::Async);
}

#[test]
fn dispatch_runs_logs_and_queues_mails_in_order() {
    let events = vec![AppEvent::LogUseCase, approved(), AppEvent::LogUseCase, canceled()];
    let steps = EventDispatcher.plan_dispatch(&events);
    assert_eq!(
        steps,
        vec![
            DispatchStep::RunNow(AppEvent::LogUseCase),
            DispatchStep::Enqueue(approved()),
            DispatchStep::RunNow(AppEvent::LogUseCase),
            DispatchStep::Enqueue(canceled()),
        ]
    );
    assert!(EventDispatcher.plan_dispatch(&Vec::new()).is_empty());
}

#[test]
fn immediate_execution_takes_only_the_log_event() {
    assert_eq!(EventDispatcher.execute_immediately(&AppEvent::LogUseCase), Ok(()));
    assert_eq!(
        EventDispatcher.execute_immediately(&approved()),
        Err(EventError::WrongExecutionMode)
    );
}

#[test]
fn event_error_messages() {
    assert_eq!(EventError::WrongExecutionMode.to_string(), "Wrong execution mode for event");
    assert_eq!(
        EventError::queue("Failed to lrem: down".to_string()).to_string(),
        "Queue operation failed: Failed to lrem: down"
    );
    assert_eq!(
        EventError::execution("mail".to_string(), "smtp".to_string()).to_string(),
        "Event execution failed: mail, reason: smtp"
    );
    assert_eq!(
        EventError::RetryLimitExceeded { event_type: "mail".to_string(), attempts: 3 }.to_string(),
        "Event retry limit exceeded: mail, attempts: 3"
    );
    assert_eq!(
        EventError::HandlerNotFound { event_type: "x".to_string() }.to_string(),
        "Event handler not found for type: x"
    );
    assert_eq!(
        EventError::Timeout { event_type: "x".to_string() }.to_string(),
        "Event processing timeout: x"
    );
    assert_eq!(
        EventError::SerializationError("eof".to_string()).to_string(),
        "Event serialization failed: eof"
    );
    assert_eq!(
        EventError::InfrastructureError("db".to_string()).to_string(),
        "Infrastructure error: db"
    );
}

#[test]
fn queue_event_starts_untried_and_counts_attempts() {
    let q = QueueEvent::new(approved(), &EventMockClock(1_700_000_000));
    assert_eq!(q.attempts, 0);
    assert_eq!(q.event, approved());
    assert_eq!(q.created_at.secs(), 1_700_000_000);
    let id = q.id;
    let q = q.record_attempt().record_attempt();
    assert_eq!(q.attempts, 2);
    assert_eq!(q.id, id);
}

#[test]
fn new_queue_events_get_distinct_ids() {
    let a = QueueEvent::new(approved(), &EventMockClock(0));
    let b = QueueEvent::new(approved(), &EventMockClock(0));
    assert_ne!(a.id, b.id);
}

#[test]
fn settling_counts_successes_and_reports_failures() {
    let (n, action) = settle_event(4, 77, &Ok(()));
    assert_eq!(n, 5);
    assert!(matches!(action, QueueAction::MarkProcessed(77)));
    let (n, action) = settle_event(4, 78, &Err(EventError::WrongExecutionMode));
    assert_eq!(n, 4);
    match action {
        QueueAction::MarkFailed(id, m) => {
            assert_eq!(id, 78);
            assert_eq!(m, "Wrong execution mode for event");
        },
        _ => panic!("expected a failure"),
    }
}

#[test]
fn poller_defaults() {
    let c = PollerConfig::default();
    assert_eq!(c.poll_interval, 5);
    assert_eq!(c.batch_size, 10);
    assert_eq!(c.max_retries, 3);
    assert_eq!(c.retry_delay, 30);
}

//! Events that use cases emit, and the decisions the event layer takes on
//! them: which run at once, which are queued, and which emails a queued
//! event turns into.
use vstd::prelude::*;

pub mod email_service;
pub mod event_error;
pub mod queue;

use std::sync::Arc;

use self::email_service::{
    cancellation_email, cancellation_email_for_organizer, generate_cancellation_email_simple,
    generate_cancellation_email_simple_for_organizer, generate_rental_email_simple, rental_email,
    EmailService, EmailStruct,
};
use self::event_error::EventError;

verus! {

/// A side effect that a use case asks for.
#[derive(Debug, PartialEq, Eq)]
pub enum AppEvent {
    /// Record that a use case ran.
    LogUseCase,
    /// An organizer withdrew a rental request: both parties are told.
    CanceledRentalRequest {
        organizer_email: String,
        organizer_name: String,
        organizer_id: i64,
        lessor_id: i64,
        lessor_name: String,
        lessor_email: String,
    },
    /// A lessor accepted a rental request: the organizer is told.
    ApprovedRentalRequest { organizer_email: String, organizer_name: String, organizer_id: i64 },
    /// A lessor refused a rental request: the organizer is told.
    RejectedRentalRequest { organizer_email: String, organizer_name: String, organizer_id: i64 },
}

impl Clone for AppEvent {
    fn clone(&self) -> (r: Self)
        ensures
            r == *self,
    {
        match self {
            AppEvent::LogUseCase => AppEvent::LogUseCase,
            AppEvent::CanceledRentalRequest {
                organizer_email,
                organizer_name,
                organizer_id,
                lessor_id,
                lessor_name,
                lessor_email,
            } => AppEvent::CanceledRentalRequest {
                organizer_email: organizer_email.clone(),
                organizer_name: organizer_name.clone(),
                organizer_id: *organizer_id,
                lessor_id: *lessor_id,
                lessor_name: lessor_name.clone(),
                lessor_email: lessor_email.clone(),
            },
            AppEvent::ApprovedRentalRequest { organizer_email, organizer_name, organizer_id } => {
                AppEvent::ApprovedRentalRequest {
                    organizer_email: organizer_email.clone(),
                    organizer_name: organizer_name.clone(),
                    organizer_id: *organizer_id,
                }
            },
            AppEvent::RejectedRentalRequest { organizer_email, organizer_name, organizer_id } => {
                AppEvent::RejectedRentalRequest {
                    organizer_email: organizer_email.clone(),
                    organizer_name: organizer_name.clone(),
                    organizer_id: *organizer_id,
                }
            },
        }
    }
}

/// When an event's effect is carried out.
#[derive(Debug, Clone, Copy, PartialEq, Eq, Structural)]
pub enum EventExecutionMode {
    /// Within the request that emitted it.
    Immediate,
    /// Later, by a worker that takes it from the queue.
    Async,
}

impl AppEvent {
    pub open spec fn spec_execution_mode(&self) -> EventExecutionMode {
        match self {
            AppEvent::LogUseCase => EventExecutionMode::Immediate,
            _ => EventExecutionMode::Async,
        }
    }

    /// Logging runs at once; mails are queued.
    pub fn execution_mode(&self) -> (r: EventExecutionMode)
        ensures
            r == self.spec_execution_mode(),
    {
        match self {
            AppEvent::LogUseCase => EventExecutionMode::Immediate,
            _ => EventExecutionMode::Async,
        }
    }
}

/// The venue name that the notification mails carry.
pub open spec fn mail_venue_name() -> Seq<char> {
    "test"@
}

/// The status text of an accepted request in its mail.
pub open spec fn approved_text() -> Seq<char> {
    "同意租赁"@
}

/// The status text of a refused request in its mail.
pub open spec fn rejected_text() -> Seq<char> {
    "拒绝租赁"@
}

/// The mails that a queued event becomes: `(to, content)` pairs, in the
/// order they are sent, each from `sender`; `None` for an event the consumer
/// does not handle.
pub open spec fn planned_mails(event: AppEvent) -> Option<Seq<(Seq<char>, Seq<char>)>> {
    match event {
        AppEvent::CanceledRentalRequest {
            organizer_email,
            organizer_name,
            lessor_name,
            lessor_email,
            ..
        } => Some(
            seq![
                (organizer_email@, cancellation_email_for_organizer(organizer_name@, lessor_name@, mail_venue_name())),
                (lessor_email@, cancellation_email(organizer_name@, lessor_name@, mail_venue_name())),
            ],
        ),
        AppEvent::ApprovedRentalRequest { organizer_email, organizer_name, .. } => Some(
            seq![(organizer_email@, rental_email(organizer_name@, mail_venue_name(), approved_text()))],
        ),
        AppEvent::RejectedRentalRequest { organizer_email, organizer_name, .. } => Some(
            seq![(organizer_email@, rental_email(organizer_name@, mail_venue_name(), rejected_text()))],
        ),
        _ => None,
    }
}

/// Turns queued events into mails.
pub struct EventConsumer {
    pub email_service: Arc<EmailService>,
}

/// The mails in `mails` are `planned`, each sent from `sender`.
pub open spec fn mails_match(
    mails: Seq<EmailStruct>,
    planned: Seq<(Seq<char>, Seq<char>)>,
    sender: Seq<char>,
) -> bool {
    &&& mails.len() == planned.len()
    &&& forall|i: int|
        0 <= i < mails.len() ==> (#[trigger] mails[i]).from@ == sender && mails[i].to@
            == planned[i].0 && mails[i].content@ == planned[i].1
}

impl EventConsumer {
    pub fn new(email_service: Arc<EmailService>) -> (r: Self)
        ensures
            r.email_service == email_service,
    {
        EventConsumer { email_service }
    }

    /// The mails to send for a queued event, in order, or `WrongExecutionMode`
    /// for an event that is not a mail.
    pub fn plan_emails(&self, event: &AppEvent) -> (r: Result<Vec<EmailStruct>, EventError>)
        ensures
            planned_mails(*event) is None ==> r == Err::<Vec<EmailStruct>, EventError>(
                EventError::WrongExecutionMode,
            ),
            planned_mails(*event) matches Some(p) ==> (r matches Ok(mails) && mails_match(
                mails@,
                p,
                self.email_service.sender@,
            )),
            // a withdrawn request: the organizer, then the lessor, each at the
            // address the event carries for them
            *event matches AppEvent::CanceledRentalRequest {
                organizer_email,
                organizer_name,
                lessor_name,
                lessor_email,
                ..
            } ==> (r matches Ok(m) && m@.len() == 2 && m@[0].to@ == organizer_email@ && m@[1].to@
                == lessor_email@ && m@[0].from@ == self.email_service.sender@ && m@[1].from@
                == self.email_service.sender@ && m@[0].content@ == cancellation_email_for_organizer(
                organizer_name@,
                lessor_name@,
                mail_venue_name(),
            ) && m@[1].content@ == cancellation_email(
                organizer_name@,
                lessor_name@,
                mail_venue_name(),
            )),
            // a decision: one mail, to the organizer's address, with the decision
            *event matches AppEvent::ApprovedRentalRequest { organizer_email, organizer_name, .. }
                ==> (r matches Ok(m) && m@.len() == 1 && m@[0].to@ == organizer_email@
                && m@[0].from@ == self.email_service.sender@ && m@[0].content@ == rental_email(
                organizer_name@,
                mail_venue_name(),
                approved_text(),
            )),
            *event matches AppEvent::RejectedRentalRequest { organizer_email, organizer_name, .. }
                ==> (r matches Ok(m) && m@.len() == 1 && m@[0].to@ == organizer_email@
                && m@[0].from@ == self.email_service.sender@ && m@[0].content@ == rental_email(
                organizer_name@,
                mail_venue_name(),
                rejected_text(),
            )),
            *event == AppEvent::LogUseCase ==> r == Err::<Vec<EmailStruct>, EventError>(
                EventError::WrongExecutionMode,
            ),
    {
        let sender = &self.email_service.sender;
        match event {
            AppEvent::CanceledRentalRequest {
                organizer_email,
                organizer_name,
                organizer_id: _,
                lessor_id: _,
                lessor_name,
                lessor_email,
            } => {
                let organizer_content = generate_cancellation_email_simple_for_organizer(
                    organizer_name.as_str(),
                    lessor_name.as_str(),
                    "test",
                );
                let to_organizer = EmailStruct {
                    from: sender.clone(),
                    to: organizer_email.clone(),
                    content: organizer_content,
                };
                let lessor_content = generate_cancellation_email_simple(
                    organizer_name.as_str(),
                    lessor_name.as_str(),
                    "test",
                );
                let to_lessor = EmailStruct {
                    from: sender.clone(),
                    to: lessor_email.clone(),
                    content: lessor_content,
                };
                let mut mails = Vec::new();
                mails.push(to_organizer);
                mails.push(to_lessor);
                Ok(mails)
            },
            AppEvent::ApprovedRentalRequest { organizer_email, organizer_name, organizer_id: _ } => {
                let content = generate_rental_email_simple(
                    organizer_name.as_str(),
                    "test",
                    "同意租赁",
                );
                let mut mails = Vec::new();
                mails.push(
                    EmailStruct { from: sender.clone(), to: organizer_email.clone(), content },
                );
                Ok(mails)
            },
            AppEvent::RejectedRentalRequest { organizer_email, organizer_name, organizer_id: _ } => {
                let content = generate_rental_email_simple(
                    organizer_name.as_str(),
                    "test",
                    "拒绝租赁",
                );
                let mut mails = Vec::new();
                mails.push(
                    EmailStruct { from: sender.clone(), to: organizer_email.clone(), content },
                );
                Ok(mails)
            },
            _ => Err(EventError::WrongExecutionMode),
        }
    }
}

/// What the dispatcher does with one event of a use case's outcome.
#[derive(Debug, Clone, PartialEq, Eq)]
pub enum DispatchStep {
    /// Carry it out now.
    RunNow(AppEvent),
    /// Put it on the queue for the worker.
    Enqueue(AppEvent),
}

/// The step for one event, by its execution mode.
pub open spec fn dispatch_step(e: AppEvent) -> DispatchStep {
    match e.spec_execution_mode() {
        EventExecutionMode::Immediate => DispatchStep::RunNow(e),
        EventExecutionMode::Async => DispatchStep::Enqueue(e),
    }
}

/// Sends each event of a use case's outcome where it belongs.
pub struct EventDispatcher;

impl EventDispatcher {
    /// The steps for the events of an outcome, one per event and in their order.
    pub fn plan_dispatch(&self, events: &Vec<AppEvent>) -> (r: Vec<DispatchStep>)
        ensures
            r@.len() == events@.len(),
            forall|i: int| 0 <= i < events@.len() ==> r@[i] == dispatch_step(#[trigger] events@[i]),
    {
        let mut steps: Vec<DispatchStep> = Vec::new();
        let mut i: usize = 0;
        while i < events.len()
            invariant
                i <= events@.len(),
                steps@.len() == i,
                forall|j: int| 0 <= j < i ==> steps@[j] == dispatch_step(#[trigger] events@[j]),
            decreases events@.len() - i,
        {
            let e = &events[i];
            let step = match e.execution_mode() {
                EventExecutionMode::Immediate => DispatchStep::RunNow(e.clone()),
                EventExecutionMode::Async => DispatchStep::Enqueue(e.clone()),
            };
            steps.push(step);
            i = i + 1;
        }
        steps
    }

    /// An event run at once must be the log record; any other is in the
    /// wrong place.
    pub fn execute_immediately(&self, event: &AppEvent) -> (r: Result<(), EventError>)
        ensures
            *event == AppEvent::LogUseCase ==> r is Ok,
            *event != AppEvent::LogUseCase ==> r == Err::<(), EventError>(
                EventError::WrongExecutionMode,
            ),
    {
        match event {
            AppEvent::LogUseCase => Ok(()),
            _ => Err(EventError::WrongExecutionMode),
        }
    }
}

/// Every mail that a queued event becomes goes to an address the event
/// carries: a withdrawn request to the organizer and then the lessor, an
/// accepted or refused one to the organizer; each decision mail names its
/// own decision, and they differ.
pub proof fn lemma_mails_reach_the_parties(event: AppEvent)
    ensures
        event matches AppEvent::CanceledRentalRequest { organizer_email, lessor_email, .. } ==> (
        planned_mails(event) matches Some(p) && p.len() == 2 && p[0].0 == organizer_email@ && p[1].0
            == lessor_email@),
        event matches AppEvent::ApprovedRentalRequest { organizer_email, organizer_name, .. } ==> (
        planned_mails(event) matches Some(p) && p.len() == 1 && p[0].0 == organizer_email@ && p[0].1
            == rental_email(organizer_name@, mail_venue_name(), approved_text())),
        event matches AppEvent::RejectedRentalRequest { organizer_email, organizer_name, .. } ==> (
        planned_mails(event) matches Some(p) && p.len() == 1 && p[0].0 == organizer_email@ && p[0].1
            == rental_email(organizer_name@, mail_venue_name(), rejected_text())),
        event == AppEvent::LogUseCase ==> planned_mails(event) is None,
        approved_text() != rejected_text(),
{
    reveal_strlit("同意租赁");
    reveal_strlit("拒绝租赁");
    assert(approved_text()[0] != rejected_text()[0]);
}

} // verus!

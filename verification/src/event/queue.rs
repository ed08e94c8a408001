//! Events waiting in the queue, and what the worker does with each one it
//! has tried to carry out.
use vstd::prelude::*;
use vstd::string::*;
use vstd::arithmetic::power::pow;

use crate::event::event_error::EventError;
use crate::event::AppEvent;
use crate::time::{Clock, Timestamp};

verus! {

/// The digit of a nibble in lower-case hexadecimal.
pub open spec fn hex_digit(d: int) -> char {
    if d < 10 {
        (48 + d) as char
    } else {
        (87 + d) as char
    }
}

/// The `k`-th of the 32 hexadecimal digits of `v`, the most significant first.
pub open spec fn uuid_nibble(v: u128, k: int) -> int {
    (v as int / pow(16, (31 - k) as nat)) % 16
}

/// How many hyphens stand before position `i` of an id's text.
pub open spec fn hyphens_before(i: int) -> int {
    if i < 8 {
        0
    } else if i < 13 {
        1
    } else if i < 18 {
        2
    } else if i < 23 {
        3
    } else {
        4
    }
}

/// The hyphenated lower-case text of an id: 32 hexadecimal digits in groups
/// of 8, 4, 4, 4 and 12.
pub open spec fn uuid_text(v: u128) -> Seq<char> {
    Seq::new(
        36,
        |i: int|
            if i == 8 || i == 13 || i == 18 || i == 23 {
                '-'
            } else {
                hex_digit(uuid_nibble(v, i - hyphens_before(i)))
            },
    )
}

/// What `uuid::Uuid::parse_str` gives for a text: the id as a number, or the
/// message of its error.
pub uninterp spec fn uuid_parse_str(s: Seq<char>) -> Result<u128, Seq<char>>;

/// The outcome of reading an id, its error message taken as text.
pub open spec fn parse_outcome(r: Result<u128, String>) -> Result<u128, Seq<char>> {
    match r {
        Ok(v) => Ok(v),
        Err(m) => Err(m@),
    }
}

/// Calls `uuid::Uuid::new_v4`, which draws a random id, and hands it on as
/// its 128-bit number; nothing is claimed of the value.
#[verifier::external_body]
fn random_event_id() -> (r: u128) {
    uuid::Uuid::new_v4().as_u128()
}

/// Writes the id `id` with `uuid::Uuid`'s `Display`, which the crate's
/// source writes as the hyphenated lower-case hexadecimal text of the id's
/// 16 bytes, most significant first; `uuid::Uuid::parse_str` accepts that
/// form and gives the same id back.
#[verifier::external_body]
pub(crate) fn event_id_text(id: u128) -> (r: String)
    ensures
        r@ == uuid_text(id),
        uuid_parse_str(r@) == parse_outcome(Ok(id)),
{
    uuid::Uuid::from_u128(id).to_string()
}

/// Calls `uuid::Uuid::parse_str`; its result is named by `uuid_parse_str`.
#[verifier::external_body]
pub(crate) fn parse_event_id(s: &str) -> (r: Result<u128, String>)
    ensures
        uuid_parse_str(s@) == parse_outcome(r),
{
    match uuid::Uuid::parse_str(s) {
        Ok(u) => Ok(u.as_u128()),
        Err(e) => Err(e.to_string()),
    }
}

/// An event in the queue with its id, when it was queued and how often it
/// has been taken.
#[derive(Debug)]
pub struct QueueEvent {
    pub id: u128,
    pub event: AppEvent,
    pub created_at: Timestamp,
    pub attempts: u32,
}

impl Clone for QueueEvent {
    fn clone(&self) -> (r: Self)
        ensures
            r == *self,
    {
        QueueEvent {
            id: self.id,
            event: self.event.clone(),
            created_at: self.created_at,
            attempts: self.attempts,
        }
    }
}

impl QueueEvent {
    /// A new queue entry for `event` under a random id, stamped with the
    /// clock's time and never taken yet.
    pub fn new(event: AppEvent, time: &impl Clock) -> (r: Self)
        ensures
            r.event == event,
            r.attempts == 0,
    {
        let id = random_event_id();
        let created_at = time.now();
        QueueEvent { id, event, created_at, attempts: 0 }
    }

    /// The entry after the worker took it once more.
    pub fn record_attempt(self) -> (r: Self)
        requires
            self.attempts < u32::MAX,
        ensures
            r.attempts == self.attempts + 1,
            r.id == self.id,
            r.event == self.event,
            r.created_at == self.created_at,
    {
        QueueEvent { attempts: self.attempts + 1, ..self }
    }
}

/// What the worker tells the queue about an event it has tried.
#[derive(Debug, Clone)]
pub enum QueueAction {
    /// Remove it: it was carried out.
    MarkProcessed(u128),
    /// Move it to the failures with the error's message.
    MarkFailed(u128, String),
}

/// The worker settles one event: a success is marked processed and counted,
/// a failure is marked failed with the error's message and not counted.
pub fn settle_event(processed: usize, id: u128, outcome: &Result<(), EventError>) -> (r: (
    usize,
    QueueAction,
))
    requires
        processed < usize::MAX,
    ensures
        outcome is Ok ==> r.0 == processed + 1,
        outcome is Ok ==> (r.1 matches QueueAction::MarkProcessed(i) && i == id),
        outcome is Err ==> r.0 == processed,
        outcome matches Err(e) ==> (r.1 matches QueueAction::MarkFailed(i, m) && i == id && m@
            == e.text()),
{
    match outcome {
        Ok(()) => (processed + 1, QueueAction::MarkProcessed(id)),
        Err(e) => (processed, QueueAction::MarkFailed(id, e.to_string())),
    }
}

/// How often and how much the worker polls.
#[derive(Debug, Clone, Copy, PartialEq, Eq, Structural)]
pub struct PollerConfig {
    /// Seconds between two polls.
    pub poll_interval: u64,
    /// Most events taken per poll.
    pub batch_size: usize,
    pub max_retries: u32,
    /// Seconds before a failed event is tried again.
    pub retry_delay: u64,
}

impl Default for PollerConfig {
    fn default() -> (r: Self)
        ensures
            r == (PollerConfig { poll_interval: 5, batch_size: 10, max_retries: 3, retry_delay: 30 }),
    {
        PollerConfig { poll_interval: 5, batch_size: 10, max_retries: 3, retry_delay: 30 }
    }
}

} // verus!

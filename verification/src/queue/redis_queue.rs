//! What the queue asks of Redis, step by step. The caller sends each
//! command, and hands the reply back to the step that asked for it.
use vstd::prelude::*;
use vstd::string::*;

use crate::event::event_error::EventError;
use crate::event::queue::{
    event_id_text, parse_event_id, parse_outcome, uuid_parse_str, uuid_text, QueueEvent,
};
use crate::queue::{lemma_queue_keys_distinct, queue_key_text, RedisQueueConfig};

verus! {

/// Seconds that an event's record is kept.
pub const EVENT_TTL: u64 = 86400;

/// One command to Redis.
#[derive(Debug)]
pub enum RedisCommand {
    /// Move the last element of the list `from` to the front of `to`, and
    /// reply with it, or with nothing when `from` is empty.
    PopPush { from: String, to: String },
    /// Reply with the value under `key`, or with nothing.
    Get { key: String },
    /// Store `value` under `key` for `seconds` seconds.
    SetEx { key: String, value: String, seconds: u64 },
    /// Append `value` to the list `key`.
    RPush { key: String, value: String },
    /// Remove up to `count` elements equal to `value` from the list `key`.
    LRem { key: String, count: i64, value: String },
    /// Remove `key`.
    Del { key: String },
}

/// The contents of a command.
pub enum CommandView {
    PopPush { from: Seq<char>, to: Seq<char> },
    Get { key: Seq<char> },
    SetEx { key: Seq<char>, value: Seq<char>, seconds: u64 },
    RPush { key: Seq<char>, value: Seq<char> },
    LRem { key: Seq<char>, count: i64, value: Seq<char> },
    Del { key: Seq<char> },
}

impl View for RedisCommand {
    type V = CommandView;

    open spec fn view(&self) -> CommandView {
        match self {
            RedisCommand::PopPush { from, to } => CommandView::PopPush { from: from@, to: to@ },
            RedisCommand::Get { key } => CommandView::Get { key: key@ },
            RedisCommand::SetEx { key, value, seconds } => CommandView::SetEx {
                key: key@,
                value: value@,
                seconds: *seconds,
            },
            RedisCommand::RPush { key, value } => CommandView::RPush { key: key@, value: value@ },
            RedisCommand::LRem { key, count, value } => CommandView::LRem {
                key: key@,
                count: *count,
                value: value@,
            },
            RedisCommand::Del { key } => CommandView::Del { key: key@ },
        }
    }
}

/// The list of ids waiting to be taken, in the queue under `prefix`.
pub open spec fn pending_key(prefix: Seq<char>) -> Seq<char> {
    queue_key_text(prefix, "pending"@)
}

/// The list of ids being processed.
pub open spec fn processing_key(prefix: Seq<char>) -> Seq<char> {
    queue_key_text(prefix, "processing"@)
}

/// The key of the record of the event `id`.
pub open spec fn record_key(prefix: Seq<char>, id: u128) -> Seq<char> {
    queue_key_text(prefix, "event:"@ + uuid_text(id))
}

/// The command that takes the next pending id into processing.
pub open spec fn pop_command_view(prefix: Seq<char>) -> CommandView {
    CommandView::PopPush { from: pending_key(prefix), to: processing_key(prefix) }
}

/// The commands that queue the event `id` with the record `data`.
pub open spec fn push_plan(prefix: Seq<char>, id: u128, data: Seq<char>) -> Seq<CommandView> {
    seq![
        CommandView::SetEx { key: record_key(prefix, id), value: data, seconds: EVENT_TTL },
        CommandView::RPush { key: pending_key(prefix), value: uuid_text(id) },
    ]
}

impl RedisQueueConfig {
    /// The key of the record of the event with id `id`.
    pub fn event_key_of(&self, id: u128) -> (r: String)
        ensures
            r@ == queue_key_text(self.queue_prefix@, "event:"@ + uuid_text(id)),
    {
        let t = event_id_text(id);
        self.event_key(t.as_str())
    }

    /// Queueing an event: its record, encoded as `event_data`, is stored for a
    /// day, and its id is appended to the pending list.
    pub fn push_commands(&self, id: u128, event_data: String) -> (r: Vec<RedisCommand>)
        ensures
            r.len() == 2,
            r[0] matches RedisCommand::SetEx { key, value, seconds } && key@ == queue_key_text(
                self.queue_prefix@,
                "event:"@ + uuid_text(id),
            ) && value == event_data && seconds == EVENT_TTL,
            r[1] matches RedisCommand::RPush { key, value } && key@ == queue_key_text(
                self.queue_prefix@,
                "pending"@,
            ) && value@ == uuid_text(id),
            r@.map_values(|c: RedisCommand| c@) == push_plan(self.queue_prefix@, id, event_data@),
            // the id's text that is queued reads back as the id
            uuid_parse_str(uuid_text(id)) == parse_outcome(Ok(id)),
    {
        let key = self.event_key_of(id);
        let set = RedisCommand::SetEx { key, value: event_data, seconds: EVENT_TTL };
        let push = RedisCommand::RPush { key: self.queue_key(), value: event_id_text(id) };
        let mut v: Vec<RedisCommand> = Vec::new();
        v.push(set);
        v.push(push);
        v
    }

    /// Marking an event processed: its id leaves the processing list and its
    /// record is removed.
    pub fn processed_commands(&self, id: u128) -> (r: Vec<RedisCommand>)
        ensures
            r.len() == 2,
            r[0] matches RedisCommand::LRem { key, count, value } && key@ == queue_key_text(
                self.queue_prefix@,
                "processing"@,
            ) && count == 1 && value@ == uuid_text(id),
            r[1] matches RedisCommand::Del { key } && key@ == queue_key_text(
                self.queue_prefix@,
                "event:"@ + uuid_text(id),
            ),
    {
        let rem = RedisCommand::LRem {
            key: self.processing_key(),
            count: 1,
            value: event_id_text(id),
        };
        let del = RedisCommand::Del { key: self.event_key_of(id) };
        let mut v: Vec<RedisCommand> = Vec::new();
        v.push(rem);
        v.push(del);
        v
    }

    /// The command that takes the next pending id into processing.
    pub fn pop_command(&self) -> (r: RedisCommand)
        ensures
            is_pop(r, self.queue_prefix@),
    {
        RedisCommand::PopPush { from: self.queue_key(), to: self.processing_key() }
    }
}

/// `c` takes the next pending id of the queue under `prefix` into processing.
pub open spec fn is_pop(c: RedisCommand, prefix: Seq<char>) -> bool {
    c matches RedisCommand::PopPush { from, to } && from@ == queue_key_text(prefix, "pending"@)
        && to@ == queue_key_text(prefix, "processing"@)
}

/// `e` is the error for a popped text that is not an id, `message` being
/// the reason the id reader gave.
pub open spec fn is_invalid_id_error(e: EventError, message: Seq<char>) -> bool {
    e matches EventError::QueueError { source } && source@ == "Invalid UUID: "@ + message
}

/// `b` is the event `e` taken once more.
pub open spec fn is_next_attempt(e: QueueEvent, b: QueueEvent) -> bool {
    &&& b.id == e.id
    &&& b.event == e.event
    &&& b.created_at == e.created_at
    &&& b.attempts == e.attempts + 1
}

/// Which reply a batch of pops waits for.
#[derive(Debug)]
pub enum PopPhase {
    /// The reply to a `PopPush`.
    Popping,
    /// The record of the popped id, given as its text.
    Fetching { id: u128, id_text: String },
    /// The end of a write.
    Writing,
    /// Nothing: the batch is over.
    Finished,
}

/// A batch of at most `size` events taken from the pending list into
/// processing: each popped id's record is read back, its count of attempts
/// raised by one and stored again; an id without a record leaves the
/// processing list.
#[derive(Debug)]
pub struct PopBatch {
    pub size: usize,
    /// How many ids have been asked for.
    pub taken: usize,
    pub phase: PopPhase,
    /// The events taken so far.
    pub events: Vec<QueueEvent>,
}

/// A reply from Redis to a batch of pops.
#[derive(Debug)]
pub enum PopReply {
    /// The popped id's text, or nothing when the pending list was empty.
    Popped(Option<String>),
    /// The record of the popped event, decoded, or nothing.
    Fetched(Option<QueueEvent>),
    /// A write was done.
    Written,
}

/// What a batch of pops asks next.
#[derive(Debug)]
pub enum PopAction {
    Send(RedisCommand),
    /// Store the event, encoded, under `key` for `seconds` seconds.
    Store { key: String, event: QueueEvent, seconds: u64 },
    /// The batch is complete.
    Done(Vec<QueueEvent>),
    Fail(EventError),
}

/// The contents of a batch's phase.
pub enum PopPhaseView {
    Popping,
    Fetching { id: u128, id_text: Seq<char> },
    Writing,
    Finished,
}

/// The contents of a batch.
pub struct PopBatchView {
    pub size: usize,
    pub taken: usize,
    pub phase: PopPhaseView,
    pub events: Seq<QueueEvent>,
}

/// The contents of a reply to a batch.
pub enum PopReplyView {
    Popped(Option<Seq<char>>),
    Fetched(Option<QueueEvent>),
    Written,
}

/// The contents of what a batch asks; a failure by its message.
pub enum PopActionView {
    Send(CommandView),
    Store { key: Seq<char>, event: QueueEvent, seconds: u64 },
    Done(Seq<QueueEvent>),
    Fail(Seq<char>),
}

impl View for PopPhase {
    type V = PopPhaseView;

    open spec fn view(&self) -> PopPhaseView {
        match self {
            PopPhase::Popping => PopPhaseView::Popping,
            PopPhase::Fetching { id, id_text } => PopPhaseView::Fetching { id: *id, id_text: id_text@ },
            PopPhase::Writing => PopPhaseView::Writing,
            PopPhase::Finished => PopPhaseView::Finished,
        }
    }
}

impl View for PopBatch {
    type V = PopBatchView;

    open spec fn view(&self) -> PopBatchView {
        PopBatchView {
            size: self.size,
            taken: self.taken,
            phase: self.phase@,
            events: self.events@,
        }
    }
}

impl View for PopReply {
    type V = PopReplyView;

    open spec fn view(&self) -> PopReplyView {
        match self {
            PopReply::Popped(t) => PopReplyView::Popped(crate::validation::opt_text(*t)),
            PopReply::Fetched(e) => PopReplyView::Fetched(*e),
            PopReply::Written => PopReplyView::Written,
        }
    }
}

impl View for PopAction {
    type V = PopActionView;

    open spec fn view(&self) -> PopActionView {
        match self {
            PopAction::Send(c) => PopActionView::Send(c@),
            PopAction::Store { key, event, seconds } => PopActionView::Store {
                key: key@,
                event: *event,
                seconds: *seconds,
            },
            PopAction::Done(v) => PopActionView::Done(v@),
            PopAction::Fail(e) => PopActionView::Fail(e.text()),
        }
    }
}

/// The event `e` taken once more.
pub open spec fn next_attempt(e: QueueEvent) -> QueueEvent {
    QueueEvent { attempts: (e.attempts + 1) as u32, ..e }
}

/// Starting a batch of at most `size` events in the queue under `prefix`.
pub open spec fn pop_start(prefix: Seq<char>, size: usize) -> (PopBatchView, PopActionView) {
    if size == 0 {
        (
            PopBatchView { size, taken: 0, phase: PopPhaseView::Finished, events: Seq::empty() },
            PopActionView::Done(Seq::empty()),
        )
    } else {
        (
            PopBatchView { size, taken: 1, phase: PopPhaseView::Popping, events: Seq::empty() },
            PopActionView::Send(pop_command_view(prefix)),
        )
    }
}

/// One step of a batch in the queue under `prefix`: the batch `b` takes the
/// reply `reply` and asks what comes next.
pub open spec fn pop_step(prefix: Seq<char>, b: PopBatchView, reply: PopReplyView) -> (
    PopBatchView,
    PopActionView,
) {
    let finished = PopBatchView { phase: PopPhaseView::Finished, events: Seq::empty(), ..b };
    match (b.phase, reply) {
        (PopPhaseView::Popping, PopReplyView::Popped(None)) => (
            finished,
            PopActionView::Done(b.events),
        ),
        (PopPhaseView::Popping, PopReplyView::Popped(Some(t))) => match uuid_parse_str(t) {
            Ok(id) => (
                PopBatchView { phase: PopPhaseView::Fetching { id, id_text: t }, ..b },
                PopActionView::Send(CommandView::Get { key: record_key(prefix, id) }),
            ),
            Err(m) => (
                PopBatchView { phase: PopPhaseView::Finished, ..b },
                PopActionView::Fail("Queue operation failed: "@ + ("Invalid UUID: "@ + m)),
            ),
        },
        (PopPhaseView::Fetching { id, .. }, PopReplyView::Fetched(Some(e))) => (
            PopBatchView {
                phase: PopPhaseView::Writing,
                events: b.events.push(next_attempt(e)),
                ..b
            },
            PopActionView::Store {
                key: record_key(prefix, id),
                event: next_attempt(e),
                seconds: EVENT_TTL,
            },
        ),
        (PopPhaseView::Fetching { id_text, .. }, PopReplyView::Fetched(None)) => (
            PopBatchView { phase: PopPhaseView::Writing, ..b },
            PopActionView::Send(
                CommandView::LRem { key: processing_key(prefix), count: 1, value: id_text },
            ),
        ),
        (PopPhaseView::Writing, PopReplyView::Written) => if b.taken < b.size {
            (
                PopBatchView { taken: (b.taken + 1) as usize, phase: PopPhaseView::Popping, ..b },
                PopActionView::Send(pop_command_view(prefix)),
            )
        } else {
            (finished, PopActionView::Done(b.events))
        },
        _ => (b, PopActionView::Done(Seq::empty())),
    }
}

impl PopBatch {
    pub open spec fn wf(&self) -> bool {
        &&& self.events.len() <= self.taken <= self.size
        &&& (self.phase is Popping || self.phase is Fetching) ==> self.events.len() < self.taken
    }

    /// Whether `reply` answers what the batch asked.
    pub open spec fn awaits(&self, reply: &PopReply) -> bool {
        match self.phase {
            PopPhase::Popping => reply is Popped,
            PopPhase::Fetching { .. } => reply is Fetched,
            PopPhase::Writing => reply is Written,
            PopPhase::Finished => false,
        }
    }

    /// Starts a batch of at most `size` events: the first pop, or nothing to
    /// do when `size` is zero.
    pub fn start(config: &RedisQueueConfig, size: usize) -> (r: (PopBatch, PopAction))
        ensures
            r.0.wf(),
            r.0.size == size,
            size == 0 ==> (r.1 matches PopAction::Done(v) && v@.len() == 0),
            size > 0 ==> r.0.taken == 1 && r.0.phase is Popping && r.0.events@.len() == 0 && (
            r.1 matches PopAction::Send(c) && is_pop(c, config.queue_prefix@)),
            (r.0@, r.1@) == pop_start(config.queue_prefix@, size),
    {
        if size == 0 {
            let b = PopBatch { size, taken: 0, phase: PopPhase::Finished, events: Vec::new() };
            (b, PopAction::Done(Vec::new()))
        } else {
            let b = PopBatch { size, taken: 1, phase: PopPhase::Popping, events: Vec::new() };
            (b, PopAction::Send(config.pop_command()))
        }
    }

    /// Takes the reply to the last command and says what comes next.
    pub fn step(self, config: &RedisQueueConfig, reply: PopReply) -> (r: (PopBatch, PopAction))
        requires
            self.wf(),
            self.awaits(&reply),
            reply matches PopReply::Fetched(Some(e)) ==> e.attempts < u32::MAX,
        ensures
            (r.0@, r.1@) == pop_step(config.queue_prefix@, self@, reply@),
            r.0.wf(),
            r.0.size == self.size,
            // a batch never holds more than `size` events
            r.1 matches PopAction::Done(v) ==> v@.len() <= self.size,
            // once done or failed, the batch takes no more replies
            (r.1 is Done || r.1 is Fail) ==> r.0.phase is Finished,
            // the pending list is empty: the batch ends with what it has
            reply matches PopReply::Popped(None) ==> (r.1 matches PopAction::Done(v) && v@
                == self.events@),
            // an id that is not one ends the batch with an error
            reply matches PopReply::Popped(Some(t)) ==> (uuid_parse_str(t@) matches Err(m) ==> (
            r.1 matches PopAction::Fail(e) && is_invalid_id_error(e, m))),
            // an id is read back by its record's key
            reply matches PopReply::Popped(Some(t)) ==> (uuid_parse_str(t@) matches Ok(id) ==> (
            r.1 matches PopAction::Send(RedisCommand::Get { key }) && key@ == queue_key_text(
                config.queue_prefix@,
                "event:"@ + uuid_text(id),
            ))),
            reply matches PopReply::Popped(Some(t)) ==> (uuid_parse_str(t@) matches Ok(id) ==> (
            r.0.phase matches PopPhase::Fetching { id: i, id_text } && i == id && id_text == t
                && r.0.events == self.events && r.0.taken == self.taken)),
            // a record found comes back with one more attempt, and is kept
            self.phase matches PopPhase::Fetching { id, .. } ==> (reply matches PopReply::Fetched(
                Some(e),
            ) ==> (r.1 matches PopAction::Store { key, event, seconds } && key@ == queue_key_text(
                config.queue_prefix@,
                "event:"@ + uuid_text(id),
            ) && seconds == EVENT_TTL && is_next_attempt(e, event) && r.0.events@
                == self.events@.push(event) && r.0.phase is Writing && r.0.taken == self.taken)),
            // an id without a record leaves the processing list
            self.phase matches PopPhase::Fetching { id_text, .. } ==> (reply matches PopReply::Fetched(
                None,
            ) ==> (r.1 matches PopAction::Send(RedisCommand::LRem { key, count, value })
                && key@ == queue_key_text(config.queue_prefix@, "processing"@) && count == 1
                && value == id_text && r.0.events == self.events && r.0.phase is Writing
                && r.0.taken == self.taken)),
            // after a write, the next pop, until `size` ids were asked for
            reply is Written ==> (self.taken < self.size ==> r.0.taken == self.taken + 1
                && r.0.phase is Popping && r.0.events == self.events && (r.1 matches PopAction::Send(
                c,
            ) && is_pop(c, config.queue_prefix@))),
            reply is Written ==> (self.taken >= self.size ==> (r.1 matches PopAction::Done(v) && v@
                == self.events@)),
    {
        let PopBatch { size, taken, phase, events } = self;
        match reply {
            PopReply::Popped(None) => {
                let b = PopBatch { size, taken, phase: PopPhase::Finished, events: Vec::new() };
                (b, PopAction::Done(events))
            },
            PopReply::Popped(Some(t)) => {
                match parse_event_id(t.as_str()) {
                    Ok(id) => {
                        let key = config.event_key_of(id);
                        let b = PopBatch {
                            size,
                            taken,
                            phase: PopPhase::Fetching { id, id_text: t },
                            events,
                        };
                        (b, PopAction::Send(RedisCommand::Get { key }))
                    },
                    Err(m) => {
                        let mut msg = String::from_str("Invalid UUID: ");
                        msg.append(m.as_str());
                        let b = PopBatch { size, taken, phase: PopPhase::Finished, events };
                        (b, PopAction::Fail(EventError::queue(msg)))
                    },
                }
            },
            PopReply::Fetched(found) => {
                match phase {
                    PopPhase::Fetching { id, id_text } => {
                        match found {
                            Some(e) => {
                                let bumped = e.record_attempt();
                                let mut events = events;
                                events.push(bumped.clone());
                                let key = config.event_key_of(id);
                                let b = PopBatch { size, taken, phase: PopPhase::Writing, events };
                                (b, PopAction::Store { key, event: bumped, seconds: EVENT_TTL })
                            },
                            None => {
                                let rem = RedisCommand::LRem {
                                    key: config.processing_key(),
                                    count: 1,
                                    value: id_text,
                                };
                                let b = PopBatch { size, taken, phase: PopPhase::Writing, events };
                                (b, PopAction::Send(rem))
                            },
                        }
                    },
                    _ => {
                        let b = PopBatch { size, taken, phase, events };
                        (b, PopAction::Done(Vec::new()))
                    },
                }
            },
            PopReply::Written => {
                if taken < size {
                    let b = PopBatch { size, taken: taken + 1, phase: PopPhase::Popping, events };
                    (b, PopAction::Send(config.pop_command()))
                } else {
                    let b = PopBatch { size, taken, phase: PopPhase::Finished, events: Vec::new() };
                    (b, PopAction::Done(events))
                }
            },
        }
    }
}

/// The part of a Redis store that the queue uses: lists and values by key.
/// Expiry is left out: it stands for a store within a day of its writes.
pub struct RedisModel {
    pub lists: Map<Seq<char>, Seq<Seq<char>>>,
    pub values: Map<Seq<char>, Seq<char>>,
}

/// The list under `key`; a missing key is an empty list.
pub open spec fn list_at(m: RedisModel, key: Seq<char>) -> Seq<Seq<char>> {
    if m.lists.contains_key(key) {
        m.lists[key]
    } else {
        Seq::empty()
    }
}

/// `s` without its first `limit` elements equal to `v`, or all of them where
/// there is no limit.
pub open spec fn remove_from_head(s: Seq<Seq<char>>, v: Seq<char>, limit: Option<nat>) -> Seq<
    Seq<char>,
>
    decreases s.len(),
{
    if s.len() == 0 {
        s
    } else if s[0] == v && limit != Some(0nat) {
        let rest = match limit {
            Some(k) => Some((k - 1) as nat),
            None => None,
        };
        remove_from_head(s.drop_first(), v, rest)
    } else {
        seq![s[0]] + remove_from_head(s.drop_first(), v, limit)
    }
}

/// What LREM leaves of `s`: a positive count removes that many matches from
/// the head, a negative one from the tail, and zero removes them all.
pub open spec fn lrem(s: Seq<Seq<char>>, v: Seq<char>, count: i64) -> Seq<Seq<char>> {
    if count > 0 {
        remove_from_head(s, v, Some(count as nat))
    } else if count == 0 {
        remove_from_head(s, v, None)
    } else {
        remove_from_head(s.reverse(), v, Some((-count) as nat)).reverse()
    }
}

/// What a command does to the store, and what Redis answers: the moved
/// element, the value read, or nothing for a write.
pub open spec fn redis_apply(m: RedisModel, c: CommandView) -> (RedisModel, Option<Seq<char>>) {
    match c {
        CommandView::PopPush { from, to } => {
            let src = list_at(m, from);
            if src.len() == 0 {
                (m, None)
            } else {
                let x = src.last();
                let m1 = RedisModel { lists: m.lists.insert(from, src.drop_last()), ..m };
                (
                    RedisModel { lists: m1.lists.insert(to, seq![x] + list_at(m1, to)), ..m1 },
                    Some(x),
                )
            }
        },
        CommandView::Get { key } => (
            m,
            if m.values.contains_key(key) {
                Some(m.values[key])
            } else {
                None
            },
        ),
        CommandView::SetEx { key, value, .. } => (
            RedisModel { values: m.values.insert(key, value), ..m },
            None,
        ),
        CommandView::RPush { key, value } => (
            RedisModel { lists: m.lists.insert(key, list_at(m, key).push(value)), ..m },
            None,
        ),
        CommandView::LRem { key, count, value } => (
            RedisModel { lists: m.lists.insert(key, lrem(list_at(m, key), value, count)), ..m },
            None,
        ),
        CommandView::Del { key } => (RedisModel { values: m.values.remove(key), ..m }, None),
    }
}

/// A pushed event comes back: on a store whose pending list is empty, the
/// event `id` is queued with the record `data`; a batch of one then takes its
/// id, reads back `data`, and, with the record handed back decoded as `e`,
/// stores `e` with one more attempt and ends with it alone. The pending list
/// is then empty, so the next batch of one ends with nothing. `stored` is
/// the record written back, and the id is one the queue writes, whose text
/// reads back as itself (as `push_commands` states).
pub proof fn lemma_push_then_pop(
    prefix: Seq<char>,
    id: u128,
    data: Seq<char>,
    e: QueueEvent,
    stored: Seq<char>,
    m0: RedisModel,
)
    requires
        list_at(m0, pending_key(prefix)).len() == 0,
        uuid_parse_str(uuid_text(id)) == Ok::<u128, Seq<char>>(id),
    ensures
        ({
            let plan = push_plan(prefix, id, data);
            let m1 = redis_apply(redis_apply(m0, plan[0]).0, plan[1]).0;
            let (b0, a0) = pop_start(prefix, 1);
            let (m2, popped) = redis_apply(m1, pop_command_view(prefix));
            let (b1, a1) = pop_step(prefix, b0, PopReplyView::Popped(popped));
            let (m3, fetched) = redis_apply(m2, CommandView::Get { key: record_key(prefix, id) });
            let (b2, a2) = pop_step(prefix, b1, PopReplyView::Fetched(Some(e)));
            let m4 = redis_apply(
                m3,
                CommandView::SetEx { key: record_key(prefix, id), value: stored, seconds: EVENT_TTL },
            ).0;
            let (b3, a3) = pop_step(prefix, b2, PopReplyView::Written);
            let (c0, d0) = pop_start(prefix, 1);
            let (m5, popped_again) = redis_apply(m4, pop_command_view(prefix));
            let (c1, d1) = pop_step(prefix, c0, PopReplyView::Popped(popped_again));
            &&& a0 == PopActionView::Send(pop_command_view(prefix))
            &&& popped == Some(uuid_text(id))
            &&& a1 == PopActionView::Send(CommandView::Get { key: record_key(prefix, id) })
            &&& fetched == Some(data)
            &&& a2 == PopActionView::Store {
                key: record_key(prefix, id),
                event: next_attempt(e),
                seconds: EVENT_TTL,
            }
            &&& a3 == PopActionView::Done(seq![next_attempt(e)])
            &&& popped_again is None
            &&& d1 == PopActionView::Done(Seq::<QueueEvent>::empty())
        }),
{
    let t = uuid_text(id);
    lemma_queue_keys_distinct(prefix, t);
    let plan = push_plan(prefix, id, data);
    let m1 = redis_apply(redis_apply(m0, plan[0]).0, plan[1]).0;
    assert(list_at(m1, pending_key(prefix)) =~= seq![t]);
    assert(m1.values[record_key(prefix, id)] == data);
    let m2 = redis_apply(m1, pop_command_view(prefix)).0;
    assert(list_at(m2, pending_key(prefix)) =~= Seq::<Seq<char>>::empty());
    assert(m2.values == m1.values);
    let b1 = pop_step(prefix, pop_start(prefix, 1).0, PopReplyView::Popped(Some(t))).0;
    let b2 = pop_step(prefix, b1, PopReplyView::Fetched(Some(e))).0;
    assert(b2.events =~= seq![next_attempt(e)]);
    let m4 = redis_apply(
        m2,
        CommandView::SetEx { key: record_key(prefix, id), value: stored, seconds: EVENT_TTL },
    ).0;
    assert(list_at(m4, pending_key(prefix)).len() == 0);
}

/// Which reply a failure being recorded waits for.
#[derive(Debug, Clone, Copy, PartialEq, Eq, Structural)]
pub enum FailPhase {
    /// The id leaving the processing list.
    Removing,
    /// The event's record.
    Fetching,
    /// The failure being written.
    Recording,
    /// The event's record being removed.
    Deleting,
    /// Nothing: the failure is recorded.
    Finished,
}

/// An event being marked failed: its id leaves the processing list; if its
/// record is still there, the failure is added to the failed set, a record
/// of it kept for the configured time, and the event's record removed.
#[derive(Debug)]
pub struct MarkFailed {
    pub id: u128,
    /// The message of the error that made the event fail.
    pub error: String,
    pub phase: FailPhase,
}

/// A reply from Redis while a failure is recorded.
#[derive(Debug)]
pub enum FailReply {
    /// A write was done.
    Written,
    /// The event's record, or nothing.
    Fetched(Option<String>),
}

/// What recording a failure asks next.
#[derive(Debug)]
pub enum FailAction {
    Send(RedisCommand),
    /// Add `member` to the sorted set `failed_key`, scored by the current
    /// time, and store under `detail_key` for `seconds` seconds a record of
    /// the event's id, its data, the error and the current time.
    Record {
        failed_key: String,
        member: String,
        detail_key: String,
        seconds: u64,
        event_data: String,
        error: String,
    },
    Done,
}

impl MarkFailed {
    /// Whether `reply` answers what was asked.
    pub open spec fn awaits(&self, reply: &FailReply) -> bool {
        match self.phase {
            FailPhase::Fetching => reply is Fetched,
            FailPhase::Finished => false,
            _ => reply is Written,
        }
    }

    /// Starts marking the event `id` failed with the message `error`: its id
    /// leaves the processing list.
    pub fn start(config: &RedisQueueConfig, id: u128, error: String) -> (r: (MarkFailed, FailAction))
        ensures
            r.0.id == id,
            r.0.error == error,
            r.0.phase == FailPhase::Removing,
            r.1 matches FailAction::Send(RedisCommand::LRem { key, count, value }) && key@
                == queue_key_text(config.queue_prefix@, "processing"@) && count == 1 && value@
                == uuid_text(id),
    {
        let rem = RedisCommand::LRem {
            key: config.processing_key(),
            count: 1,
            value: event_id_text(id),
        };
        (MarkFailed { id, error, phase: FailPhase::Removing }, FailAction::Send(rem))
    }

    /// Takes the reply to the last command and says what comes next.
    pub fn step(self, config: &RedisQueueConfig, reply: FailReply) -> (r: (MarkFailed, FailAction))
        requires
            self.awaits(&reply),
        ensures
            r.0.id == self.id,
            r.0.error == self.error,
            // after the removal, the record is read
            self.phase == FailPhase::Removing ==> r.0.phase == FailPhase::Fetching && (
            r.1 matches FailAction::Send(RedisCommand::Get { key }) && key@ == queue_key_text(
                config.queue_prefix@,
                "event:"@ + uuid_text(self.id),
            )),
            // no record: nothing more is done
            reply matches FailReply::Fetched(None) ==> r.1 is Done && r.0.phase
                == FailPhase::Finished,
            // a record: the failure is written with it
            reply matches FailReply::Fetched(Some(d)) ==> r.0.phase == FailPhase::Recording && (
            r.1 matches FailAction::Record {
                failed_key,
                member,
                detail_key,
                seconds,
                event_data,
                error,
            } && failed_key@ == queue_key_text(config.queue_prefix@, "failed"@) && member@
                == uuid_text(self.id) && detail_key@ == queue_key_text(
                config.queue_prefix@,
                "failed:"@ + uuid_text(self.id),
            ) && seconds == config.failed_retention as u64 && event_data == d && error
                == self.error),
            // then the event's record goes
            self.phase == FailPhase::Recording ==> r.0.phase == FailPhase::Deleting && (
            r.1 matches FailAction::Send(RedisCommand::Del { key }) && key@ == queue_key_text(
                config.queue_prefix@,
                "event:"@ + uuid_text(self.id),
            )),
            self.phase == FailPhase::Deleting ==> r.1 is Done && r.0.phase == FailPhase::Finished,
    {
        let MarkFailed { id, error, phase } = self;
        match reply {
            FailReply::Written => {
                match phase {
                    FailPhase::Removing => {
                        let key = config.event_key_of(id);
                        (
                            MarkFailed { id, error, phase: FailPhase::Fetching },
                            FailAction::Send(RedisCommand::Get { key }),
                        )
                    },
                    FailPhase::Recording => {
                        let key = config.event_key_of(id);
                        (
                            MarkFailed { id, error, phase: FailPhase::Deleting },
                            FailAction::Send(RedisCommand::Del { key }),
                        )
                    },
                    _ => (MarkFailed { id, error, phase: FailPhase::Finished }, FailAction::Done),
                }
            },
            FailReply::Fetched(None) => (
                MarkFailed { id, error, phase: FailPhase::Finished },
                FailAction::Done,
            ),
            FailReply::Fetched(Some(data)) => {
                let failed_key = config.failed_key();
                let member = event_id_text(id);
                let id_text = event_id_text(id);
                let detail_key = config.failed_detail_key(id_text.as_str());
                let seconds = config.failed_retention as u64;
                let record = FailAction::Record {
                    failed_key,
                    member,
                    detail_key,
                    seconds,
                    event_data: data,
                    error: error.clone(),
                };
                (MarkFailed { id, error, phase: FailPhase::Recording }, record)
            },
        }
    }
}

} // verus!

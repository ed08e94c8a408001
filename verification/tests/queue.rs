use venue_flow::event::queue::QueueEvent;
use venue_flow::event::AppEvent;
use venue_flow::queue::redis_queue::{
    FailAction, FailPhase, FailReply, MarkFailed, PopAction, PopBatch, PopPhase, PopReply,
    RedisCommand, EVENT_TTL,
};
use venue_flow::queue::{QueueError, RedisQueueConfig};
use venue_flow::time::Timestamp;

const ID: u128 = 0x550e8400e29b41d4a716446655440000;
const ID_TEXT: &str = "550e8400-e29b-41d4-a716-446655440000";

fn queue_config() -> RedisQueueConfig {
    RedisQueueConfig {
        queue_prefix: "q".to_string(),
        processing_timeout: 300,
        failed_retention: 3600,
        max_pool_size: 4,
    }
}

fn stored(attempts: u32) -> QueueEvent {
    QueueEvent {
        id: ID,
        event: AppEvent::LogUseCase,
        created_at: Timestamp::from_unix(1_000, 0).unwrap(),
        attempts,
    }
}

fn is_pop(c: &RedisCommand) -> bool {
    matches!(c, RedisCommand::PopPush { from, to } if from == "q:pending" && to == "q:processing")
}

#[test]
fn queue_keys() {
    let c = queue_config();
    assert_eq!(c.queue_key(), "q:pending");
    assert_eq!(c.processing_key(), "q:processing");
    assert_eq!(c.failed_key(), "q:failed");
    assert_eq!(c.event_key("abc"), "q:event:abc");
    assert_eq!(c.failed_detail_key("abc"), "q:failed:abc");
    assert_eq!(c.event_key_of(ID), format!("q:event:{}", ID_TEXT));
}

#[test]
fn queue_config_defaults_and_errors() {
    let d = RedisQueueConfig::default();
    assert_eq!(d.queue_prefix, "event_queue");
    assert_eq!(d.processing_timeout, 300);
    assert_eq!(d.failed_retention, 86400);
    assert_eq!(d.max_pool_size, 16);
    assert_eq!(d.queue_key(), "event_queue:pending");
    assert_eq!(QueueError::FailToFetchConfig.to_string(), "Failed to fetch queue configuration.");
    assert_eq!(
        QueueError::FailToDeserializeConfig.to_string(),
        "Failed  to deserialize queue configuration."
    );
}

#[test]
fn pushing_stores_the_record_then_queues_the_id() {
    let cmds = queue_config().push_commands(ID, "{}".to_string());
    assert_eq!(cmds.len(), 2);
    match &cmds[0] {
        RedisCommand::SetEx { key, value, seconds } => {
            assert_eq!(key, &format!("q:event:{}", ID_TEXT));
            assert_eq!(value, "{}");
            assert_eq!(*seconds, 86400);
        },
        other => panic!("unexpected {:?}", other),
    }
    match &cmds[1] {
        RedisCommand::RPush { key, value } => {
            assert_eq!(key, "q:pending");
            assert_eq!(value, ID_TEXT);
        },
        other => panic!("unexpected {:?}", other),
    }
}

#[test]
fn processed_event_leaves_processing_and_loses_its_record() {
    let cmds = queue_config().processed_commands(ID);
    assert_eq!(cmds.len(), 2);
    assert!(matches!(&cmds[0], RedisCommand::LRem { key, count: 1, value }
        if key == "q:processing" && value == ID_TEXT));
    assert!(matches!(&cmds[1], RedisCommand::Del { key } if key == &format!("q:event:{}", ID_TEXT)));
}

#[test]
fn empty_batch_asks_nothing() {
    let (_, action) = PopBatch::start(&queue_config(), 0);
    assert!(matches!(action, PopAction::Done(v) if v.is_empty()));
}

#[test]
fn batch_takes_events_until_the_list_is_empty() {
    let c = queue_config();
    let (b, action) = PopBatch::start(&c, 5);
    assert!(matches!(&action, PopAction::Send(cmd) if is_pop(cmd)));
    let (b, action) = b.step(&c, PopReply::Popped(Some(ID_TEXT.to_string())));
    assert!(matches!(&action, PopAction::Send(RedisCommand::Get { key })
        if key == &format!("q:event:{}", ID_TEXT)));
    assert!(matches!(&b.phase, PopPhase::Fetching { id, .. } if *id == ID));
    let (b, action) = b.step(&c, PopReply::Fetched(Some(stored(2))));
    match action {
        PopAction::Store { key, event, seconds } => {
            assert_eq!(key, format!("q:event:{}", ID_TEXT));
            assert_eq!(event.attempts, 3);
            assert_eq!(event.id, ID);
            assert_eq!(seconds, EVENT_TTL);
        },
        other => panic!("unexpected {:?}", other),
    }
    let (b, action) = b.step(&c, PopReply::Written);
    assert!(matches!(&action, PopAction::Send(cmd) if is_pop(cmd)));
    let (_, action) = b.step(&c, PopReply::Popped(None));
    match action {
        PopAction::Done(events) => {
            assert_eq!(events.len(), 1);
            assert_eq!(events[0].attempts, 3);
        },
        other => panic!("unexpected {:?}", other),
    }
}

#[test]
fn batch_stops_at_its_size() {
    let c = queue_config();
    let (b, _) = PopBatch::start(&c, 1);
    let (b, _) = b.step(&c, PopReply::Popped(Some(ID_TEXT.to_string())));
    let (b, _) = b.step(&c, PopReply::Fetched(Some(stored(0))));
    let (_, action) = b.step(&c, PopReply::Written);
    assert!(matches!(action, PopAction::Done(v) if v.len() == 1 && v[0].attempts == 1));
}

#[test]
fn id_without_record_leaves_processing() {
    let c = queue_config();
    let (b, _) = PopBatch::start(&c, 2);
    let (b, _) = b.step(&c, PopReply::Popped(Some(ID_TEXT.to_string())));
    let (b, action) = b.step(&c, PopReply::Fetched(None));
    assert!(matches!(&action, PopAction::Send(RedisCommand::LRem { key, count: 1, value })
        if key == "q:processing" && value == ID_TEXT));
    let (b, action) = b.step(&c, PopReply::Written);
    assert!(matches!(&action, PopAction::Send(cmd) if is_pop(cmd)));
    assert_eq!(b.taken, 2);
    let (_, action) = b.step(&c, PopReply::Popped(None));
    assert!(matches!(action, PopAction::Done(v) if v.is_empty()));
}

#[test]
fn popped_text_that_is_no_id_fails_the_batch() {
    let c = queue_config();
    let (b, _) = PopBatch::start(&c, 2);
    let (_, action) = b.step(&c, PopReply::Popped(Some("zzz".to_string())));
    match action {
        PopAction::Fail(e) => {
            assert!(e.to_string().starts_with("Queue operation failed: Invalid UUID: "));
        },
        other => panic!("unexpected {:?}", other),
    }
}

#[test]
fn failure_is_recorded_when_the_record_exists() {
    let c = queue_config();
    let (m, action) = MarkFailed::start(&c, ID, "boom".to_string());
    assert!(matches!(&action, FailAction::Send(RedisCommand::LRem { key, count: 1, value })
        if key == "q:processing" && value == ID_TEXT));
    let (m, action) = m.step(&c, FailReply::Written);
    assert_eq!(m.phase, FailPhase::Fetching);
    assert!(matches!(&action, FailAction::Send(RedisCommand::Get { key })
        if key == &format!("q:event:{}", ID_TEXT)));
    let (m, action) = m.step(&c, FailReply::Fetched(Some("{\"a\":1}".to_string())));
    match action {
        FailAction::Record { failed_key, member, detail_key, seconds, event_data, error } => {
            assert_eq!(failed_key, "q:failed");
            assert_eq!(member, ID_TEXT);
            assert_eq!(detail_key, format!("q:failed:{}", ID_TEXT));
            assert_eq!(seconds, 3600);
            assert_eq!(event_data, "{\"a\":1}");
            assert_eq!(error, "boom");
        },
        other => panic!("unexpected {:?}", other),
    }
    let (m, action) = m.step(&c, FailReply::Written);
    assert!(matches!(&action, FailAction::Send(RedisCommand::Del { key })
        if key == &format!("q:event:{}", ID_TEXT)));
    let (_, action) = m.step(&c, FailReply::Written);
    assert!(matches!(action, FailAction::Done));
}

#[test]
fn failure_of_an_event_without_record_only_leaves_processing() {
    let c = queue_config();
    let (m, _) = MarkFailed::start(&c, ID, "boom".to_string());
    let (m, _) = m.step(&c, FailReply::Written);
    let (_, action) = m.step(&c, FailReply::Fetched(None));
    assert!(matches!(action, FailAction::Done));
}

#[test]
fn ids_are_written_hyphenated_and_read_back() {
    let c = queue_config();
    assert_eq!(c.event_key_of(0), "q:event:00000000-0000-0000-0000-000000000000");
    assert_eq!(c.event_key_of(u128::MAX), "q:event:ffffffff-ffff-ffff-ffff-ffffffffffff");
    // the text the queue writes for an id is read back as that id
    let pushed = c.push_commands(ID, "{}".to_string());
    let text = match &pushed[1] {
        RedisCommand::RPush { value, .. } => value.clone(),
        other => panic!("unexpected {:?}", other),
    };
    let (b, _) = PopBatch::start(&c, 1);
    let (b, _) = b.step(&c, PopReply::Popped(Some(text)));
    assert!(matches!(&b.phase, PopPhase::Fetching { id, .. } if *id == ID));
    // upper-case and unhyphenated forms are read too
    let (b, _) = PopBatch::start(&c, 1);
    let (b, _) = b.step(&c, PopReply::Popped(Some("550E8400E29B41D4A716446655440000".to_string())));
    assert!(matches!(&b.phase, PopPhase::Fetching { id, .. } if *id == ID));
}

/// A store in memory that answers the queue's commands as Redis does.
#[derive(Default)]
struct MemoryStore {
    lists: std::collections::HashMap<String, Vec<String>>,
    values: std::collections::HashMap<String, String>,
}

impl MemoryStore {
    fn run(&mut self, c: &RedisCommand) -> Option<String> {
        match c {
            RedisCommand::PopPush { from, to } => {
                let x = self.lists.entry(from.clone()).or_default().pop()?;
                self.lists.entry(to.clone()).or_default().insert(0, x.clone());
                Some(x)
            },
            RedisCommand::Get { key } => self.values.get(key).cloned(),
            RedisCommand::SetEx { key, value, .. } => {
                self.values.insert(key.clone(), value.clone());
                None
            },
            RedisCommand::RPush { key, value } => {
                self.lists.entry(key.clone()).or_default().push(value.clone());
                None
            },
            RedisCommand::LRem { key, value, .. } => {
                let l = self.lists.entry(key.clone()).or_default();
                if let Some(i) = l.iter().position(|x| x == value) {
                    l.remove(i);
                }
                None
            },
            RedisCommand::Del { key } => {
                self.values.remove(key);
                None
            },
        }
    }

    fn pop_one(&mut self, c: &RedisQueueConfig, record: &QueueEvent) -> Vec<QueueEvent> {
        let (mut b, mut action) = PopBatch::start(c, 1);
        loop {
            let reply = match action {
                PopAction::Done(v) => return v,
                PopAction::Fail(e) => panic!("{:?}", e),
                PopAction::Send(cmd) => {
                    let v = self.run(&cmd);
                    match cmd {
                        RedisCommand::PopPush { .. } => PopReply::Popped(v),
                        RedisCommand::Get { .. } => PopReply::Fetched(v.map(|_| record.clone())),
                        _ => PopReply::Written,
                    }
                },
                PopAction::Store { key, seconds, .. } => {
                    self.run(&RedisCommand::SetEx { key, value: "updated".to_string(), seconds });
                    PopReply::Written
                },
            };
            let next = b.step(c, reply);
            b = next.0;
            action = next.1;
        }
    }
}

#[test]
fn pushed_event_comes_back_once_with_one_more_attempt() {
    let c = queue_config();
    let mut store = MemoryStore::default();
    for cmd in c.push_commands(ID, "record".to_string()) {
        store.run(&cmd);
    }
    assert_eq!(store.values.get(&format!("q:event:{}", ID_TEXT)).unwrap(), "record");
    let e = stored(4);
    let first = store.pop_one(&c, &e);
    assert_eq!(first.len(), 1);
    assert_eq!(first[0].id, e.id);
    assert_eq!(first[0].event, e.event);
    assert_eq!(first[0].created_at, e.created_at);
    assert_eq!(first[0].attempts, 5);
    assert!(store.lists["q:pending"].is_empty());
    assert_eq!(store.lists["q:processing"], vec![ID_TEXT.to_string()]);
    assert!(store.pop_one(&c, &e).is_empty());
}

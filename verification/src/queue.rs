//! The event queue kept in Redis: its settings and the names of its keys.
use vstd::prelude::*;
use vstd::string::*;

pub mod redis_queue;

verus! {

/// Failures while setting up the queue.
#[derive(Debug, Clone, Copy, PartialEq, Eq, Structural)]
pub enum QueueError {
    FailToFetchConfig,
    FailToDeserializeConfig,
}

impl QueueError {
    pub open spec fn text(&self) -> Seq<char> {
        match self {
            QueueError::FailToFetchConfig => "Failed to fetch queue configuration."@,
            QueueError::FailToDeserializeConfig => "Failed  to deserialize queue configuration."@,
        }
    }

    pub fn to_string(&self) -> (r: String)
        ensures
            r@ == self.text(),
    {
        match self {
            QueueError::FailToFetchConfig => String::from_str("Failed to fetch queue configuration."),
            QueueError::FailToDeserializeConfig => String::from_str(
                "Failed  to deserialize queue configuration.",
            ),
        }
    }
}

/// Settings of the Redis queue.
#[derive(Clone, Debug, PartialEq, Eq)]
pub struct RedisQueueConfig {
    /// What every key of the queue begins with.
    pub queue_prefix: String,
    /// Seconds an event may stay in processing.
    pub processing_timeout: i64,
    /// Seconds a failure record is kept.
    pub failed_retention: i64,
    pub max_pool_size: usize,
}

/// The settings file's content: the queue settings under one heading.
#[derive(Clone, Debug, PartialEq, Eq)]
pub struct QueueConfig {
    pub queue_config: RedisQueueConfig,
}

impl Default for RedisQueueConfig {
    fn default() -> (r: Self)
        ensures
            r.queue_prefix@ == "event_queue"@,
            r.processing_timeout == 300,
            r.failed_retention == 86400,
            r.max_pool_size == 16,
    {
        RedisQueueConfig {
            queue_prefix: String::from_str("event_queue"),
            processing_timeout: 300,
            failed_retention: 86400,
            max_pool_size: 16,
        }
    }
}

/// The key `prefix:suffix`.
pub open spec fn queue_key_text(prefix: Seq<char>, suffix: Seq<char>) -> Seq<char> {
    prefix + seq![':'] + suffix
}

impl RedisQueueConfig {
    fn key_with(&self, suffix: &str) -> (r: String)
        ensures
            r@ == queue_key_text(self.queue_prefix@, suffix@),
    {
        proof {
            reveal_strlit(":");
        }
        let mut k = self.queue_prefix.clone();
        k.append(":");
        k.append(suffix);
        k
    }

    /// The list of events waiting to be taken.
    pub fn queue_key(&self) -> (r: String)
        ensures
            r@ == queue_key_text(self.queue_prefix@, "pending"@),
    {
        self.key_with("pending")
    }

    /// The list of events being processed.
    pub fn processing_key(&self) -> (r: String)
        ensures
            r@ == queue_key_text(self.queue_prefix@, "processing"@),
    {
        self.key_with("processing")
    }

    /// The sorted set of failed events.
    pub fn failed_key(&self) -> (r: String)
        ensures
            r@ == queue_key_text(self.queue_prefix@, "failed"@),
    {
        self.key_with("failed")
    }

    /// The record of one event, by the text of its id.
    pub fn event_key(&self, event_id: &str) -> (r: String)
        ensures
            r@ == queue_key_text(self.queue_prefix@, "event:"@ + event_id@),
    {
        proof {
            reveal_strlit(":");
            reveal_strlit("event:");
        }
        let mut k = self.queue_prefix.clone();
        k.append(":event:");
        proof {
            reveal_strlit(":event:");
            assert(":event:"@ =~= seq![':'] + "event:"@);
        }
        k.append(event_id);
        proof {
            assert(k@ =~= queue_key_text(self.queue_prefix@, "event:"@ + event_id@));
        }
        k
    }

    /// The failure record of one event, by the text of its id.
    pub fn failed_detail_key(&self, event_id: &str) -> (r: String)
        ensures
            r@ == queue_key_text(self.queue_prefix@, "failed:"@ + event_id@),
    {
        let mut k = self.queue_prefix.clone();
        k.append(":failed:");
        proof {
            reveal_strlit(":failed:");
            reveal_strlit("failed:");
            assert(":failed:"@ =~= seq![':'] + "failed:"@);
        }
        k.append(event_id);
        proof {
            assert(k@ =~= queue_key_text(self.queue_prefix@, "failed:"@ + event_id@));
        }
        k
    }
}

/// The three lists of one queue never share a key, and no event record
/// shares a key with them: every key is the prefix, a colon and a suffix, and
/// the suffixes differ.
pub proof fn lemma_queue_keys_distinct(prefix: Seq<char>, id: Seq<char>)
    ensures
        queue_key_text(prefix, "pending"@) != queue_key_text(prefix, "processing"@),
        queue_key_text(prefix, "pending"@) != queue_key_text(prefix, "failed"@),
        queue_key_text(prefix, "processing"@) != queue_key_text(prefix, "failed"@),
        queue_key_text(prefix, "event:"@ + id) != queue_key_text(prefix, "pending"@),
        queue_key_text(prefix, "event:"@ + id) != queue_key_text(prefix, "processing"@),
        queue_key_text(prefix, "event:"@ + id) != queue_key_text(prefix, "failed"@),
        queue_key_text(prefix, "event:"@ + id) != queue_key_text(prefix, "failed:"@ + id),
{
    reveal_strlit("pending");
    reveal_strlit("processing");
    reveal_strlit("failed");
    reveal_strlit("event:");
    reveal_strlit("failed:");
    let n: int = prefix.len() as int + 1;
    assert(queue_key_text(prefix, "pending"@)[n] == 'p');
    assert(queue_key_text(prefix, "processing"@)[n + 2] == 'o');
    assert(queue_key_text(prefix, "pending"@)[n + 2] == 'n');
    assert(queue_key_text(prefix, "failed"@)[n] == 'f');
    assert(queue_key_text(prefix, "processing"@)[n] == 'p');
    assert(queue_key_text(prefix, "event:"@ + id)[n] == 'e');
    assert(queue_key_text(prefix, "failed:"@ + id)[n] == 'f');
}

} // verus!

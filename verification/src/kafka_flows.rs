//! The decisions inside the long-running Kafka operations: which messages a
//! backup keeps, what a restore sends, how a migration rewrites keys, and how
//! a queue drain is judged. The consumer, producer, storage and clock calls
//! stay with the caller, which reports what it received.
use vstd::prelude::*;
use crate::kafka::{settings_view, BackupData, KafkaClusterConfig, BackupMessage, ConsumeOptions, ConsumerGroupOffset, MessageBackupRequest, MessageRestoreRequest, MessageTransformation, PartitionDrainStatus, QueueDrainRequest};
use crate::chaos::{entries_of, text_field};
use crate::json::{holds_texts, text_array, ArrayBuilder, JsonNumber, JsonValue, ObjectBuilder};
use crate::aws_account::{collect_strings, strings_of, views};
use crate::errors::AppError;
use crate::text::{concat2, concat3, i64_decimal, owned, signed_decimal};
use vstd::arithmetic::power2::pow2;

verus! {

// ---------------------------------------------------------------------------
// Shared by backups and migrations
// ---------------------------------------------------------------------------

/// The partitions an operation covers: those asked for, or else every
/// partition of the topic, numbered from 0.
pub fn partitions_to_process(requested: &Option<Vec<i32>>, partition_count: usize) -> (r: Vec<i32>)
    requires
        partition_count <= i32::MAX,
    ensures
        match requested {
            Some(p) => r@ == p@,
            None => r@.len() == partition_count && forall|i: int|
                0 <= i < partition_count ==> #[trigger] r@[i] == i,
        },
{
    match requested {
        Some(p) => p.clone(),
        None => {
            let mut r: Vec<i32> = Vec::new();
            let mut i: usize = 0;
            while i < partition_count
                invariant
                    i <= partition_count <= i32::MAX,
                    r@.len() == i,
                    forall|j: int| 0 <= j < i ==> #[trigger] r@[j] == j,
                decreases partition_count - i,
            {
                r.push(i as i32);
                i = i + 1;
            }
            r
        },
    }
}

/// Where reading a partition starts.
#[derive(Debug, Clone, Copy, PartialEq, Eq, Structural)]
pub enum SeekPosition {
    Offset(i64),
    Beginning,
}

/// The start offset asked for, or the beginning of the partition.
pub fn start_position(start_offset: Option<i64>) -> (r: SeekPosition)
    ensures
        r == match start_offset {
            Some(o) => SeekPosition::Offset(o),
            None => SeekPosition::Beginning,
        },
{
    match start_offset {
        Some(o) => SeekPosition::Offset(o),
        None => SeekPosition::Beginning,
    }
}

/// What to do with a message received while reading one partition.
#[derive(Debug, Clone, Copy, PartialEq, Eq, Structural)]
pub enum MessageVerdict {
    /// It belongs to another partition: pass over it and read on.
    Skip,
    /// Stop reading this partition.
    EndPartition,
    /// Take the message.
    Take,
}

/// The verdict on a message at `offset` of `message_partition`, while reading
/// `partition` up to `end_offset`: messages of other partitions are passed
/// over, and the partition ends at the first message at or past the end offset.
pub open spec fn offset_verdict(partition: i32, message_partition: i32, offset: i64, end_offset: Option<i64>) -> MessageVerdict {
    if message_partition != partition {
        MessageVerdict::Skip
    } else if end_offset matches Some(e) && offset >= e {
        MessageVerdict::EndPartition
    } else {
        MessageVerdict::Take
    }
}

/// Decides a migrated message: the verdict of reading up to the end offset.
pub fn migration_verdict(partition: i32, message_partition: i32, offset: i64, end_offset: Option<i64>) -> (r: MessageVerdict)
    ensures
        r == offset_verdict(partition, message_partition, offset, end_offset),
{
    if message_partition != partition {
        MessageVerdict::Skip
    } else {
        match end_offset {
            Some(e) => if offset >= e {
                MessageVerdict::EndPartition
            } else {
                MessageVerdict::Take
            },
            None => MessageVerdict::Take,
        }
    }
}

// ---------------------------------------------------------------------------
// Backups
// ---------------------------------------------------------------------------

/// The identifier of a backup of `topic` started at `unix_seconds`.
pub fn backup_id_for(topic: &str, unix_seconds: i64) -> (r: String)
    ensures
        r@ == "backup_"@ + topic@ + "_"@ + signed_decimal(unix_seconds as int),
{
    let secs = i64_decimal(unix_seconds);
    concat2(concat3("backup_", topic, "_").as_str(), secs.as_str())
}

/// How far a backup has got: how many messages it has taken, out of how many
/// it may take, and where each partition ends.
pub struct BackupCursor {
    total_messages: u64,
    max_messages: u64,
    end_offset: Option<i64>,
}

impl BackupCursor {
    /// The cursor never counts more messages than the backup may take.
    #[verifier::type_invariant]
    closed spec fn within_limit(self) -> bool {
        self.total_messages <= self.max_messages
    }

    pub closed spec fn spec_total(self) -> u64 {
        self.total_messages
    }

    pub closed spec fn spec_limit(self) -> u64 {
        self.max_messages
    }

    pub closed spec fn spec_end_offset(self) -> Option<i64> {
        self.end_offset
    }

    /// A fresh cursor for the request: nothing taken, the request's message
    /// limit (none: as many as `u64` counts), its end offset.
    pub fn new(request: &MessageBackupRequest) -> (r: BackupCursor)
        ensures
            r.spec_total() == 0,
            r.spec_limit() == match request.max_messages {
                Some(m) => m,
                None => u64::MAX,
            },
            r.spec_end_offset() == request.end_offset,
    {
        let max_messages = match request.max_messages {
            Some(m) => m,
            None => u64::MAX,
        };
        BackupCursor { total_messages: 0, max_messages, end_offset: request.end_offset }
    }

    /// The number of messages taken so far.
    pub fn total_messages(&self) -> (r: u64)
        ensures
            r == self.spec_total(),
            r <= self.spec_limit(),
    {
        proof {
            use_type_invariant(self);
        }
        self.total_messages
    }

    /// The verdict on a message at `offset` of `message_partition` while
    /// reading `partition`: other partitions are passed over; the partition
    /// ends at the end offset, and every partition ends once the limit is
    /// reached; otherwise the message is taken.
    pub fn verdict(&self, partition: i32, message_partition: i32, offset: i64) -> (r: MessageVerdict)
        ensures
            r == if offset_verdict(partition, message_partition, offset, self.spec_end_offset())
                == MessageVerdict::Take && self.spec_total() >= self.spec_limit() {
                MessageVerdict::EndPartition
            } else {
                offset_verdict(partition, message_partition, offset, self.spec_end_offset())
            },
            r == MessageVerdict::Take ==> self.spec_total() < self.spec_limit(),
    {
        let v = migration_verdict(partition, message_partition, offset, self.end_offset);
        if v == MessageVerdict::Take && self.total_messages >= self.max_messages {
            MessageVerdict::EndPartition
        } else {
            v
        }
    }

    /// Counts a taken message.
    pub fn take(&mut self)
        requires
            old(self).spec_total() < old(self).spec_limit(),
        ensures
            final(self).spec_total() == old(self).spec_total() + 1,
            final(self).spec_limit() == old(self).spec_limit(),
            final(self).spec_end_offset() == old(self).spec_end_offset(),
    {
        self.total_messages = self.total_messages + 1;
    }
}

/// A message as a backup stores it: the timestamp in milliseconds (0 where
/// the message has none), and the headers only where they are asked for (by
/// default they are).
pub fn backup_message(
    offset: i64,
    timestamp_ms: Option<i64>,
    key: Option<String>,
    value: String,
    headers: Option<Vec<(String, String)>>,
    include_headers: Option<bool>,
) -> (r: BackupMessage)
    ensures
        r.offset == offset,
        r.timestamp == match timestamp_ms {
            Some(t) => t,
            None => 0,
        },
        r.key == key,
        r.value == value,
        r.headers == match include_headers {
            Some(false) => None,
            _ => headers,
        },
{
    let keep_headers = match include_headers {
        Some(b) => b,
        None => true,
    };
    BackupMessage {
        offset,
        timestamp: match timestamp_ms {
            Some(t) => t,
            None => 0,
        },
        key,
        value,
        headers: if keep_headers {
            headers
        } else {
            None
        },
    }
}

/// What a partition's backup stores: nothing where no message was taken, and
/// otherwise the messages with the backup's identity, a checksum left to the
/// storage (0), and the time the backup started.
pub fn partition_backup(
    backup_id: &String,
    topic: &String,
    partition: i32,
    messages: Vec<BackupMessage>,
    created_at: &String,
) -> (r: Option<BackupData>)
    ensures
        r is None <==> messages@.len() == 0,
        r matches Some(d) ==> d.backup_id == *backup_id && d.topic == *topic && d.partition
            == partition && d.messages@ == messages@ && d.checksum == 0 && d.created_at
            == *created_at,
{
    if messages.len() == 0 {
        None
    } else {
        Some(
            BackupData {
                backup_id: backup_id.clone(),
                topic: topic.clone(),
                partition,
                messages,
                checksum: 0,
                created_at: created_at.clone(),
            },
        )
    }
}

// ---------------------------------------------------------------------------
// Restores
// ---------------------------------------------------------------------------

/// The partitions a restore works through: those asked for, or else all the
/// backup holds. Those asked for that the backup does not hold are passed over
/// one by one (`restores_partition`).
pub fn partitions_to_restore(request: &MessageRestoreRequest, backed_up: &Vec<i32>) -> (r: Vec<i32>)
    ensures
        r@ == match request.partitions {
            Some(p) => p@,
            None => backed_up@,
        },
{
    match &request.partitions {
        Some(p) => p.clone(),
        None => backed_up.clone(),
    }
}

/// Whether the backup holds the partition.
pub fn restores_partition(partition: i32, backed_up: &Vec<i32>) -> (r: bool)
    ensures
        r == backed_up@.contains(partition),
{
    let mut i: usize = 0;
    while i < backed_up.len()
        invariant
            i <= backed_up.len(),
            forall|j: int| 0 <= j < i ==> backed_up@[j] != partition,
        decreases backed_up.len() - i,
    {
        if backed_up[i] == partition {
            return true;
        }
        i = i + 1;
    }
    false
}

/// The record that a restore sends for a stored message.
pub struct RestoreRecord {
    pub payload: String,
    pub key: Option<String>,
    pub headers: Option<Vec<(String, String)>>,
}

/// The record that restores `message`: its value, its key unless keys are
/// not to be kept, its headers unless headers are not to be kept.
pub fn restore_record(message: BackupMessage, request: &MessageRestoreRequest) -> (r: RestoreRecord)
    ensures
        r.payload == message.value,
        r.key == match request.preserve_keys {
            Some(false) => None,
            _ => message.key,
        },
        r.headers == match request.preserve_headers {
            Some(false) => None,
            _ => message.headers,
        },
{
    let keep_keys = match request.preserve_keys {
        Some(b) => b,
        None => true,
    };
    let keep_headers = match request.preserve_headers {
        Some(b) => b,
        None => true,
    };
    RestoreRecord {
        payload: message.value,
        key: if keep_keys {
            message.key
        } else {
            None
        },
        headers: if keep_headers {
            message.headers
        } else {
            None
        },
    }
}

// ---------------------------------------------------------------------------
// Migrations
// ---------------------------------------------------------------------------

/// The key a migrated message is sent with: the source key, behind the
/// transformation's key prefix where there is one; no key stays no key.
pub fn migrated_key(key: Option<String>, transform: &Option<MessageTransformation>) -> (r: Option<String>)
    ensures
        match key {
            None => r is None,
            Some(k) => r matches Some(t) && t@ == match transform {
                Some(tr) => match tr.key_prefix {
                    Some(p) => p@ + k@,
                    None => k@,
                },
                None => k@,
            },
        },
{
    match key {
        None => None,
        Some(k) => match transform {
            Some(tr) => match &tr.key_prefix {
                Some(p) => Some(concat2(p.as_str(), k.as_str())),
                None => Some(k),
            },
            None => Some(k),
        },
    }
}

// ---------------------------------------------------------------------------
// Queue drains
// ---------------------------------------------------------------------------

/// The sum of the lags.
pub open spec fn lag_sum(lags: Seq<i64>) -> int
    decreases lags.len(),
{
    if lags.len() == 0 {
        0
    } else {
        lag_sum(lags.drop_last()) + lags.last()
    }
}

/// The lags of the offsets.
pub open spec fn offset_lags(offsets: Seq<ConsumerGroupOffset>) -> Seq<i64> {
    offsets.map_values(|o: ConsumerGroupOffset| o.lag)
}

/// The lags that partitions ended with.
pub open spec fn end_lags(statuses: Seq<PartitionDrainStatus>) -> Seq<i64> {
    statuses.map_values(|s: PartitionDrainStatus| s.lag_end)
}

/// The settings of a drain: how long to wait (300 s), how often to look
/// (5000 ms), and the lag under which a partition counts as drained (0).
pub fn drain_settings(request: &QueueDrainRequest) -> (r: (u64, u64, i64))
    ensures
        r.0 == match request.timeout_seconds {
            Some(t) => t,
            None => 300,
        },
        r.1 == match request.check_interval_ms {
            Some(t) => t,
            None => 5000,
        },
        r.2 == match request.max_lag_threshold {
            Some(t) => t,
            None => 0,
        },
{
    (
        match request.timeout_seconds {
            Some(t) => t,
            None => 300,
        },
        match request.check_interval_ms {
            Some(t) => t,
            None => 5000,
        },
        match request.max_lag_threshold {
            Some(t) => t,
            None => 0,
        },
    )
}

/// The partition statuses a drain starts from, one per offset, with the
/// offsets' total lag: each starts and ends at its lag, drained where the lag
/// is within the threshold.
pub fn initial_drain_status(offsets: &Vec<ConsumerGroupOffset>, max_lag: i64) -> (r: (i64, Vec<PartitionDrainStatus>))
    requires
        forall|k: int| 0 <= k <= offsets@.len() ==> i64::MIN <= #[trigger] lag_sum(offset_lags(offsets@.take(k))) <= i64::MAX,
    ensures
        r.0 == lag_sum(offset_lags(offsets@)),
        r.1@.len() == offsets@.len(),
        forall|i: int| 0 <= i < offsets@.len() ==> {
            let s = #[trigger] r.1@[i];
            &&& s.topic == offsets@[i].topic
            &&& s.partition == offsets@[i].partition
            &&& s.lag_start == offsets@[i].lag
            &&& s.lag_end == offsets@[i].lag
            &&& s.is_drained == (offsets@[i].lag <= max_lag)
        },
{
    let mut total: i64 = 0;
    let mut statuses: Vec<PartitionDrainStatus> = Vec::new();
    let mut i: usize = 0;
    while i < offsets.len()
        invariant
            i <= offsets@.len(),
            forall|k: int| 0 <= k <= offsets@.len() ==> i64::MIN <= #[trigger] lag_sum(offset_lags(offsets@.take(k))) <= i64::MAX,
            total == lag_sum(offset_lags(offsets@.take(i as int))),
            statuses@.len() == i,
            forall|j: int| 0 <= j < i ==> {
                let s = #[trigger] statuses@[j];
                &&& s.topic == offsets@[j].topic
                &&& s.partition == offsets@[j].partition
                &&& s.lag_start == offsets@[j].lag
                &&& s.lag_end == offsets@[j].lag
                &&& s.is_drained == (offsets@[j].lag <= max_lag)
            },
        decreases offsets@.len() - i,
    {
        let o = &offsets[i];
        proof {
            assert(offset_lags(offsets@.take(i + 1)).drop_last() =~= offset_lags(offsets@.take(i as int)));
            assert(offset_lags(offsets@.take(i + 1)).last() == o.lag);
            assert(lag_sum(offset_lags(offsets@.take(i + 1))) == total + o.lag);
        }
        total = total + o.lag;
        statuses.push(
            PartitionDrainStatus {
                topic: o.topic.clone(),
                partition: o.partition,
                lag_start: o.lag,
                lag_end: o.lag,
                is_drained: o.lag <= max_lag,
            },
        );
        i = i + 1;
    }
    assert(offsets@.take(offsets@.len() as int) =~= offsets@);
    (total, statuses)
}

/// One look at the lags during a drain: the statuses take the new lag of the
/// offset at their position (those beyond the offsets keep theirs), and the
/// answer is whether every offset is within the threshold.
pub fn observe_drain(statuses: &mut Vec<PartitionDrainStatus>, current: &Vec<ConsumerGroupOffset>, max_lag: i64) -> (all_drained: bool)
    ensures
        all_drained == forall|j: int| 0 <= j < current@.len() ==> #[trigger] current@[j].lag <= max_lag,
        final(statuses)@.len() == old(statuses)@.len(),
        forall|i: int| 0 <= i < old(statuses)@.len() ==> {
            let s = #[trigger] final(statuses)@[i];
            let o = old(statuses)@[i];
            &&& s.topic == o.topic
            &&& s.partition == o.partition
            &&& s.lag_start == o.lag_start
            &&& if i < current@.len() {
                s.lag_end == current@[i].lag && s.is_drained == (current@[i].lag <= max_lag)
            } else {
                s.lag_end == o.lag_end && s.is_drained == o.is_drained
            }
        },
{
    let mut all = true;
    let mut i: usize = 0;
    while i < current.len()
        invariant
            i <= current@.len(),
            statuses@.len() == old(statuses)@.len(),
            all == forall|j: int| 0 <= j < i ==> #[trigger] current@[j].lag <= max_lag,
            forall|k: int| 0 <= k < old(statuses)@.len() ==> {
                let s = #[trigger] statuses@[k];
                let o = old(statuses)@[k];
                &&& s.topic == o.topic
                &&& s.partition == o.partition
                &&& s.lag_start == o.lag_start
                &&& if k < i {
                    s.lag_end == current@[k].lag && s.is_drained == (current@[k].lag <= max_lag)
                } else {
                    s.lag_end == o.lag_end && s.is_drained == o.is_drained
                }
            },
        decreases current@.len() - i,
    {
        let lag = current[i].lag;
        if i < statuses.len() {
            let old_s = &statuses[i];
            let updated = PartitionDrainStatus {
                topic: old_s.topic.clone(),
                partition: old_s.partition,
                lag_start: old_s.lag_start,
                lag_end: lag,
                is_drained: lag <= max_lag,
            };
            statuses.set(i, updated);
        }
        if lag > max_lag {
            all = false;
        }
        i = i + 1;
    }
    all
}

/// The total lag that the partitions ended with.
pub fn total_end_lag(statuses: &Vec<PartitionDrainStatus>) -> (r: i64)
    requires
        forall|k: int| 0 <= k <= statuses@.len() ==> i64::MIN <= #[trigger] lag_sum(end_lags(statuses@.take(k))) <= i64::MAX,
    ensures
        r == lag_sum(end_lags(statuses@)),
{
    let mut total: i64 = 0;
    let mut i: usize = 0;
    while i < statuses.len()
        invariant
            i <= statuses@.len(),
            forall|k: int| 0 <= k <= statuses@.len() ==> i64::MIN <= #[trigger] lag_sum(end_lags(statuses@.take(k))) <= i64::MAX,
            total == lag_sum(end_lags(statuses@.take(i as int))),
        decreases statuses@.len() - i,
    {
        proof {
            assert(end_lags(statuses@.take(i + 1)).drop_last() =~= end_lags(statuses@.take(i as int)));
            assert(end_lags(statuses@.take(i + 1)).last() == statuses@[i as int].lag_end);
            assert(lag_sum(end_lags(statuses@.take(i + 1))) == total + statuses@[i as int].lag_end);
        }
        total = total + statuses[i].lag_end;
        i = i + 1;
    }
    assert(statuses@.take(statuses@.len() as int) =~= statuses@);
    total
}

// ---------------------------------------------------------------------------
// Consuming and producing
// ---------------------------------------------------------------------------

/// The consumer settings added to a cluster's client settings: the group, the
/// client id, manual commits, and where a new group starts reading.
pub open spec fn consumer_settings_spec(group_id: Seq<char>, from_beginning: bool) -> Seq<(Seq<char>, Seq<char>)> {
    seq![
        ("group.id"@, group_id),
        ("client.id"@, "mayyam-consumer"@),
        ("enable.auto.commit"@, "false"@),
        ("auto.offset.reset"@, if from_beginning { "earliest"@ } else { "latest"@ }),
    ]
}

/// The consumer settings for the options: reading from the beginning only
/// where asked.
pub fn consumer_settings(options: &ConsumeOptions) -> (r: Vec<(String, String)>)
    ensures
        settings_view(r@) == consumer_settings_spec(
            options.group_id@,
            options.from_beginning == Some(true),
        ),
{
    let from_beginning = match options.from_beginning {
        Some(b) => b,
        None => false,
    };
    let mut r: Vec<(String, String)> = Vec::new();
    r.push((owned("group.id"), options.group_id.clone()));
    r.push((owned("client.id"), owned("mayyam-consumer")));
    r.push((owned("enable.auto.commit"), owned("false")));
    r.push((owned("auto.offset.reset"), owned(if from_beginning { "earliest" } else { "latest" })));
    assert(settings_view(r@) =~= consumer_settings_spec(
        options.group_id@,
        options.from_beginning == Some(true),
    ));
    r
}

/// How many messages a consume returns at most (10) and how long it waits
/// in milliseconds (5000).
pub fn consume_limits(options: &ConsumeOptions) -> (r: (u64, u64))
    ensures
        r.0 == match options.max_messages {
            Some(m) => m,
            None => 10,
        },
        r.1 == match options.timeout_ms {
            Some(t) => t,
            None => 5000,
        },
{
    (
        match options.max_messages {
            Some(m) => m,
            None => 10,
        },
        match options.timeout_ms {
            Some(t) => t,
            None => 5000,
        },
    )
}

/// The delay before the next attempt to produce a message, in milliseconds:
/// 100 ms doubled for every attempt already made; none after the last attempt.
pub fn retry_delay_ms(attempt: u32, max_retries: u32) -> (r: Option<u64>)
    requires
        attempt < max_retries ==> 100 * pow2(attempt as nat) <= u64::MAX,
    ensures
        r == if attempt < max_retries {
            Some((100 * pow2(attempt as nat)) as u64)
        } else {
            None::<u64>
        },
{
    if attempt >= max_retries {
        return None;
    }
    let mut factor: u64 = 1;
    let mut k: u32 = 0;
    proof {
        vstd::arithmetic::power2::lemma2_to64();
    }
    while k < attempt
        invariant
            k <= attempt,
            factor == pow2(k as nat),
            100 * pow2(attempt as nat) <= u64::MAX,
        decreases attempt - k,
    {
        proof {
            vstd::arithmetic::power2::lemma_pow2_unfold((k + 1) as nat);
            if k + 1 < attempt {
                vstd::arithmetic::power2::lemma_pow2_strictly_increases((k + 1) as nat, attempt as nat);
            }
        }
        factor = factor * 2;
        k = k + 1;
    }
    Some(100 * factor)
}

/// Every retry waits twice as long as the one before it.
pub proof fn lemma_retry_delays_double(attempt: nat)
    ensures
        100 * pow2(attempt + 1) == 2 * (100 * pow2(attempt)),
{
    vstd::arithmetic::power2::lemma_pow2_unfold(attempt + 1);
}

/// The JSON number of an integer, as serde writes one: non-negative
/// integers as unsigned, negative ones as signed.
pub open spec fn int_value(n: i64) -> JsonValue {
    if n >= 0 {
        JsonValue::Number(JsonNumber::PosInt(n as u64))
    } else {
        JsonValue::Number(JsonNumber::NegInt(n))
    }
}

fn int_json(n: i64) -> (r: JsonValue)
    ensures
        r == int_value(n),
{
    if n >= 0 {
        JsonValue::Number(JsonNumber::PosInt(n as u64))
    } else {
        JsonValue::Number(JsonNumber::NegInt(n))
    }
}

/// What one message of a batch came to: sent to a partition at an offset, or
/// refused with an error text.
pub enum BatchOutcome {
    Sent { partition: i32, offset: i64 },
    Failed { error: String },
}

/// The result entry of one message of a batch: its partition, offset and
/// success, or its error.
pub fn batch_result_entry(outcome: &BatchOutcome) -> (r: JsonValue)
    ensures
        r is Object,
        match outcome {
            BatchOutcome::Sent { partition, offset } => {
                &&& entries_of(r).len() == 3
                &&& entries_of(r)[0] == ("partition"@, int_value(*partition as i64))
                &&& entries_of(r)[1] == ("offset"@, int_value(*offset))
                &&& text_field(r, 2, "status"@, "success"@)
            },
            BatchOutcome::Failed { error } => {
                &&& entries_of(r).len() == 2
                &&& text_field(r, 0, "status"@, "error"@)
                &&& text_field(r, 1, "error"@, error@)
            },
        },
{
    match outcome {
        BatchOutcome::Sent { partition, offset } => ObjectBuilder::new().field(
            "partition",
            int_json(*partition as i64),
        ).field("offset", int_json(*offset)).field("status", JsonValue::text("success")).build(),
        BatchOutcome::Failed { error } => ObjectBuilder::new().field("status", JsonValue::text("error")).field(
            "error",
            JsonValue::text(error.as_str()),
        ).build(),
    }
}

// ---------------------------------------------------------------------------
// Operation counters
// ---------------------------------------------------------------------------

/// The counting part of the Kafka service's metrics; the running averages
/// (floating point) are kept by the caller beside it.
#[derive(Debug, Clone, Copy, PartialEq, Eq, Structural)]
pub struct KafkaCounters {
    pub messages_produced: u64,
    pub messages_consumed: u64,
    pub errors_count: u64,
    pub last_health_check: i64,
    pub active_connections: u32,
    pub backups_created: u64,
    pub backups_restored: u64,
    pub messages_backed_up: u64,
    pub messages_restored: u64,
    pub total_backup_size_bytes: u64,
    pub total_restore_size_bytes: u64,
    pub backup_errors: u64,
    pub restore_errors: u64,
    pub active_backups: u32,
    pub active_restores: u32,
    pub migrations_completed: u64,
    pub messages_migrated: u64,
    pub migration_errors: u64,
    pub drain_operations: u64,
}

/// Every counter that an operation can move has room for one more.
pub open spec fn has_room(c: KafkaCounters) -> bool {
    &&& c.errors_count < u64::MAX
    &&& c.backups_created < u64::MAX
    &&& c.backups_restored < u64::MAX
    &&& c.backup_errors < u64::MAX
    &&& c.restore_errors < u64::MAX
    &&& c.migrations_completed < u64::MAX
    &&& c.migration_errors < u64::MAX
    &&& c.drain_operations < u64::MAX
}

/// The counters after an operation: a backup, restore or migration counts
/// as done or as an error; a drain always counts; any other operation counts
/// only its failures.
pub open spec fn after_operation(c: KafkaCounters, operation: Seq<char>, success: bool) -> KafkaCounters {
    if operation == "backup"@ {
        if success {
            KafkaCounters { backups_created: (c.backups_created + 1) as u64, ..c }
        } else {
            KafkaCounters { backup_errors: (c.backup_errors + 1) as u64, ..c }
        }
    } else if operation == "restore"@ {
        if success {
            KafkaCounters { backups_restored: (c.backups_restored + 1) as u64, ..c }
        } else {
            KafkaCounters { restore_errors: (c.restore_errors + 1) as u64, ..c }
        }
    } else if operation == "migrate"@ {
        if success {
            KafkaCounters { migrations_completed: (c.migrations_completed + 1) as u64, ..c }
        } else {
            KafkaCounters { migration_errors: (c.migration_errors + 1) as u64, ..c }
        }
    } else if operation == "drain"@ {
        KafkaCounters { drain_operations: (c.drain_operations + 1) as u64, ..c }
    } else if !success {
        KafkaCounters { errors_count: (c.errors_count + 1) as u64, ..c }
    } else {
        c
    }
}

impl KafkaCounters {
    /// All counters at zero.
    pub fn new() -> (r: KafkaCounters)
        ensures
            r == (KafkaCounters {
                messages_produced: 0,
                messages_consumed: 0,
                errors_count: 0,
                last_health_check: 0,
                active_connections: 0,
                backups_created: 0,
                backups_restored: 0,
                messages_backed_up: 0,
                messages_restored: 0,
                total_backup_size_bytes: 0,
                total_restore_size_bytes: 0,
                backup_errors: 0,
                restore_errors: 0,
                active_backups: 0,
                active_restores: 0,
                migrations_completed: 0,
                messages_migrated: 0,
                migration_errors: 0,
                drain_operations: 0,
            }),
    {
        KafkaCounters {
            messages_produced: 0,
            messages_consumed: 0,
            errors_count: 0,
            last_health_check: 0,
            active_connections: 0,
            backups_created: 0,
            backups_restored: 0,
            messages_backed_up: 0,
            messages_restored: 0,
            total_backup_size_bytes: 0,
            total_restore_size_bytes: 0,
            backup_errors: 0,
            restore_errors: 0,
            active_backups: 0,
            active_restores: 0,
            migrations_completed: 0,
            messages_migrated: 0,
            migration_errors: 0,
            drain_operations: 0,
        }
    }

    /// Counts an operation and whether it succeeded.
    pub fn update_metrics(&mut self, operation: &str, success: bool)
        requires
            has_room(*old(self)),
        ensures
            *final(self) == after_operation(*old(self), operation@, success),
    {
        if crate::text::str_eq(operation, "backup") {
            if success {
                self.backups_created = self.backups_created + 1;
            } else {
                self.backup_errors = self.backup_errors + 1;
            }
        } else if crate::text::str_eq(operation, "restore") {
            if success {
                self.backups_restored = self.backups_restored + 1;
            } else {
                self.restore_errors = self.restore_errors + 1;
            }
        } else if crate::text::str_eq(operation, "migrate") {
            if success {
                self.migrations_completed = self.migrations_completed + 1;
            } else {
                self.migration_errors = self.migration_errors + 1;
            }
        } else if crate::text::str_eq(operation, "drain") {
            self.drain_operations = self.drain_operations + 1;
        } else if !success {
            self.errors_count = self.errors_count + 1;
        }
    }

    /// Counts a finished backup: its messages, its size, one more active backup.
    pub fn update_backup_metrics(&mut self, messages_count: u64, data_size: u64)
        requires
            old(self).messages_backed_up + messages_count <= u64::MAX,
            old(self).total_backup_size_bytes + data_size <= u64::MAX,
            old(self).active_backups < u32::MAX,
        ensures
            *final(self) == (KafkaCounters {
                messages_backed_up: (old(self).messages_backed_up + messages_count) as u64,
                total_backup_size_bytes: (old(self).total_backup_size_bytes + data_size) as u64,
                active_backups: (old(self).active_backups + 1) as u32,
                ..*old(self)
            }),
    {
        self.messages_backed_up = self.messages_backed_up + messages_count;
        self.total_backup_size_bytes = self.total_backup_size_bytes + data_size;
        self.active_backups = self.active_backups + 1;
    }

    /// Counts a finished restore: its messages, its size, one more active restore.
    pub fn update_restore_metrics(&mut self, messages_count: u64, data_size: u64)
        requires
            old(self).messages_restored + messages_count <= u64::MAX,
            old(self).total_restore_size_bytes + data_size <= u64::MAX,
            old(self).active_restores < u32::MAX,
        ensures
            *final(self) == (KafkaCounters {
                messages_restored: (old(self).messages_restored + messages_count) as u64,
                total_restore_size_bytes: (old(self).total_restore_size_bytes + data_size) as u64,
                active_restores: (old(self).active_restores + 1) as u32,
                ..*old(self)
            }),
    {
        self.messages_restored = self.messages_restored + messages_count;
        self.total_restore_size_bytes = self.total_restore_size_bytes + data_size;
        self.active_restores = self.active_restores + 1;
    }

    /// Counts migrated messages.
    pub fn update_migration_metrics(&mut self, messages_count: u64)
        requires
            old(self).messages_migrated + messages_count <= u64::MAX,
        ensures
            *final(self) == (KafkaCounters {
                messages_migrated: (old(self).messages_migrated + messages_count) as u64,
                ..*old(self)
            }),
    {
        self.messages_migrated = self.messages_migrated + messages_count;
    }
}

// ---------------------------------------------------------------------------
// Topic administration answers
// ---------------------------------------------------------------------------

/// The answer to adding partitions to a topic: a validation only checks that
/// the count is positive; otherwise the partitions are reported added.
pub fn partition_addition(topic_name: &str, partition_count: i32, validate_only: bool) -> (r: Result<JsonValue, AppError>)
    ensures
        r is Err <==> validate_only && partition_count <= 0,
        r matches Err(e) ==> e matches AppError::Validation(m) && m@ == "Partition count must be greater than 0"@,
        r matches Ok(v) ==> v is Object && if validate_only {
            &&& entries_of(v).len() == 2
            &&& text_field(v, 0, "message"@, "Partition addition validation successful"@)
            &&& entries_of(v)[1] == ("new_partition_count"@, int_value(partition_count as i64))
        } else {
            &&& entries_of(v).len() == 3
            &&& text_field(v, 0, "message"@, "Added "@ + signed_decimal(partition_count as int) + " partitions to topic "@ + topic_name@)
            &&& text_field(v, 1, "topic"@, topic_name@)
            &&& entries_of(v)[2] == ("partitions_added"@, int_value(partition_count as i64))
        },
{
    if validate_only {
        if partition_count <= 0 {
            return Err(AppError::Validation(owned("Partition count must be greater than 0")));
        }
        return Ok(ObjectBuilder::new().field("message", JsonValue::text("Partition addition validation successful")).field(
            "new_partition_count",
            int_json(partition_count as i64),
        ).build());
    }
    let n = i64_decimal(partition_count as i64);
    let message = concat2(concat3("Added ", n.as_str(), " partitions to topic ").as_str(), topic_name);
    Ok(ObjectBuilder::new().field("message", JsonValue::text(message.as_str())).field(
        "topic",
        JsonValue::text(topic_name),
    ).field("partitions_added", int_json(partition_count as i64)).build())
}

/// The answer to deleting a topic.
pub fn topic_deleted(topic_name: &str) -> (r: JsonValue)
    ensures
        r is Object,
        entries_of(r).len() == 1,
        text_field(r, 0, "message"@, "Topic "@ + topic_name@ + " deleted successfully"@),
{
    let message = concat3("Topic ", topic_name, " deleted successfully");
    ObjectBuilder::new().field("message", JsonValue::text(message.as_str())).build()
}

// ---------------------------------------------------------------------------
// Clusters and topics
// ---------------------------------------------------------------------------

/// A Kafka cluster as the application's configuration names it.
pub struct ConfiguredCluster {
    pub name: String,
    pub bootstrap_servers: Vec<String>,
    pub sasl_username: Option<String>,
    pub sasl_password: Option<String>,
    pub sasl_mechanism: Option<String>,
    pub security_protocol: String,
}

/// The position of the first configured cluster named `name`.
pub open spec fn first_named(clusters: Seq<ConfiguredCluster>, name: Seq<char>, from: int) -> Option<int>
    decreases clusters.len() - from,
{
    if from < 0 || from >= clusters.len() {
        None
    } else if clusters[from].name@ == name {
        Some(from)
    } else {
        first_named(clusters, name, from + 1)
    }
}

/// The connection settings of the configured cluster named `id`, for a
/// cluster that is not stored; an unknown name is not found.
pub fn configured_cluster(clusters: &Vec<ConfiguredCluster>, id: &str) -> (r: Result<KafkaClusterConfig, AppError>)
    ensures
        r is Err <==> first_named(clusters@, id@, 0) is None,
        r matches Err(e) ==> e matches AppError::NotFound(m) && m@ == "Kafka cluster with ID "@ + id@ + " not found"@,
        r matches Ok(c) ==> {
            let src = clusters@[first_named(clusters@, id@, 0).unwrap()];
            &&& c.id@ == id@
            &&& c.name@ == id@
            &&& c.bootstrap_servers@ == src.bootstrap_servers@
            &&& c.sasl_username == src.sasl_username
            &&& c.sasl_password == src.sasl_password
            &&& c.sasl_mechanism == src.sasl_mechanism
            &&& c.security_protocol == src.security_protocol
        },
{
    let mut i: usize = 0;
    while i < clusters.len()
        invariant
            i <= clusters@.len(),
            first_named(clusters@, id@, 0) == first_named(clusters@, id@, i as int),
        decreases clusters@.len() - i,
    {
        let c = &clusters[i];
        if crate::text::str_eq(c.name.as_str(), id) {
            return Ok(KafkaClusterConfig {
                id: c.name.clone(),
                name: c.name.clone(),
                bootstrap_servers: c.bootstrap_servers.clone(),
                sasl_username: c.sasl_username.clone(),
                sasl_password: c.sasl_password.clone(),
                sasl_mechanism: c.sasl_mechanism.clone(),
                security_protocol: c.security_protocol.clone(),
            });
        }
        i = i + 1;
    }
    Err(AppError::NotFound(concat3("Kafka cluster with ID ", id, " not found")))
}

/// The bootstrap servers that a stored cluster's configuration lists: the
/// strings of its `bootstrap_servers` array, when the configuration is an
/// object that has one.
pub open spec fn stored_servers_of(config: JsonValue) -> Seq<Seq<char>> {
    match config.spec_get("bootstrap_servers"@) {
        Some(v) => match v.spec_array() {
            Some(items) => strings_of(items),
            None => Seq::empty(),
        },
        None => Seq::empty(),
    }
}

/// The bootstrap servers of a stored cluster's configuration.
pub fn stored_bootstrap_servers(config: &JsonValue) -> (r: Vec<String>)
    ensures
        views(r@) == stored_servers_of(*config),
{
    let mut out: Vec<String> = Vec::new();
    assert(views(out@) =~= Seq::<Seq<char>>::empty());
    match config.get("bootstrap_servers") {
        Some(v) => match v {
            JsonValue::Array(l) => {
                collect_strings(&**l, &mut out);
                assert(views(out@) =~= strings_of(v.spec_array().unwrap()));
            },
            _ => {},
        },
        None => {},
    }
    out
}

/// A stored cluster as the cluster list shows it: its id, name, the
/// bootstrap servers of its configuration, its status and its two times.
pub fn cluster_summary(
    id: &str,
    name: &str,
    config: &JsonValue,
    status: &str,
    created_at: JsonValue,
    last_connected_at: JsonValue,
) -> (r: JsonValue)
    ensures
        entries_of(r).len() == 6,
        text_field(r, 0, "id"@, id@),
        text_field(r, 1, "name"@, name@),
        entries_of(r)[2].0 == "bootstrap_servers"@,
        entries_of(r)[2].1.spec_array() matches Some(items) && holds_texts(items, stored_servers_of(*config)),
        text_field(r, 3, "status"@, status@),
        entries_of(r)[4] == ("created_at"@, created_at),
        entries_of(r)[5] == ("last_connected_at"@, last_connected_at),
{
    let servers = stored_bootstrap_servers(config);
    let list = text_array(&servers);
    assert(servers@.map_values(|s: String| s@) =~= views(servers@));
    ObjectBuilder::new()
        .field("id", JsonValue::text(id))
        .field("name", JsonValue::text(name))
        .field("bootstrap_servers", list)
        .field("status", JsonValue::text(status))
        .field("created_at", created_at)
        .field("last_connected_at", last_connected_at)
        .build()
}

/// One broker of a health report: its id, host and port.
pub fn broker_entry(id: i32, host: &str, port: i32) -> (r: JsonValue)
    ensures
        entries_of(r).len() == 3,
        entries_of(r)[0] == ("id"@, int_value(id as i64)),
        text_field(r, 1, "host"@, host@),
        entries_of(r)[2] == ("port"@, int_value(port as i64)),
{
    ObjectBuilder::new()
        .field("id", int_json(id as i64))
        .field("host", JsonValue::text(host))
        .field("port", int_json(port as i64))
        .build()
}

/// The report of a cluster that answered: healthy, with its brokers, how
/// many topics it holds, and when it was asked (milliseconds since the epoch).
pub fn health_report(cluster_id: &str, brokers: Vec<JsonValue>, topics_count: u64, timestamp_ms: i64) -> (r: JsonValue)
    ensures
        entries_of(r).len() == 5,
        text_field(r, 0, "status"@, "healthy"@),
        text_field(r, 1, "cluster_id"@, cluster_id@),
        entries_of(r)[2].0 == "brokers"@,
        entries_of(r)[2].1.spec_array() == Some(brokers@),
        entries_of(r)[3] == ("topics_count"@, JsonValue::Number(JsonNumber::PosInt(topics_count))),
        entries_of(r)[4] == ("timestamp"@, int_value(timestamp_ms)),
{
    let list = ArrayBuilder::from_items(brokers).build();
    ObjectBuilder::new()
        .field("status", JsonValue::text("healthy"))
        .field("cluster_id", JsonValue::text(cluster_id))
        .field("brokers", list)
        .field("topics_count", JsonValue::Number(JsonNumber::PosInt(topics_count)))
        .field("timestamp", int_json(timestamp_ms))
        .build()
}

/// The answer to a message that was produced: the delivery as the producer
/// reports it, `(a, b)`, is written with `a` under "offset" and `b` under
/// "partition", as the service has always written it.
pub fn produced_response(delivery: (i32, i64), timestamp_ms: i64) -> (r: JsonValue)
    ensures
        entries_of(r).len() == 4,
        text_field(r, 0, "message"@, "Message produced successfully"@),
        entries_of(r)[1] == ("offset"@, int_value(delivery.0 as i64)),
        entries_of(r)[2] == ("partition"@, int_value(delivery.1)),
        entries_of(r)[3] == ("timestamp"@, int_value(timestamp_ms)),
{
    ObjectBuilder::new()
        .field("message", JsonValue::text("Message produced successfully"))
        .field("offset", int_json(delivery.0 as i64))
        .field("partition", int_json(delivery.1))
        .field("timestamp", int_json(timestamp_ms))
        .build()
}

/// The text that `String::from_utf8_lossy` makes of these bytes.
pub uninterp spec fn utf8_lossy_text(bytes: Seq<u8>) -> Seq<char>;

/// Calls `String::from_utf8_lossy`; the contract claims only that the text is
/// std's for these bytes.
#[verifier::external_body]
fn lossy_text(bytes: &[u8]) -> (r: String)
    ensures
        r@ == utf8_lossy_text(bytes@),
{
    String::from_utf8_lossy(bytes).to_string()
}

/// A header of a consumed message as the answer lists it: its key and its
/// value read as text (empty where it has none).
pub open spec fn header_pair(key: Seq<char>, value: Option<Seq<u8>>) -> Seq<Seq<char>> {
    seq![
        key,
        match value {
            Some(b) => utf8_lossy_text(b),
            None => Seq::empty(),
        },
    ]
}

/// The item lists one header: an array of its key and value texts.
pub open spec fn header_item(v: JsonValue, h: (String, Option<Vec<u8>>)) -> bool {
    v.spec_array() matches Some(pair) && holds_texts(
        pair,
        header_pair(
            h.0@,
            match h.1 {
                Some(b) => Some(b@),
                None => None,
            },
        ),
    )
}

/// The headers are listed in order, one item each.
pub open spec fn lists_headers(items: Seq<JsonValue>, headers: Seq<(String, Option<Vec<u8>>)>) -> bool {
    &&& items.len() == headers.len()
    &&& forall|i: int| 0 <= i < items.len() ==> header_item(#[trigger] items[i], headers[i])
}

/// A consumed message as the answer lists it: partition, offset, timestamp
/// (0 where it has none), key (null where it has none), value (empty where
/// it has no payload) and headers; bytes are read as text the lossy way.
pub fn consumed_message(
    partition: i32,
    offset: i64,
    timestamp_ms: Option<i64>,
    key: Option<&[u8]>,
    payload: Option<&[u8]>,
    headers: &Vec<(String, Option<Vec<u8>>)>,
) -> (r: JsonValue)
    ensures
        entries_of(r).len() == 6,
        entries_of(r)[0] == ("partition"@, int_value(partition as i64)),
        entries_of(r)[1] == ("offset"@, int_value(offset)),
        entries_of(r)[2] == ("timestamp"@, int_value(
            match timestamp_ms {
                Some(t) => t,
                None => 0,
            },
        )),
        entries_of(r)[3].0 == "key"@,
        match key {
            Some(k) => entries_of(r)[3].1.spec_str() == Some(utf8_lossy_text(k@)),
            None => entries_of(r)[3].1 is Null,
        },
        text_field(
            r,
            4,
            "value"@,
            match payload {
                Some(p) => utf8_lossy_text(p@),
                None => Seq::empty(),
            },
        ),
        entries_of(r)[5].0 == "headers"@,
        entries_of(r)[5].1.spec_array() matches Some(items) && lists_headers(items, headers@),
{
    let key_json = match key {
        Some(k) => JsonValue::Str(lossy_text(k)),
        None => JsonValue::Null,
    };
    let value = match payload {
        Some(p) => lossy_text(p),
        None => String::new(),
    };
    let mut list = ArrayBuilder::new();
    let mut i: usize = 0;
    while i < headers.len()
        invariant
            i <= headers@.len(),
            list.items().len() == i,
            forall|j: int| 0 <= j < i ==> header_item(#[trigger] list.items()[j], headers@[j]),
        decreases headers@.len() - i,
    {
        let v = match &headers[i].1 {
            Some(b) => lossy_text(b.as_slice()),
            None => String::new(),
        };
        let pair = ArrayBuilder::new()
            .item(JsonValue::text(headers[i].0.as_str()))
            .item(JsonValue::Str(v))
            .build();
        assert(header_item(pair, headers@[i as int]));
        list = list.item(pair);
        i = i + 1;
    }
    ObjectBuilder::new()
        .field("partition", int_json(partition as i64))
        .field("offset", int_json(offset))
        .field("timestamp", int_json(match timestamp_ms { Some(t) => t, None => 0 }))
        .field("key", key_json)
        .field("value", JsonValue::Str(value))
        .field("headers", list.build())
        .build()
}

/// Topics whose names begin with `__` are Kafka's own and are not listed.
pub fn is_listed_topic(name: &str) -> (r: bool)
    ensures
        r == !crate::text::has_prefix(name@, "__"@),
{
    !crate::text::starts_with(name, "__")
}

} // verus!

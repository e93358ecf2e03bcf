//! The AWS control and data planes of the individual services, and the
//! request types they take.
use vstd::prelude::*;
use std::sync::Arc;
use crate::aws::service::AwsService;
use crate::aws::types::OpenSearchClusterHealthRequest;
use crate::chaos::{entries_of, text_field};
use crate::json::{holds_texts, text_array, ArrayBuilder, JsonNumber, JsonValue, ObjectBuilder};
use crate::text::{concat2, concat3, concat5, i64_decimal, signed_decimal};
use crate::time::{rfc3339_offset_text, to_rfc3339_offset, Timestamp};

verus! {

#[derive(Debug, Clone)]
pub struct KinesisStreamInfo {
    pub stream_name: String,
    pub stream_status: String,
    pub retention_period_hours: i32,
    pub shard_count: i32,
    pub enhanced_monitoring: Vec<String>,
}

#[derive(Debug, Clone)]
pub struct KinesisPutRecordRequest {
    pub stream_name: String,
    pub data: String,
    pub partition_key: String,
    pub sequence_number: Option<String>,
}

#[derive(Debug, Clone)]
pub struct S3BucketInfo {
    pub bucket_name: String,
    pub creation_date: String,
    pub region: String,
    pub versioning_enabled: bool,
}

#[derive(Debug, Clone)]
pub struct S3GetObjectRequest {
    pub bucket: String,
    pub key: String,
}

#[derive(Debug, Clone)]
pub struct S3PutObjectRequest {
    pub bucket: String,
    pub key: String,
    pub content_type: Option<String>,
    pub body: String,
}

#[derive(Debug, Clone)]
pub struct SqsSendMessageRequest {
    pub queue_url: String,
    pub message_body: String,
}

#[derive(Debug, Clone)]
pub struct SqsReceiveMessageRequest {
    pub queue_url: String,
    pub max_number_of_messages: Option<i32>,
    pub visibility_timeout: Option<i32>,
    pub wait_time_seconds: Option<i32>,
}

/// A resource as a sync hands it to the inventory; it has no id until the
/// inventory stores it.
pub struct AwsResourceDto {
    pub id: Option<String>,
    pub account_id: String,
    pub profile: Option<String>,
    pub region: String,
    pub resource_type: String,
    pub resource_id: String,
    pub arn: String,
    pub name: Option<String>,
    pub tags: JsonValue,
    pub resource_data: JsonValue,
}

/// The resource belongs to this account, profile and region, has no id yet,
/// and carries these type, id, ARN and name.
pub open spec fn resource_is(
    r: AwsResourceDto,
    account_id: Seq<char>,
    profile: Option<&str>,
    region: Seq<char>,
    resource_type: Seq<char>,
    resource_id: Seq<char>,
    arn: Seq<char>,
    name: Seq<char>,
) -> bool {
    &&& r.id is None
    &&& r.account_id@ == account_id
    &&& match profile {
        Some(p) => r.profile matches Some(q) && q@ == p@,
        None => r.profile is None,
    }
    &&& r.region@ == region
    &&& r.resource_type@ == resource_type
    &&& r.resource_id@ == resource_id
    &&& r.arn@ == arn
    &&& r.name matches Some(n) && n@ == name
}

/// The tags are an object of two texts.
pub open spec fn two_tags(v: JsonValue, k1: Seq<char>, t1: Seq<char>, k2: Seq<char>, t2: Seq<char>) -> bool {
    entries_of(v).len() == 2 && text_field(v, 0, k1, t1) && text_field(v, 1, k2, t2)
}

fn tags2(k1: &str, t1: &str, k2: &str, t2: &str) -> (r: JsonValue)
    ensures
        two_tags(r, k1@, t1@, k2@, t2@),
{
    ObjectBuilder::new().field(k1, JsonValue::text(t1)).field(k2, JsonValue::text(t2)).build()
}

fn sample_resource(
    account_id: &str,
    profile: Option<&str>,
    region: &str,
    resource_type: &str,
    resource_id: &str,
    arn: String,
    name: &str,
    tags: JsonValue,
    resource_data: JsonValue,
) -> (r: AwsResourceDto)
    ensures
        resource_is(r, account_id@, profile, region@, resource_type@, resource_id@, arn@, name@),
        r.tags == tags,
        r.resource_data == resource_data,
{
    AwsResourceDto {
        id: None,
        account_id: crate::text::owned(account_id),
        profile: match profile {
            Some(p) => Some(crate::text::owned(p)),
            None => None,
        },
        region: crate::text::owned(region),
        resource_type: crate::text::owned(resource_type),
        resource_id: crate::text::owned(resource_id),
        arn,
        name: Some(crate::text::owned(name)),
        tags,
        resource_data,
    }
}

fn num(n: u64) -> (r: JsonValue)
    ensures
        r == JsonValue::Number(JsonNumber::PosInt(n)),
{
    JsonValue::Number(JsonNumber::PosInt(n))
}

/// The one stream a Kinesis sync reports for a region: its data.
pub open spec fn sample_stream_data(v: JsonValue) -> bool {
    &&& entries_of(v).len() == 8
    &&& text_field(v, 0, "stream_name"@, "sample-data-stream"@)
    &&& text_field(v, 1, "stream_status"@, "ACTIVE"@)
    &&& entries_of(v)[2] == ("retention_period_hours"@, JsonValue::Number(JsonNumber::PosInt(24)))
    &&& entries_of(v)[3] == ("shard_count"@, JsonValue::Number(JsonNumber::PosInt(2)))
    &&& entries_of(v)[4].0 == "enhanced_monitoring"@
    &&& entries_of(v)[4].1.spec_array() matches Some(items) && holds_texts(items, seq!["ALL"@])
    &&& text_field(v, 5, "encryption_type"@, "KMS"@)
    &&& text_field(v, 6, "creation_timestamp"@, "2023-02-15T09:30:00Z"@)
    &&& entries_of(v)[7] == ("open_shard_count"@, JsonValue::Number(JsonNumber::PosInt(2)))
}

/// The one bucket an S3 sync reports: its data in `region`.
pub open spec fn sample_bucket_data(v: JsonValue, region: Seq<char>) -> bool {
    &&& entries_of(v).len() == 4
    &&& text_field(v, 0, "creation_date"@, "2023-01-15T10:00:00Z"@)
    &&& text_field(v, 1, "region"@, region)
    &&& entries_of(v)[2] == ("versioning_enabled"@, JsonValue::Bool(true))
    &&& entries_of(v)[3].0 == "lifecycle_rules"@
    &&& entries_of(v)[3].1.spec_array() matches Some(rules) && rules.len() == 1 && {
        let rule = rules[0];
        &&& entries_of(rule).len() == 4
        &&& text_field(rule, 0, "id"@, "archive-old-logs"@)
        &&& text_field(rule, 1, "prefix"@, "logs/"@)
        &&& entries_of(rule)[2] == ("transition_days"@, JsonValue::Number(JsonNumber::PosInt(90)))
        &&& text_field(rule, 3, "storage_class"@, "GLACIER"@)
    }
}

/// The one queue an SQS sync reports: its data for `account_id` in `region`.
pub open spec fn sample_queue_data(v: JsonValue, account_id: Seq<char>, region: Seq<char>) -> bool {
    &&& entries_of(v).len() == 8
    &&& text_field(v, 0, "queue_url"@, "https://sqs."@ + region + ".amazonaws.com/"@ + account_id + "/sample-queue"@)
    &&& entries_of(v)[1] == ("message_retention_period"@, JsonValue::Number(JsonNumber::PosInt(345600)))
    &&& entries_of(v)[2] == ("visibility_timeout"@, JsonValue::Number(JsonNumber::PosInt(30)))
    &&& entries_of(v)[3] == ("delay_seconds"@, JsonValue::Number(JsonNumber::PosInt(0)))
    &&& entries_of(v)[4] == ("receive_message_wait_time_seconds"@, JsonValue::Number(JsonNumber::PosInt(0)))
    &&& entries_of(v)[5] == ("max_message_size"@, JsonValue::Number(JsonNumber::PosInt(262144)))
    &&& entries_of(v)[6] == ("fifo_queue"@, JsonValue::Bool(false))
    &&& entries_of(v)[7] == ("content_based_deduplication"@, JsonValue::Bool(false))
}

/// An object of one field holding `v`.
pub open spec fn single(o: JsonValue, k: Seq<char>, v: JsonValue) -> bool {
    entries_of(o).len() == 1 && entries_of(o)[0] == (k, v)
}

/// The one domain an OpenSearch sync reports: its data for `account_id` in
/// `region`.
pub open spec fn sample_domain_data(v: JsonValue, account_id: Seq<char>, region: Seq<char>) -> bool {
    &&& entries_of(v).len() == 12
    &&& text_field(v, 0, "domain_name"@, "sample-domain"@)
    &&& text_field(v, 1, "domain_id"@, account_id + ":sample-domain"@)
    &&& text_field(v, 2, "engine_version"@, "OpenSearch_2.5"@)
    &&& entries_of(v)[3].0 == "cluster_config"@ && {
        let c = entries_of(v)[3].1;
        &&& entries_of(c).len() == 4
        &&& text_field(c, 0, "instance_type"@, "t3.small.search"@)
        &&& entries_of(c)[1] == ("instance_count"@, JsonValue::Number(JsonNumber::PosInt(1)))
        &&& entries_of(c)[2] == ("dedicated_master_enabled"@, JsonValue::Bool(false))
        &&& entries_of(c)[3] == ("zone_awareness_enabled"@, JsonValue::Bool(false))
    }
    &&& entries_of(v)[4].0 == "ebs_options"@ && {
        let e = entries_of(v)[4].1;
        &&& entries_of(e).len() == 4
        &&& entries_of(e)[0] == ("ebs_enabled"@, JsonValue::Bool(true))
        &&& text_field(e, 1, "volume_type"@, "gp3"@)
        &&& entries_of(e)[2] == ("volume_size"@, JsonValue::Number(JsonNumber::PosInt(10)))
        &&& entries_of(e)[3] == ("iops"@, JsonValue::Number(JsonNumber::PosInt(3000)))
    }
    &&& text_field(v, 5, "access_policies"@, "{\"Version\": \"2012-10-17\",\"Statement\":[]}"@)
    &&& entries_of(v)[6].0 == "snapshot_options"@ && single(
        entries_of(v)[6].1,
        "automated_snapshot_start_hour"@,
        JsonValue::Number(JsonNumber::PosInt(0)),
    )
    &&& entries_of(v)[7] == ("vpc_options"@, JsonValue::Null)
    &&& entries_of(v)[8].0 == "encryption_at_rest_options"@ && single(entries_of(v)[8].1, "enabled"@, JsonValue::Bool(true))
    &&& entries_of(v)[9].0 == "node_to_node_encryption_options"@ && single(entries_of(v)[9].1, "enabled"@, JsonValue::Bool(true))
    &&& entries_of(v)[10].0 == "advanced_options"@ && entries_of(entries_of(v)[10].1).len() == 1 && text_field(
        entries_of(v)[10].1,
        0,
        "rest.action.multi.allow_explicit_index"@,
        "true"@,
    )
    &&& entries_of(v)[11].0 == "endpoints"@ && entries_of(entries_of(v)[11].1).len() == 1 && text_field(
        entries_of(v)[11].1,
        0,
        "vpc"@,
        "vpc-sample-domain-"@ + account_id + "."@ + region + ".es.amazonaws.com"@,
    )
}

/// Kinesis control plane: stream inventory.
pub struct KinesisControlPlane {
    aws_service: Arc<AwsService>,
}

impl KinesisControlPlane {
    /// The shared AWS service that the plane works through.
    pub closed spec fn service(self) -> AwsService {
        *self.aws_service
    }

    pub fn new(aws_service: Arc<AwsService>) -> (r: Self)
        ensures
            r.service() == *aws_service,
    {
        Self { aws_service }
    }

    /// The streams a sync reports for a region: one sample stream.
    pub fn sample_streams(&self, account_id: &str, profile: Option<&str>, region: &str) -> (r: Vec<AwsResourceDto>)
        ensures
            r@.len() == 1,
            resource_is(
                r@[0],
                account_id@,
                profile,
                region@,
                "KinesisStream"@,
                "sample-data-stream"@,
                "arn:aws:kinesis:"@ + region@ + ":"@ + account_id@ + ":stream/sample-data-stream"@,
                "Sample Data Stream"@,
            ),
            two_tags(r@[0].tags, "Name"@, "Sample Data Stream"@, "Environment"@, "Development"@),
            sample_stream_data(r@[0].resource_data),
    {
        let mut monitoring: Vec<String> = Vec::new();
        monitoring.push(crate::text::owned("ALL"));
        let data = ObjectBuilder::new()
            .field("stream_name", JsonValue::text("sample-data-stream"))
            .field("stream_status", JsonValue::text("ACTIVE"))
            .field("retention_period_hours", num(24))
            .field("shard_count", num(2))
            .field("enhanced_monitoring", text_array(&monitoring))
            .field("encryption_type", JsonValue::text("KMS"))
            .field("creation_timestamp", JsonValue::text("2023-02-15T09:30:00Z"))
            .field("open_shard_count", num(2))
            .build();
        assert(monitoring@.map_values(|s: String| s@) =~= seq!["ALL"@]);
        let arn = concat5("arn:aws:kinesis:", region, ":", account_id, ":stream/sample-data-stream");
        let tags = tags2("Name", "Sample Data Stream", "Environment", "Development");
        let stream = sample_resource(account_id, profile, region, "KinesisStream", "sample-data-stream", arn, "Sample Data Stream", tags, data);
        let mut r: Vec<AwsResourceDto> = Vec::new();
        r.push(stream);
        r
    }
}

/// Kinesis data plane: records and stream metrics.
pub struct KinesisDataPlane {
    aws_service: Arc<AwsService>,
}

impl KinesisDataPlane {
    /// The shared AWS service that the plane works through.
    pub closed spec fn service(self) -> AwsService {
        *self.aws_service
    }

    pub fn new(aws_service: Arc<AwsService>) -> (r: Self)
        ensures
            r.service() == *aws_service,
    {
        Self { aws_service }
    }

    /// The answer to a record put on a stream: the sequence number, shard and
    /// encryption that the plane reports.
    pub fn put_record_answer(&self) -> (r: JsonValue)
        ensures
            entries_of(r).len() == 3,
            text_field(r, 0, "sequence_number"@, "49613369067872193874107527441867152207618406126793392130"@),
            text_field(r, 1, "shard_id"@, "shardId-000000000000"@),
            text_field(r, 2, "encryption_type"@, "KMS"@),
    {
        ObjectBuilder::new()
            .field("sequence_number", JsonValue::text("49613369067872193874107527441867152207618406126793392130"))
            .field("shard_id", JsonValue::text("shardId-000000000000"))
            .field("encryption_type", JsonValue::text("KMS"))
            .build()
    }
}

/// OpenSearch control plane: domain inventory.
pub struct OpenSearchControlPlane {
    aws_service: Arc<AwsService>,
}

impl OpenSearchControlPlane {
    /// The shared AWS service that the plane works through.
    pub closed spec fn service(self) -> AwsService {
        *self.aws_service
    }

    pub fn new(aws_service: Arc<AwsService>) -> (r: Self)
        ensures
            r.service() == *aws_service,
    {
        Self { aws_service }
    }

    /// The domains a sync reports for a region: one sample domain.
    pub fn sample_domain(&self, account_id: &str, profile: Option<&str>, region: &str) -> (r: AwsResourceDto)
        ensures
            resource_is(
                r,
                account_id@,
                profile,
                region@,
                "OpenSearchDomain"@,
                "sample-domain"@,
                "arn:aws:es:"@ + region@ + ":"@ + account_id@ + ":domain/sample-domain"@,
                "Sample OpenSearch Domain"@,
            ),
            two_tags(r.tags, "Name"@, "Sample OpenSearch Domain"@, "Environment"@, "Development"@),
            sample_domain_data(r.resource_data, account_id@, region@),
    {
        let cluster = ObjectBuilder::new()
            .field("instance_type", JsonValue::text("t3.small.search"))
            .field("instance_count", num(1))
            .field("dedicated_master_enabled", JsonValue::Bool(false))
            .field("zone_awareness_enabled", JsonValue::Bool(false))
            .build();
        let ebs = ObjectBuilder::new()
            .field("ebs_enabled", JsonValue::Bool(true))
            .field("volume_type", JsonValue::text("gp3"))
            .field("volume_size", num(10))
            .field("iops", num(3000))
            .build();
        let snapshot = ObjectBuilder::new().field("automated_snapshot_start_hour", num(0)).build();
        let at_rest = ObjectBuilder::new().field("enabled", JsonValue::Bool(true)).build();
        let node_to_node = ObjectBuilder::new().field("enabled", JsonValue::Bool(true)).build();
        let advanced = ObjectBuilder::new()
            .field("rest.action.multi.allow_explicit_index", JsonValue::text("true"))
            .build();
        let endpoint = concat5("vpc-sample-domain-", account_id, ".", region, ".es.amazonaws.com");
        let endpoints = ObjectBuilder::new().field("vpc", JsonValue::Str(endpoint)).build();
        let domain_id = concat2(account_id, ":sample-domain");
        let data = ObjectBuilder::new()
            .field("domain_name", JsonValue::text("sample-domain"))
            .field("domain_id", JsonValue::Str(domain_id))
            .field("engine_version", JsonValue::text("OpenSearch_2.5"))
            .field("cluster_config", cluster)
            .field("ebs_options", ebs)
            .field("access_policies", JsonValue::text("{\"Version\": \"2012-10-17\",\"Statement\":[]}"))
            .field("snapshot_options", snapshot)
            .field("vpc_options", JsonValue::Null)
            .field("encryption_at_rest_options", at_rest)
            .field("node_to_node_encryption_options", node_to_node)
            .field("advanced_options", advanced)
            .field("endpoints", endpoints)
            .build();
        let arn = concat5("arn:aws:es:", region, ":", account_id, ":domain/sample-domain");
        let tags = tags2("Name", "Sample OpenSearch Domain", "Environment", "Development");
        sample_resource(account_id, profile, region, "OpenSearchDomain", "sample-domain", arn, "Sample OpenSearch Domain", tags, data)
    }
}

/// The counts of a domain's health report, from its node count to its
/// longest queue wait.
pub open spec fn health_counts() -> Seq<(Seq<char>, JsonValue)> {
    seq![
        ("number_of_nodes"@, JsonValue::Number(JsonNumber::PosInt(1))),
        ("number_of_data_nodes"@, JsonValue::Number(JsonNumber::PosInt(1))),
        ("active_primary_shards"@, JsonValue::Number(JsonNumber::PosInt(5))),
        ("active_shards"@, JsonValue::Number(JsonNumber::PosInt(5))),
        ("relocating_shards"@, JsonValue::Number(JsonNumber::PosInt(0))),
        ("initializing_shards"@, JsonValue::Number(JsonNumber::PosInt(0))),
        ("unassigned_shards"@, JsonValue::Number(JsonNumber::PosInt(0))),
        ("delayed_unassigned_shards"@, JsonValue::Number(JsonNumber::PosInt(0))),
        ("number_of_pending_tasks"@, JsonValue::Number(JsonNumber::PosInt(0))),
        ("number_of_in_flight_fetch"@, JsonValue::Number(JsonNumber::PosInt(0))),
        ("task_max_waiting_in_queue_millis"@, JsonValue::Number(JsonNumber::PosInt(0))),
    ]
}

/// OpenSearch data plane: cluster health.
pub struct OpenSearchDataPlane {
    aws_service: Arc<AwsService>,
}

impl OpenSearchDataPlane {
    /// The shared AWS service that the plane works through.
    pub closed spec fn service(self) -> AwsService {
        *self.aws_service
    }

    pub fn new(aws_service: Arc<AwsService>) -> (r: Self)
        ensures
            r.service() == *aws_service,
    {
        Self { aws_service }
    }

    /// The health that the plane reports for a domain: green, one node, five
    /// active shards and nothing pending.
    pub fn cluster_health_answer(&self, request: &OpenSearchClusterHealthRequest) -> (r: JsonValue)
        ensures
            entries_of(r).len() == 15,
            text_field(r, 0, "cluster_name"@, request.domain_name@),
            text_field(r, 1, "status"@, "green"@),
            entries_of(r)[2] == ("timed_out"@, JsonValue::Bool(false)),
            entries_of(r).subrange(3, 14) == health_counts(),
            entries_of(r)[14].0 == "active_shards_percent_as_number"@,
            entries_of(r)[14].1 matches JsonValue::Number(JsonNumber::Float(t)) && t@ == "100.0"@,
    {
        let zero = 0u64;
        let b = ObjectBuilder::new()
            .field("cluster_name", JsonValue::text(request.domain_name.as_str()))
            .field("status", JsonValue::text("green"))
            .field("timed_out", JsonValue::Bool(false))
            .field("number_of_nodes", JsonValue::Number(JsonNumber::PosInt(1)))
            .field("number_of_data_nodes", JsonValue::Number(JsonNumber::PosInt(1)))
            .field("active_primary_shards", JsonValue::Number(JsonNumber::PosInt(5)))
            .field("active_shards", JsonValue::Number(JsonNumber::PosInt(5)))
            .field("relocating_shards", JsonValue::Number(JsonNumber::PosInt(zero)))
            .field("initializing_shards", JsonValue::Number(JsonNumber::PosInt(zero)))
            .field("unassigned_shards", JsonValue::Number(JsonNumber::PosInt(zero)))
            .field("delayed_unassigned_shards", JsonValue::Number(JsonNumber::PosInt(zero)))
            .field("number_of_pending_tasks", JsonValue::Number(JsonNumber::PosInt(zero)))
            .field("number_of_in_flight_fetch", JsonValue::Number(JsonNumber::PosInt(zero)))
            .field("task_max_waiting_in_queue_millis", JsonValue::Number(JsonNumber::PosInt(zero)))
            .field("active_shards_percent_as_number", JsonValue::Number(JsonNumber::Float(crate::text::owned("100.0"))));
        let r = b.build();
        assert(entries_of(r).subrange(3, 14) =~= health_counts());
        r
    }
}

/// RDS data plane: instance metrics.
pub struct RdsDataPlane {
    aws_service: Arc<AwsService>,
}

impl RdsDataPlane {
    /// The shared AWS service that the plane works through.
    pub closed spec fn service(self) -> AwsService {
        *self.aws_service
    }

    pub fn new(aws_service: Arc<AwsService>) -> (r: Self)
        ensures
            r.service() == *aws_service,
    {
        Self { aws_service }
    }
}

/// S3 control plane: bucket inventory.
pub struct S3ControlPlane {
    aws_service: Arc<AwsService>,
}

impl S3ControlPlane {
    /// The shared AWS service that the plane works through.
    pub closed spec fn service(self) -> AwsService {
        *self.aws_service
    }

    pub fn new(aws_service: Arc<AwsService>) -> (r: Self)
        ensures
            r.service() == *aws_service,
    {
        Self { aws_service }
    }

    /// The buckets a sync reports for a region: one sample bucket.
    pub fn sample_buckets(&self, account_id: &str, profile: Option<&str>, region: &str) -> (r: Vec<AwsResourceDto>)
        ensures
            r@.len() == 1,
            resource_is(
                r@[0],
                account_id@,
                profile,
                region@,
                "S3Bucket"@,
                "example-bucket-1"@,
                "arn:aws:s3:::example-bucket-1"@,
                "example-bucket-1"@,
            ),
            two_tags(r@[0].tags, "Purpose"@, "Logs"@, "Environment"@, "Development"@),
            sample_bucket_data(r@[0].resource_data, region@),
    {
        let rule = ObjectBuilder::new()
            .field("id", JsonValue::text("archive-old-logs"))
            .field("prefix", JsonValue::text("logs/"))
            .field("transition_days", num(90))
            .field("storage_class", JsonValue::text("GLACIER"))
            .build();
        let rules = ArrayBuilder::new().item(rule).build();
        let data = ObjectBuilder::new()
            .field("creation_date", JsonValue::text("2023-01-15T10:00:00Z"))
            .field("region", JsonValue::text(region))
            .field("versioning_enabled", JsonValue::Bool(true))
            .field("lifecycle_rules", rules)
            .build();
        let tags = tags2("Purpose", "Logs", "Environment", "Development");
        let arn = crate::text::owned("arn:aws:s3:::example-bucket-1");
        let bucket = sample_resource(account_id, profile, region, "S3Bucket", "example-bucket-1", arn, "example-bucket-1", tags, data);
        let mut r: Vec<AwsResourceDto> = Vec::new();
        r.push(bucket);
        r
    }
}

/// S3 data plane: objects and bucket metrics.
pub struct S3DataPlane {
    aws_service: Arc<AwsService>,
}

impl S3DataPlane {
    /// The shared AWS service that the plane works through.
    pub closed spec fn service(self) -> AwsService {
        *self.aws_service
    }

    pub fn new(aws_service: Arc<AwsService>) -> (r: Self)
        ensures
            r.service() == *aws_service,
    {
        Self { aws_service }
    }

    /// The object that the plane reports for any request: a sample text
    /// body, last modified at `now`.
    pub fn object_answer(&self, now: &Timestamp) -> (r: JsonValue)
        ensures
            entries_of(r).len() == 6,
            text_field(r, 0, "body"@, "This is sample content for the S3 object"@),
            text_field(r, 1, "content_type"@, "text/plain"@),
            entries_of(r)[2] == ("content_length"@, JsonValue::Number(JsonNumber::PosInt(38))),
            text_field(r, 3, "last_modified"@, rfc3339_offset_text(now.spec_secs(), now.spec_nanos())),
            text_field(r, 4, "etag"@, "\"abcdef1234567890\""@),
            entries_of(r)[5].0 == "metadata"@,
            entries_of(entries_of(r)[5].1).len() == 1,
            text_field(entries_of(r)[5].1, 0, "custom-key"@, "custom-value"@),
    {
        let modified = to_rfc3339_offset(now);
        let metadata = ObjectBuilder::new().field("custom-key", JsonValue::text("custom-value")).build();
        ObjectBuilder::new()
            .field("body", JsonValue::text("This is sample content for the S3 object"))
            .field("content_type", JsonValue::text("text/plain"))
            .field("content_length", JsonValue::Number(JsonNumber::PosInt(38)))
            .field("last_modified", JsonValue::text(modified.as_str()))
            .field("etag", JsonValue::text("\"abcdef1234567890\""))
            .field("metadata", metadata)
            .build()
    }

    /// The answer to an object put: the body's length in bytes and its
    /// content type (`application/octet-stream` where none is given).
    pub fn put_object_answer(&self, request: &S3PutObjectRequest) -> (r: JsonValue)
        ensures
            entries_of(r).len() == 4,
            text_field(r, 0, "etag"@, "\"abcdef1234567890\""@),
            entries_of(r)[1] == ("version_id"@, JsonValue::Null),
            entries_of(r)[2] == ("content_length"@, JsonValue::Number(JsonNumber::PosInt(
                (vstd::utf8::encode_utf8(request.body@).len() as usize) as u64,
            ))),
            text_field(
                r,
                3,
                "content_type"@,
                match request.content_type {
                    Some(c) => c@,
                    None => "application/octet-stream"@,
                },
            ),
    {
        let length = request.body.as_str().len();
        let content_type = match &request.content_type {
            Some(c) => c.clone(),
            None => crate::text::owned("application/octet-stream"),
        };
        ObjectBuilder::new()
            .field("etag", JsonValue::text("\"abcdef1234567890\""))
            .field("version_id", JsonValue::Null)
            .field("content_length", JsonValue::Number(JsonNumber::PosInt(length as u64)))
            .field("content_type", JsonValue::Str(content_type))
            .build()
    }
}

/// SQS control plane: queue inventory.
pub struct SqsControlPlane {
    aws_service: Arc<AwsService>,
}

impl SqsControlPlane {
    /// The shared AWS service that the plane works through.
    pub closed spec fn service(self) -> AwsService {
        *self.aws_service
    }

    pub fn new(aws_service: Arc<AwsService>) -> (r: Self)
        ensures
            r.service() == *aws_service,
    {
        Self { aws_service }
    }

    /// The queues a sync reports for a region: one sample queue.
    pub fn sample_queues(&self, account_id: &str, profile: Option<&str>, region: &str) -> (r: Vec<AwsResourceDto>)
        ensures
            r@.len() == 1,
            resource_is(
                r@[0],
                account_id@,
                profile,
                region@,
                "SqsQueue"@,
                "sample-queue"@,
                "arn:aws:sqs:"@ + region@ + ":"@ + account_id@ + ":sample-queue"@,
                "Sample Queue"@,
            ),
            two_tags(r@[0].tags, "Name"@, "Sample Queue"@, "Environment"@, "Development"@),
            sample_queue_data(r@[0].resource_data, account_id@, region@),
    {
        let url = concat5("https://sqs.", region, ".amazonaws.com/", account_id, "/sample-queue");
        let data = ObjectBuilder::new()
            .field("queue_url", JsonValue::Str(url))
            .field("message_retention_period", num(345600))
            .field("visibility_timeout", num(30))
            .field("delay_seconds", num(0))
            .field("receive_message_wait_time_seconds", num(0))
            .field("max_message_size", num(262144))
            .field("fifo_queue", JsonValue::Bool(false))
            .field("content_based_deduplication", JsonValue::Bool(false))
            .build();
        let arn = concat5("arn:aws:sqs:", region, ":", account_id, ":sample-queue");
        let tags = tags2("Name", "Sample Queue", "Environment", "Development");
        let queue = sample_resource(account_id, profile, region, "SqsQueue", "sample-queue", arn, "Sample Queue", tags, data);
        let mut r: Vec<AwsResourceDto> = Vec::new();
        r.push(queue);
        r
    }
}

/// SQS data plane: messages and queue metrics.
pub struct SqsDataPlane {
    aws_service: Arc<AwsService>,
}

impl SqsDataPlane {
    /// The shared AWS service that the plane works through.
    pub closed spec fn service(self) -> AwsService {
        *self.aws_service
    }

    pub fn new(aws_service: Arc<AwsService>) -> (r: Self)
        ensures
            r.service() == *aws_service,
    {
        Self { aws_service }
    }

    /// The answer to a message sent: its id, `msg-` and the second it was
    /// sent at, and the digest of an empty body.
    pub fn sent_answer(&self, now_secs: i64) -> (r: JsonValue)
        ensures
            entries_of(r).len() == 2,
            text_field(r, 0, "MessageId"@, "msg-"@ + signed_decimal(now_secs as int)),
            text_field(r, 1, "MD5OfMessageBody"@, "d41d8cd98f00b204e9800998ecf8427e"@),
    {
        let id = concat2("msg-", i64_decimal(now_secs).as_str());
        ObjectBuilder::new()
            .field("MessageId", JsonValue::Str(id))
            .field("MD5OfMessageBody", JsonValue::text("d41d8cd98f00b204e9800998ecf8427e"))
            .build()
    }

    /// The messages the plane reports as received: one sample message whose
    /// id names the second it was asked at.
    pub fn received_answer(&self, now_secs: i64) -> (r: JsonValue)
        ensures
            entries_of(r).len() == 1,
            entries_of(r)[0].0 == "Messages"@,
            entries_of(r)[0].1.spec_array() matches Some(items) && items.len() == 1 && {
                let m = items[0];
                &&& entries_of(m).len() == 4
                &&& text_field(m, 0, "MessageId"@, "msg-"@ + signed_decimal(now_secs as int))
                &&& text_field(m, 1, "ReceiptHandle"@, "receipt-handle-1"@)
                &&& text_field(m, 2, "MD5OfBody"@, "d41d8cd98f00b204e9800998ecf8427e"@)
                &&& text_field(m, 3, "Body"@, "Sample message body"@)
            },
    {
        let id = concat2("msg-", i64_decimal(now_secs).as_str());
        let message = ObjectBuilder::new()
            .field("MessageId", JsonValue::Str(id))
            .field("ReceiptHandle", JsonValue::text("receipt-handle-1"))
            .field("MD5OfBody", JsonValue::text("d41d8cd98f00b204e9800998ecf8427e"))
            .field("Body", JsonValue::text("Sample message body"))
            .build();
        let list = ArrayBuilder::new().item(message).build();
        ObjectBuilder::new().field("Messages", list).build()
    }
}

/// DynamoDB data plane: items and queries.
pub struct DynamoDbDataPlane {
    aws_service: Arc<AwsService>,
}

impl DynamoDbDataPlane {
    /// The shared AWS service that the plane works through.
    pub closed spec fn service(self) -> AwsService {
        *self.aws_service
    }

    pub fn new(aws_service: Arc<AwsService>) -> (r: Self)
        ensures
            r.service() == *aws_service,
    {
        Self { aws_service }
    }
}

/// Helper for AWS data plane operations: one data plane per service, all
/// working through the same AWS service.
pub struct AwsDataPlane {
    s3: S3DataPlane,
    dynamodb: DynamoDbDataPlane,
    sqs: SqsDataPlane,
    kinesis: KinesisDataPlane,
}

impl AwsDataPlane {
    /// Every data plane works through `s`.
    pub closed spec fn uses(self, s: AwsService) -> bool {
        &&& self.s3.service() == s
        &&& self.dynamodb.service() == s
        &&& self.sqs.service() == s
        &&& self.kinesis.service() == s
    }

    pub fn new(aws_service: Arc<AwsService>) -> (r: Self)
        ensures
            r.uses(*aws_service),
    {
        Self {
            s3: S3DataPlane::new(aws_service.clone()),
            dynamodb: DynamoDbDataPlane::new(aws_service.clone()),
            sqs: SqsDataPlane::new(aws_service.clone()),
            kinesis: KinesisDataPlane::new(aws_service.clone()),
        }
    }
}

} // verus!

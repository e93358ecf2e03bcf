//! Metric collection from monitoring sources: which namespace, dimensions and
//! entity types a resource is queried by, which metrics a source offers, how
//! each source is asked, and how a connection to it is tried. The HTTP and
//! CloudWatch calls, and the metric values (floating point), stay with the
//! caller.
use vstd::prelude::*;
use crate::aws::service::Config;
use crate::errors::AppError;
use crate::json::JsonValue;
use crate::kafka::settings_view;
use crate::text::{concat2, i64_decimal, owned, signed_decimal};

verus! {

/// The monitoring sources.
#[derive(Debug, Clone, Copy, PartialEq, Eq, Structural)]
pub enum SourceType {
    CloudWatch,
    Dynatrace,
    Splunk,
    Prometheus,
    Custom,
}

/// The kinds of resource metrics are collected for; `Other` stands for every
/// kind without a rule of its own.
#[derive(Debug, Clone, Copy, PartialEq, Eq, Structural)]
pub enum ResourceType {
    DynamoDB,
    RDS,
    Kubernetes,
    Other,
}

/// The data collection service.
pub struct DataCollectionService {
    config: Config,
}

/// How a source is asked over HTTP: the URL, the authorization header where
/// one is sent, and the query parameters in order.
pub struct HttpQuery {
    pub url: String,
    pub authorization: Option<String>,
    pub params: Vec<(String, String)>,
}

/// How a connection to a source is tried.
pub enum ConnectionProbe {
    /// The answer is known without asking.
    Known(bool),
    /// List CloudWatch metrics with the configured client.
    ListCloudWatchMetrics,
    /// Send a GET request; the connection works where it succeeds.
    HttpGet { url: String, authorization: Option<String> },
}

/// The text under `key` in a source's connection settings.
pub open spec fn setting(config: JsonValue, key: Seq<char>) -> Option<Seq<char>> {
    match config.spec_get(key) {
        Some(v) => v.spec_str(),
        None => None,
    }
}

fn setting_of(config: &JsonValue, key: &str) -> (r: Option<String>)
    ensures
        r is Some <==> setting(*config, key@) is Some,
        r matches Some(t) ==> t@ == setting(*config, key@).unwrap(),
{
    match config.get(key) {
        Some(v) => match v.as_str() {
            Some(t) => Some(t.clone()),
            None => None,
        },
        None => None,
    }
}

/// The CloudWatch metrics offered for a kind of resource.
pub open spec fn cloudwatch_metrics(rt: ResourceType) -> Option<Seq<Seq<char>>> {
    match rt {
        ResourceType::DynamoDB => Some(
            seq![
                "ConsumedReadCapacityUnits"@,
                "ConsumedWriteCapacityUnits"@,
                "ProvisionedReadCapacityUnits"@,
                "ProvisionedWriteCapacityUnits"@,
                "ReadThrottleEvents"@,
                "WriteThrottleEvents"@,
                "SystemErrors"@,
                "UserErrors"@,
                "SuccessfulRequestLatency"@,
            ],
        ),
        ResourceType::RDS => Some(
            seq![
                "CPUUtilization"@,
                "DatabaseConnections"@,
                "FreeableMemory"@,
                "FreeStorageSpace"@,
                "ReadIOPS"@,
                "WriteIOPS"@,
                "ReadLatency"@,
                "WriteLatency"@,
            ],
        ),
        ResourceType::Kubernetes => Some(
            seq![
                "cluster_node_count"@,
                "cluster_pod_count"@,
                "node_cpu_utilization"@,
                "node_memory_utilization"@,
                "pod_cpu_utilization"@,
                "pod_memory_utilization"@,
            ],
        ),
        ResourceType::Other => None,
    }
}

/// The texts among the values, in order.
pub open spec fn texts_among(values: Seq<JsonValue>) -> Seq<Seq<char>>
    decreases values.len(),
{
    if values.len() == 0 {
        Seq::empty()
    } else {
        texts_among(values.drop_last()) + match values.last().spec_str() {
            Some(t) => seq![t],
            None => Seq::empty(),
        }
    }
}

/// The metrics a source's own configuration lists (`available_metrics`).
pub open spec fn configured_metrics(metric_config: Option<JsonValue>) -> Seq<Seq<char>> {
    match metric_config {
        Some(c) => match c.spec_get("available_metrics"@) {
            Some(list) => match list.spec_array() {
                Some(items) => texts_among(items),
                None => Seq::empty(),
            },
            None => Seq::empty(),
        },
        None => Seq::empty(),
    }
}

/// The texts of the strings.
pub open spec fn texts_of(v: Seq<String>) -> Seq<Seq<char>> {
    v.map_values(|s: String| s@)
}

fn push_texts(v: &mut Vec<String>, items: &[&str])
    ensures
        texts_of(final(v)@) == texts_of(old(v)@) + items@.map_values(|s: &str| s@),
{
    let ghost start = texts_of(v@);
    for i in 0..items.len()
        invariant
            texts_of(v@) == start + items@.map_values(|s: &str| s@).take(i as int),
    {
        let ghost old_v = v@;
        v.push(owned(items[i]));
        assert(texts_of(v@) =~= texts_of(old_v).push(items@[i as int]@));
        assert(texts_of(v@) =~= start + items@.map_values(|s: &str| s@).take(i + 1));
    }
    assert(items@.map_values(|s: &str| s@).take(items@.len() as int) =~= items@.map_values(
        |s: &str| s@,
    ));
}

fn texts_in(items: &Vec<JsonValue>) -> (r: Vec<String>)
    ensures
        texts_of(r@) == texts_among(items@),
{
    let mut r: Vec<String> = Vec::new();
    let mut i: usize = 0;
    while i < items.len()
        invariant
            i <= items@.len(),
            texts_of(r@) == texts_among(items@.take(i as int)),
        decreases items@.len() - i,
    {
        proof {
            assert(items@.take(i + 1).drop_last() =~= items@.take(i as int));
            assert(items@.take(i + 1).last() == items@[i as int]);
        }
        let ghost before = r@;
        match items[i].as_str() {
            Some(t) => {
                r.push(t.clone());
                assert(texts_of(r@) =~= texts_of(before).push(t@));
            },
            None => {},
        }
        i = i + 1;
    }
    assert(items@.take(items@.len() as int) =~= items@);
    r
}

impl DataCollectionService {
    pub closed spec fn spec_config(self) -> Config {
        self.config
    }

    pub fn new(config: Config) -> (r: Self)
        ensures
            r.spec_config() == config,
    {
        DataCollectionService { config }
    }

    /// The CloudWatch namespace a kind of resource is queried in, where the
    /// source does not name one.
    pub fn get_default_namespace(&self, resource_type: ResourceType) -> (r: &'static str)
        ensures
            r@ == match resource_type {
                ResourceType::DynamoDB => "AWS/DynamoDB"@,
                ResourceType::RDS => "AWS/RDS"@,
                ResourceType::Kubernetes => "AWS/EKS"@,
                ResourceType::Other => "AWS/Other"@,
            },
    {
        match resource_type {
            ResourceType::DynamoDB => "AWS/DynamoDB",
            ResourceType::RDS => "AWS/RDS",
            ResourceType::Kubernetes => "AWS/EKS",
            ResourceType::Other => "AWS/Other",
        }
    }

    /// The namespace to query: the source's own, or the default of the kind.
    pub fn namespace_for(&self, connection_config: &JsonValue, resource_type: ResourceType) -> (r: String)
        ensures
            r@ == match setting(*connection_config, "namespace"@) {
                Some(n) => n,
                None => match resource_type {
                    ResourceType::DynamoDB => "AWS/DynamoDB"@,
                    ResourceType::RDS => "AWS/RDS"@,
                    ResourceType::Kubernetes => "AWS/EKS"@,
                    ResourceType::Other => "AWS/Other"@,
                },
            },
    {
        match setting_of(connection_config, "namespace") {
            Some(n) => n,
            None => owned(self.get_default_namespace(resource_type)),
        }
    }

    /// The CloudWatch dimensions (name, value) that pick out a resource.
    pub fn build_cloudwatch_dimensions(&self, resource_type: ResourceType, resource_id: &str) -> (r: Vec<(String, String)>)
        ensures
            settings_view(r@) == match resource_type {
                ResourceType::DynamoDB => seq![("TableName"@, resource_id@)],
                ResourceType::RDS => seq![("DBInstanceIdentifier"@, resource_id@)],
                ResourceType::Kubernetes => seq![("ClusterName"@, resource_id@)],
                ResourceType::Other => Seq::empty(),
            },
    {
        let mut r: Vec<(String, String)> = Vec::new();
        match resource_type {
            ResourceType::DynamoDB => r.push((owned("TableName"), owned(resource_id))),
            ResourceType::RDS => r.push((owned("DBInstanceIdentifier"), owned(resource_id))),
            ResourceType::Kubernetes => r.push((owned("ClusterName"), owned(resource_id))),
            ResourceType::Other => {},
        }
        assert(settings_view(r@) =~= match resource_type {
            ResourceType::DynamoDB => seq![("TableName"@, resource_id@)],
            ResourceType::RDS => seq![("DBInstanceIdentifier"@, resource_id@)],
            ResourceType::Kubernetes => seq![("ClusterName"@, resource_id@)],
            ResourceType::Other => Seq::empty(),
        });
        r
    }

    /// The Dynatrace entity type of a kind of resource.
    pub fn get_dynatrace_entity_type(&self, resource_type: ResourceType) -> (r: &'static str)
        ensures
            r@ == match resource_type {
                ResourceType::DynamoDB => "DYNAMO_DB_TABLE"@,
                ResourceType::RDS => "DATABASE"@,
                ResourceType::Kubernetes => "KUBERNETES_CLUSTER"@,
                ResourceType::Other => "GENERIC_RESOURCE"@,
            },
    {
        match resource_type {
            ResourceType::DynamoDB => "DYNAMO_DB_TABLE",
            ResourceType::RDS => "DATABASE",
            ResourceType::Kubernetes => "KUBERNETES_CLUSTER",
            ResourceType::Other => "GENERIC_RESOURCE",
        }
    }

    /// The metrics a source offers for a kind of resource: CloudWatch's fixed
    /// list for DynamoDB, RDS and Kubernetes, and otherwise the texts that the
    /// source's metric configuration lists under `available_metrics`.
    pub fn get_available_metrics(&self, source_type: SourceType, resource_type: ResourceType, metric_config: &Option<JsonValue>) -> (r: Vec<String>)
        ensures
            texts_of(r@) == if source_type == SourceType::CloudWatch && cloudwatch_metrics(resource_type) is Some {
                cloudwatch_metrics(resource_type).unwrap()
            } else {
                configured_metrics(*metric_config)
            },
    {
        let mut r: Vec<String> = Vec::new();
        if source_type == SourceType::CloudWatch {
            match resource_type {
                ResourceType::DynamoDB => {
                    push_texts(&mut r, &["ConsumedReadCapacityUnits", "ConsumedWriteCapacityUnits", "ProvisionedReadCapacityUnits", "ProvisionedWriteCapacityUnits", "ReadThrottleEvents", "WriteThrottleEvents", "SystemErrors", "UserErrors", "SuccessfulRequestLatency"]);
                    assert(texts_of(r@) =~= cloudwatch_metrics(resource_type).unwrap());
                    return r;
                },
                ResourceType::RDS => {
                    push_texts(&mut r, &["CPUUtilization", "DatabaseConnections", "FreeableMemory", "FreeStorageSpace", "ReadIOPS", "WriteIOPS", "ReadLatency", "WriteLatency"]);
                    assert(texts_of(r@) =~= cloudwatch_metrics(resource_type).unwrap());
                    return r;
                },
                ResourceType::Kubernetes => {
                    push_texts(&mut r, &["cluster_node_count", "cluster_pod_count", "node_cpu_utilization", "node_memory_utilization", "pod_cpu_utilization", "pod_memory_utilization"]);
                    assert(texts_of(r@) =~= cloudwatch_metrics(resource_type).unwrap());
                    return r;
                },
                ResourceType::Other => {},
            }
        }
        match metric_config {
            Some(c) => match c.get("available_metrics") {
                Some(JsonValue::Array(_)) => {
                    let list = c.get("available_metrics").unwrap();
                    let items = list.array_items();
                    texts_in(&items)
                },
                _ => r,
            },
            None => r,
        }
    }
}

/// The result is the bad request with this message.
pub open spec fn is_bad_request<T>(r: Result<T, AppError>, m: Seq<char>) -> bool {
    r matches Err(AppError::BadRequest(x)) && x@ == m
}

/// The probe is a GET on `url` with this authorization.
pub open spec fn is_get(p: ConnectionProbe, url: Seq<char>, authorization: Option<Seq<char>>) -> bool {
    p matches ConnectionProbe::HttpGet { url: u, authorization: a } && u@ == url && match a {
        Some(x) => authorization == Some(x@),
        None => authorization is None,
    }
}

/// The collector that a source's data is read with.
#[derive(Debug, Clone, Copy, PartialEq, Eq, Structural)]
pub enum Collector {
    CloudWatch,
    Dynatrace,
    Splunk,
    Prometheus,
    Custom,
}

/// The label under which a collection names its source.
pub open spec fn source_label(s: SourceType) -> Seq<char> {
    match s {
        SourceType::CloudWatch => "CloudWatch"@,
        SourceType::Dynatrace => "Dynatrace"@,
        SourceType::Splunk => "Splunk"@,
        SourceType::Prometheus => "Prometheus"@,
        SourceType::Custom => "Custom"@,
    }
}

impl DataCollectionService {
    /// The label a collection from the source carries in its metadata.
    pub fn source_label(&self, source_type: SourceType) -> (r: &'static str)
        ensures
            r@ == source_label(source_type),
    {
        match source_type {
            SourceType::CloudWatch => "CloudWatch",
            SourceType::Dynatrace => "Dynatrace",
            SourceType::Splunk => "Splunk",
            SourceType::Prometheus => "Prometheus",
            SourceType::Custom => "Custom",
        }
    }

    /// Which collector reads a source; a CloudWatch source needs a client.
    pub fn collect_data(&self, source_type: SourceType, has_cloudwatch_client: bool) -> (r: Result<Collector, AppError>)
        ensures
            r is Err <==> (source_type == SourceType::CloudWatch && !has_cloudwatch_client),
            r matches Err(e) ==> e matches AppError::InternalServerError(m) && m@
                == "CloudWatch client not configured"@,
            r matches Ok(c) ==> c == match source_type {
                SourceType::CloudWatch => Collector::CloudWatch,
                SourceType::Dynatrace => Collector::Dynatrace,
                SourceType::Splunk => Collector::Splunk,
                SourceType::Prometheus => Collector::Prometheus,
                SourceType::Custom => Collector::Custom,
            },
    {
        match source_type {
            SourceType::CloudWatch => if has_cloudwatch_client {
                Ok(Collector::CloudWatch)
            } else {
                Err(AppError::InternalServerError(owned("CloudWatch client not configured")))
            },
            SourceType::Dynatrace => Ok(Collector::Dynatrace),
            SourceType::Splunk => Ok(Collector::Splunk),
            SourceType::Prometheus => Ok(Collector::Prometheus),
            SourceType::Custom => Ok(Collector::Custom),
        }
    }

    /// How a connection to the source is tried: CloudWatch by listing
    /// metrics (not at all without a client), Dynatrace and Prometheus by a
    /// GET on their metric API where their settings allow one, and any other
    /// source is taken to work.
    pub fn test_data_source_connection(&self, source_type: SourceType, connection_config: &JsonValue, has_cloudwatch_client: bool) -> (r: ConnectionProbe)
        ensures
            match source_type {
                SourceType::CloudWatch => if has_cloudwatch_client {
                    r is ListCloudWatchMetrics
                } else {
                    r == ConnectionProbe::Known(false)
                },
                SourceType::Dynatrace => match (setting(*connection_config, "base_url"@), setting(*connection_config, "api_token"@)) {
                    (Some(base), Some(token)) => is_get(r, base + "/api/v2/metrics"@, Some("Api-Token "@ + token)),
                    _ => r == ConnectionProbe::Known(false),
                },
                SourceType::Prometheus => match setting(*connection_config, "base_url"@) {
                    Some(base) => is_get(r, base + "/api/v1/label/__name__/values"@, None),
                    None => r == ConnectionProbe::Known(false),
                },
                _ => r == ConnectionProbe::Known(true),
            },
    {
        match source_type {
            SourceType::CloudWatch => if has_cloudwatch_client {
                ConnectionProbe::ListCloudWatchMetrics
            } else {
                ConnectionProbe::Known(false)
            },
            SourceType::Dynatrace => match (setting_of(connection_config, "base_url"), setting_of(connection_config, "api_token")) {
                (Some(base), Some(token)) => ConnectionProbe::HttpGet {
                    url: concat2(base.as_str(), "/api/v2/metrics"),
                    authorization: Some(concat2("Api-Token ", token.as_str())),
                },
                _ => ConnectionProbe::Known(false),
            },
            SourceType::Prometheus => match setting_of(connection_config, "base_url") {
                Some(base) => ConnectionProbe::HttpGet {
                    url: concat2(base.as_str(), "/api/v1/label/__name__/values"),
                    authorization: None,
                },
                None => ConnectionProbe::Known(false),
            },
            _ => ConnectionProbe::Known(true),
        }
    }

    /// The Dynatrace metrics query for the request: the API token and base URL
    /// must be configured (checked in that order); the metrics are joined with
    /// commas, the entities selected by the resource's entity type, and the
    /// time range given in milliseconds.
    pub fn dynatrace_query(
        &self,
        connection_config: &JsonValue,
        metric_names: &Vec<String>,
        resource_type: ResourceType,
        from_ms: i64,
        to_ms: i64,
    ) -> (r: Result<HttpQuery, AppError>)
        ensures
            setting(*connection_config, "api_token"@) is None ==> is_bad_request(r, "Dynatrace API token not configured"@),
            setting(*connection_config, "api_token"@) is Some && setting(*connection_config, "base_url"@) is None
                ==> is_bad_request(r, "Dynatrace base URL not configured"@),
            r is Ok <==> setting(*connection_config, "api_token"@) is Some && setting(*connection_config, "base_url"@) is Some,
            r matches Ok(q) ==> {
                &&& q.url@ == setting(*connection_config, "base_url"@).unwrap() + "/api/v2/metrics/query"@
                &&& q.authorization matches Some(a) && a@ == "Api-Token "@ + setting(*connection_config, "api_token"@).unwrap()
                &&& settings_view(q.params@) == seq![
                    ("metricSelector"@, comma_joined(texts_of(metric_names@))),
                    ("entitySelector"@, "type("@ + entity_type_of(resource_type) + ")"@),
                    ("from"@, signed_decimal(from_ms as int)),
                    ("to"@, signed_decimal(to_ms as int)),
                ]
            },
    {
        let token = match setting_of(connection_config, "api_token") {
            Some(t) => t,
            None => { return Err(AppError::BadRequest(owned("Dynatrace API token not configured"))); },
        };
        let base = match setting_of(connection_config, "base_url") {
            Some(b) => b,
            None => { return Err(AppError::BadRequest(owned("Dynatrace base URL not configured"))); },
        };
        let selector = join_commas(metric_names);
        let entity = crate::text::concat3("type(", self.get_dynatrace_entity_type(resource_type), ")");
        let mut params: Vec<(String, String)> = Vec::new();
        params.push((owned("metricSelector"), selector));
        params.push((owned("entitySelector"), entity));
        params.push((owned("from"), i64_decimal(from_ms)));
        params.push((owned("to"), i64_decimal(to_ms)));
        assert(settings_view(params@) =~= seq![
            ("metricSelector"@, comma_joined(texts_of(metric_names@))),
            ("entitySelector"@, "type("@ + entity_type_of(resource_type) + ")"@),
            ("from"@, signed_decimal(from_ms as int)),
            ("to"@, signed_decimal(to_ms as int)),
        ]);
        Ok(HttpQuery {
            url: concat2(base.as_str(), "/api/v2/metrics/query"),
            authorization: Some(concat2("Api-Token ", token.as_str())),
            params,
        })
    }

    /// A Splunk source needs its base URL, user name and password configured,
    /// checked in that order.
    pub fn check_splunk_settings(&self, connection_config: &JsonValue) -> (r: Result<(), AppError>)
        ensures
            r is Ok <==> setting(*connection_config, "base_url"@) is Some && setting(*connection_config, "username"@) is Some
                && setting(*connection_config, "password"@) is Some,
            r matches Err(e) ==> e matches AppError::BadRequest(m) && m@ == if setting(*connection_config, "base_url"@) is None {
                "Splunk base URL not configured"@
            } else if setting(*connection_config, "username"@) is None {
                "Splunk username not configured"@
            } else {
                "Splunk password not configured"@
            },
    {
        if setting_of(connection_config, "base_url").is_none() {
            return Err(AppError::BadRequest(owned("Splunk base URL not configured")));
        }
        if setting_of(connection_config, "username").is_none() {
            return Err(AppError::BadRequest(owned("Splunk username not configured")));
        }
        if setting_of(connection_config, "password").is_none() {
            return Err(AppError::BadRequest(owned("Splunk password not configured")));
        }
        Ok(())
    }

    /// The Prometheus range query for one metric: the base URL must be
    /// configured; the range is given in seconds, the step in seconds (300
    /// where the request names no period).
    pub fn prometheus_query(
        &self,
        connection_config: &JsonValue,
        metric_name: &str,
        start_s: i64,
        end_s: i64,
        period: Option<i32>,
    ) -> (r: Result<HttpQuery, AppError>)
        ensures
            r is Ok <==> setting(*connection_config, "base_url"@) is Some,
            r matches Err(e) ==> e matches AppError::BadRequest(m) && m@ == "Prometheus base URL not configured"@,
            r matches Ok(q) ==> {
                &&& q.url@ == setting(*connection_config, "base_url"@).unwrap() + "/api/v1/query_range"@
                &&& q.authorization is None
                &&& settings_view(q.params@) == seq![
                    ("query"@, metric_name@),
                    ("start"@, signed_decimal(start_s as int)),
                    ("end"@, signed_decimal(end_s as int)),
                    ("step"@, signed_decimal(match period { Some(p) => p as int, None => 300 })),
                ]
            },
    {
        let base = match setting_of(connection_config, "base_url") {
            Some(b) => b,
            None => { return Err(AppError::BadRequest(owned("Prometheus base URL not configured"))); },
        };
        let step: i64 = match period {
            Some(p) => p as i64,
            None => 300,
        };
        let mut params: Vec<(String, String)> = Vec::new();
        params.push((owned("query"), owned(metric_name)));
        params.push((owned("start"), i64_decimal(start_s)));
        params.push((owned("end"), i64_decimal(end_s)));
        params.push((owned("step"), i64_decimal(step)));
        assert(settings_view(params@) =~= seq![
            ("query"@, metric_name@),
            ("start"@, signed_decimal(start_s as int)),
            ("end"@, signed_decimal(end_s as int)),
            ("step"@, signed_decimal(match period { Some(p) => p as int, None => 300 })),
        ]);
        Ok(HttpQuery { url: concat2(base.as_str(), "/api/v1/query_range"), authorization: None, params })
    }
}

/// The Dynatrace entity type of a kind of resource.
pub open spec fn entity_type_of(rt: ResourceType) -> Seq<char> {
    match rt {
        ResourceType::DynamoDB => "DYNAMO_DB_TABLE"@,
        ResourceType::RDS => "DATABASE"@,
        ResourceType::Kubernetes => "KUBERNETES_CLUSTER"@,
        ResourceType::Other => "GENERIC_RESOURCE"@,
    }
}

/// The texts joined with commas.
pub open spec fn comma_joined(parts: Seq<Seq<char>>) -> Seq<char>
    decreases parts.len(),
{
    if parts.len() == 0 {
        Seq::empty()
    } else if parts.len() == 1 {
        parts[0]
    } else {
        comma_joined(parts.drop_last()) + ","@ + parts.last()
    }
}

fn join_commas(parts: &Vec<String>) -> (r: String)
    ensures
        r@ == comma_joined(texts_of(parts@)),
{
    let mut r = String::new();
    let mut i: usize = 0;
    while i < parts.len()
        invariant
            i <= parts@.len(),
            r@ == comma_joined(texts_of(parts@.take(i as int))),
        decreases parts@.len() - i,
    {
        proof {
            assert(texts_of(parts@.take(i + 1)).drop_last() =~= texts_of(parts@.take(i as int)));
            assert(texts_of(parts@.take(i + 1)).last() == parts@[i as int]@);
        }
        if i == 0 {
            r = parts[0].clone();
            assert(texts_of(parts@.take(1)) =~= seq![parts@[0]@]);
        } else {
            r = crate::text::concat3(r.as_str(), ",", parts[i].as_str());
        }
        i = i + 1;
    }
    assert(parts@.take(parts@.len() as int) =~= parts@);
    r
}

// ---------------------------------------------------------------------------
// Reading the sources' answers
// ---------------------------------------------------------------------------

/// One `[timestamp, "value"]` pair of a Prometheus range result: an array of
/// at least two elements whose first is a number and whose second is a text.
pub open spec fn prometheus_pair(p: JsonValue) -> Option<(JsonValue, Seq<char>)> {
    match p.spec_array() {
        Some(items) => if items.len() >= 2 && items[0] is Number && items[1].spec_str() is Some {
            Some((items[0], items[1].spec_str().unwrap()))
        } else {
            None
        },
        None => None,
    }
}

/// The samples among a series' value pairs, in order.
pub open spec fn pairs_samples(ps: Seq<JsonValue>) -> Seq<(JsonValue, Seq<char>)>
    decreases ps.len(),
{
    if ps.len() == 0 {
        Seq::empty()
    } else {
        pairs_samples(ps.drop_last()) + match prometheus_pair(ps.last()) {
            Some(x) => seq![x],
            None => Seq::empty(),
        }
    }
}

/// The samples of one result series: those of its `values` array.
pub open spec fn series_samples(r: JsonValue) -> Seq<(JsonValue, Seq<char>)> {
    match r.spec_get("values"@) {
        Some(v) => match v.spec_array() {
            Some(ps) => pairs_samples(ps),
            None => Seq::empty(),
        },
        None => Seq::empty(),
    }
}

/// The samples of a list of result series, series by series.
pub open spec fn results_samples(rs: Seq<JsonValue>) -> Seq<(JsonValue, Seq<char>)>
    decreases rs.len(),
{
    if rs.len() == 0 {
        Seq::empty()
    } else {
        results_samples(rs.drop_last()) + series_samples(rs.last())
    }
}

/// The samples of a Prometheus range-query answer: those of the series
/// under `data.result`.
pub open spec fn prometheus_samples_of(resp: JsonValue) -> Seq<(JsonValue, Seq<char>)> {
    match resp.spec_get("data"@) {
        Some(d) => match d.spec_get("result"@) {
            Some(r) => match r.spec_array() {
                Some(rs) => results_samples(rs),
                None => Seq::empty(),
            },
            None => Seq::empty(),
        },
        None => Seq::empty(),
    }
}

/// A sample as (timestamp, value text).
pub open spec fn sample_view(x: (JsonValue, String)) -> (JsonValue, Seq<char>) {
    (x.0, x.1@)
}

fn pair_sample(p: &JsonValue) -> (r: Option<(JsonValue, String)>)
    ensures
        match r {
            Some(x) => prometheus_pair(*p) == Some(sample_view(x)),
            None => prometheus_pair(*p) is None,
        },
{
    let items = p.array_items();
    if items.len() >= 2 {
        match (&items[0], items[1].as_str()) {
            (JsonValue::Number(_), Some(t)) => {
                let ts = items[0].deep_clone();
                return Some((ts, t.clone()));
            },
            _ => {},
        }
    }
    None
}

fn push_series_samples(r: &JsonValue, out: &mut Vec<(JsonValue, String)>)
    ensures
        final(out)@.map_values(|x: (JsonValue, String)| sample_view(x)) == old(out)@.map_values(
            |x: (JsonValue, String)| sample_view(x),
        ) + series_samples(*r),
{
    let ghost before = old(out)@.map_values(|x: (JsonValue, String)| sample_view(x));
    let pairs: Vec<JsonValue> = match r.get("values") {
        Some(v) => v.array_items(),
        None => Vec::new(),
    };
    let ghost ps = pairs@;
    assert(series_samples(*r) == pairs_samples(ps)) by {
        match r.spec_get("values"@) {
            Some(v) => {},
            None => { assert(ps =~= Seq::<JsonValue>::empty()); },
        }
    }
    let mut i: usize = 0;
    while i < pairs.len()
        invariant
            i <= ps.len(),
            pairs@ == ps,
            out@.map_values(|x: (JsonValue, String)| sample_view(x)) == before + pairs_samples(ps.take(i as int)),
        decreases ps.len() - i,
    {
        assert(ps.take(i as int + 1).drop_last() =~= ps.take(i as int));
        assert(ps.take(i as int + 1).last() == ps[i as int]);
        let ghost prev = out@;
        let ghost step = match prometheus_pair(ps[i as int]) {
            Some(y) => seq![y],
            None => Seq::<(JsonValue, Seq<char>)>::empty(),
        };
        assert(pairs_samples(ps.take(i as int + 1)) == pairs_samples(ps.take(i as int)) + step);
        match pair_sample(&pairs[i]) {
            Some(x) => {
                out.push(x);
                assert(out@.map_values(|x: (JsonValue, String)| sample_view(x)) =~= prev.map_values(
                    |x: (JsonValue, String)| sample_view(x),
                ) + step);
            },
            None => {
                assert(out@.map_values(|x: (JsonValue, String)| sample_view(x)) =~= prev.map_values(
                    |x: (JsonValue, String)| sample_view(x),
                ) + step);
            },
        }
        i = i + 1;
    }
    assert(ps.take(ps.len() as int) =~= ps);
}

/// The samples that a Prometheus range-query answer holds, as (timestamp,
/// value text), series by series and pair by pair; pairs of another shape
/// are passed over. The values are read as numbers by the caller.
pub fn prometheus_samples(resp: &JsonValue) -> (r: Vec<(JsonValue, String)>)
    ensures
        r@.map_values(|x: (JsonValue, String)| sample_view(x)) == prometheus_samples_of(*resp),
{
    let results: Vec<JsonValue> = match resp.get("data") {
        Some(d) => match d.get("result") {
            Some(r) => r.array_items(),
            None => Vec::new(),
        },
        None => Vec::new(),
    };
    let ghost rs = results@;
    assert(prometheus_samples_of(*resp) == results_samples(rs)) by {
        match resp.spec_get("data"@) {
            Some(d) => match d.spec_get("result"@) {
                Some(x) => {},
                None => { assert(rs =~= Seq::<JsonValue>::empty()); },
            },
            None => { assert(rs =~= Seq::<JsonValue>::empty()); },
        }
    }
    let mut out: Vec<(JsonValue, String)> = Vec::new();
    let mut i: usize = 0;
    assert(out@.map_values(|x: (JsonValue, String)| sample_view(x)) =~= results_samples(rs.take(0)));
    while i < results.len()
        invariant
            i <= rs.len(),
            results@ == rs,
            out@.map_values(|x: (JsonValue, String)| sample_view(x)) == results_samples(rs.take(i as int)),
        decreases rs.len() - i,
    {
        assert(rs.take(i as int + 1).drop_last() =~= rs.take(i as int));
        assert(rs.take(i as int + 1).last() == rs[i as int]);
        push_series_samples(&results[i], &mut out);
        i = i + 1;
    }
    assert(rs.take(rs.len() as int) =~= rs);
    out
}

/// How many data points the series under `result` list in their `data`
/// arrays.
pub open spec fn dynatrace_points_of(rs: Seq<JsonValue>) -> int
    decreases rs.len(),
{
    if rs.len() == 0 {
        0
    } else {
        dynatrace_points_of(rs.drop_last()) + match rs.last().spec_get("data"@) {
            Some(d) => match d.spec_array() {
                Some(points) => points.len() as int,
                None => 0,
            },
            None => 0,
        }
    }
}

/// `n`, or `usize::MAX` where `n` is larger.
pub open spec fn capped(n: int) -> int {
    if n <= usize::MAX { n } else { usize::MAX as int }
}

/// The number of data points a Dynatrace metrics answer holds: those of the
/// `data` arrays of the series under `result` (capped at `usize::MAX`).
pub fn dynatrace_point_count(resp: &JsonValue) -> (r: usize)
    ensures
        r as int == capped(match resp.spec_get("result"@) {
            Some(x) => match x.spec_array() {
                Some(rs) => dynatrace_points_of(rs),
                None => 0,
            },
            None => 0,
        }),
{
    let results: Vec<JsonValue> = match resp.get("result") {
        Some(x) => x.array_items(),
        None => Vec::new(),
    };
    let ghost rs = results@;
    let mut total: usize = 0;
    let mut i: usize = 0;
    while i < results.len()
        invariant
            i <= rs.len(),
            results@ == rs,
            total as int == capped(dynatrace_points_of(rs.take(i as int))),
        decreases rs.len() - i,
    {
        assert(rs.take(i as int + 1).drop_last() =~= rs.take(i as int));
        assert(rs.take(i as int + 1).last() == rs[i as int]);
        let n: usize = match results[i].get("data") {
            Some(d) => d.array_items().len(),
            None => 0,
        };
        total = total.saturating_add(n);
        i = i + 1;
    }
    assert(rs.take(rs.len() as int) =~= rs);
    total
}

} // verus!

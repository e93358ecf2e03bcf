//! Resource analytics: the analysis request and workflow types, which
//! workflow a name selects, and which questions are suggested for a resource.
use vstd::prelude::*;
use std::sync::Arc;
use crate::aws::planes::AwsDataPlane;
use crate::aws::service::{AwsService, Config};
use crate::errors::AppError;
use crate::json::JsonValue;
use crate::text::{concat2, concat3, contains_str, contains_text, owned, str_eq, to_lowercase, trim, trimmed, unicode_lower};

verus! {

#[derive(Debug)]
pub struct AwsResourceAnalysisRequest {
    pub resource_id: String,
    pub workflow: String,
    pub time_range: Option<String>,
}

#[derive(Debug)]
pub struct ResourceRelatedQuestionRequest {
    pub resource_id: String,
    pub question: String,
    pub workflow: Option<String>,
}

#[derive(Debug, PartialEq, Eq, Structural, Clone, Copy)]
pub enum ResourceAnalysisWorkflow {
    Performance,
    Cost,
    Storage,
    Memory,
}

/// The workflow that a lower-cased name selects.
pub open spec fn workflow_of_lowercase(l: Seq<char>) -> Option<ResourceAnalysisWorkflow> {
    if l == "performance"@ {
        Some(ResourceAnalysisWorkflow::Performance)
    } else if l == "cost"@ {
        Some(ResourceAnalysisWorkflow::Cost)
    } else if l == "storage"@ {
        Some(ResourceAnalysisWorkflow::Storage)
    } else if l == "memory"@ {
        Some(ResourceAnalysisWorkflow::Memory)
    } else {
        None
    }
}

/// The workflow a name selects, case ignored as `str::to_lowercase` ignores it.
pub open spec fn workflow_of_name(s: Seq<char>) -> Option<ResourceAnalysisWorkflow> {
    workflow_of_lowercase(unicode_lower(s))
}

impl ResourceAnalysisWorkflow {
    /// Parses a workflow name, case ignored.
    pub fn from_str(s: &str) -> (r: Result<Self, String>)
        ensures
            match workflow_of_name(s@) {
                Some(w) => r == Ok::<Self, String>(w),
                None => r matches Err(m) && m@ == "Unknown workflow type: "@ + s@,
            },
    {
        let l = to_lowercase(s);
        Self::from_lowercase(l.as_str(), s)
    }

    /// The workflow that the lower-cased name `l` of `name` selects; the
    /// error names `name` as it was given.
    pub fn from_lowercase(l: &str, name: &str) -> (r: Result<Self, String>)
        ensures
            match workflow_of_lowercase(l@) {
                Some(w) => r == Ok::<Self, String>(w),
                None => r matches Err(m) && m@ == "Unknown workflow type: "@ + name@,
            },
    {
        if str_eq(l, "performance") {
            Ok(Self::Performance)
        } else if str_eq(l, "cost") {
            Ok(Self::Cost)
        } else if str_eq(l, "storage") {
            Ok(Self::Storage)
        } else if str_eq(l, "memory") {
            Ok(Self::Memory)
        } else {
            Err(concat2("Unknown workflow type: ", name))
        }
    }
}

#[derive(Debug)]
pub struct ResourceAnalysisMetadata {
    pub workflow_id: String,
    pub name: String,
    pub description: String,
    pub resource_type: String,
    pub required_permissions: Vec<String>,
    pub supported_formats: Vec<String>,
    pub estimated_duration: String,
}

#[derive(Debug)]
pub struct AnalysisWorkflowInfo {
    pub resource_type: String,
    pub workflows: Vec<ResourceAnalysisMetadata>,
    pub common_questions: Vec<String>,
    pub best_practices_url: Option<String>,
}

/// The analytics service: the application configuration, the AWS service and
/// the data planes through which metrics are read.
pub struct AwsAnalyticsService {
    config: Config,
    aws_service: Arc<AwsService>,
    aws_data_plane: Arc<AwsDataPlane>,
}

/// The texts of the strings.
pub open spec fn texts(v: Seq<String>) -> Seq<Seq<char>> {
    v.map_values(|s: String| s@)
}

/// The questions commonly asked about a resource type.
pub open spec fn common_questions(resource_type: Seq<char>) -> Seq<Seq<char>> {
    if resource_type == "EC2Instance"@ {
        seq![
            "What is the CPU utilization?"@,
            "How much memory is being used?"@,
            "What is the network performance?"@,
            "Are there any performance bottlenecks?"@,
        ]
    } else if resource_type == "RdsInstance"@ {
        seq![
            "What is the database CPU usage?"@,
            "How much free memory is available?"@,
            "What is the storage usage trend?"@,
            "Are there any slow queries?"@,
        ]
    } else if resource_type == "DynamoDbTable"@ {
        seq![
            "What is the consumed read capacity?"@,
            "What is the consumed write capacity?"@,
            "Are there any throttled requests?"@,
            "What is the storage usage?"@,
        ]
    } else if resource_type == "ElasticacheCluster"@ {
        seq![
            "What is the cache hit rate?"@,
            "How much memory is being used?"@,
            "Are there any evictions?"@,
            "What is the network bandwidth usage?"@,
        ]
    } else if resource_type == "KinesisStream"@ {
        seq![
            "What is the consumer lag?"@,
            "How many records are being processed?"@,
            "Are there any throughput exceeded events?"@,
            "Do I need to increase my shard count?"@,
        ]
    } else {
        Seq::empty()
    }
}

/// The questions that a workflow, by its lower-cased name `w`, adds to the
/// common ones.
pub open spec fn workflow_questions(w: Seq<char>) -> Seq<Seq<char>> {
    if w == "performance"@ {
        seq![
            "What are the peak usage times?"@,
            "Are there any performance bottlenecks?"@,
            "How does the current performance compare to last week?"@,
        ]
    } else if w == "cost"@ {
        seq![
            "What is the monthly cost trend?"@,
            "Are there any cost optimization opportunities?"@,
            "How does the cost compare to similar resources?"@,
        ]
    } else {
        Seq::empty()
    }
}

/// The follow-up questions for a question, lower-cased as `q`, about a
/// resource type.
pub open spec fn followup_questions(resource_type: Seq<char>, q: Seq<char>) -> Seq<Seq<char>> {
    (if contains_text(q, "cpu"@) || contains_text(q, "performance"@) {
        seq![
            "What is the memory usage like?"@,
            "Are there any correlated metrics?"@,
            "What time periods show the highest usage?"@,
        ]
    } else {
        Seq::empty()
    }) + (if contains_text(q, "memory"@) || contains_text(q, "ram"@) {
        seq![
            "Is there any swap usage?"@,
            "What processes are using the most memory?"@,
            "Has memory usage been increasing over time?"@,
        ]
    } else {
        Seq::empty()
    }) + common_questions(resource_type)
}

/// Appends copies of the texts.
fn push_all(v: &mut Vec<String>, items: &[&str])
    ensures
        texts(final(v)@) == texts(old(v)@) + items@.map_values(|s: &str| s@),
{
    let ghost start = texts(v@);
    for i in 0..items.len()
        invariant
            texts(v@) == start + items@.map_values(|s: &str| s@).take(i as int),
    {
        let ghost old_v = v@;
        v.push(owned(items[i]));
        assert(texts(v@) =~= texts(old_v).push(items@[i as int]@));
        assert(texts(v@) =~= start + items@.map_values(|s: &str| s@).take(i + 1));
    }
    assert(items@.map_values(|s: &str| s@).take(items@.len() as int) =~= items@.map_values(
        |s: &str| s@,
    ));
}

impl AwsAnalyticsService {
    pub closed spec fn spec_config(self) -> Config {
        self.config
    }

    pub closed spec fn spec_service(self) -> AwsService {
        *self.aws_service
    }

    pub closed spec fn spec_data_plane(self) -> AwsDataPlane {
        *self.aws_data_plane
    }

    pub fn new(config: Config, aws_service: Arc<AwsService>, aws_data_plane: Arc<AwsDataPlane>) -> (r: Self)
        ensures
            r.spec_config() == config,
            r.spec_service() == *aws_service,
            r.spec_data_plane() == *aws_data_plane,
    {
        Self { config, aws_service, aws_data_plane }
    }

    /// The questions commonly asked about a resource type.
    pub fn get_common_questions(&self, resource_type: &str) -> (r: Vec<String>)
        ensures
            texts(r@) == common_questions(resource_type@),
    {
        let mut v: Vec<String> = Vec::new();
        if str_eq(resource_type, "EC2Instance") {
            push_all(
                &mut v,
                &[
                    "What is the CPU utilization?",
                    "How much memory is being used?",
                    "What is the network performance?",
                    "Are there any performance bottlenecks?",
                ],
            );
        } else if str_eq(resource_type, "RdsInstance") {
            push_all(
                &mut v,
                &[
                    "What is the database CPU usage?",
                    "How much free memory is available?",
                    "What is the storage usage trend?",
                    "Are there any slow queries?",
                ],
            );
        } else if str_eq(resource_type, "DynamoDbTable") {
            push_all(
                &mut v,
                &[
                    "What is the consumed read capacity?",
                    "What is the consumed write capacity?",
                    "Are there any throttled requests?",
                    "What is the storage usage?",
                ],
            );
        } else if str_eq(resource_type, "ElasticacheCluster") {
            push_all(
                &mut v,
                &[
                    "What is the cache hit rate?",
                    "How much memory is being used?",
                    "Are there any evictions?",
                    "What is the network bandwidth usage?",
                ],
            );
        } else if str_eq(resource_type, "KinesisStream") {
            push_all(
                &mut v,
                &[
                    "What is the consumer lag?",
                    "How many records are being processed?",
                    "Are there any throughput exceeded events?",
                    "Do I need to increase my shard count?",
                ],
            );
        }
        assert(texts(v@) =~= common_questions(resource_type@));
        v
    }

    /// The common questions for the resource type, then those of the
    /// workflow, whose name is compared case-insensitively.
    pub fn generate_related_questions(&self, resource_type: &str, workflow: &str) -> (r: Vec<String>)
        ensures
            texts(r@) == common_questions(resource_type@) + workflow_questions(unicode_lower(workflow@)),
    {
        let w = to_lowercase(workflow);
        self.related_questions_for(resource_type, w.as_str())
    }

    /// The common questions for the resource type, then those of the
    /// workflow whose lower-cased name is `w`.
    pub fn related_questions_for(&self, resource_type: &str, w: &str) -> (r: Vec<String>)
        ensures
            texts(r@) == common_questions(resource_type@) + workflow_questions(w@),
    {
        let mut questions = self.get_common_questions(resource_type);
        if str_eq(w, "performance") {
            push_all(
                &mut questions,
                &[
                    "What are the peak usage times?",
                    "Are there any performance bottlenecks?",
                    "How does the current performance compare to last week?",
                ],
            );
        } else if str_eq(w, "cost") {
            push_all(
                &mut questions,
                &[
                    "What is the monthly cost trend?",
                    "Are there any cost optimization opportunities?",
                    "How does the cost compare to similar resources?",
                ],
            );
        }
        assert(texts(questions@) =~= common_questions(resource_type@) + workflow_questions(w@));
        questions
    }

    /// Follow-up questions: about memory and correlation after a CPU or
    /// performance question, about swap and processes after a memory
    /// question, then the common questions for the resource type.
    pub fn generate_followup_questions(&self, resource_type: &str, original_question: &str) -> (r: Vec<String>)
        ensures
            texts(r@) == followup_questions(resource_type@, unicode_lower(original_question@)),
    {
        let q = to_lowercase(original_question);
        self.followup_questions_for(resource_type, q.as_str())
    }

    /// The follow-up questions for a question, lower-cased as `q`, about a
    /// resource type.
    pub fn followup_questions_for(&self, resource_type: &str, q: &str) -> (r: Vec<String>)
        ensures
            texts(r@) == followup_questions(resource_type@, q@),
    {
        let mut questions: Vec<String> = Vec::new();
        if contains_str(q, "cpu") || contains_str(q, "performance") {
            push_all(
                &mut questions,
                &[
                    "What is the memory usage like?",
                    "Are there any correlated metrics?",
                    "What time periods show the highest usage?",
                ],
            );
        }
        if contains_str(q, "memory") || contains_str(q, "ram") {
            push_all(
                &mut questions,
                &[
                    "Is there any swap usage?",
                    "What processes are using the most memory?",
                    "Has memory usage been increasing over time?",
                ],
            );
        }
        let common = self.get_common_questions(resource_type);
        let ghost before = questions@;
        let ghost common_v = common@;
        let mut common = common;
        questions.append(&mut common);
        assert(texts(questions@) =~= texts(before) + texts(common_v));
        assert(texts(questions@) =~= followup_questions(resource_type@, q@));
        questions
    }
}

// ---------------------------------------------------------------------------
// Which analysis runs on which resource
// ---------------------------------------------------------------------------

/// The analysers, one per supported resource type.
#[derive(Debug, Clone, Copy, PartialEq, Eq, Structural)]
pub enum ResourceAnalyzer {
    Ec2Instance,
    S3Bucket,
    RdsInstance,
    DynamoDbTable,
    ElastiCache,
    KinesisStream,
}

/// The analyser of a resource type, if it has one.
pub open spec fn analyzer_of(t: Seq<char>) -> Option<ResourceAnalyzer> {
    if t == "EC2Instance"@ {
        Some(ResourceAnalyzer::Ec2Instance)
    } else if t == "S3Bucket"@ {
        Some(ResourceAnalyzer::S3Bucket)
    } else if t == "RdsInstance"@ {
        Some(ResourceAnalyzer::RdsInstance)
    } else if t == "DynamoDbTable"@ {
        Some(ResourceAnalyzer::DynamoDbTable)
    } else if t == "ElastiCache"@ {
        Some(ResourceAnalyzer::ElastiCache)
    } else if t == "KinesisStream"@ {
        Some(ResourceAnalyzer::KinesisStream)
    } else {
        None
    }
}

/// The names under which a Kinesis stream is recognised.
pub open spec fn is_kinesis_name(t: Seq<char>) -> bool {
    t == "KinesisStream"@ || t == "kinesisstream"@ || t == "kinesis_stream"@ || t
        == "kinesis-stream"@ || t == "Kinesis"@ || t == "kinesis"@
}

/// A workflow description, by its values: id, name, description, resource
/// type, permissions, formats, duration.
pub open spec fn metadata_view(m: ResourceAnalysisMetadata) -> (
    Seq<char>,
    Seq<char>,
    Seq<char>,
    Seq<char>,
    Seq<Seq<char>>,
    Seq<Seq<char>>,
    Seq<char>,
) {
    (
        m.workflow_id@,
        m.name@,
        m.description@,
        m.resource_type@,
        texts(m.required_permissions@),
        texts(m.supported_formats@),
        m.estimated_duration@,
    )
}

/// The workflows offered for a Kinesis stream (`kinesis`) or an EC2 instance,
/// described for resource type `rt`.
pub open spec fn offered_workflows(kinesis: bool, rt: Seq<char>) -> Seq<
    (Seq<char>, Seq<char>, Seq<char>, Seq<char>, Seq<Seq<char>>, Seq<Seq<char>>, Seq<char>),
> {
    let formats = seq!["markdown"@, "json"@];
    seq![
        (
            "performance"@,
            if kinesis {
                "Stream Performance Analysis"@
            } else {
                "Performance Analysis"@
            },
            if kinesis {
                "Analyze stream throughput, latency, and records processing"@
            } else {
                "Analyze CPU, memory, and network performance"@
            },
            rt,
            seq!["cloudwatch:GetMetricData"@],
            formats,
            "1-2 minutes"@,
        ),
        (
            "cost"@,
            "Cost Analysis"@,
            if kinesis {
                "Analyze stream costs and shard usage efficiency"@
            } else {
                "Analyze instance costs and potential savings"@
            },
            rt,
            seq!["cloudwatch:GetMetricData"@, "ce:GetCostAndUsage"@],
            formats,
            "2-3 minutes"@,
        ),
    ]
}

fn workflow_metadata(
    workflow_id: &str,
    name: &str,
    description: &str,
    resource_type: &str,
    with_cost_explorer: bool,
    estimated_duration: &str,
) -> (r: ResourceAnalysisMetadata)
    ensures
        metadata_view(r) == (
            workflow_id@,
            name@,
            description@,
            resource_type@,
            if with_cost_explorer {
                seq!["cloudwatch:GetMetricData"@, "ce:GetCostAndUsage"@]
            } else {
                seq!["cloudwatch:GetMetricData"@]
            },
            seq!["markdown"@, "json"@],
            estimated_duration@,
        ),
{
    let mut required_permissions: Vec<String> = Vec::new();
    required_permissions.push(owned("cloudwatch:GetMetricData"));
    if with_cost_explorer {
        required_permissions.push(owned("ce:GetCostAndUsage"));
    }
    let mut supported_formats: Vec<String> = Vec::new();
    supported_formats.push(owned("markdown"));
    supported_formats.push(owned("json"));
    assert(texts(supported_formats@) =~= seq!["markdown"@, "json"@]);
    if with_cost_explorer {
        assert(texts(required_permissions@) =~= seq!["cloudwatch:GetMetricData"@, "ce:GetCostAndUsage"@]);
    } else {
        assert(texts(required_permissions@) =~= seq!["cloudwatch:GetMetricData"@]);
    }
    ResourceAnalysisMetadata {
        workflow_id: owned(workflow_id),
        name: owned(name),
        description: owned(description),
        resource_type: owned(resource_type),
        required_permissions,
        supported_formats,
        estimated_duration: owned(estimated_duration),
    }
}

/// The name of a metric series of a CloudWatch result, with its values left
/// to the caller.
pub struct MetricSeriesName {
    pub metric_name: String,
}

/// The name `{:?}` prints for a workflow.
pub open spec fn workflow_debug_name(w: ResourceAnalysisWorkflow) -> Seq<char> {
    match w {
        ResourceAnalysisWorkflow::Performance => "Performance"@,
        ResourceAnalysisWorkflow::Cost => "Cost"@,
        ResourceAnalysisWorkflow::Storage => "Storage"@,
        ResourceAnalysisWorkflow::Memory => "Memory"@,
    }
}

/// The text that an analysis of one kind of resource under a workflow opens
/// with, or `None` where that kind does not offer the workflow.
pub open spec fn report_heading_of(a: ResourceAnalyzer, w: ResourceAnalysisWorkflow) -> Option<Seq<char>> {
    match (a, w) {
        (ResourceAnalyzer::Ec2Instance, ResourceAnalysisWorkflow::Performance) => Some(
            "# EC2 Instance Performance Analysis\n\n"@,
        ),
        (ResourceAnalyzer::Ec2Instance, ResourceAnalysisWorkflow::Cost) => Some(
            "# EC2 Instance Cost Analysis\n\nCost analysis not yet implemented\n"@,
        ),
        (ResourceAnalyzer::S3Bucket, ResourceAnalysisWorkflow::Cost) => Some(
            "# S3 Bucket Cost Analysis\n\n"@,
        ),
        (ResourceAnalyzer::RdsInstance, ResourceAnalysisWorkflow::Performance) => Some(
            "# RDS Instance Performance Analysis\n\n"@,
        ),
        (ResourceAnalyzer::RdsInstance, ResourceAnalysisWorkflow::Storage) => Some(
            "# RDS Storage Analysis\n\n"@,
        ),
        (ResourceAnalyzer::DynamoDbTable, ResourceAnalysisWorkflow::Performance) => Some(
            "# DynamoDB Table Performance Analysis\n\n"@,
        ),
        (ResourceAnalyzer::DynamoDbTable, ResourceAnalysisWorkflow::Cost) => Some(
            "# DynamoDB Cost Analysis\n\n"@,
        ),
        (ResourceAnalyzer::ElastiCache, ResourceAnalysisWorkflow::Performance) => Some(
            "# ElastiCache Cluster Performance Analysis\n\n"@,
        ),
        (ResourceAnalyzer::ElastiCache, ResourceAnalysisWorkflow::Memory) => Some(
            "# ElastiCache Memory Analysis\n\n"@,
        ),
        (ResourceAnalyzer::KinesisStream, ResourceAnalysisWorkflow::Performance) => Some(
            "# Kinesis Stream Performance Analysis\n\n"@,
        ),
        (ResourceAnalyzer::KinesisStream, ResourceAnalysisWorkflow::Cost) => Some(
            "# Kinesis Stream Cost Analysis\n\n"@,
        ),
        _ => None,
    }
}

/// Why an analysis of one kind of resource refuses a workflow.
pub open spec fn workflow_refusal(a: ResourceAnalyzer, w: ResourceAnalysisWorkflow) -> Seq<char> {
    match a {
        ResourceAnalyzer::Ec2Instance => "Unsupported workflow type for EC2 instance"@,
        ResourceAnalyzer::S3Bucket => "Unsupported workflow for S3: "@ + workflow_debug_name(w),
        ResourceAnalyzer::RdsInstance => "Unsupported workflow type for RDS instance"@,
        ResourceAnalyzer::DynamoDbTable => "Unsupported workflow type for DynamoDB table"@,
        ResourceAnalyzer::ElastiCache => "Unsupported workflow type for ElastiCache cluster"@,
        ResourceAnalyzer::KinesisStream => "Unsupported workflow type for Kinesis Stream"@,
    }
}

/// What a question about a resource asks of: the processor, the memory.
pub struct QuestionTopics {
    pub cpu: bool,
    pub memory: bool,
}

/// The topics of a lower-cased question: an EC2 question asks of the
/// processor by `cpu` or `processor`, an RDS question by `cpu` alone; both
/// ask of memory by `memory` or `ram`.
pub open spec fn topics_of(a: ResourceAnalyzer, lowered: Seq<char>) -> (bool, bool) {
    (
        contains_text(lowered, "cpu"@) || (a == ResourceAnalyzer::Ec2Instance && contains_text(
            lowered,
            "processor"@,
        )),
        contains_text(lowered, "memory"@) || contains_text(lowered, "ram"@),
    )
}

/// The answer given where no section applies to a question.
pub open spec fn no_answer_of(a: ResourceAnalyzer) -> Seq<char> {
    if a == ResourceAnalyzer::Ec2Instance {
        "I apologize, but I don't have enough information to answer that specific question about the EC2 instance."@
    } else {
        "I apologize, but I don't have enough information to answer that specific question about the RDS instance."@
    }
}

/// The lines that open a Kinesis stream analysis.
pub open spec fn stream_information(resource_id: Seq<char>, arn: Seq<char>, region: Seq<char>) -> Seq<char> {
    "## Stream Information\n- Stream: "@ + resource_id + "\n- ARN: "@ + arn + "\n- Region: "@
        + region + "\n\n"@
}

impl AwsAnalyticsService {
    /// The analyser that `analyze_resource` runs for a resource type; an
    /// unsupported type is a bad request.
    pub fn analyzer_for(&self, resource_type: &str) -> (r: Result<ResourceAnalyzer, AppError>)
        ensures
            r matches Ok(a) ==> analyzer_of(resource_type@) == Some(a),
            r is Err <==> analyzer_of(resource_type@) is None,
            r matches Err(e) ==> e matches AppError::BadRequest(m) && m@
                == "Unsupported resource type: "@ + resource_type@,
    {
        let t = resource_type;
        if str_eq(t, "EC2Instance") {
            Ok(ResourceAnalyzer::Ec2Instance)
        } else if str_eq(t, "S3Bucket") {
            Ok(ResourceAnalyzer::S3Bucket)
        } else if str_eq(t, "RdsInstance") {
            Ok(ResourceAnalyzer::RdsInstance)
        } else if str_eq(t, "DynamoDbTable") {
            Ok(ResourceAnalyzer::DynamoDbTable)
        } else if str_eq(t, "ElastiCache") {
            Ok(ResourceAnalyzer::ElastiCache)
        } else if str_eq(t, "KinesisStream") {
            Ok(ResourceAnalyzer::KinesisStream)
        } else {
            Err(AppError::BadRequest(concat2("Unsupported resource type: ", t)))
        }
    }

    /// The analyser that answers questions about a resource type: EC2
    /// instances and RDS instances only.
    pub fn question_analyzer_for(&self, resource_type: &str) -> (r: Result<ResourceAnalyzer, AppError>)
        ensures
            r matches Ok(a) ==> (resource_type@ == "EC2Instance"@ && a == ResourceAnalyzer::Ec2Instance)
                || (resource_type@ == "RdsInstance"@ && a == ResourceAnalyzer::RdsInstance),
            r is Err <==> resource_type@ != "EC2Instance"@ && resource_type@ != "RdsInstance"@,
            r matches Err(e) ==> e matches AppError::BadRequest(m) && m@
                == "Unsupported resource type: "@ + resource_type@,
    {
        if str_eq(resource_type, "EC2Instance") {
            Ok(ResourceAnalyzer::Ec2Instance)
        } else if str_eq(resource_type, "RdsInstance") {
            Ok(ResourceAnalyzer::RdsInstance)
        } else {
            Err(AppError::BadRequest(concat2("Unsupported resource type: ", resource_type)))
        }
    }

    /// The workflow an analysis request names; an unknown one is a bad request
    /// that carries the parse error.
    pub fn requested_workflow(&self, workflow: &str) -> (r: Result<ResourceAnalysisWorkflow, AppError>)
        ensures
            r matches Ok(w) ==> workflow_of_name(workflow@) == Some(w),
            r is Err <==> workflow_of_name(workflow@) is None,
            r matches Err(e) ==> e matches AppError::BadRequest(m) && m@
                == "Invalid workflow type: "@ + ("Unknown workflow type: "@ + workflow@),
    {
        match ResourceAnalysisWorkflow::from_str(workflow) {
            Ok(w) => Ok(w),
            Err(e) => Err(AppError::BadRequest(concat2("Invalid workflow type: ", e.as_str()))),
        }
    }

    /// The analysis workflows offered for a resource type, with its common
    /// questions and its best-practices page. The type is matched after
    /// trimming; Kinesis streams go by several names.
    pub fn get_workflows_for_resource(&self, resource_type: &str) -> (r: Result<AnalysisWorkflowInfo, AppError>)
        ensures
            r is Ok <==> is_kinesis_name(trimmed(resource_type@)) || trimmed(resource_type@)
                == "EC2Instance"@,
            r matches Err(e) ==> e matches AppError::BadRequest(m) && m@
                == "Unsupported resource type: "@ + resource_type@
                + ". Please use one of the supported types: KinesisStream, EC2Instance, S3Bucket, RdsInstance, DynamoDbTable, ElastiCache"@,
            r matches Ok(info) ==> {
                &&& info.resource_type@ == resource_type@
                &&& info.workflows@.map_values(|m: ResourceAnalysisMetadata| metadata_view(m))
                    == offered_workflows(is_kinesis_name(trimmed(resource_type@)), resource_type@)
                &&& texts(info.common_questions@) == common_questions(resource_type@)
                &&& info.best_practices_url matches Some(u) && u@
                    == "https://aws.amazon.com/blogs/architecture/category/"@ + unicode_lower(
                    resource_type@,
                ) + "/"@
            },
    {
        let normalized = trim(resource_type);
        let n = normalized.as_str();
        let kinesis = str_eq(n, "KinesisStream") || str_eq(n, "kinesisstream") || str_eq(
            n,
            "kinesis_stream",
        ) || str_eq(n, "kinesis-stream") || str_eq(n, "Kinesis") || str_eq(n, "kinesis");
        if !kinesis && !str_eq(n, "EC2Instance") {
            return Err(
                AppError::BadRequest(
                    concat3(
                        "Unsupported resource type: ",
                        resource_type,
                        ". Please use one of the supported types: KinesisStream, EC2Instance, S3Bucket, RdsInstance, DynamoDbTable, ElastiCache",
                    ),
                ),
            );
        }
        let performance = workflow_metadata(
            "performance",
            if kinesis {
                "Stream Performance Analysis"
            } else {
                "Performance Analysis"
            },
            if kinesis {
                "Analyze stream throughput, latency, and records processing"
            } else {
                "Analyze CPU, memory, and network performance"
            },
            resource_type,
            false,
            "1-2 minutes",
        );
        let cost = workflow_metadata(
            "cost",
            "Cost Analysis",
            if kinesis {
                "Analyze stream costs and shard usage efficiency"
            } else {
                "Analyze instance costs and potential savings"
            },
            resource_type,
            true,
            "2-3 minutes",
        );
        let mut workflows: Vec<ResourceAnalysisMetadata> = Vec::new();
        workflows.push(performance);
        workflows.push(cost);
        assert(workflows@.map_values(|m: ResourceAnalysisMetadata| metadata_view(m))
            =~= offered_workflows(kinesis, resource_type@));
        let lower = to_lowercase(resource_type);
        let url = concat3(
            "https://aws.amazon.com/blogs/architecture/category/",
            lower.as_str(),
            "/",
        );
        Ok(
            AnalysisWorkflowInfo {
                resource_type: owned(resource_type),
                workflows,
                common_questions: self.get_common_questions(resource_type),
                best_practices_url: Some(url),
            },
        )
    }

    /// The text an analysis report opens with, or the refusal of a workflow
    /// that the kind of resource does not offer.
    pub fn report_heading(&self, analyzer: ResourceAnalyzer, workflow: ResourceAnalysisWorkflow) -> (r: Result<String, AppError>)
        ensures
            match report_heading_of(analyzer, workflow) {
                Some(h) => r matches Ok(t) && t@ == h,
                None => r matches Err(e) && e matches AppError::BadRequest(m) && m@
                    == workflow_refusal(analyzer, workflow),
            },
    {
        let heading: Option<&str> = match (analyzer, workflow) {
            (ResourceAnalyzer::Ec2Instance, ResourceAnalysisWorkflow::Performance) => Some(
                "# EC2 Instance Performance Analysis\n\n",
            ),
            (ResourceAnalyzer::Ec2Instance, ResourceAnalysisWorkflow::Cost) => Some(
                "# EC2 Instance Cost Analysis\n\nCost analysis not yet implemented\n",
            ),
            (ResourceAnalyzer::S3Bucket, ResourceAnalysisWorkflow::Cost) => Some(
                "# S3 Bucket Cost Analysis\n\n",
            ),
            (ResourceAnalyzer::RdsInstance, ResourceAnalysisWorkflow::Performance) => Some(
                "# RDS Instance Performance Analysis\n\n",
            ),
            (ResourceAnalyzer::RdsInstance, ResourceAnalysisWorkflow::Storage) => Some(
                "# RDS Storage Analysis\n\n",
            ),
            (ResourceAnalyzer::DynamoDbTable, ResourceAnalysisWorkflow::Performance) => Some(
                "# DynamoDB Table Performance Analysis\n\n",
            ),
            (ResourceAnalyzer::DynamoDbTable, ResourceAnalysisWorkflow::Cost) => Some(
                "# DynamoDB Cost Analysis\n\n",
            ),
            (ResourceAnalyzer::ElastiCache, ResourceAnalysisWorkflow::Performance) => Some(
                "# ElastiCache Cluster Performance Analysis\n\n",
            ),
            (ResourceAnalyzer::ElastiCache, ResourceAnalysisWorkflow::Memory) => Some(
                "# ElastiCache Memory Analysis\n\n",
            ),
            (ResourceAnalyzer::KinesisStream, ResourceAnalysisWorkflow::Performance) => Some(
                "# Kinesis Stream Performance Analysis\n\n",
            ),
            (ResourceAnalyzer::KinesisStream, ResourceAnalysisWorkflow::Cost) => Some(
                "# Kinesis Stream Cost Analysis\n\n",
            ),
            _ => None,
        };
        match heading {
            Some(h) => Ok(owned(h)),
            None => {
                let name: &str = match workflow {
                    ResourceAnalysisWorkflow::Performance => "Performance",
                    ResourceAnalysisWorkflow::Cost => "Cost",
                    ResourceAnalysisWorkflow::Storage => "Storage",
                    ResourceAnalysisWorkflow::Memory => "Memory",
                };
                let m = match analyzer {
                    ResourceAnalyzer::Ec2Instance => owned("Unsupported workflow type for EC2 instance"),
                    ResourceAnalyzer::S3Bucket => concat2("Unsupported workflow for S3: ", name),
                    ResourceAnalyzer::RdsInstance => owned("Unsupported workflow type for RDS instance"),
                    ResourceAnalyzer::DynamoDbTable => owned("Unsupported workflow type for DynamoDB table"),
                    ResourceAnalyzer::ElastiCache => owned("Unsupported workflow type for ElastiCache cluster"),
                    ResourceAnalyzer::KinesisStream => owned("Unsupported workflow type for Kinesis Stream"),
                };
                Err(AppError::BadRequest(m))
            },
        }
    }

    /// What a question about a resource asks of, its case ignored.
    pub fn question_topics(&self, analyzer: ResourceAnalyzer, question: &str) -> (r: QuestionTopics)
        ensures
            (r.cpu, r.memory) == topics_of(analyzer, unicode_lower(question@)),
    {
        let q = to_lowercase(question);
        let cpu = contains_str(q.as_str(), "cpu") || (analyzer == ResourceAnalyzer::Ec2Instance
            && contains_str(q.as_str(), "processor"));
        let memory = contains_str(q.as_str(), "memory") || contains_str(q.as_str(), "ram");
        QuestionTopics { cpu, memory }
    }

    /// The answer to a question about an EC2 or RDS instance: the sections
    /// written for it, or, where none applied, an apology.
    pub fn finish_answer(&self, analyzer: ResourceAnalyzer, answer: String) -> (r: String)
        requires
            analyzer == ResourceAnalyzer::Ec2Instance || analyzer == ResourceAnalyzer::RdsInstance,
        ensures
            r@ == if answer@.len() == 0 { no_answer_of(analyzer) } else { answer@ },
    {
        if answer.as_str().is_empty() {
            if analyzer == ResourceAnalyzer::Ec2Instance {
                owned("I apologize, but I don't have enough information to answer that specific question about the EC2 instance.")
            } else {
                owned("I apologize, but I don't have enough information to answer that specific question about the RDS instance.")
            }
        } else {
            answer
        }
    }

    /// The position of the first series named `name`, if any.
    pub fn find_metric(&self, metrics: &Vec<MetricSeriesName>, name: &str) -> (r: Option<usize>)
        ensures
            match r {
                Some(i) => i < metrics@.len() && metrics@[i as int].metric_name@ == name@
                    && forall|j: int| 0 <= j < i ==> #[trigger] metrics@[j].metric_name@ != name@,
                None => forall|j: int| 0 <= j < metrics@.len() ==> #[trigger] metrics@[j].metric_name@
                    != name@,
            },
    {
        let mut i: usize = 0;
        while i < metrics.len()
            invariant
                i <= metrics@.len(),
                forall|j: int| 0 <= j < i ==> #[trigger] metrics@[j].metric_name@ != name@,
            decreases metrics@.len() - i,
        {
            if str_eq(metrics[i].metric_name.as_str(), name) {
                return Some(i);
            }
            i = i + 1;
        }
        None
    }

    /// A Kinesis stream analysis covers performance and cost; any other
    /// workflow is a bad request.
    pub fn check_kinesis_workflow(&self, workflow: ResourceAnalysisWorkflow) -> (r: Result<(), AppError>)
        ensures
            r is Ok <==> (workflow is Performance || workflow is Cost),
            r matches Err(e) ==> e matches AppError::BadRequest(m) && m@
                == "Unsupported workflow type for Kinesis Stream"@,
    {
        match workflow {
            ResourceAnalysisWorkflow::Performance => Ok(()),
            ResourceAnalysisWorkflow::Cost => Ok(()),
            _ => Err(AppError::BadRequest(owned("Unsupported workflow type for Kinesis Stream"))),
        }
    }

    /// The stream information lines of a Kinesis analysis.
    pub fn stream_information(&self, resource_id: &str, arn: &str, region: &str) -> (r: String)
        ensures
            r@ == stream_information(resource_id@, arn@, region@),
    {
        let a = concat3("## Stream Information\n- Stream: ", resource_id, "\n- ARN: ");
        let b = concat3(a.as_str(), arn, "\n- Region: ");
        concat3(b.as_str(), region, "\n\n")
    }

    /// The shard count a Kinesis stream's data records (`ShardCount`), or 1.
    pub fn kinesis_shard_count(&self, resource_data: &JsonValue) -> (r: u64)
        ensures
            r == match resource_data.spec_get("ShardCount"@) {
                Some(v) => match v.spec_u64() {
                    Some(n) => n,
                    None => 1,
                },
                None => 1,
            },
    {
        match resource_data.get("ShardCount") {
            Some(v) => match v.as_u64() {
                Some(n) => n,
                None => 1,
            },
            None => 1,
        }
    }
}

} // verus!

//! Chaos experiments: which action an experiment type names, what that action
//! does with the experiment's parameters, and the order of steps of a run.
//!
//! The cloud calls, the repository writes and the clock stay with the caller,
//! which performs each step and reports what came of it.
use vstd::prelude::*;
use crate::errors::AppError;
use crate::json::{fields_seq, merge_objects, merged_value, ArrayBuilder, JsonValue, ObjectBuilder};
use crate::text::{concat2, concat3, concat5, i64_decimal, owned, str_eq, u64_decimal, decimal, signed_decimal};
use crate::time::{rfc3339_offset_text, to_rfc3339_offset, Timestamp};

verus! {

// ---------------------------------------------------------------------------
// Experiment types
// ---------------------------------------------------------------------------

/// The chaos actions that an experiment can run.
#[derive(Debug, Clone, Copy, PartialEq, Eq, Structural)]
pub enum ChaosActionKind {
    InstanceStop,
    InstanceReboot,
    InstanceTerminate,
    RdsFailover,
    RdsReboot,
    LambdaDisable,
    LambdaTimeout,
    EcsScaleDown,
    ElasticacheFailover,
    DynamodbThrottle,
    S3DenyAccess,
    AlbDeregisterTargets,
    SgBlockIngress,
    SqsPurge,
    EksScaleDown,
}

/// The action that an experiment type names, if any.
pub open spec fn action_of(t: Seq<char>) -> Option<ChaosActionKind> {
    if t == "instance_stop"@ {
        Some(ChaosActionKind::InstanceStop)
    } else if t == "instance_reboot"@ {
        Some(ChaosActionKind::InstanceReboot)
    } else if t == "instance_terminate"@ {
        Some(ChaosActionKind::InstanceTerminate)
    } else if t == "rds_failover"@ {
        Some(ChaosActionKind::RdsFailover)
    } else if t == "rds_reboot"@ {
        Some(ChaosActionKind::RdsReboot)
    } else if t == "lambda_disable"@ {
        Some(ChaosActionKind::LambdaDisable)
    } else if t == "lambda_timeout"@ {
        Some(ChaosActionKind::LambdaTimeout)
    } else if t == "ecs_scale_down"@ {
        Some(ChaosActionKind::EcsScaleDown)
    } else if t == "elasticache_failover"@ {
        Some(ChaosActionKind::ElasticacheFailover)
    } else if t == "dynamodb_throttle"@ {
        Some(ChaosActionKind::DynamodbThrottle)
    } else if t == "s3_deny_access"@ {
        Some(ChaosActionKind::S3DenyAccess)
    } else if t == "alb_deregister_targets"@ {
        Some(ChaosActionKind::AlbDeregisterTargets)
    } else if t == "sg_block_ingress"@ {
        Some(ChaosActionKind::SgBlockIngress)
    } else if t == "sqs_purge"@ {
        Some(ChaosActionKind::SqsPurge)
    } else if t == "eks_scale_down"@ {
        Some(ChaosActionKind::EksScaleDown)
    } else {
        None
    }
}

/// Routes an experiment type to its action; an unknown type is a bad request.
pub fn experiment_action(experiment_type: &str) -> (r: Result<ChaosActionKind, AppError>)
    ensures
        r matches Ok(k) ==> action_of(experiment_type@) == Some(k),
        r is Err <==> action_of(experiment_type@) is None,
        r matches Err(e) ==> e matches AppError::BadRequest(m) && m@ == "Unknown experiment type: "@
            + experiment_type@,
{
    let t = experiment_type;
    if str_eq(t, "instance_stop") {
        Ok(ChaosActionKind::InstanceStop)
    } else if str_eq(t, "instance_reboot") {
        Ok(ChaosActionKind::InstanceReboot)
    } else if str_eq(t, "instance_terminate") {
        Ok(ChaosActionKind::InstanceTerminate)
    } else if str_eq(t, "rds_failover") {
        Ok(ChaosActionKind::RdsFailover)
    } else if str_eq(t, "rds_reboot") {
        Ok(ChaosActionKind::RdsReboot)
    } else if str_eq(t, "lambda_disable") {
        Ok(ChaosActionKind::LambdaDisable)
    } else if str_eq(t, "lambda_timeout") {
        Ok(ChaosActionKind::LambdaTimeout)
    } else if str_eq(t, "ecs_scale_down") {
        Ok(ChaosActionKind::EcsScaleDown)
    } else if str_eq(t, "elasticache_failover") {
        Ok(ChaosActionKind::ElasticacheFailover)
    } else if str_eq(t, "dynamodb_throttle") {
        Ok(ChaosActionKind::DynamodbThrottle)
    } else if str_eq(t, "s3_deny_access") {
        Ok(ChaosActionKind::S3DenyAccess)
    } else if str_eq(t, "alb_deregister_targets") {
        Ok(ChaosActionKind::AlbDeregisterTargets)
    } else if str_eq(t, "sg_block_ingress") {
        Ok(ChaosActionKind::SgBlockIngress)
    } else if str_eq(t, "sqs_purge") {
        Ok(ChaosActionKind::SqsPurge)
    } else if str_eq(t, "eks_scale_down") {
        Ok(ChaosActionKind::EksScaleDown)
    } else {
        Err(AppError::BadRequest(concat2("Unknown experiment type: ", t)))
    }
}

// ---------------------------------------------------------------------------
// Parameters
// ---------------------------------------------------------------------------

/// The boolean under `key`, or `default` where there is none.
pub open spec fn param_flag(params: JsonValue, key: Seq<char>, default: bool) -> bool {
    match params.spec_get(key) {
        Some(v) => match v.spec_bool() {
            Some(b) => b,
            None => default,
        },
        None => default,
    }
}

/// The integer under `key`, or `default` where there is none that fits `i64`.
pub open spec fn param_int(params: JsonValue, key: Seq<char>, default: i64) -> i64 {
    match params.spec_get(key) {
        Some(v) => match v.spec_i64() {
            Some(n) => n,
            None => default,
        },
        None => default,
    }
}

/// The text under `key`, if there is one.
pub open spec fn param_text(params: JsonValue, key: Seq<char>) -> Option<Seq<char>> {
    match params.spec_get(key) {
        Some(v) => v.spec_str(),
        None => None,
    }
}

/// The text under `key`, or `default`.
pub open spec fn param_text_or(params: JsonValue, key: Seq<char>, default: Seq<char>) -> Seq<
    char,
> {
    match param_text(params, key) {
        Some(t) => t,
        None => default,
    }
}

fn flag_param(params: &JsonValue, key: &str, default: bool) -> (r: bool)
    ensures
        r == param_flag(*params, key@, default),
{
    match params.get(key) {
        Some(v) => match v.as_bool() {
            Some(b) => b,
            None => default,
        },
        None => default,
    }
}

fn int_param(params: &JsonValue, key: &str, default: i64) -> (r: i64)
    ensures
        r == param_int(*params, key@, default),
{
    match params.get(key) {
        Some(v) => match v.as_i64() {
            Some(n) => n,
            None => default,
        },
        None => default,
    }
}

fn text_param(params: &JsonValue, key: &str) -> (r: Option<String>)
    ensures
        r is Some <==> param_text(*params, key@) is Some,
        r matches Some(t) ==> t@ == param_text(*params, key@).unwrap(),
{
    match params.get(key) {
        Some(v) => match v.as_str() {
            Some(t) => Some(t.clone()),
            None => None,
        },
        None => None,
    }
}

fn text_param_or(params: &JsonValue, key: &str, default: &str) -> (r: String)
    ensures
        r@ == param_text_or(*params, key@, default@),
{
    match text_param(params, key) {
        Some(t) => t,
        None => owned(default),
    }
}

/// Whether the run only says what it would do: `dry_run`, false by default.
pub fn is_dry_run(params: &JsonValue) -> (r: bool)
    ensures
        r == param_flag(*params, "dry_run"@, false),
{
    flag_param(params, "dry_run", false)
}

/// Whether a failed run is rolled back: `rollback_on_failure`, true by default.
pub fn should_rollback(params: &JsonValue) -> (r: bool)
    ensures
        r == param_flag(*params, "rollback_on_failure"@, true),
{
    flag_param(params, "rollback_on_failure", true)
}

/// The parameters a run uses: the experiment's own, with the request's
/// overrides written over them where there are any.
pub fn effective_parameters(experiment_params: &JsonValue, overrides: &Option<JsonValue>) -> (r:
    JsonValue)
    ensures
        r == match overrides {
            Some(o) => merged_value(*experiment_params, *o),
            None => *experiment_params,
        },
{
    match overrides {
        Some(o) => merge_objects(experiment_params, o),
        None => experiment_params.deep_clone(),
    }
}

// ---------------------------------------------------------------------------
// What each action does
// ---------------------------------------------------------------------------

/// The cloud call that an action makes, with the values it sends.
pub enum ChaosCall {
    StopInstances,
    RebootInstances,
    TerminateInstances,
    RebootDbInstance { force_failover: bool },
    PutFunctionConcurrency { reserved_concurrency: i32 },
    UpdateFunctionTimeout { timeout_seconds: i32 },
    UpdateEcsService { cluster: String, desired_count: i32 },
    TestElasticacheFailover { node_group_id: String },
    UpdateTableCapacity { read_capacity: i64, write_capacity: i64 },
    PutBucketPolicy { policy: JsonValue },
    DeregisterTargets { percentage: usize },
    RevokeIngress,
    PurgeQueue,
    UpdateNodegroupSize { nodegroup_name: String, desired_size: i32 },
}

/// An action worked out for one target: the call, the log lines around it
/// and the impact the result records.
pub struct ChaosActionPlan {
    pub kind: ChaosActionKind,
    pub call: ChaosCall,
    /// Logged before anything is done.
    pub announcement: String,
    /// Logged in place of the call on a dry run.
    pub dry_run_note: String,
    /// Logged after the call succeeds; `None` where the line depends on what
    /// the call found (targets deregistered, rules revoked).
    pub done_note: Option<String>,
    pub impact_severity: String,
    pub impact_summary: String,
}

/// The Lambda reserved concurrency to set (`reserved_concurrency`, 0).
pub open spec fn concurrency_of(params: JsonValue) -> i32 {
    param_int(params, "reserved_concurrency"@, 0) as i32
}

/// The Lambda timeout in seconds to set (`target_timeout_seconds`, 1).
pub open spec fn timeout_of(params: JsonValue) -> i32 {
    param_int(params, "target_timeout_seconds"@, 1) as i32
}

/// The ECS task count to scale to (`target_count`, 0).
pub open spec fn task_count_of(params: JsonValue) -> i32 {
    param_int(params, "target_count"@, 0) as i32
}

/// The DynamoDB read capacity to set (`target_read_capacity`, 1).
pub open spec fn read_capacity_of(params: JsonValue) -> i64 {
    param_int(params, "target_read_capacity"@, 1)
}

/// The DynamoDB write capacity to set (`target_write_capacity`, 1).
pub open spec fn write_capacity_of(params: JsonValue) -> i64 {
    param_int(params, "target_write_capacity"@, 1)
}

/// The EKS node count to scale to (`target_size`, 1).
pub open spec fn node_size_of(params: JsonValue) -> i32 {
    param_int(params, "target_size"@, 1) as i32
}

/// The share of ALB targets to deregister, in percent (`deregister_percentage`, 50).
pub open spec fn deregister_percentage_of(params: JsonValue) -> usize {
    param_int(params, "deregister_percentage"@, 50) as usize
}

/// The EKS node group (`nodegroup_name`, required).
pub open spec fn nodegroup_of(params: JsonValue) -> Option<Seq<char>> {
    param_text(params, "nodegroup_name"@)
}

/// How an `i32` is written.
pub open spec fn shown(n: i32) -> Seq<char> {
    signed_decimal(n as int)
}

/// How an `i64` is written.
pub open spec fn shown64(n: i64) -> Seq<char> {
    signed_decimal(n as int)
}

/// The impact severity that each action records.
pub open spec fn severity_of(kind: ChaosActionKind) -> Seq<char> {
    match kind {
        ChaosActionKind::InstanceStop => "medium"@,
        ChaosActionKind::InstanceReboot => "low"@,
        ChaosActionKind::InstanceTerminate => "critical"@,
        ChaosActionKind::LambdaTimeout => "medium"@,
        ChaosActionKind::SgBlockIngress => "critical"@,
        _ => "high"@,
    }
}

/// The line a dry run logs in place of the call.
pub open spec fn dry_run_note_of(kind: ChaosActionKind) -> Seq<char> {
    match kind {
        ChaosActionKind::InstanceStop => "[DRY RUN] Would stop EC2 instance"@,
        ChaosActionKind::InstanceReboot => "[DRY RUN] Would reboot EC2 instance"@,
        ChaosActionKind::InstanceTerminate => "[DRY RUN] Would terminate EC2 instance"@,
        ChaosActionKind::RdsFailover => "[DRY RUN] Would initiate RDS failover"@,
        ChaosActionKind::RdsReboot => "[DRY RUN] Would reboot RDS instance"@,
        ChaosActionKind::LambdaDisable => "[DRY RUN] Would disable Lambda function"@,
        ChaosActionKind::LambdaTimeout => "[DRY RUN] Would reduce Lambda timeout"@,
        ChaosActionKind::EcsScaleDown => "[DRY RUN] Would scale down ECS service"@,
        ChaosActionKind::ElasticacheFailover => "[DRY RUN] Would initiate ElastiCache failover"@,
        ChaosActionKind::DynamodbThrottle => "[DRY RUN] Would reduce DynamoDB capacity"@,
        ChaosActionKind::S3DenyAccess => "[DRY RUN] Would apply deny-all S3 policy"@,
        ChaosActionKind::AlbDeregisterTargets => "[DRY RUN] Would deregister ALB targets"@,
        ChaosActionKind::SgBlockIngress => "[DRY RUN] Would revoke SG ingress rules"@,
        ChaosActionKind::SqsPurge => "[DRY RUN] Would purge SQS queue"@,
        ChaosActionKind::EksScaleDown => "[DRY RUN] Would scale down EKS node group"@,
    }
}

/// The line logged before the action, for target `t`.
pub open spec fn announcement_of(kind: ChaosActionKind, t: Seq<char>, params: JsonValue) -> Seq<
    char,
> {
    match kind {
        ChaosActionKind::InstanceStop => "Stopping EC2 instance: "@ + t,
        ChaosActionKind::InstanceReboot => "Rebooting EC2 instance: "@ + t,
        ChaosActionKind::InstanceTerminate => "Terminating EC2 instance: "@ + t,
        ChaosActionKind::RdsFailover => "Initiating RDS failover for: "@ + t,
        ChaosActionKind::RdsReboot => "Rebooting RDS instance: "@ + t,
        ChaosActionKind::LambdaDisable => "Setting Lambda "@ + t + " reserved concurrency to "@
            + shown(concurrency_of(params)),
        ChaosActionKind::LambdaTimeout => "Setting Lambda "@ + t + " timeout to "@ + shown(
            timeout_of(params),
        ) + "s"@,
        ChaosActionKind::EcsScaleDown => "Scaling down ECS service "@ + t + " to "@ + shown(
            task_count_of(params),
        ) + " tasks"@,
        ChaosActionKind::ElasticacheFailover => "Initiating ElastiCache failover for: "@ + t,
        ChaosActionKind::DynamodbThrottle => "Reducing DynamoDB "@ + t + " capacity to RCU="@
            + shown64(read_capacity_of(params)) + ", WCU="@ + shown64(write_capacity_of(params)),
        ChaosActionKind::S3DenyAccess => "Applying deny-all policy to S3 bucket: "@ + t,
        ChaosActionKind::AlbDeregisterTargets => "Deregistering targets from ALB target group: "@
            + t,
        ChaosActionKind::SgBlockIngress => "Revoking all ingress rules from SG: "@ + t,
        ChaosActionKind::SqsPurge => "Purging SQS queue: "@ + t,
        ChaosActionKind::EksScaleDown => "Scaling EKS node group "@ + nodegroup_of(params).unwrap()
            + " in cluster "@ + t + " to "@ + shown(node_size_of(params)),
    }
}

/// The line logged once the call has succeeded, where it is fixed in advance.
pub open spec fn done_note_of(kind: ChaosActionKind, t: Seq<char>, params: JsonValue) -> Option<
    Seq<char>,
> {
    match kind {
        ChaosActionKind::InstanceStop => Some("EC2 instance "@ + t + " stop initiated successfully"@),
        ChaosActionKind::InstanceReboot => Some("EC2 instance "@ + t + " reboot initiated"@),
        ChaosActionKind::InstanceTerminate => Some("EC2 instance "@ + t + " terminated"@),
        ChaosActionKind::RdsFailover => Some(
            "RDS failover initiated for "@ + t
                + ". Instance is rebooting with force failover."@,
        ),
        ChaosActionKind::RdsReboot => Some("RDS instance "@ + t + " reboot initiated"@),
        ChaosActionKind::LambdaDisable => Some(
            "Lambda "@ + t + " concurrency set to "@ + shown(concurrency_of(params)),
        ),
        ChaosActionKind::LambdaTimeout => Some(
            "Lambda "@ + t + " timeout set to "@ + shown(timeout_of(params)) + "s"@,
        ),
        ChaosActionKind::EcsScaleDown => Some(
            "ECS service "@ + t + " scaled down to "@ + shown(task_count_of(params)) + " tasks"@,
        ),
        ChaosActionKind::ElasticacheFailover => Some("ElastiCache failover initiated for "@ + t),
        ChaosActionKind::DynamodbThrottle => Some(
            "DynamoDB "@ + t + " capacity reduced to RCU="@ + shown64(read_capacity_of(params))
                + ", WCU="@ + shown64(write_capacity_of(params)),
        ),
        ChaosActionKind::S3DenyAccess => Some("S3 bucket "@ + t + " deny-all policy applied"@),
        ChaosActionKind::AlbDeregisterTargets => None,
        ChaosActionKind::SgBlockIngress => None,
        ChaosActionKind::SqsPurge => Some("SQS queue "@ + t + " purged"@),
        ChaosActionKind::EksScaleDown => Some(
            "EKS node group "@ + nodegroup_of(params).unwrap() + " scaled to "@ + shown(
                node_size_of(params),
            ) + " nodes"@,
        ),
    }
}

/// The impact summary that the result records.
pub open spec fn summary_of(kind: ChaosActionKind, t: Seq<char>, params: JsonValue) -> Seq<char> {
    match kind {
        ChaosActionKind::InstanceStop => "EC2 instance "@ + t + " stopped"@,
        ChaosActionKind::InstanceReboot => "EC2 instance "@ + t + " rebooted"@,
        ChaosActionKind::InstanceTerminate => "EC2 instance "@ + t + " terminated (irreversible)"@,
        ChaosActionKind::RdsFailover => "RDS failover initiated for "@ + t,
        ChaosActionKind::RdsReboot => "RDS instance "@ + t + " rebooted"@,
        ChaosActionKind::LambdaDisable => "Lambda function "@ + t + " disabled (concurrency="@
            + shown(concurrency_of(params)) + ")"@,
        ChaosActionKind::LambdaTimeout => "Lambda function "@ + t + " timeout reduced to "@
            + shown(timeout_of(params)) + "s"@,
        ChaosActionKind::EcsScaleDown => "ECS service "@ + t + " scaled to "@ + shown(
            task_count_of(params),
        ) + " tasks"@,
        ChaosActionKind::ElasticacheFailover => "ElastiCache failover initiated for "@ + t,
        ChaosActionKind::DynamodbThrottle => "DynamoDB table "@ + t + " throttled (RCU="@ + shown64(
            read_capacity_of(params),
        ) + ", WCU="@ + shown64(write_capacity_of(params)) + ")"@,
        ChaosActionKind::S3DenyAccess => "S3 bucket "@ + t + " access denied"@,
        ChaosActionKind::AlbDeregisterTargets => "ALB targets deregistered from "@ + t,
        ChaosActionKind::SgBlockIngress => "All ingress rules removed from security group "@ + t,
        ChaosActionKind::SqsPurge => "SQS queue "@ + t + " purged (irreversible)"@,
        ChaosActionKind::EksScaleDown => "EKS node group "@ + nodegroup_of(params).unwrap()
            + " scaled to "@ + shown(node_size_of(params)) + " nodes"@,
    }
}

/// The fields of an object, in order; none for any other value.
pub open spec fn entries_of(v: JsonValue) -> Seq<(Seq<char>, JsonValue)> {
    match v {
        JsonValue::Object(f) => fields_seq(*f),
        _ => Seq::empty(),
    }
}

/// Field `i` of the object is named `name` and holds the text `t`.
pub open spec fn text_field(v: JsonValue, i: int, name: Seq<char>, t: Seq<char>) -> bool {
    entries_of(v)[i].0 == name && entries_of(v)[i].1.spec_str() == Some(t)
}

/// The one statement of the deny-all policy on `bucket`: its fields are, in
/// order, `Sid`, `Effect`, `Principal`, `Action` and the two resources.
pub open spec fn is_deny_statement(s: JsonValue, bucket: Seq<char>) -> bool {
    &&& s is Object
    &&& entries_of(s).len() == 5
    &&& text_field(s, 0, "Sid"@, "ChaosExperimentDenyAll"@)
    &&& text_field(s, 1, "Effect"@, "Deny"@)
    &&& text_field(s, 2, "Principal"@, "*"@)
    &&& text_field(s, 3, "Action"@, "s3:*"@)
    &&& entries_of(s)[4].0 == "Resource"@
    &&& entries_of(s)[4].1.spec_array() matches Some(items) && items.len() == 2
        && items[0].spec_str() == Some("arn:aws:s3:::"@ + bucket)
        && items[1].spec_str() == Some("arn:aws:s3:::"@ + bucket + "/*"@)
}

/// The bucket policy that denies every action to everyone on `bucket` and its
/// objects: `Version`, then one `Statement`.
pub open spec fn is_deny_all_policy(p: JsonValue, bucket: Seq<char>) -> bool {
    &&& p is Object
    &&& entries_of(p).len() == 2
    &&& text_field(p, 0, "Version"@, "2012-10-17"@)
    &&& entries_of(p)[1].0 == "Statement"@
    &&& entries_of(p)[1].1.spec_array() matches Some(items) && items.len() == 1
        && is_deny_statement(items[0], bucket)
}

/// The call fits the action, the target and the parameters.
pub open spec fn call_fits(call: ChaosCall, kind: ChaosActionKind, t: Seq<char>, params: JsonValue) -> bool {
    match kind {
        ChaosActionKind::InstanceStop => call is StopInstances,
        ChaosActionKind::InstanceReboot => call is RebootInstances,
        ChaosActionKind::InstanceTerminate => call is TerminateInstances,
        ChaosActionKind::RdsFailover => call == ChaosCall::RebootDbInstance { force_failover: true },
        ChaosActionKind::RdsReboot => call == ChaosCall::RebootDbInstance {
            force_failover: param_flag(params, "force_failover"@, false),
        },
        ChaosActionKind::LambdaDisable => call == ChaosCall::PutFunctionConcurrency {
            reserved_concurrency: concurrency_of(params),
        },
        ChaosActionKind::LambdaTimeout => call == ChaosCall::UpdateFunctionTimeout {
            timeout_seconds: timeout_of(params),
        },
        ChaosActionKind::EcsScaleDown => call matches ChaosCall::UpdateEcsService {
            cluster,
            desired_count,
        } && cluster@ == param_text_or(params, "cluster"@, "default"@) && desired_count
            == task_count_of(params),
        ChaosActionKind::ElasticacheFailover => call matches ChaosCall::TestElasticacheFailover {
            node_group_id,
        } && node_group_id@ == param_text_or(params, "node_group_id"@, "0001"@),
        ChaosActionKind::DynamodbThrottle => call == ChaosCall::UpdateTableCapacity {
            read_capacity: read_capacity_of(params),
            write_capacity: write_capacity_of(params),
        },
        ChaosActionKind::S3DenyAccess => call matches ChaosCall::PutBucketPolicy { policy }
            && is_deny_all_policy(policy, t),
        ChaosActionKind::AlbDeregisterTargets => call == ChaosCall::DeregisterTargets {
            percentage: deregister_percentage_of(params),
        },
        ChaosActionKind::SgBlockIngress => call is RevokeIngress,
        ChaosActionKind::SqsPurge => call is PurgeQueue,
        ChaosActionKind::EksScaleDown => call matches ChaosCall::UpdateNodegroupSize {
            nodegroup_name,
            desired_size,
        } && Some(nodegroup_name@) == nodegroup_of(params) && desired_size == node_size_of(params),
    }
}

/// The plan is the one for this action, target and parameters.
pub open spec fn plan_fits(p: ChaosActionPlan, kind: ChaosActionKind, t: Seq<char>, params: JsonValue) -> bool {
    &&& p.kind == kind
    &&& call_fits(p.call, kind, t, params)
    &&& p.announcement@ == announcement_of(kind, t, params)
    &&& p.dry_run_note@ == dry_run_note_of(kind)
    &&& (match p.done_note {
        Some(n) => done_note_of(kind, t, params) == Some(n@),
        None => done_note_of(kind, t, params) is None,
    })
    &&& p.impact_severity@ == severity_of(kind)
    &&& p.impact_summary@ == summary_of(kind, t, params)
}

fn shown_text(n: i32) -> (r: String)
    ensures
        r@ == shown(n),
{
    i64_decimal(n as i64)
}

fn shown64_text(n: i64) -> (r: String)
    ensures
        r@ == shown64(n),
{
    i64_decimal(n)
}

/// The policy that denies every S3 action to everyone on `bucket` and its objects.
pub fn deny_all_policy(bucket: &str) -> (r: JsonValue)
    ensures
        is_deny_all_policy(r, bucket@),
{
    let arn = concat2("arn:aws:s3:::", bucket);
    let objects = concat3("arn:aws:s3:::", bucket, "/*");
    let resources = ArrayBuilder::new().item(JsonValue::text(arn.as_str())).item(
        JsonValue::text(objects.as_str()),
    ).build();
    let statement = ObjectBuilder::new().field("Sid", JsonValue::text("ChaosExperimentDenyAll")).field(
        "Effect",
        JsonValue::text("Deny"),
    ).field("Principal", JsonValue::text("*")).field("Action", JsonValue::text("s3:*")).field(
        "Resource",
        resources,
    ).build();
    let statements = ArrayBuilder::new().item(statement).build();
    let r = ObjectBuilder::new().field("Version", JsonValue::text("2012-10-17")).field(
        "Statement",
        statements,
    ).build();
    r
}

/// Works out what action `kind` does to `target` with `params`. Only the EKS
/// scale-down can be refused here: it needs a `nodegroup_name`.
pub fn plan_action(kind: ChaosActionKind, target: &str, params: &JsonValue) -> (r: Result<
    ChaosActionPlan,
    AppError,
>)
    ensures
        r is Err <==> (kind == ChaosActionKind::EksScaleDown && nodegroup_of(*params) is None),
        r matches Err(e) ==> e matches AppError::BadRequest(m) && m@
            == "nodegroup_name parameter is required for EKS scale down"@,
        r matches Ok(p) ==> plan_fits(p, kind, target@, *params),
{
    match kind {
        ChaosActionKind::InstanceStop => Ok(ChaosActionPlan {
            kind,
            call: ChaosCall::StopInstances,
            announcement: concat2("Stopping EC2 instance: ", target),
            dry_run_note: owned("[DRY RUN] Would stop EC2 instance"),
            done_note: Some(concat3("EC2 instance ", target, " stop initiated successfully")),
            impact_severity: owned("medium"),
            impact_summary: concat3("EC2 instance ", target, " stopped"),
        }),
        ChaosActionKind::InstanceReboot => Ok(ChaosActionPlan {
            kind,
            call: ChaosCall::RebootInstances,
            announcement: concat2("Rebooting EC2 instance: ", target),
            dry_run_note: owned("[DRY RUN] Would reboot EC2 instance"),
            done_note: Some(concat3("EC2 instance ", target, " reboot initiated")),
            impact_severity: owned("low"),
            impact_summary: concat3("EC2 instance ", target, " rebooted"),
        }),
        ChaosActionKind::InstanceTerminate => Ok(ChaosActionPlan {
            kind,
            call: ChaosCall::TerminateInstances,
            announcement: concat2("Terminating EC2 instance: ", target),
            dry_run_note: owned("[DRY RUN] Would terminate EC2 instance"),
            done_note: Some(concat3("EC2 instance ", target, " terminated")),
            impact_severity: owned("critical"),
            impact_summary: concat3("EC2 instance ", target, " terminated (irreversible)"),
        }),
        ChaosActionKind::RdsFailover => Ok(ChaosActionPlan {
            kind,
            call: ChaosCall::RebootDbInstance { force_failover: true },
            announcement: concat2("Initiating RDS failover for: ", target),
            dry_run_note: owned("[DRY RUN] Would initiate RDS failover"),
            done_note: Some(
                concat3(
                    "RDS failover initiated for ",
                    target,
                    ". Instance is rebooting with force failover.",
                ),
            ),
            impact_severity: owned("high"),
            impact_summary: concat2("RDS failover initiated for ", target),
        }),
        ChaosActionKind::RdsReboot => Ok(ChaosActionPlan {
            kind,
            call: ChaosCall::RebootDbInstance {
                force_failover: flag_param(params, "force_failover", false),
            },
            announcement: concat2("Rebooting RDS instance: ", target),
            dry_run_note: owned("[DRY RUN] Would reboot RDS instance"),
            done_note: Some(concat3("RDS instance ", target, " reboot initiated")),
            impact_severity: owned("high"),
            impact_summary: concat3("RDS instance ", target, " rebooted"),
        }),
        ChaosActionKind::LambdaDisable => {
            let c = int_param(params, "reserved_concurrency", 0) as i32;
            let cs = shown_text(c);
            Ok(ChaosActionPlan {
                kind,
                call: ChaosCall::PutFunctionConcurrency { reserved_concurrency: c },
                announcement: concat2(
                    concat3("Setting Lambda ", target, " reserved concurrency to ").as_str(),
                    cs.as_str(),
                ),
                dry_run_note: owned("[DRY RUN] Would disable Lambda function"),
                done_note: Some(
                    concat2(concat3("Lambda ", target, " concurrency set to ").as_str(), cs.as_str()),
                ),
                impact_severity: owned("high"),
                impact_summary: concat5(
                    "Lambda function ",
                    target,
                    " disabled (concurrency=",
                    cs.as_str(),
                    ")",
                ),
            })
        },
        ChaosActionKind::LambdaTimeout => {
            let t = int_param(params, "target_timeout_seconds", 1) as i32;
            let ts = shown_text(t);
            Ok(ChaosActionPlan {
                kind,
                call: ChaosCall::UpdateFunctionTimeout { timeout_seconds: t },
                announcement: concat5("Setting Lambda ", target, " timeout to ", ts.as_str(), "s"),
                dry_run_note: owned("[DRY RUN] Would reduce Lambda timeout"),
                done_note: Some(concat5("Lambda ", target, " timeout set to ", ts.as_str(), "s")),
                impact_severity: owned("medium"),
                impact_summary: concat5(
                    "Lambda function ",
                    target,
                    " timeout reduced to ",
                    ts.as_str(),
                    "s",
                ),
            })
        },
        ChaosActionKind::EcsScaleDown => {
            let n = int_param(params, "target_count", 0) as i32;
            let ns = shown_text(n);
            let cluster = text_param_or(params, "cluster", "default");
            Ok(ChaosActionPlan {
                kind,
                call: ChaosCall::UpdateEcsService { cluster, desired_count: n },
                announcement: concat5(
                    "Scaling down ECS service ",
                    target,
                    " to ",
                    ns.as_str(),
                    " tasks",
                ),
                dry_run_note: owned("[DRY RUN] Would scale down ECS service"),
                done_note: Some(
                    concat5("ECS service ", target, " scaled down to ", ns.as_str(), " tasks"),
                ),
                impact_severity: owned("high"),
                impact_summary: concat5("ECS service ", target, " scaled to ", ns.as_str(), " tasks"),
            })
        },
        ChaosActionKind::ElasticacheFailover => Ok(ChaosActionPlan {
            kind,
            call: ChaosCall::TestElasticacheFailover {
                node_group_id: text_param_or(params, "node_group_id", "0001"),
            },
            announcement: concat2("Initiating ElastiCache failover for: ", target),
            dry_run_note: owned("[DRY RUN] Would initiate ElastiCache failover"),
            done_note: Some(concat2("ElastiCache failover initiated for ", target)),
            impact_severity: owned("high"),
            impact_summary: concat2("ElastiCache failover initiated for ", target),
        }),
        ChaosActionKind::DynamodbThrottle => {
            let rcu = int_param(params, "target_read_capacity", 1);
            let wcu = int_param(params, "target_write_capacity", 1);
            let rs = shown64_text(rcu);
            let ws = shown64_text(wcu);
            Ok(ChaosActionPlan {
                kind,
                call: ChaosCall::UpdateTableCapacity { read_capacity: rcu, write_capacity: wcu },
                announcement: concat2(
                    concat5(
                        "Reducing DynamoDB ",
                        target,
                        " capacity to RCU=",
                        rs.as_str(),
                        ", WCU=",
                    ).as_str(),
                    ws.as_str(),
                ),
                dry_run_note: owned("[DRY RUN] Would reduce DynamoDB capacity"),
                done_note: Some(
                    concat2(
                        concat5(
                            "DynamoDB ",
                            target,
                            " capacity reduced to RCU=",
                            rs.as_str(),
                            ", WCU=",
                        ).as_str(),
                        ws.as_str(),
                    ),
                ),
                impact_severity: owned("high"),
                impact_summary: concat3(
                    concat5("DynamoDB table ", target, " throttled (RCU=", rs.as_str(), ", WCU=").as_str(),
                    ws.as_str(),
                    ")",
                ),
            })
        },
        ChaosActionKind::S3DenyAccess => Ok(ChaosActionPlan {
            kind,
            call: ChaosCall::PutBucketPolicy { policy: deny_all_policy(target) },
            announcement: concat2("Applying deny-all policy to S3 bucket: ", target),
            dry_run_note: owned("[DRY RUN] Would apply deny-all S3 policy"),
            done_note: Some(concat3("S3 bucket ", target, " deny-all policy applied")),
            impact_severity: owned("high"),
            impact_summary: concat3("S3 bucket ", target, " access denied"),
        }),
        ChaosActionKind::AlbDeregisterTargets => Ok(ChaosActionPlan {
            kind,
            call: ChaosCall::DeregisterTargets {
                percentage: int_param(params, "deregister_percentage", 50) as usize,
            },
            announcement: concat2("Deregistering targets from ALB target group: ", target),
            dry_run_note: owned("[DRY RUN] Would deregister ALB targets"),
            done_note: None,
            impact_severity: owned("high"),
            impact_summary: concat2("ALB targets deregistered from ", target),
        }),
        ChaosActionKind::SgBlockIngress => Ok(ChaosActionPlan {
            kind,
            call: ChaosCall::RevokeIngress,
            announcement: concat2("Revoking all ingress rules from SG: ", target),
            dry_run_note: owned("[DRY RUN] Would revoke SG ingress rules"),
            done_note: None,
            impact_severity: owned("critical"),
            impact_summary: concat2("All ingress rules removed from security group ", target),
        }),
        ChaosActionKind::SqsPurge => Ok(ChaosActionPlan {
            kind,
            call: ChaosCall::PurgeQueue,
            announcement: concat2("Purging SQS queue: ", target),
            dry_run_note: owned("[DRY RUN] Would purge SQS queue"),
            done_note: Some(concat3("SQS queue ", target, " purged")),
            impact_severity: owned("high"),
            impact_summary: concat3("SQS queue ", target, " purged (irreversible)"),
        }),
        ChaosActionKind::EksScaleDown => {
            let size = int_param(params, "target_size", 1) as i32;
            match text_param(params, "nodegroup_name") {
                None => Err(
                    AppError::BadRequest(
                        owned("nodegroup_name parameter is required for EKS scale down"),
                    ),
                ),
                Some(ng) => {
                    let ss = shown_text(size);
                    let announcement = concat2(
                        concat5(
                            "Scaling EKS node group ",
                            ng.as_str(),
                            " in cluster ",
                            target,
                            " to ",
                        ).as_str(),
                        ss.as_str(),
                    );
                    let done = concat5("EKS node group ", ng.as_str(), " scaled to ", ss.as_str(), " nodes");
                    let summary = concat5("EKS node group ", ng.as_str(), " scaled to ", ss.as_str(), " nodes");
                    Ok(ChaosActionPlan {
                        kind,
                        call: ChaosCall::UpdateNodegroupSize { nodegroup_name: ng, desired_size: size },
                        announcement,
                        dry_run_note: owned("[DRY RUN] Would scale down EKS node group"),
                        done_note: Some(done),
                        impact_severity: owned("high"),
                        impact_summary: summary,
                    })
                },
            }
        },
    }
}

// ---------------------------------------------------------------------------
// Statuses, admission, templates
// ---------------------------------------------------------------------------

/// Where an experiment stands.
#[derive(Debug, Clone, Copy, PartialEq, Eq, Structural)]
pub enum ExperimentStatus {
    Draft,
    Running,
    Completed,
    Failed,
    Cancelled,
}

/// Where one run of an experiment stands.
#[derive(Debug, Clone, Copy, PartialEq, Eq, Structural)]
pub enum RunStatus {
    Pending,
    Initializing,
    Completed,
    Failed,
}

/// Where the rollback of a failed run stands.
#[derive(Debug, Clone, Copy, PartialEq, Eq, Structural)]
pub enum RollbackStatus {
    InProgress,
    Completed,
    Failed,
}

impl RollbackStatus {
    /// The text stored for the status.
    pub fn as_str(&self) -> (r: &'static str)
        ensures
            r@ == match *self {
                RollbackStatus::InProgress => "in_progress"@,
                RollbackStatus::Completed => "completed"@,
                RollbackStatus::Failed => "failed"@,
            },
    {
        match self {
            RollbackStatus::InProgress => "in_progress",
            RollbackStatus::Completed => "completed",
            RollbackStatus::Failed => "failed",
        }
    }
}

/// The level of a line of a run's execution log.
#[derive(Debug, Clone, Copy, PartialEq, Eq, Structural)]
pub enum LogLevel {
    Info,
    Warn,
    Error,
}

impl LogLevel {
    /// The text stored for the level.
    pub fn as_str(&self) -> (r: &'static str)
        ensures
            r@ == match *self {
                LogLevel::Info => "info"@,
                LogLevel::Warn => "warn"@,
                LogLevel::Error => "error"@,
            },
    {
        match self {
            LogLevel::Info => "info",
            LogLevel::Warn => "warn",
            LogLevel::Error => "error",
        }
    }
}

/// The text stored for a log level.
pub open spec fn level_text(l: LogLevel) -> Seq<char> {
    match l {
        LogLevel::Info => "info"@,
        LogLevel::Warn => "warn"@,
        LogLevel::Error => "error"@,
    }
}

/// One line of a run's execution log: when it was written (RFC 3339), its
/// level and its message.
pub fn execution_log_entry(at: &Timestamp, level: LogLevel, message: &str) -> (r: JsonValue)
    ensures
        entries_of(r).len() == 3,
        text_field(r, 0, "timestamp"@, rfc3339_offset_text(at.spec_secs(), at.spec_nanos())),
        text_field(r, 1, "level"@, level_text(level)),
        text_field(r, 2, "message"@, message@),
{
    let stamp = to_rfc3339_offset(at);
    ObjectBuilder::new()
        .field("timestamp", JsonValue::text(stamp.as_str()))
        .field("level", JsonValue::text(level.as_str()))
        .field("message", JsonValue::text(message))
        .build()
}

/// A chaos template: the defaults that experiments made from it start with.
pub struct ChaosTemplate {
    pub name: String,
    pub description: Option<String>,
    pub resource_type: String,
    pub experiment_type: String,
    pub default_parameters: JsonValue,
}

/// What an experiment is created from.
pub struct ChaosExperimentCreateDto {
    pub name: String,
    pub description: Option<String>,
    pub template_id: Option<String>,
    pub account_id: String,
    pub region: String,
    pub resource_type: String,
    pub target_resource_id: String,
    pub target_resource_name: Option<String>,
    pub experiment_type: String,
    pub parameters: Option<JsonValue>,
    pub schedule_cron: Option<String>,
}

/// The chaos experiment service: the decisions it takes on experiments and runs.
pub struct ChaosService;

/// The counts that summarise the experiments.
pub struct ChaosExperimentSummary {
    pub total_experiments: u64,
    /// Experiments per status, by status name.
    pub by_status: Vec<(String, u64)>,
    /// Experiments per resource type, by type name.
    pub by_resource_type: Vec<(String, u64)>,
}

impl ChaosService {
    pub fn new() -> (r: ChaosService) {
        ChaosService
    }

    /// A run may start unless the experiment is already running.
    pub fn check_can_run(&self, status: ExperimentStatus) -> (r: Result<(), AppError>)
        ensures
            r is Ok <==> status != ExperimentStatus::Running,
            r matches Err(e) ==> e matches AppError::BadRequest(m) && m@
                == "Experiment is already running"@,
    {
        if status == ExperimentStatus::Running {
            Err(AppError::BadRequest(owned("Experiment is already running")))
        } else {
            Ok(())
        }
    }

    /// Stopping is for running experiments only; a stopped experiment is cancelled.
    pub fn stop_experiment(&self, status: ExperimentStatus) -> (r: Result<ExperimentStatus, AppError>)
        ensures
            r is Ok <==> status == ExperimentStatus::Running,
            r matches Ok(s) ==> s == ExperimentStatus::Cancelled,
            r matches Err(e) ==> e matches AppError::BadRequest(m) && m@
                == "Experiment is not currently running"@,
    {
        if status == ExperimentStatus::Running {
            Ok(ExperimentStatus::Cancelled)
        } else {
            Err(AppError::BadRequest(owned("Experiment is not currently running")))
        }
    }

    /// A running experiment cannot be deleted.
    pub fn delete_experiment(&self, status: ExperimentStatus) -> (r: Result<(), AppError>)
        ensures
            r is Ok <==> status != ExperimentStatus::Running,
            r matches Err(e) ==> e matches AppError::BadRequest(m) && m@
                == "Cannot delete a running experiment. Stop it first."@,
    {
        if status == ExperimentStatus::Running {
            Err(AppError::BadRequest(owned("Cannot delete a running experiment. Stop it first.")))
        } else {
            Ok(())
        }
    }

    /// An experiment made from a template: the request's parameters are
    /// written over the template's defaults, or the defaults are taken as they
    /// are; without a template the request stands unchanged.
    pub fn create_experiment(
        &self,
        dto: ChaosExperimentCreateDto,
        template: Option<&ChaosTemplate>,
    ) -> (r: ChaosExperimentCreateDto)
        ensures
            r.name == dto.name && r.description == dto.description && r.template_id
                == dto.template_id && r.account_id == dto.account_id && r.region == dto.region
                && r.resource_type == dto.resource_type && r.target_resource_id
                == dto.target_resource_id && r.target_resource_name == dto.target_resource_name
                && r.experiment_type == dto.experiment_type && r.schedule_cron == dto.schedule_cron,
            r.parameters == match template {
                None => dto.parameters,
                Some(t) => Some(
                    match dto.parameters {
                        Some(p) => merged_value(t.default_parameters, p),
                        None => t.default_parameters,
                    },
                ),
            },
    {
        match template {
            None => dto,
            Some(t) => {
                let merged = match &dto.parameters {
                    Some(p) => merge_objects(&t.default_parameters, p),
                    None => t.default_parameters.deep_clone(),
                };
                ChaosExperimentCreateDto { parameters: Some(merged), ..dto }
            },
        }
    }

    /// The experiment that a template makes for one target: named after the
    /// template and the target, of the template's type, with the overrides
    /// written over the template's defaults.
    pub fn create_experiment_from_template(
        &self,
        template_id: &str,
        template: &ChaosTemplate,
        account_id: String,
        region: String,
        target_resource_id: String,
        target_resource_name: Option<String>,
        parameter_overrides: Option<JsonValue>,
    ) -> (r: ChaosExperimentCreateDto)
        ensures
            r.name@ == template.name@ + " - "@ + target_resource_id@,
            r.description == template.description,
            r.template_id matches Some(id) && id@ == template_id@,
            r.account_id == account_id && r.region == region,
            r.resource_type == template.resource_type,
            r.experiment_type == template.experiment_type,
            r.target_resource_id == target_resource_id,
            r.target_resource_name == target_resource_name,
            r.parameters == Some(
                match parameter_overrides {
                    Some(o) => merged_value(template.default_parameters, o),
                    None => template.default_parameters,
                },
            ),
            r.schedule_cron is None,
    {
        let params = effective_parameters(&template.default_parameters, &parameter_overrides);
        ChaosExperimentCreateDto {
            name: concat3(template.name.as_str(), " - ", target_resource_id.as_str()),
            description: template.description.clone(),
            template_id: Some(owned(template_id)),
            account_id,
            region,
            resource_type: template.resource_type.clone(),
            target_resource_id,
            target_resource_name,
            experiment_type: template.experiment_type.clone(),
            parameters: Some(params),
            schedule_cron: None,
        }
    }

    /// The line logged before an action runs.
    pub fn execution_notice(
        &self,
        experiment_type: &str,
        target: &str,
        account_id: &str,
        region: &str,
        dry_run: bool,
    ) -> (r: String)
        ensures
            r@ == "Executing "@ + experiment_type@ + " on "@ + target@ + " (account: "@ + account_id@
                + ", region: "@ + region@ + ", dry_run: "@ + (if dry_run {
                "true"@
            } else {
                "false"@
            }) + ")"@,
    {
        let head = concat5("Executing ", experiment_type, " on ", target, " (account: ");
        let mid = concat5(head.as_str(), account_id, ", region: ", region, ", dry_run: ");
        concat3(mid.as_str(), if dry_run { "true" } else { "false" }, ")")
    }
}

// ---------------------------------------------------------------------------
// Rollback notes
// ---------------------------------------------------------------------------

/// The line that the rollback of experiment type `t` on `target` logs, where
/// the type has a rollback handler.
pub open spec fn rollback_line(t: Seq<char>, target: Seq<char>) -> Option<Seq<char>> {
    if t == "instance_stop"@ {
        Some("Rollback: Would start EC2 instance "@ + target)
    } else if t == "lambda_disable"@ {
        Some("Rollback: Would restore Lambda "@ + target + " concurrency"@)
    } else if t == "lambda_timeout"@ {
        Some("Rollback: Would restore Lambda "@ + target + " timeout"@)
    } else if t == "dynamodb_throttle"@ {
        Some("Rollback: Would restore DynamoDB "@ + target + " capacity"@)
    } else if t == "s3_deny_access"@ {
        Some("Rollback: Would restore S3 "@ + target + " bucket policy"@)
    } else if t == "sg_block_ingress"@ {
        Some("Rollback: Would restore security group "@ + target + " rules"@)
    } else if t == "ecs_scale_down"@ {
        Some("Rollback: Would restore ECS service "@ + target + " desired count"@)
    } else {
        None
    }
}

/// The line that the rollback of an experiment logs: what it would restore,
/// at info level, or, for a type without a handler, a warning. The rollback
/// itself always succeeds.
pub fn rollback_note(experiment_type: &str, target: &str) -> (r: (LogLevel, String))
    ensures
        match rollback_line(experiment_type@, target@) {
            Some(line) => r.0 == LogLevel::Info && r.1@ == line,
            None => r.0 == LogLevel::Warn && r.1@ == "No rollback handler for experiment type: "@
                + experiment_type@,
        },
{
    let t = experiment_type;
    if str_eq(t, "instance_stop") {
        (LogLevel::Info, concat2("Rollback: Would start EC2 instance ", target))
    } else if str_eq(t, "lambda_disable") {
        (LogLevel::Info, concat3("Rollback: Would restore Lambda ", target, " concurrency"))
    } else if str_eq(t, "lambda_timeout") {
        (LogLevel::Info, concat3("Rollback: Would restore Lambda ", target, " timeout"))
    } else if str_eq(t, "dynamodb_throttle") {
        (LogLevel::Info, concat3("Rollback: Would restore DynamoDB ", target, " capacity"))
    } else if str_eq(t, "s3_deny_access") {
        (LogLevel::Info, concat3("Rollback: Would restore S3 ", target, " bucket policy"))
    } else if str_eq(t, "sg_block_ingress") {
        (LogLevel::Info, concat3("Rollback: Would restore security group ", target, " rules"))
    } else if str_eq(t, "ecs_scale_down") {
        (LogLevel::Info, concat3("Rollback: Would restore ECS service ", target, " desired count"))
    } else {
        (LogLevel::Warn, concat2("No rollback handler for experiment type: ", t))
    }
}

// ---------------------------------------------------------------------------
// What the target-group and security-group actions do with what they find
// ---------------------------------------------------------------------------

/// How many of `n_targets` targets to deregister: `percentage` percent of
/// them, rounded down, but at least one.
pub fn deregister_count(n_targets: usize, percentage: usize) -> (r: usize)
    requires
        n_targets * percentage <= usize::MAX,
    ensures
        r == if n_targets * percentage / 100 >= 1 {
            n_targets * percentage / 100
        } else {
            1
        },
{
    let n = n_targets * percentage / 100;
    if n >= 1 {
        n
    } else {
        1
    }
}

/// The positions below `k` of the descriptions that name a target, in order.
pub open spec fn targets_below(has_target: Seq<bool>, k: nat) -> Seq<usize>
    decreases k,
{
    if k == 0 {
        Seq::empty()
    } else {
        targets_below(has_target, (k - 1) as nat) + if has_target[k - 1] {
            seq![(k - 1) as usize]
        } else {
            Seq::empty()
        }
    }
}

/// Which target descriptions to deregister: of the first `count`, those that
/// name a target, in order.
pub fn targets_to_deregister(has_target: &Vec<bool>, count: usize) -> (r: Vec<usize>)
    ensures
        r@ == targets_below(
            has_target@,
            if count <= has_target.len() {
                count as nat
            } else {
                has_target.len() as nat
            },
        ),
{
    let end = if count <= has_target.len() {
        count
    } else {
        has_target.len()
    };
    let mut r: Vec<usize> = Vec::new();
    let mut i: usize = 0;
    while i < end
        invariant
            i <= end <= has_target.len(),
            r@ == targets_below(has_target@, i as nat),
        decreases end - i,
    {
        if has_target[i] {
            r.push(i);
        }
        i = i + 1;
    }
    r
}

/// The line logged once targets were deregistered.
pub fn deregistered_note(n: usize) -> (r: String)
    ensures
        r@ == "Deregistered "@ + decimal(n as nat) + " targets from target group"@,
{
    let ns = u64_decimal(n as u64);
    concat3("Deregistered ", ns.as_str(), " targets from target group")
}

/// The line logged once a security group's ingress rules were revoked.
pub fn revoked_note(n: usize, sg_id: &str) -> (r: String)
    ensures
        r@ == "Revoked "@ + decimal(n as nat) + " ingress rules from SG "@ + sg_id@,
{
    let ns = u64_decimal(n as u64);
    concat2(concat3("Revoked ", ns.as_str(), " ingress rules from SG ").as_str(), sg_id)
}

/// The deregistration to send for the picked targets: which of the
/// descriptions found are deregistered, and the line logged once it is done;
/// none where no target was picked, so that nothing is called or logged.
pub fn deregistration(found: &Vec<bool>, picked: &Vec<usize>) -> (r: Option<(Vec<bool>, String)>)
    ensures
        r is None <==> picked@.len() == 0,
        r matches Some((mask, note)) ==> {
            &&& mask@.len() == found@.len()
            &&& forall|j: int| 0 <= j < mask@.len() ==> (mask@[j] <==> picked@.contains(j as usize))
            &&& note@ == "Deregistered "@ + decimal(picked@.len()) + " targets from target group"@
        },
{
    if picked.len() == 0 {
        return None;
    }
    let n = found.len();
    let mut mask: Vec<bool> = Vec::new();
    let mut j: usize = 0;
    while j < n
        invariant
            j <= n,
            n == found@.len(),
            mask@.len() == j,
            forall|i: int| 0 <= i < j ==> (mask@[i] <==> picked@.contains(i as usize)),
        decreases n - j,
    {
        let mut hit = false;
        let mut k: usize = 0;
        while k < picked.len()
            invariant
                k <= picked@.len(),
                hit <==> exists|t: int| 0 <= t < k && picked@[t] == j,
            decreases picked@.len() - k,
        {
            if picked[k] == j {
                hit = true;
            }
            k = k + 1;
        }
        proof {
            if hit {
                let t = choose|t: int| 0 <= t < k && picked@[t] == j;
                assert(picked@.contains(j));
            } else {
                if picked@.contains(j) {
                    let t = choose|t: int| 0 <= t < picked@.len() && picked@[t] == j;
                    assert(false);
                }
            }
        }
        mask.push(hit);
        j = j + 1;
    }
    Some((mask, deregistered_note(picked.len())))
}

/// The line logged once a security group's ingress rules were revoked;
/// none where no rule was revoked.
pub fn revocation_note(revoked: usize, sg_id: &str) -> (r: Option<String>)
    ensures
        r is Some <==> revoked > 0,
        r matches Some(note) ==> note@ == "Revoked "@ + decimal(revoked as nat) + " ingress rules from SG "@ + sg_id@,
{
    if revoked > 0 {
        Some(revoked_note(revoked, sg_id))
    } else {
        None
    }
}

// ---------------------------------------------------------------------------
// The steps of a run
// ---------------------------------------------------------------------------

/// The state of a run between two steps.
pub enum RunPhase {
    /// The run has been asked for and the experiment is read next.
    Requested,
    /// The chaos action is running; whether a failure is then rolled back.
    Executing { rollback_on_failure: bool },
    /// The action failed with `error`, and its rollback is running.
    RollingBack { error: String },
    /// The run is over.
    Finished,
}

/// What the caller reports back after performing a step.
pub enum RunEvent {
    /// The experiment was read: its status, its name, and whether its own
    /// parameters ask for a failed run to be rolled back.
    Loaded { status: ExperimentStatus, experiment_name: String, rollback_on_failure: bool },
    /// The chaos action succeeded, with the impact severity it records.
    ActionSucceeded { impact_severity: String },
    /// The chaos action failed with this error.
    ActionFailed { error: String },
    RollbackSucceeded,
    RollbackFailed { error: String },
}

/// One thing for the caller to do, in order.
pub enum RunAction {
    /// Create the run record (pending).
    CreateRun,
    /// Audit the start of the run (experiment draft, run pending).
    AuditRunStarted,
    SetExperimentStatus { status: ExperimentStatus },
    SetRunStatus { status: RunStatus, error: Option<String> },
    /// Append a line to the run's execution log, stamped with the time.
    AppendLog { level: LogLevel, message: String },
    /// Run the chaos action and report how it went.
    ExecuteAction,
    /// Store the result that the action produced.
    CreateResult,
    /// Record the execution metrics of a successful run.
    RecordMetrics,
    /// Audit the completion of the run (initializing to completed).
    AuditRunCompleted { impact_severity: String },
    /// Audit the failure of the run (initializing to failed).
    AuditRunFailed { error: String },
    SetRollbackStatus { status: RollbackStatus },
    /// Roll the experiment back and report how it went.
    ExecuteRollback,
    /// Hand the run back to whoever asked for it.
    ReturnRun,
}

/// A run phase, by the values it holds.
pub enum PhaseView {
    Requested,
    Executing(bool),
    RollingBack(Seq<char>),
    Finished,
}

/// A run event, by the values it holds.
pub enum EventView {
    Loaded(ExperimentStatus, Seq<char>, bool),
    ActionSucceeded(Seq<char>),
    ActionFailed(Seq<char>),
    RollbackSucceeded,
    RollbackFailed(Seq<char>),
}

/// A run action, by the values it holds.
pub enum ActionView {
    CreateRun,
    AuditRunStarted,
    SetExperimentStatus(ExperimentStatus),
    SetRunStatus(RunStatus, Option<Seq<char>>),
    AppendLog(LogLevel, Seq<char>),
    ExecuteAction,
    CreateResult,
    RecordMetrics,
    AuditRunCompleted(Seq<char>),
    AuditRunFailed(Seq<char>),
    SetRollbackStatus(RollbackStatus),
    ExecuteRollback,
    ReturnRun,
}

impl View for RunPhase {
    type V = PhaseView;

    open spec fn view(&self) -> PhaseView {
        match self {
            RunPhase::Requested => PhaseView::Requested,
            RunPhase::Executing { rollback_on_failure } => PhaseView::Executing(*rollback_on_failure),
            RunPhase::RollingBack { error } => PhaseView::RollingBack(error@),
            RunPhase::Finished => PhaseView::Finished,
        }
    }
}

impl View for RunEvent {
    type V = EventView;

    open spec fn view(&self) -> EventView {
        match self {
            RunEvent::Loaded { status, experiment_name, rollback_on_failure } => EventView::Loaded(
                *status,
                experiment_name@,
                *rollback_on_failure,
            ),
            RunEvent::ActionSucceeded { impact_severity } => EventView::ActionSucceeded(
                impact_severity@,
            ),
            RunEvent::ActionFailed { error } => EventView::ActionFailed(error@),
            RunEvent::RollbackSucceeded => EventView::RollbackSucceeded,
            RunEvent::RollbackFailed { error } => EventView::RollbackFailed(error@),
        }
    }
}

impl View for RunAction {
    type V = ActionView;

    open spec fn view(&self) -> ActionView {
        match self {
            RunAction::CreateRun => ActionView::CreateRun,
            RunAction::AuditRunStarted => ActionView::AuditRunStarted,
            RunAction::SetExperimentStatus { status } => ActionView::SetExperimentStatus(*status),
            RunAction::SetRunStatus { status, error } => ActionView::SetRunStatus(
                *status,
                match error {
                    Some(e) => Some(e@),
                    None => None,
                },
            ),
            RunAction::AppendLog { level, message } => ActionView::AppendLog(*level, message@),
            RunAction::ExecuteAction => ActionView::ExecuteAction,
            RunAction::CreateResult => ActionView::CreateResult,
            RunAction::RecordMetrics => ActionView::RecordMetrics,
            RunAction::AuditRunCompleted { impact_severity } => ActionView::AuditRunCompleted(
                impact_severity@,
            ),
            RunAction::AuditRunFailed { error } => ActionView::AuditRunFailed(error@),
            RunAction::SetRollbackStatus { status } => ActionView::SetRollbackStatus(*status),
            RunAction::ExecuteRollback => ActionView::ExecuteRollback,
            RunAction::ReturnRun => ActionView::ReturnRun,
        }
    }
}

/// The actions as values.
pub open spec fn actions_view(acts: Seq<RunAction>) -> Seq<ActionView> {
    acts.map_values(|a: RunAction| a@)
}

/// The steps that start a run of the experiment named `name`.
pub open spec fn start_steps(name: Seq<char>) -> Seq<ActionView> {
    seq![
        ActionView::CreateRun,
        ActionView::AuditRunStarted,
        ActionView::SetExperimentStatus(ExperimentStatus::Running),
        ActionView::SetRunStatus(RunStatus::Initializing, None),
        ActionView::AppendLog(LogLevel::Info, "Initializing chaos experiment: "@ + name),
        ActionView::ExecuteAction,
    ]
}

/// The steps that close a successful run.
pub open spec fn success_steps(severity: Seq<char>) -> Seq<ActionView> {
    seq![
        ActionView::AppendLog(LogLevel::Info, "Chaos experiment completed successfully"@),
        ActionView::CreateResult,
        ActionView::SetRunStatus(RunStatus::Completed, None),
        ActionView::SetExperimentStatus(ExperimentStatus::Completed),
        ActionView::RecordMetrics,
        ActionView::AuditRunCompleted(severity),
        ActionView::ReturnRun,
    ]
}

/// The line logged when the action fails with `error`.
pub open spec fn failure_line(error: Seq<char>) -> ActionView {
    ActionView::AppendLog(LogLevel::Error, "Chaos experiment failed: "@ + error)
}

/// The steps that start the rollback of a failed run.
pub open spec fn rollback_steps() -> Seq<ActionView> {
    seq![
        ActionView::SetRollbackStatus(RollbackStatus::InProgress),
        ActionView::AppendLog(LogLevel::Warn, "Initiating rollback due to experiment failure"@),
        ActionView::ExecuteRollback,
    ]
}

/// The steps that record a successful rollback.
pub open spec fn rollback_done_steps() -> Seq<ActionView> {
    seq![
        ActionView::SetRollbackStatus(RollbackStatus::Completed),
        ActionView::AppendLog(LogLevel::Info, "Rollback completed successfully"@),
    ]
}

/// The steps that record a rollback that failed with `error`.
pub open spec fn rollback_failed_steps(error: Seq<char>) -> Seq<ActionView> {
    seq![
        ActionView::SetRollbackStatus(RollbackStatus::Failed),
        ActionView::AppendLog(LogLevel::Error, "Rollback failed: "@ + error),
    ]
}

/// The steps that close a run whose action failed with `error`.
pub open spec fn failure_steps(error: Seq<char>) -> Seq<ActionView> {
    seq![
        ActionView::SetRunStatus(RunStatus::Failed, Some(error)),
        ActionView::SetExperimentStatus(ExperimentStatus::Failed),
        ActionView::AuditRunFailed(error),
        ActionView::ReturnRun,
    ]
}

/// The event is one that the phase waits for.
pub open spec fn accepts(p: PhaseView, e: EventView) -> bool {
    match p {
        PhaseView::Requested => e is Loaded,
        PhaseView::Executing(_) => e is ActionSucceeded || e is ActionFailed,
        PhaseView::RollingBack(_) => e is RollbackSucceeded || e is RollbackFailed,
        PhaseView::Finished => false,
    }
}

/// The next phase and the steps to perform on an event that the phase waits
/// for; `None` where the run is refused because the experiment is already
/// running.
pub open spec fn run_transition(p: PhaseView, e: EventView) -> Option<(PhaseView, Seq<ActionView>)> {
    match (p, e) {
        (PhaseView::Requested, EventView::Loaded(status, name, rollback)) => if status
            == ExperimentStatus::Running {
            None
        } else {
            Some((PhaseView::Executing(rollback), start_steps(name)))
        },
        (PhaseView::Executing(_), EventView::ActionSucceeded(severity)) => Some(
            (PhaseView::Finished, success_steps(severity)),
        ),
        (PhaseView::Executing(rollback), EventView::ActionFailed(error)) => if rollback {
            Some((PhaseView::RollingBack(error), seq![failure_line(error)] + rollback_steps()))
        } else {
            Some((PhaseView::Finished, seq![failure_line(error)] + failure_steps(error)))
        },
        (PhaseView::RollingBack(error), EventView::RollbackSucceeded) => Some(
            (PhaseView::Finished, rollback_done_steps() + failure_steps(error)),
        ),
        (PhaseView::RollingBack(error), EventView::RollbackFailed(rollback_error)) => Some(
            (PhaseView::Finished, rollback_failed_steps(rollback_error) + failure_steps(error)),
        ),
        _ => None,
    }
}

/// The phase after a step, and what to do in it.
pub struct RunStep {
    pub phase: RunPhase,
    pub actions: Vec<RunAction>,
}

/// Whether `phase` waits for `event`.
pub fn accepts_event(phase: &RunPhase, event: &RunEvent) -> (r: bool)
    ensures
        r == accepts(phase@, event@),
{
    match phase {
        RunPhase::Requested => match event {
            RunEvent::Loaded { .. } => true,
            _ => false,
        },
        RunPhase::Executing { .. } => match event {
            RunEvent::ActionSucceeded { .. } => true,
            RunEvent::ActionFailed { .. } => true,
            _ => false,
        },
        RunPhase::RollingBack { .. } => match event {
            RunEvent::RollbackSucceeded => true,
            RunEvent::RollbackFailed { .. } => true,
            _ => false,
        },
        RunPhase::Finished => false,
    }
}

fn push_failure_steps(acts: &mut Vec<RunAction>, error: &String)
    ensures
        actions_view(final(acts)@) == actions_view(old(acts)@) + failure_steps(error@),
{
    let ghost before = actions_view(acts@);
    acts.push(RunAction::SetRunStatus { status: RunStatus::Failed, error: Some(error.clone()) });
    acts.push(RunAction::SetExperimentStatus { status: ExperimentStatus::Failed });
    acts.push(RunAction::AuditRunFailed { error: error.clone() });
    acts.push(RunAction::ReturnRun);
    assert(actions_view(acts@) =~= before + failure_steps(error@));
}

impl ChaosService {
    /// One step of a run: given where the run stands and what just happened,
    /// the next phase and what to do now. A run of an experiment that is
    /// already running is refused before anything is done.
    pub fn run_experiment(&self, phase: &RunPhase, event: &RunEvent) -> (r: Result<RunStep, AppError>)
        requires
            accepts(phase@, event@),
        ensures
            r is Err <==> run_transition(phase@, event@) is None,
            r matches Err(e) ==> e matches AppError::BadRequest(m) && m@
                == "Experiment is already running"@,
            r matches Ok(step) ==> run_transition(phase@, event@) == Some(
                (step.phase@, actions_view(step.actions@)),
            ),
    {
        let mut acts: Vec<RunAction> = Vec::new();
        match (phase, event) {
            (
                RunPhase::Requested,
                RunEvent::Loaded { status, experiment_name, rollback_on_failure },
            ) => {
                match self.check_can_run(*status) {
                    Err(e) => { return Err(e); },
                    Ok(()) => {},
                }
                acts.push(RunAction::CreateRun);
                acts.push(RunAction::AuditRunStarted);
                acts.push(RunAction::SetExperimentStatus { status: ExperimentStatus::Running });
                acts.push(RunAction::SetRunStatus { status: RunStatus::Initializing, error: None });
                acts.push(
                    RunAction::AppendLog {
                        level: LogLevel::Info,
                        message: concat2("Initializing chaos experiment: ", experiment_name.as_str()),
                    },
                );
                acts.push(RunAction::ExecuteAction);
                assert(actions_view(acts@) =~= start_steps(experiment_name@));
                Ok(RunStep { phase: RunPhase::Executing { rollback_on_failure: *rollback_on_failure }, actions: acts })
            },
            (RunPhase::Executing { .. }, RunEvent::ActionSucceeded { impact_severity }) => {
                acts.push(
                    RunAction::AppendLog {
                        level: LogLevel::Info,
                        message: owned("Chaos experiment completed successfully"),
                    },
                );
                acts.push(RunAction::CreateResult);
                acts.push(RunAction::SetRunStatus { status: RunStatus::Completed, error: None });
                acts.push(RunAction::SetExperimentStatus { status: ExperimentStatus::Completed });
                acts.push(RunAction::RecordMetrics);
                acts.push(RunAction::AuditRunCompleted { impact_severity: impact_severity.clone() });
                acts.push(RunAction::ReturnRun);
                assert(actions_view(acts@) =~= success_steps(impact_severity@));
                Ok(RunStep { phase: RunPhase::Finished, actions: acts })
            },
            (RunPhase::Executing { rollback_on_failure }, RunEvent::ActionFailed { error }) => {
                acts.push(
                    RunAction::AppendLog {
                        level: LogLevel::Error,
                        message: concat2("Chaos experiment failed: ", error.as_str()),
                    },
                );
                assert(actions_view(acts@) =~= seq![failure_line(error@)]);
                if *rollback_on_failure {
                    acts.push(RunAction::SetRollbackStatus { status: RollbackStatus::InProgress });
                    acts.push(
                        RunAction::AppendLog {
                            level: LogLevel::Warn,
                            message: owned("Initiating rollback due to experiment failure"),
                        },
                    );
                    acts.push(RunAction::ExecuteRollback);
                    assert(actions_view(acts@) =~= seq![failure_line(error@)] + rollback_steps());
                    Ok(RunStep { phase: RunPhase::RollingBack { error: error.clone() }, actions: acts })
                } else {
                    push_failure_steps(&mut acts, error);
                    Ok(RunStep { phase: RunPhase::Finished, actions: acts })
                }
            },
            (RunPhase::RollingBack { error }, RunEvent::RollbackSucceeded) => {
                acts.push(RunAction::SetRollbackStatus { status: RollbackStatus::Completed });
                acts.push(
                    RunAction::AppendLog {
                        level: LogLevel::Info,
                        message: owned("Rollback completed successfully"),
                    },
                );
                assert(actions_view(acts@) =~= rollback_done_steps());
                push_failure_steps(&mut acts, error);
                Ok(RunStep { phase: RunPhase::Finished, actions: acts })
            },
            (RunPhase::RollingBack { error }, RunEvent::RollbackFailed { error: rollback_error }) => {
                acts.push(RunAction::SetRollbackStatus { status: RollbackStatus::Failed });
                acts.push(
                    RunAction::AppendLog {
                        level: LogLevel::Error,
                        message: concat2("Rollback failed: ", rollback_error.as_str()),
                    },
                );
                assert(actions_view(acts@) =~= rollback_failed_steps(rollback_error@));
                push_failure_steps(&mut acts, error);
                Ok(RunStep { phase: RunPhase::Finished, actions: acts })
            },
            _ => {
                assert(false);
                Ok(RunStep { phase: RunPhase::Finished, actions: acts })
            },
        }
    }
}

// ---------------------------------------------------------------------------
// Whole runs
// ---------------------------------------------------------------------------

/// Runs the steps over a sequence of events from phase `p`: the phase it ends
/// in and every action it asked for, in order; `None` where an event is not
/// one the phase waits for, or the run is refused.
pub open spec fn drive(p: PhaseView, events: Seq<EventView>) -> Option<(PhaseView, Seq<ActionView>)>
    decreases events.len(),
{
    if events.len() == 0 {
        Some((p, Seq::empty()))
    } else if !accepts(p, events[0]) {
        None
    } else {
        match run_transition(p, events[0]) {
            None => None,
            Some((q, a)) => match drive(q, events.drop_first()) {
                None => None,
                Some((last, b)) => Some((last, a + b)),
            },
        }
    }
}

/// The experiment statuses that the actions from position `i` on write, in order.
pub open spec fn experiment_statuses_from(acts: Seq<ActionView>, i: int) -> Seq<ExperimentStatus>
    decreases acts.len() - i,
{
    if i < 0 || i >= acts.len() {
        Seq::empty()
    } else {
        (match acts[i] {
            ActionView::SetExperimentStatus(s) => seq![s],
            _ => Seq::empty(),
        }) + experiment_statuses_from(acts, i + 1)
    }
}

/// The run statuses that the actions from position `i` on write, in order.
pub open spec fn run_statuses_from(acts: Seq<ActionView>, i: int) -> Seq<RunStatus>
    decreases acts.len() - i,
{
    if i < 0 || i >= acts.len() {
        Seq::empty()
    } else {
        (match acts[i] {
            ActionView::SetRunStatus(s, _) => seq![s],
            _ => Seq::empty(),
        }) + run_statuses_from(acts, i + 1)
    }
}

/// The rollback statuses that the actions from position `i` on write, in order.
pub open spec fn rollback_statuses_from(acts: Seq<ActionView>, i: int) -> Seq<RollbackStatus>
    decreases acts.len() - i,
{
    if i < 0 || i >= acts.len() {
        Seq::empty()
    } else {
        (match acts[i] {
            ActionView::SetRollbackStatus(s) => seq![s],
            _ => Seq::empty(),
        }) + rollback_statuses_from(acts, i + 1)
    }
}

/// How many rollbacks the actions from position `i` on run.
pub open spec fn rollbacks_from(acts: Seq<ActionView>, i: int) -> nat
    decreases acts.len() - i,
{
    if i < 0 || i >= acts.len() {
        0
    } else {
        (if acts[i] is ExecuteRollback {
            1nat
        } else {
            0nat
        }) + rollbacks_from(acts, i + 1)
    }
}

/// The experiment statuses that the actions write, in order.
pub open spec fn experiment_statuses(acts: Seq<ActionView>) -> Seq<ExperimentStatus> {
    experiment_statuses_from(acts, 0)
}

/// The run statuses that the actions write, in order.
pub open spec fn run_statuses(acts: Seq<ActionView>) -> Seq<RunStatus> {
    run_statuses_from(acts, 0)
}

/// The rollback statuses that the actions write, in order.
pub open spec fn rollback_statuses(acts: Seq<ActionView>) -> Seq<RollbackStatus> {
    rollback_statuses_from(acts, 0)
}

/// How many rollbacks the actions run.
pub open spec fn rollbacks_run(acts: Seq<ActionView>) -> nat {
    rollbacks_from(acts, 0)
}

proof fn lemma_from_shift(a: Seq<ActionView>, b: Seq<ActionView>, j: int)
    requires
        0 <= j <= b.len(),
    ensures
        experiment_statuses_from(a + b, a.len() + j) == experiment_statuses_from(b, j),
        run_statuses_from(a + b, a.len() + j) == run_statuses_from(b, j),
        rollback_statuses_from(a + b, a.len() + j) == rollback_statuses_from(b, j),
        rollbacks_from(a + b, a.len() + j) == rollbacks_from(b, j),
    decreases b.len() - j,
{
    if j < b.len() {
        lemma_from_shift(a, b, j + 1);
        assert((a + b)[a.len() + j] == b[j]);
    }
}

proof fn lemma_from_concat(a: Seq<ActionView>, b: Seq<ActionView>, i: int)
    requires
        0 <= i <= a.len(),
    ensures
        experiment_statuses_from(a + b, i) == experiment_statuses_from(a, i) + experiment_statuses(b),
        run_statuses_from(a + b, i) == run_statuses_from(a, i) + run_statuses(b),
        rollback_statuses_from(a + b, i) == rollback_statuses_from(a, i) + rollback_statuses(b),
        rollbacks_from(a + b, i) == rollbacks_from(a, i) + rollbacks_run(b),
    decreases a.len() - i,
{
    if i == a.len() {
        lemma_from_shift(a, b, 0);
        assert(experiment_statuses_from(a, i) + experiment_statuses(b) =~= experiment_statuses(b));
        assert(run_statuses_from(a, i) + run_statuses(b) =~= run_statuses(b));
        assert(rollback_statuses_from(a, i) + rollback_statuses(b) =~= rollback_statuses(b));
    } else {
        lemma_from_concat(a, b, i + 1);
        assert((a + b)[i] == a[i]);
        let e1 = match a[i] {
            ActionView::SetExperimentStatus(s) => seq![s],
            _ => Seq::<ExperimentStatus>::empty(),
        };
        assert(e1 + (experiment_statuses_from(a, i + 1) + experiment_statuses(b)) =~= (e1
            + experiment_statuses_from(a, i + 1)) + experiment_statuses(b));
        let r1 = match a[i] {
            ActionView::SetRunStatus(s, _) => seq![s],
            _ => Seq::<RunStatus>::empty(),
        };
        assert(r1 + (run_statuses_from(a, i + 1) + run_statuses(b)) =~= (r1 + run_statuses_from(
            a,
            i + 1,
        )) + run_statuses(b));
        let b1 = match a[i] {
            ActionView::SetRollbackStatus(s) => seq![s],
            _ => Seq::<RollbackStatus>::empty(),
        };
        assert(b1 + (rollback_statuses_from(a, i + 1) + rollback_statuses(b)) =~= (b1
            + rollback_statuses_from(a, i + 1)) + rollback_statuses(b));
    }
}

/// What the actions of `a` followed by those of `b` write is what `a` writes
/// followed by what `b` writes.
proof fn lemma_statuses_concat(a: Seq<ActionView>, b: Seq<ActionView>)
    ensures
        experiment_statuses(a + b) == experiment_statuses(a) + experiment_statuses(b),
        run_statuses(a + b) == run_statuses(a) + run_statuses(b),
        rollback_statuses(a + b) == rollback_statuses(a) + rollback_statuses(b),
        rollbacks_run(a + b) == rollbacks_run(a) + rollbacks_run(b),
{
    lemma_from_concat(a, b, 0);
}

/// The statuses that each block of steps writes.
proof fn lemma_step_blocks(name: Seq<char>, severity: Seq<char>, error: Seq<char>, rollback_error: Seq<char>)
    ensures
        experiment_statuses(start_steps(name)) == seq![ExperimentStatus::Running],
        run_statuses(start_steps(name)) == seq![RunStatus::Initializing],
        rollback_statuses(start_steps(name)) == Seq::<RollbackStatus>::empty(),
        rollbacks_run(start_steps(name)) == 0,
        experiment_statuses(success_steps(severity)) == seq![ExperimentStatus::Completed],
        run_statuses(success_steps(severity)) == seq![RunStatus::Completed],
        rollback_statuses(success_steps(severity)) == Seq::<RollbackStatus>::empty(),
        rollbacks_run(success_steps(severity)) == 0,
        experiment_statuses(failure_steps(error)) == seq![ExperimentStatus::Failed],
        run_statuses(failure_steps(error)) == seq![RunStatus::Failed],
        rollback_statuses(failure_steps(error)) == Seq::<RollbackStatus>::empty(),
        rollbacks_run(failure_steps(error)) == 0,
        experiment_statuses(seq![failure_line(error)]) == Seq::<ExperimentStatus>::empty(),
        run_statuses(seq![failure_line(error)]) == Seq::<RunStatus>::empty(),
        rollback_statuses(seq![failure_line(error)]) == Seq::<RollbackStatus>::empty(),
        rollbacks_run(seq![failure_line(error)]) == 0,
        experiment_statuses(rollback_steps()) == Seq::<ExperimentStatus>::empty(),
        run_statuses(rollback_steps()) == Seq::<RunStatus>::empty(),
        rollback_statuses(rollback_steps()) == seq![RollbackStatus::InProgress],
        rollbacks_run(rollback_steps()) == 1,
        experiment_statuses(rollback_done_steps()) == Seq::<ExperimentStatus>::empty(),
        run_statuses(rollback_done_steps()) == Seq::<RunStatus>::empty(),
        rollback_statuses(rollback_done_steps()) == seq![RollbackStatus::Completed],
        rollbacks_run(rollback_done_steps()) == 0,
        experiment_statuses(rollback_failed_steps(rollback_error)) == Seq::<ExperimentStatus>::empty(),
        run_statuses(rollback_failed_steps(rollback_error)) == Seq::<RunStatus>::empty(),
        rollback_statuses(rollback_failed_steps(rollback_error)) == seq![RollbackStatus::Failed],
        rollbacks_run(rollback_failed_steps(rollback_error)) == 0,
{
    reveal_with_fuel(experiment_statuses_from, 8);
    reveal_with_fuel(run_statuses_from, 8);
    reveal_with_fuel(rollback_statuses_from, 8);
    reveal_with_fuel(rollbacks_from, 8);
    assert(experiment_statuses(start_steps(name)) =~= seq![ExperimentStatus::Running]);
    assert(run_statuses(start_steps(name)) =~= seq![RunStatus::Initializing]);
    assert(rollback_statuses(start_steps(name)) =~= Seq::<RollbackStatus>::empty());
    assert(experiment_statuses(success_steps(severity)) =~= seq![ExperimentStatus::Completed]);
    assert(run_statuses(success_steps(severity)) =~= seq![RunStatus::Completed]);
    assert(rollback_statuses(success_steps(severity)) =~= Seq::<RollbackStatus>::empty());
    assert(experiment_statuses(failure_steps(error)) =~= seq![ExperimentStatus::Failed]);
    assert(run_statuses(failure_steps(error)) =~= seq![RunStatus::Failed]);
    assert(rollback_statuses(failure_steps(error)) =~= Seq::<RollbackStatus>::empty());
    assert(experiment_statuses(seq![failure_line(error)]) =~= Seq::<ExperimentStatus>::empty());
    assert(run_statuses(seq![failure_line(error)]) =~= Seq::<RunStatus>::empty());
    assert(rollback_statuses(seq![failure_line(error)]) =~= Seq::<RollbackStatus>::empty());
    assert(experiment_statuses(rollback_steps()) =~= Seq::<ExperimentStatus>::empty());
    assert(run_statuses(rollback_steps()) =~= Seq::<RunStatus>::empty());
    assert(rollback_statuses(rollback_steps()) =~= seq![RollbackStatus::InProgress]);
    assert(experiment_statuses(rollback_done_steps()) =~= Seq::<ExperimentStatus>::empty());
    assert(run_statuses(rollback_done_steps()) =~= Seq::<RunStatus>::empty());
    assert(rollback_statuses(rollback_done_steps()) =~= seq![RollbackStatus::Completed]);
    assert(experiment_statuses(rollback_failed_steps(rollback_error)) =~= Seq::<ExperimentStatus>::empty());
    assert(run_statuses(rollback_failed_steps(rollback_error)) =~= Seq::<RunStatus>::empty());
    assert(rollback_statuses(rollback_failed_steps(rollback_error)) =~= seq![RollbackStatus::Failed]);
}

/// Every run that finishes has written the experiment status exactly twice:
/// running, then completed where the chaos action succeeded and failed where
/// it did not; the run status goes from initializing to the same outcome. A
/// rollback runs exactly once where the action failed and the experiment asks
/// for rollback on failure, and not at all otherwise; its status then goes
/// from in progress to completed or failed as the rollback went. The last
/// step hands the run back.
pub proof fn lemma_finished_run(events: Seq<EventView>, acts: Seq<ActionView>)
    requires
        drive(PhaseView::Requested, events) == Some((PhaseView::Finished, acts)),
    ensures
        events.len() == 2 || events.len() == 3,
        events[0] is Loaded,
        experiment_statuses(acts) == seq![
            ExperimentStatus::Running,
            if events[1] is ActionSucceeded {
                ExperimentStatus::Completed
            } else {
                ExperimentStatus::Failed
            },
        ],
        run_statuses(acts) == seq![
            RunStatus::Initializing,
            if events[1] is ActionSucceeded {
                RunStatus::Completed
            } else {
                RunStatus::Failed
            },
        ],
        rollbacks_run(acts) == if events[1] is ActionFailed && events[0]->Loaded_2 {
            1nat
        } else {
            0nat
        },
        rollback_statuses(acts) == if events[1] is ActionFailed && events[0]->Loaded_2 {
            seq![
                RollbackStatus::InProgress,
                if events[2] is RollbackSucceeded {
                    RollbackStatus::Completed
                } else {
                    RollbackStatus::Failed
                },
            ]
        } else {
            Seq::<RollbackStatus>::empty()
        },
        acts.len() > 0 && acts.last() == ActionView::ReturnRun,
{
    // The run cannot finish without events, nor on the first one.
    assert(events.len() > 0);
    let e0 = events[0];
    let (p1, a1) = run_transition(PhaseView::Requested, e0).unwrap();
    let rest1 = events.drop_first();
    let (fin1, b1) = drive(p1, rest1).unwrap();
    assert(acts == a1 + b1);
    match e0 {
        EventView::Loaded(status, name, rollback) => {
            assert(p1 == PhaseView::Executing(rollback));
            assert(a1 == start_steps(name));
            assert(rest1.len() > 0);
            let e1 = rest1[0];
            assert(e1 == events[1]);
            let (p2, a2) = run_transition(p1, e1).unwrap();
            let rest2 = rest1.drop_first();
            let (fin2, b2) = drive(p2, rest2).unwrap();
            assert(b1 == a2 + b2);
            lemma_step_blocks(name, Seq::empty(), Seq::empty(), Seq::empty());
            lemma_statuses_concat(a1, b1);
            lemma_statuses_concat(a2, b2);
            match e1 {
                EventView::ActionSucceeded(severity) => {
                    assert(p2 == PhaseView::Finished);
                    assert(rest2.len() == 0);
                    assert(b2 =~= Seq::<ActionView>::empty());
                    lemma_step_blocks(name, severity, Seq::empty(), Seq::empty());
                    assert(acts.last() == a2.last());
                },
                EventView::ActionFailed(error) => {
                    lemma_step_blocks(name, Seq::empty(), error, Seq::empty());
                    if rollback {
                        assert(p2 == PhaseView::RollingBack(error));
                        assert(a2 == seq![failure_line(error)] + rollback_steps());
                        lemma_statuses_concat(seq![failure_line(error)], rollback_steps());
                        assert(rest2.len() > 0);
                        let e2 = rest2[0];
                        assert(e2 == events[2]);
                        let (p3, a3) = run_transition(p2, e2).unwrap();
                        let rest3 = rest2.drop_first();
                        let (fin3, b3) = drive(p3, rest3).unwrap();
                        assert(b2 == a3 + b3);
                        assert(p3 == PhaseView::Finished);
                        assert(rest3.len() == 0);
                        assert(b3 =~= Seq::<ActionView>::empty());
                        lemma_statuses_concat(a3, b3);
                        match e2 {
                            EventView::RollbackSucceeded => {
                                lemma_statuses_concat(rollback_done_steps(), failure_steps(error));
                            },
                            EventView::RollbackFailed(rollback_error) => {
                                lemma_step_blocks(name, Seq::empty(), error, rollback_error);
                                lemma_statuses_concat(rollback_failed_steps(rollback_error), failure_steps(error));
                            },
                            _ => { assert(false); },
                        }
                        assert(acts.last() == a3.last());
                    } else {
                        assert(p2 == PhaseView::Finished);
                        assert(rest2.len() == 0);
                        assert(b2 =~= Seq::<ActionView>::empty());
                        assert(a2 == seq![failure_line(error)] + failure_steps(error));
                        lemma_statuses_concat(seq![failure_line(error)], failure_steps(error));
                        assert(acts.last() == a2.last());
                    }
                },
                _ => { assert(false); },
            }
        },
        _ => {},
    }
}

/// A run whose experiment is already running is refused at its first step,
/// whatever would have followed.
pub proof fn lemma_running_experiment_refused(name: Seq<char>, rollback: bool, later: Seq<EventView>)
    ensures
        drive(
            PhaseView::Requested,
            seq![EventView::Loaded(ExperimentStatus::Running, name, rollback)] + later,
        ) is None,
{
    let events = seq![EventView::Loaded(ExperimentStatus::Running, name, rollback)] + later;
    assert(events[0] == EventView::Loaded(ExperimentStatus::Running, name, rollback));
}

// ---------------------------------------------------------------------------
// Audit records and execution metrics
// ---------------------------------------------------------------------------

/// The run events that the audit log records.
#[derive(Debug, Clone, Copy, PartialEq, Eq, Structural)]
pub enum AuditEvent {
    RunStarted,
    RunCompleted,
    RunFailed,
}

/// A status that an audit record notes before or after an event.
#[derive(Debug, Clone, Copy, PartialEq, Eq, Structural)]
pub enum AuditStatus {
    Experiment(ExperimentStatus),
    Run(RunStatus),
}

/// What the audit log records of one run event.
pub struct AuditLogEntry {
    pub event: AuditEvent,
    pub status_before: AuditStatus,
    pub status_after: AuditStatus,
    /// The new values the record shows: the impact severity of a completed
    /// run, the error of a failed one.
    pub new_values: Option<JsonValue>,
}

/// The values are an object with the one text field `name` holding `t`.
pub open spec fn shows_one(values: Option<JsonValue>, name: Seq<char>, t: Seq<char>) -> bool {
    values matches Some(v) && v is Object && entries_of(v).len() == 1 && text_field(v, 0, name, t)
}

/// The audit service of chaos experiments.
pub struct ChaosAuditService;

/// The execution metrics service of chaos experiments.
pub struct ChaosMetricsService;

impl ChaosMetricsService {
    pub fn new() -> (r: ChaosMetricsService) {
        ChaosMetricsService
    }
}

impl ChaosAuditService {
    pub fn new() -> (r: ChaosAuditService) {
        ChaosAuditService
    }

    /// The audit record of an audit step of a run: a started run goes from
    /// draft to pending; a completed run from initializing to completed,
    /// showing its impact severity; a failed run from initializing to failed,
    /// showing its error. Other steps are not audited.
    pub fn run_audit_entry(&self, action: &RunAction) -> (r: Option<AuditLogEntry>)
        ensures
            r is Some <==> (action is AuditRunStarted || action is AuditRunCompleted
                || action is AuditRunFailed),
            action is AuditRunStarted ==> (r matches Some(e) && e.event == AuditEvent::RunStarted
                && e.status_before == AuditStatus::Experiment(ExperimentStatus::Draft)
                && e.status_after == AuditStatus::Run(RunStatus::Pending) && e.new_values is None),
            action matches RunAction::AuditRunCompleted { impact_severity } ==> (r matches Some(e)
                && e.event == AuditEvent::RunCompleted && e.status_before == AuditStatus::Run(
                RunStatus::Initializing,
            ) && e.status_after == AuditStatus::Run(RunStatus::Completed) && shows_one(
                e.new_values,
                "impact_severity"@,
                impact_severity@,
            )),
            action matches RunAction::AuditRunFailed { error } ==> (r matches Some(e) && e.event
                == AuditEvent::RunFailed && e.status_before == AuditStatus::Run(
                RunStatus::Initializing,
            ) && e.status_after == AuditStatus::Run(RunStatus::Failed) && shows_one(
                e.new_values,
                "error"@,
                error@,
            )),
    {
        match action {
            RunAction::AuditRunStarted => Some(
                AuditLogEntry {
                    event: AuditEvent::RunStarted,
                    status_before: AuditStatus::Experiment(ExperimentStatus::Draft),
                    status_after: AuditStatus::Run(RunStatus::Pending),
                    new_values: None,
                },
            ),
            RunAction::AuditRunCompleted { impact_severity } => {
                let v = ObjectBuilder::new().field(
                    "impact_severity",
                    JsonValue::text(impact_severity.as_str()),
                ).build();
                Some(
                    AuditLogEntry {
                        event: AuditEvent::RunCompleted,
                        status_before: AuditStatus::Run(RunStatus::Initializing),
                        status_after: AuditStatus::Run(RunStatus::Completed),
                        new_values: Some(v),
                    },
                )
            },
            RunAction::AuditRunFailed { error } => {
                let v = ObjectBuilder::new().field("error", JsonValue::text(error.as_str())).build();
                Some(
                    AuditLogEntry {
                        event: AuditEvent::RunFailed,
                        status_before: AuditStatus::Run(RunStatus::Initializing),
                        status_after: AuditStatus::Run(RunStatus::Failed),
                        new_values: Some(v),
                    },
                )
            },
            _ => None,
        }
    }
}

} // verus!

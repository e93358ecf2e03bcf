use backend::chaos::{
    deny_all_policy, deregister_count, deregistration, execution_log_entry, revocation_note, deregistered_note, effective_parameters, experiment_action,
    is_dry_run, plan_action, revoked_note, rollback_note, should_rollback, targets_to_deregister,
    accepts_event, AuditEvent, AuditStatus, ChaosActionKind, ChaosAuditService, ChaosCall,
    ChaosExperimentCreateDto, ChaosService, ChaosTemplate, ExperimentStatus, LogLevel,
    RollbackStatus, RunAction, RunEvent, RunPhase, RunStatus,
};
use backend::errors::AppError;
use backend::time::Timestamp;
use backend::json::{JsonNumber, JsonValue, ObjectBuilder};

fn text(v: &str) -> JsonValue {
    JsonValue::Str(v.to_string())
}

fn num(n: i64) -> JsonValue {
    if n >= 0 {
        JsonValue::Number(JsonNumber::PosInt(n as u64))
    } else {
        JsonValue::Number(JsonNumber::NegInt(n))
    }
}

fn get_text(v: &JsonValue, key: &str) -> Option<String> {
    v.get(key).and_then(|x| x.as_str().cloned())
}

fn bad_request(e: AppError) -> String {
    match e {
        AppError::BadRequest(m) => m,
        other => panic!("expected a bad request, got {:?}", other),
    }
}

fn log_line(a: &RunAction) -> Option<(LogLevel, String)> {
    match a {
        RunAction::AppendLog { level, message } => Some((*level, message.clone())),
        _ => None,
    }
}

fn experiment_statuses(acts: &[RunAction]) -> Vec<ExperimentStatus> {
    acts.iter()
        .filter_map(|a| match a {
            RunAction::SetExperimentStatus { status } => Some(*status),
            _ => None,
        })
        .collect()
}

fn rollback_statuses(acts: &[RunAction]) -> Vec<RollbackStatus> {
    acts.iter()
        .filter_map(|a| match a {
            RunAction::SetRollbackStatus { status } => Some(*status),
            _ => None,
        })
        .collect()
}

#[test]
fn experiment_types_route_to_actions() {
    assert_eq!(experiment_action("instance_stop").unwrap(), ChaosActionKind::InstanceStop);
    assert_eq!(experiment_action("alb_deregister_targets").unwrap(), ChaosActionKind::AlbDeregisterTargets);
    assert_eq!(experiment_action("eks_scale_down").unwrap(), ChaosActionKind::EksScaleDown);
    let e = experiment_action("disk_fill").unwrap_err();
    assert_eq!(bad_request(e), "Unknown experiment type: disk_fill");
}

#[test]
fn dry_run_and_rollback_defaults() {
    let empty = JsonValue::empty_object();
    assert!(!is_dry_run(&empty));
    assert!(should_rollback(&empty));
    let p = ObjectBuilder::new().field("dry_run", JsonValue::Bool(true)).field("rollback_on_failure", JsonValue::Bool(false)).build();
    assert!(is_dry_run(&p));
    assert!(!should_rollback(&p));
    let odd = ObjectBuilder::new().field("rollback_on_failure", text("no")).build();
    assert!(should_rollback(&odd));
}

#[test]
fn overrides_are_written_over_parameters() {
    let base = ObjectBuilder::new().field("target_count", num(2)).field("cluster", text("main")).build();
    let over = ObjectBuilder::new().field("target_count", num(0)).field("dry_run", JsonValue::Bool(true)).build();
    let merged = effective_parameters(&base, &Some(over));
    assert_eq!(merged.get("target_count").and_then(|v| v.as_i64()), Some(0));
    assert_eq!(get_text(&merged, "cluster"), Some("main".to_string()));
    assert_eq!(merged.get("dry_run").and_then(|v| v.as_bool()), Some(true));
    let unchanged = effective_parameters(&base, &None);
    assert_eq!(unchanged.get("target_count").and_then(|v| v.as_i64()), Some(2));
    let not_object = effective_parameters(&base, &Some(text("x")));
    assert_eq!(not_object.get("target_count").and_then(|v| v.as_i64()), Some(2));
}

#[test]
fn ec2_stop_plan() {
    let p = plan_action(ChaosActionKind::InstanceStop, "i-123", &JsonValue::empty_object()).unwrap();
    assert!(matches!(p.call, ChaosCall::StopInstances));
    assert_eq!(p.announcement, "Stopping EC2 instance: i-123");
    assert_eq!(p.dry_run_note, "[DRY RUN] Would stop EC2 instance");
    assert_eq!(p.done_note.as_deref(), Some("EC2 instance i-123 stop initiated successfully"));
    assert_eq!(p.impact_severity, "medium");
    assert_eq!(p.impact_summary, "EC2 instance i-123 stopped");
}

#[test]
fn lambda_plans_read_their_parameters() {
    let params = ObjectBuilder::new().field("reserved_concurrency", num(5)).field("target_timeout_seconds", num(3)).build();
    let p = plan_action(ChaosActionKind::LambdaDisable, "fn", &params).unwrap();
    assert!(matches!(p.call, ChaosCall::PutFunctionConcurrency { reserved_concurrency: 5 }));
    assert_eq!(p.announcement, "Setting Lambda fn reserved concurrency to 5");
    assert_eq!(p.impact_summary, "Lambda function fn disabled (concurrency=5)");
    let p = plan_action(ChaosActionKind::LambdaTimeout, "fn", &params).unwrap();
    assert!(matches!(p.call, ChaosCall::UpdateFunctionTimeout { timeout_seconds: 3 }));
    assert_eq!(p.done_note.as_deref(), Some("Lambda fn timeout set to 3s"));
    let d = plan_action(ChaosActionKind::LambdaDisable, "fn", &JsonValue::empty_object()).unwrap();
    assert!(matches!(d.call, ChaosCall::PutFunctionConcurrency { reserved_concurrency: 0 }));
    assert_eq!(d.impact_severity, "high");
}

#[test]
fn concurrency_is_truncated_to_32_bits() {
    let params = ObjectBuilder::new().field("reserved_concurrency", num(4294967297)).build();
    let p = plan_action(ChaosActionKind::LambdaDisable, "fn", &params).unwrap();
    assert!(matches!(p.call, ChaosCall::PutFunctionConcurrency { reserved_concurrency: 1 }));
}

#[test]
fn ecs_and_elasticache_defaults() {
    let p = plan_action(ChaosActionKind::EcsScaleDown, "svc", &JsonValue::empty_object()).unwrap();
    match p.call {
        ChaosCall::UpdateEcsService { cluster, desired_count } => {
            assert_eq!(cluster, "default");
            assert_eq!(desired_count, 0);
        }
        _ => panic!("wrong call"),
    }
    assert_eq!(p.announcement, "Scaling down ECS service svc to 0 tasks");
    let p = plan_action(ChaosActionKind::ElasticacheFailover, "rg", &JsonValue::empty_object()).unwrap();
    match p.call {
        ChaosCall::TestElasticacheFailover { node_group_id } => assert_eq!(node_group_id, "0001"),
        _ => panic!("wrong call"),
    }
}

#[test]
fn dynamodb_throttle_plan() {
    let params = ObjectBuilder::new().field("target_read_capacity", num(2)).field("target_write_capacity", num(-3)).build();
    let p = plan_action(ChaosActionKind::DynamodbThrottle, "tbl", &params).unwrap();
    assert_eq!(p.announcement, "Reducing DynamoDB tbl capacity to RCU=2, WCU=-3");
    assert_eq!(p.impact_summary, "DynamoDB table tbl throttled (RCU=2, WCU=-3)");
    assert!(matches!(p.call, ChaosCall::UpdateTableCapacity { read_capacity: 2, write_capacity: -3 }));
}

#[test]
fn eks_scale_down_needs_a_node_group() {
    let e = plan_action(ChaosActionKind::EksScaleDown, "cluster", &JsonValue::empty_object()).err().unwrap();
    assert_eq!(bad_request(e), "nodegroup_name parameter is required for EKS scale down");
    let params = ObjectBuilder::new().field("nodegroup_name", text("ng1")).field("target_size", num(2)).build();
    let p = plan_action(ChaosActionKind::EksScaleDown, "cluster", &params).unwrap();
    assert_eq!(p.announcement, "Scaling EKS node group ng1 in cluster cluster to 2");
    assert_eq!(p.done_note.as_deref(), Some("EKS node group ng1 scaled to 2 nodes"));
}

#[test]
fn s3_deny_policy_names_the_bucket() {
    let p = deny_all_policy("data");
    assert_eq!(get_text(&p, "Version"), Some("2012-10-17".to_string()));
    let st = p.get("Statement").unwrap();
    match st {
        JsonValue::Array(_) => {}
        _ => panic!("statement list expected"),
    }
    let plan = plan_action(ChaosActionKind::S3DenyAccess, "data", &JsonValue::empty_object()).unwrap();
    match plan.call {
        ChaosCall::PutBucketPolicy { policy } => assert_eq!(get_text(&policy, "Version"), Some("2012-10-17".to_string())),
        _ => panic!("wrong call"),
    }
}

#[test]
fn alb_targets_to_deregister() {
    assert_eq!(deregister_count(10, 50), 5);
    assert_eq!(deregister_count(3, 10), 1);
    assert_eq!(deregister_count(0, 50), 1);
    assert_eq!(targets_to_deregister(&vec![true, false, true, true], 3), vec![0, 2]);
    assert_eq!(targets_to_deregister(&vec![true, true], 5), vec![0, 1]);
    assert_eq!(deregistered_note(2), "Deregistered 2 targets from target group");
    assert_eq!(revoked_note(3, "sg-1"), "Revoked 3 ingress rules from SG sg-1");
    let p = plan_action(ChaosActionKind::AlbDeregisterTargets, "tg", &JsonValue::empty_object()).unwrap();
    assert!(matches!(p.call, ChaosCall::DeregisterTargets { percentage: 50 }));
    assert!(p.done_note.is_none());
}

#[test]
fn running_experiments_are_refused() {
    let svc = ChaosService::new();
    assert_eq!(bad_request(svc.check_can_run(ExperimentStatus::Running).unwrap_err()), "Experiment is already running");
    assert!(svc.check_can_run(ExperimentStatus::Failed).is_ok());
    assert_eq!(bad_request(svc.stop_experiment(ExperimentStatus::Draft).unwrap_err()), "Experiment is not currently running");
    assert_eq!(svc.stop_experiment(ExperimentStatus::Running).unwrap(), ExperimentStatus::Cancelled);
    assert_eq!(
        bad_request(svc.delete_experiment(ExperimentStatus::Running).unwrap_err()),
        "Cannot delete a running experiment. Stop it first."
    );
    assert!(svc.delete_experiment(ExperimentStatus::Completed).is_ok());
    let loaded = RunEvent::Loaded { status: ExperimentStatus::Running, experiment_name: "x".to_string(), rollback_on_failure: true };
    let e = svc.run_experiment(&RunPhase::Requested, &loaded).err().unwrap();
    assert_eq!(bad_request(e), "Experiment is already running");
}

#[test]
fn successful_run_steps() {
    let svc = ChaosService::new();
    let loaded = RunEvent::Loaded { status: ExperimentStatus::Draft, experiment_name: "stop web".to_string(), rollback_on_failure: true };
    let step = svc.run_experiment(&RunPhase::Requested, &loaded).ok().unwrap();
    assert!(matches!(step.actions[0], RunAction::CreateRun));
    assert!(matches!(step.actions[1], RunAction::AuditRunStarted));
    assert_eq!(log_line(&step.actions[4]), Some((LogLevel::Info, "Initializing chaos experiment: stop web".to_string())));
    assert!(matches!(step.actions[5], RunAction::ExecuteAction));
    let mut all: Vec<RunAction> = step.actions;
    let done = RunEvent::ActionSucceeded { impact_severity: "medium".to_string() };
    assert!(accepts_event(&step.phase, &done));
    let step2 = svc.run_experiment(&step.phase, &done).ok().unwrap();
    assert!(matches!(step2.phase, RunPhase::Finished));
    assert_eq!(log_line(&step2.actions[0]), Some((LogLevel::Info, "Chaos experiment completed successfully".to_string())));
    all.extend(step2.actions);
    assert_eq!(experiment_statuses(&all), vec![ExperimentStatus::Running, ExperimentStatus::Completed]);
    assert!(rollback_statuses(&all).is_empty());
    assert!(matches!(all.last(), Some(RunAction::ReturnRun)));
}

#[test]
fn failed_run_is_rolled_back() {
    let svc = ChaosService::new();
    let loaded = RunEvent::Loaded { status: ExperimentStatus::Completed, experiment_name: "n".to_string(), rollback_on_failure: true };
    let s1 = svc.run_experiment(&RunPhase::Requested, &loaded).ok().unwrap();
    let failed = RunEvent::ActionFailed { error: "boom".to_string() };
    let s2 = svc.run_experiment(&s1.phase, &failed).ok().unwrap();
    assert_eq!(log_line(&s2.actions[0]), Some((LogLevel::Error, "Chaos experiment failed: boom".to_string())));
    assert!(matches!(s2.actions.last(), Some(RunAction::ExecuteRollback)));
    assert!(!accepts_event(&s2.phase, &failed));
    let s3 = svc.run_experiment(&s2.phase, &RunEvent::RollbackFailed { error: "denied".to_string() }).ok().unwrap();
    assert_eq!(log_line(&s3.actions[1]), Some((LogLevel::Error, "Rollback failed: denied".to_string())));
    match &s3.actions[2] {
        RunAction::SetRunStatus { status, error } => {
            assert_eq!(*status, RunStatus::Failed);
            assert_eq!(error.as_deref(), Some("boom"));
        }
        _ => panic!("run status expected"),
    }
    let mut all = s1.actions;
    all.extend(s2.actions);
    all.extend(s3.actions);
    assert_eq!(experiment_statuses(&all), vec![ExperimentStatus::Running, ExperimentStatus::Failed]);
    assert_eq!(rollback_statuses(&all), vec![RollbackStatus::InProgress, RollbackStatus::Failed]);
    assert_eq!(RollbackStatus::InProgress.as_str(), "in_progress");
}

#[test]
fn failed_run_without_rollback() {
    let svc = ChaosService::new();
    let loaded = RunEvent::Loaded { status: ExperimentStatus::Draft, experiment_name: "n".to_string(), rollback_on_failure: false };
    let s1 = svc.run_experiment(&RunPhase::Requested, &loaded).ok().unwrap();
    let s2 = svc.run_experiment(&s1.phase, &RunEvent::ActionFailed { error: "x".to_string() }).ok().unwrap();
    assert!(matches!(s2.phase, RunPhase::Finished));
    assert!(rollback_statuses(&s2.actions).is_empty());
    assert!(!s2.actions.iter().any(|a| matches!(a, RunAction::ExecuteRollback)));
    assert_eq!(experiment_statuses(&s2.actions), vec![ExperimentStatus::Failed]);
}

#[test]
fn rollback_notes() {
    let (level, line) = rollback_note("instance_stop", "i-1");
    assert_eq!(level, LogLevel::Info);
    assert_eq!(line, "Rollback: Would start EC2 instance i-1");
    let (_, line) = rollback_note("ecs_scale_down", "svc");
    assert_eq!(line, "Rollback: Would restore ECS service svc desired count");
    let (level, line) = rollback_note("sqs_purge", "q");
    assert_eq!(level, LogLevel::Warn);
    assert_eq!(line, "No rollback handler for experiment type: sqs_purge");
}

#[test]
fn audit_records_of_run_steps() {
    let audit = ChaosAuditService::new();
    let e = audit.run_audit_entry(&RunAction::AuditRunStarted).unwrap();
    assert_eq!(e.event, AuditEvent::RunStarted);
    assert_eq!(e.status_before, AuditStatus::Experiment(ExperimentStatus::Draft));
    assert_eq!(e.status_after, AuditStatus::Run(RunStatus::Pending));
    let e = audit.run_audit_entry(&RunAction::AuditRunFailed { error: "boom".to_string() }).unwrap();
    assert_eq!(e.event, AuditEvent::RunFailed);
    assert_eq!(get_text(e.new_values.as_ref().unwrap(), "error"), Some("boom".to_string()));
    assert!(audit.run_audit_entry(&RunAction::ExecuteAction).is_none());
}

#[test]
fn experiments_from_templates() {
    let svc = ChaosService::new();
    let template = ChaosTemplate {
        name: "Stop instance".to_string(),
        description: Some("d".to_string()),
        resource_type: "EC2".to_string(),
        experiment_type: "instance_stop".to_string(),
        default_parameters: ObjectBuilder::new().field("dry_run", JsonValue::Bool(true)).field("duration", num(60)).build(),
    };
    let overrides = ObjectBuilder::new().field("dry_run", JsonValue::Bool(false)).build();
    let dto = svc.create_experiment_from_template(
        "t-1", &template, "123".to_string(), "us-east-1".to_string(), "i-9".to_string(), None, Some(overrides),
    );
    assert_eq!(dto.name, "Stop instance - i-9");
    assert_eq!(dto.experiment_type, "instance_stop");
    assert_eq!(dto.template_id.as_deref(), Some("t-1"));
    let p = dto.parameters.unwrap();
    assert_eq!(p.get("dry_run").and_then(|v| v.as_bool()), Some(false));
    assert_eq!(p.get("duration").and_then(|v| v.as_i64()), Some(60));

    let request = ChaosExperimentCreateDto {
        name: "n".to_string(),
        description: None,
        template_id: Some("t-1".to_string()),
        account_id: "1".to_string(),
        region: "r".to_string(),
        resource_type: "EC2".to_string(),
        target_resource_id: "i".to_string(),
        target_resource_name: None,
        experiment_type: "instance_stop".to_string(),
        parameters: None,
        schedule_cron: None,
    };
    let made = svc.create_experiment(request, Some(&template));
    assert_eq!(made.parameters.unwrap().get("duration").and_then(|v| v.as_i64()), Some(60));
    let notice = svc.execution_notice("instance_stop", "i-9", "123", "us-east-1", true);
    assert_eq!(notice, "Executing instance_stop on i-9 (account: 123, region: us-east-1, dry_run: true)");
}

#[test]
fn execution_log_entries_carry_time_level_and_message() {
    let at = Timestamp::from_unix(86_400 + 1, 500_000_000).unwrap();
    let e = execution_log_entry(&at, LogLevel::Warn, "Rollback failed");
    assert_eq!(e.get("timestamp").and_then(|v| v.as_str()).map(|s| s.as_str()), Some("1970-01-02T00:00:01.500+00:00"));
    assert_eq!(e.get("level").and_then(|v| v.as_str()).map(|s| s.as_str()), Some("warn"));
    assert_eq!(e.get("message").and_then(|v| v.as_str()).map(|s| s.as_str()), Some("Rollback failed"));
}

#[test]
fn deregistration_and_revocation_happen_only_when_there_is_something() {
    assert!(deregistration(&vec![true, false, true], &vec![]).is_none());
    let (mask, note) = deregistration(&vec![true, false, true], &vec![0, 2]).unwrap();
    assert_eq!(mask, vec![true, false, true]);
    assert_eq!(note, "Deregistered 2 targets from target group");
    assert!(revocation_note(0, "sg-1").is_none());
    assert_eq!(revocation_note(3, "sg-1").unwrap(), "Revoked 3 ingress rules from SG sg-1");
}

use std::sync::Arc;

use backend::analytics::{AwsAnalyticsService, MetricSeriesName, ResourceAnalysisWorkflow, ResourceAnalyzer};
use backend::aws::planes::AwsDataPlane;
use backend::aws::service::{AwsService, CloudConfig, Config};
use backend::errors::AppError;
use backend::json::{JsonNumber, JsonValue, ObjectBuilder};

fn config() -> Config {
    Config { cloud: CloudConfig { aws: vec![] } }
}

fn service() -> AwsAnalyticsService {
    let aws = Arc::new(AwsService::new(config()));
    let plane = Arc::new(AwsDataPlane::new(aws.clone()));
    AwsAnalyticsService::new(config(), aws, plane)
}

fn bad_request(e: AppError) -> String {
    match e {
        AppError::BadRequest(m) => m,
        other => panic!("bad request expected, got {:?}", other),
    }
}

#[test]
fn analysers_by_resource_type() {
    let svc = service();
    assert_eq!(svc.analyzer_for("KinesisStream").unwrap(), ResourceAnalyzer::KinesisStream);
    assert_eq!(svc.analyzer_for("S3Bucket").unwrap(), ResourceAnalyzer::S3Bucket);
    assert_eq!(bad_request(svc.analyzer_for("Lambda").unwrap_err()), "Unsupported resource type: Lambda");
    assert_eq!(svc.question_analyzer_for("RdsInstance").unwrap(), ResourceAnalyzer::RdsInstance);
    assert_eq!(bad_request(svc.question_analyzer_for("S3Bucket").unwrap_err()), "Unsupported resource type: S3Bucket");
    assert!(matches!(svc.requested_workflow("COST"), Ok(ResourceAnalysisWorkflow::Cost)));
    assert_eq!(
        bad_request(svc.requested_workflow("speed").unwrap_err()),
        "Invalid workflow type: Unknown workflow type: speed"
    );
}

#[test]
fn workflows_offered_per_resource() {
    let svc = service();
    let info = svc.get_workflows_for_resource(" kinesis-stream ").unwrap();
    assert_eq!(info.resource_type, " kinesis-stream ");
    assert_eq!(info.workflows.len(), 2);
    assert_eq!(info.workflows[0].workflow_id, "performance");
    assert_eq!(info.workflows[0].name, "Stream Performance Analysis");
    assert_eq!(info.workflows[1].required_permissions, vec!["cloudwatch:GetMetricData".to_string(), "ce:GetCostAndUsage".to_string()]);
    assert_eq!(info.workflows[1].estimated_duration, "2-3 minutes");
    let ec2 = svc.get_workflows_for_resource("EC2Instance").unwrap();
    assert_eq!(ec2.workflows[0].name, "Performance Analysis");
    assert_eq!(ec2.workflows[1].description, "Analyze instance costs and potential savings");
    assert_eq!(ec2.best_practices_url.as_deref(), Some("https://aws.amazon.com/blogs/architecture/category/ec2instance/"));
    assert_eq!(ec2.common_questions.len(), 4);
    let e = svc.get_workflows_for_resource("S3Bucket").unwrap_err();
    assert_eq!(
        bad_request(e),
        "Unsupported resource type: S3Bucket. Please use one of the supported types: KinesisStream, EC2Instance, S3Bucket, RdsInstance, DynamoDbTable, ElastiCache"
    );
}

#[test]
fn kinesis_helpers() {
    let svc = service();
    let series = vec![
        MetricSeriesName { metric_name: "IncomingBytes".to_string() },
        MetricSeriesName { metric_name: "IncomingRecords".to_string() },
        MetricSeriesName { metric_name: "IncomingBytes".to_string() },
    ];
    assert_eq!(svc.find_metric(&series, "IncomingBytes"), Some(0));
    assert_eq!(svc.find_metric(&series, "IncomingRecords"), Some(1));
    assert_eq!(svc.find_metric(&series, "NetworkIn"), None);
    assert!(svc.check_kinesis_workflow(ResourceAnalysisWorkflow::Cost).is_ok());
    assert_eq!(
        bad_request(svc.check_kinesis_workflow(ResourceAnalysisWorkflow::Memory).unwrap_err()),
        "Unsupported workflow type for Kinesis Stream"
    );
    assert_eq!(
        svc.stream_information("s1", "arn:s1", "eu-west-1"),
        "## Stream Information\n- Stream: s1\n- ARN: arn:s1\n- Region: eu-west-1\n\n"
    );
    let data = ObjectBuilder::new().field("ShardCount", JsonValue::Number(JsonNumber::PosInt(4))).build();
    assert_eq!(svc.kinesis_shard_count(&data), 4);
    assert_eq!(svc.kinesis_shard_count(&JsonValue::empty_object()), 1);
}

#[test]
fn report_headings_by_resource_and_workflow() {
    let svc = service();
    assert_eq!(
        svc.report_heading(ResourceAnalyzer::Ec2Instance, ResourceAnalysisWorkflow::Cost).unwrap(),
        "# EC2 Instance Cost Analysis\n\nCost analysis not yet implemented\n"
    );
    assert_eq!(
        svc.report_heading(ResourceAnalyzer::RdsInstance, ResourceAnalysisWorkflow::Storage).unwrap(),
        "# RDS Storage Analysis\n\n"
    );
    assert_eq!(
        svc.report_heading(ResourceAnalyzer::ElastiCache, ResourceAnalysisWorkflow::Memory).unwrap(),
        "# ElastiCache Memory Analysis\n\n"
    );
    assert_eq!(
        bad_request(svc.report_heading(ResourceAnalyzer::Ec2Instance, ResourceAnalysisWorkflow::Storage).unwrap_err()),
        "Unsupported workflow type for EC2 instance"
    );
    assert_eq!(
        bad_request(svc.report_heading(ResourceAnalyzer::S3Bucket, ResourceAnalysisWorkflow::Performance).unwrap_err()),
        "Unsupported workflow for S3: Performance"
    );
    assert_eq!(
        bad_request(svc.report_heading(ResourceAnalyzer::DynamoDbTable, ResourceAnalysisWorkflow::Memory).unwrap_err()),
        "Unsupported workflow type for DynamoDB table"
    );
}

#[test]
fn question_topics_ignore_case() {
    let svc = service();
    let t = svc.question_topics(ResourceAnalyzer::Ec2Instance, "How busy is the PROCESSOR?");
    assert!(t.cpu && !t.memory);
    let t = svc.question_topics(ResourceAnalyzer::RdsInstance, "How busy is the processor?");
    assert!(!t.cpu && !t.memory);
    let t = svc.question_topics(ResourceAnalyzer::RdsInstance, "CPU and RAM?");
    assert!(t.cpu && t.memory);
}

#[test]
fn unanswered_questions_get_an_apology() {
    let svc = service();
    assert_eq!(
        svc.finish_answer(ResourceAnalyzer::RdsInstance, String::new()),
        "I apologize, but I don't have enough information to answer that specific question about the RDS instance."
    );
    assert_eq!(svc.finish_answer(ResourceAnalyzer::Ec2Instance, "cpu: 3%".to_string()), "cpu: 3%");
}

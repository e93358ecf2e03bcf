//! Deterministic inventory pillar evaluators.
pub mod types;
pub mod fleet;
pub mod stepfunctions;
pub mod ssm;
pub mod storagegateway;
pub mod subnet;
pub mod textract;
pub mod timestream;
pub mod trustedadvisor;
pub mod transitgateway;
pub mod vpc;
pub mod waf;

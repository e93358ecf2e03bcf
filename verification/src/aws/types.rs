//! Common request and response types of the AWS services.
use vstd::prelude::*;

verus! {

#[derive(Debug, Clone)]
pub struct ResourceSyncRequest {
    pub account_id: String,
    pub profile: Option<String>,
    pub region: String,
    pub resource_types: Option<Vec<String>>,
    // Authentication fields
    pub use_role: bool,
    pub role_arn: Option<String>,
    pub external_id: Option<String>,
    pub access_key_id: Option<String>,
    pub secret_access_key: Option<String>,
}

#[derive(Debug, Clone)]
pub struct ResourceSyncResponse {
    pub summary: Vec<ResourceTypeSyncSummary>,
    pub total_resources: usize,
    pub sync_time: String,
}

#[derive(Debug, Clone)]
pub struct ResourceTypeSyncSummary {
    pub resource_type: String,
    pub count: usize,
    pub status: String,
    pub details: Option<String>,
}

#[derive(Debug, Clone)]
pub struct OpenSearchClusterHealthRequest {
    pub domain_name: String,
    pub index: Option<String>,
    pub level: Option<String>,
    pub wait_for_status: Option<String>,
    pub timeout: Option<String>,
}

} // verus!

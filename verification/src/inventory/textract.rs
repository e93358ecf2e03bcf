//! Deterministic Textract inventory evaluators for the cost, resilience, and
//! security pillars.
//!
//! The collector writes three kinds of rows, told apart by `resource_kind`:
//! one `account_summary` per account with counts over its adapters, one row
//! per `adapter`, and one row per `adapter_version`.
use vstd::prelude::*;
use crate::inventory::fleet::{evaluate_fleet, fleet_penalty, report_holds, InventoryRules};
use crate::inventory::types::{
    all_about, lemma_about_concat,
    cost_allocation_keys, data_count, data_flag, data_str, data_text, data_u64, emit, ev_copy,
    ev_opt_copy, ev_texts, ev_u64, extends, finding, has_any_tag, has_tag, is_text,
    lemma_extends_start, obj2, obj3, obj4, only_if, opt_copy, opt_view, AwsResource, Ev, FindingSpec,
    InventoryFinding, Pillar, PillarReport, Severity, COST_ALLOCATION_TAG_KEYS,
};
use crate::text::{ascii_lower, concat3, concat5, contains_str, contains_text, decimal, str_eq, to_ascii_lowercase, u64_decimal};
use crate::time::Timestamp;

verus! {

/// Only rows of this resource type are evaluated.
pub const RESOURCE_TYPE: &'static str = "TextractResource";

// Reason codes are the stable contract for findings; never reuse or rename.
pub const REASON_COST_NO_TAGS: &'static str = "TEXTRACT_COST_NO_TAGS";
pub const REASON_COST_CUSTOM_ADAPTER_VERSION: &'static str = "TEXTRACT_COST_CUSTOM_ADAPTER_VERSION";
pub const REASON_RES_COLLECTION_ERRORS: &'static str = "TEXTRACT_RES_COLLECTION_ERRORS";
pub const REASON_RES_INACTIVE_ADAPTER: &'static str = "TEXTRACT_RES_INACTIVE_ADAPTER";
pub const REASON_RES_FAILED_ADAPTER_VERSION: &'static str = "TEXTRACT_RES_FAILED_ADAPTER_VERSION";
pub const REASON_RES_INCOMPLETE_ADAPTER_VERSION: &'static str = "TEXTRACT_RES_INCOMPLETE_ADAPTER_VERSION";
pub const REASON_SEC_ADAPTER_VERSION_WITHOUT_KMS: &'static str = "TEXTRACT_SEC_ADAPTER_VERSION_WITHOUT_KMS";
pub const REASON_SEC_OUTPUT_WITHOUT_KMS: &'static str = "TEXTRACT_SEC_OUTPUT_WITHOUT_KMS";
pub const REASON_SEC_OUTPUT_CONFIG_MISSING: &'static str = "TEXTRACT_SEC_OUTPUT_CONFIG_MISSING";
pub const REASON_INV_STALE_DATA: &'static str = "TEXTRACT_INV_STALE_DATA";

// ---------------------------------------------------------------------------
// What the row says.
// ---------------------------------------------------------------------------

/// The row is of the given kind.
pub open spec fn is_kind(r: AwsResource, kind: Seq<char>) -> bool {
    data_text(r.resource_data, "resource_kind"@) == Some(kind)
}

/// The count under `key`; zero when it is absent or not a non-negative integer.
pub open spec fn count_of(r: AwsResource, key: Seq<char>) -> u64 {
    match data_count(r.resource_data, key) {
        Some(n) => n,
        None => 0,
    }
}

/// The flag under `key`; false when it is absent or not a boolean.
pub open spec fn flag_of(r: AwsResource, key: Seq<char>) -> bool {
    match data_flag(r.resource_data, key) {
        Some(b) => b,
        None => false,
    }
}

pub open spec fn status_of(r: AwsResource) -> Option<Seq<char>> {
    data_text(r.resource_data, "status"@)
}

/// A status that mentions failure or error, in any case.
pub open spec fn is_failed_status(s: Seq<char>) -> bool {
    contains_text(ascii_lower(s), "failed"@) || contains_text(ascii_lower(s), "error"@)
}

/// A status under which an adapter is in service, in any case.
pub open spec fn is_active_status(s: Seq<char>) -> bool {
    let l = ascii_lower(s);
    l == "active"@ || l == "available"@ || l == "ready"@ || l == "inservice"@ || l == "succeeded"@
        || l == "completed"@
}

/// A status under which an adapter version is complete, in any case.
pub open spec fn is_completed_version_status(s: Seq<char>) -> bool {
    let l = ascii_lower(s);
    l == "active"@ || l == "available"@ || l == "ready"@ || l == "succeeded"@ || l == "completed"@
}

// ---------------------------------------------------------------------------
// The findings.
// ---------------------------------------------------------------------------

/// An account-summary finding for the count under `key`, only_if it is not zero.
pub open spec fn summary(
    r: AwsResource,
    pillar: Pillar,
    key: Seq<char>,
    code: Seq<char>,
    severity: Severity,
    label: Seq<char>,
) -> Seq<FindingSpec> {
    only_if(
        count_of(r, key) > 0,
        finding(
            pillar,
            code,
            severity,
            "Textract account "@ + r.resource_id@ + " has "@ + decimal(count_of(r, key) as nat) + " "@
                + label,
            seq![(key, Ev::U64(count_of(r, key))), ("resources_by_kind"@, opt_copy(r.resource_data, "resources_by_kind"@))],
        ),
    )
}

pub open spec fn cost_no_tags(r: AwsResource) -> FindingSpec {
    finding(
        Pillar::Cost,
        REASON_COST_NO_TAGS@,
        Severity::Medium,
        "Textract adapter "@ + r.resource_id@ + " has no cost allocation tags"@,
        seq![("tags"@, Ev::Copy(r.tags)), ("accepted_tag_keys"@, Ev::Texts(cost_allocation_keys()))],
    )
}

pub open spec fn cost_custom_version(r: AwsResource) -> FindingSpec {
    finding(
        Pillar::Cost,
        REASON_COST_CUSTOM_ADAPTER_VERSION@,
        Severity::Low,
        "Textract adapter version "@ + r.resource_id@ + " should be tracked as a custom ML asset"@,
        seq![
            ("adapter_id"@, opt_copy(r.resource_data, "adapter_id"@)),
            ("adapter_version"@, opt_copy(r.resource_data, "adapter_version"@)),
            ("feature_types"@, opt_copy(r.resource_data, "feature_types"@)),
            ("status"@, opt_copy(r.resource_data, "status"@)),
        ],
    )
}

/// Cost: adapters without a cost allocation tag; every adapter version, as
/// a custom ML asset to track.
pub open spec fn cost_checks(r: AwsResource) -> Seq<FindingSpec> {
    only_if(is_kind(r, "adapter"@) && !has_tag(r.tags, cost_allocation_keys()), cost_no_tags(r))
        + only_if(is_kind(r, "adapter_version"@), cost_custom_version(r))
}

pub open spec fn res_collection_errors(r: AwsResource) -> FindingSpec {
    finding(
        Pillar::Resilience,
        REASON_RES_COLLECTION_ERRORS@,
        Severity::Medium,
        "Textract account "@ + r.resource_id@ + " had "@ + decimal(
            count_of(r, "collection_error_count"@) as nat,
        ) + " inventory collection errors"@,
        seq![
            ("collection_error_count"@, Ev::U64(count_of(r, "collection_error_count"@))),
            ("collection_errors"@, opt_copy(r.resource_data, "collection_errors"@)),
        ],
    )
}

pub open spec fn res_inactive_adapter(r: AwsResource) -> FindingSpec {
    finding(
        Pillar::Resilience,
        REASON_RES_INACTIVE_ADAPTER@,
        Severity::Medium,
        "Textract adapter "@ + r.resource_id@ + " is not active"@,
        seq![
            ("status"@, opt_copy(r.resource_data, "status"@)),
            ("adapter_id"@, opt_copy(r.resource_data, "adapter_id"@)),
        ],
    )
}

pub open spec fn res_version(r: AwsResource, code: Seq<char>, severity: Severity, tail: Seq<char>) -> FindingSpec {
    finding(
        Pillar::Resilience,
        code,
        severity,
        "Textract adapter version "@ + r.resource_id@ + tail,
        seq![
            ("status"@, opt_copy(r.resource_data, "status"@)),
            ("status_message"@, opt_copy(r.resource_data, "status_message"@)),
        ],
    )
}

/// Resilience: collection errors and adapter problems counted in an account
/// summary; adapters whose status is not an active one; adapter versions
/// whose status is failed or otherwise not complete.
pub open spec fn resilience_checks(r: AwsResource) -> Seq<FindingSpec> {
    (if is_kind(r, "account_summary"@) {
        only_if(count_of(r, "collection_error_count"@) > 0, res_collection_errors(r))
            + summary(
            r,
            Pillar::Resilience,
            "inactive_adapter_count"@,
            REASON_RES_INACTIVE_ADAPTER@,
            Severity::Medium,
            "Textract inactive adapters"@,
        ) + summary(
            r,
            Pillar::Resilience,
            "failed_adapter_version_count"@,
            REASON_RES_FAILED_ADAPTER_VERSION@,
            Severity::High,
            "Textract failed adapter versions"@,
        ) + summary(
            r,
            Pillar::Resilience,
            "incomplete_adapter_version_count"@,
            REASON_RES_INCOMPLETE_ADAPTER_VERSION@,
            Severity::Medium,
            "Textract incomplete adapter versions"@,
        )
    } else {
        Seq::empty()
    }) + only_if(
        is_kind(r, "adapter"@) && match status_of(r) {
            Some(s) => !is_active_status(s),
            None => false,
        },
        res_inactive_adapter(r),
    ) + if is_kind(r, "adapter_version"@) {
        match status_of(r) {
            Some(s) => if is_failed_status(s) {
                seq![res_version(r, REASON_RES_FAILED_ADAPTER_VERSION@, Severity::High, " is failed"@)]
            } else if !is_completed_version_status(s) {
                seq![res_version(r, REASON_RES_INCOMPLETE_ADAPTER_VERSION@, Severity::Medium, " is incomplete"@)]
            } else {
                Seq::empty()
            },
            None => Seq::empty(),
        }
    } else {
        Seq::empty()
    }
}

pub open spec fn sec_version_without_kms(r: AwsResource) -> FindingSpec {
    finding(
        Pillar::Security,
        REASON_SEC_ADAPTER_VERSION_WITHOUT_KMS@,
        Severity::High,
        "Textract adapter version "@ + r.resource_id@ + " has no KMS key evidence"@,
        seq![
            ("adapter_id"@, opt_copy(r.resource_data, "adapter_id"@)),
            ("adapter_version"@, opt_copy(r.resource_data, "adapter_version"@)),
            ("kms_key_id"@, opt_copy(r.resource_data, "kms_key_id"@)),
        ],
    )
}

/// The evidence of the output-configuration findings.
pub open spec fn output_evidence(r: AwsResource) -> Seq<(Seq<char>, Ev)> {
    seq![
        ("adapter_id"@, opt_copy(r.resource_data, "adapter_id"@)),
        ("adapter_version"@, opt_copy(r.resource_data, "adapter_version"@)),
        ("output_configured"@, opt_copy(r.resource_data, "output_configured"@)),
        ("output_kms_configured"@, opt_copy(r.resource_data, "output_kms_configured"@)),
    ]
}

pub open spec fn sec_output_without_kms(r: AwsResource) -> FindingSpec {
    finding(
        Pillar::Security,
        REASON_SEC_OUTPUT_WITHOUT_KMS@,
        Severity::High,
        "Textract adapter version "@ + r.resource_id@
            + " has output configuration without KMS key evidence"@,
        output_evidence(r),
    )
}

pub open spec fn sec_output_missing(r: AwsResource) -> FindingSpec {
    finding(
        Pillar::Security,
        REASON_SEC_OUTPUT_CONFIG_MISSING@,
        Severity::Medium,
        "Textract adapter version "@ + r.resource_id@ + " has no output configuration evidence"@,
        output_evidence(r),
    )
}

/// Security: KMS and output-configuration gaps counted in an account
/// summary; adapter versions without a KMS key, with output configured but
/// not encrypted, or without output configuration.
pub open spec fn security_checks(r: AwsResource) -> Seq<FindingSpec> {
    (if is_kind(r, "account_summary"@) {
        summary(
            r,
            Pillar::Security,
            "adapter_version_without_kms_count"@,
            REASON_SEC_ADAPTER_VERSION_WITHOUT_KMS@,
            Severity::High,
            "Textract adapter versions without KMS keys"@,
        ) + summary(
            r,
            Pillar::Security,
            "output_without_kms_count"@,
            REASON_SEC_OUTPUT_WITHOUT_KMS@,
            Severity::High,
            "Textract output configurations without KMS keys"@,
        ) + summary(
            r,
            Pillar::Security,
            "output_config_missing_count"@,
            REASON_SEC_OUTPUT_CONFIG_MISSING@,
            Severity::Medium,
            "Textract adapter versions without output configuration"@,
        )
    } else {
        Seq::empty()
    }) + only_if(
        is_kind(r, "adapter_version"@) && data_text(r.resource_data, "kms_key_id"@) is None,
        sec_version_without_kms(r),
    ) + only_if(
        is_kind(r, "adapter_version"@) && flag_of(r, "output_configured"@) && !flag_of(
            r,
            "output_kms_configured"@,
        ),
        sec_output_without_kms(r),
    ) + only_if(
        is_kind(r, "adapter_version"@) && !flag_of(r, "output_configured"@),
        sec_output_missing(r),
    )
}

/// The pillar findings for one row; pillars without checks for this service
/// yet produce none.
pub open spec fn checks(r: AwsResource, pillar: Pillar) -> Seq<FindingSpec> {
    match pillar {
        Pillar::Cost => cost_checks(r),
        Pillar::Resilience => resilience_checks(r),
        Pillar::Security => security_checks(r),
        _ => Seq::empty(),
    }
}

// ---------------------------------------------------------------------------
// The evaluation.
// ---------------------------------------------------------------------------

fn count(resource: &AwsResource, key: &str) -> (r: u64)
    ensures
        r == count_of(*resource, key@),
{
    match data_u64(&resource.resource_data, key) {
        Some(n) => n,
        None => 0,
    }
}

fn flag(resource: &AwsResource, key: &str) -> (r: bool)
    ensures
        r == flag_of(*resource, key@),
{
    match crate::inventory::types::data_bool(&resource.resource_data, key) {
        Some(b) => b,
        None => false,
    }
}

fn resource_kind(resource: &AwsResource) -> (k: Option<String>)
    ensures
        opt_view(k) == data_text(resource.resource_data, "resource_kind"@),
{
    data_str(&resource.resource_data, "resource_kind")
}

fn kind_is(resource: &AwsResource, kind: &str) -> (r: bool)
    ensures
        r == is_kind(*resource, kind@),
{
    is_text(&resource_kind(resource), kind)
}

fn failed_status(status: &str) -> (r: bool)
    ensures
        r == is_failed_status(status@),
{
    let l = to_ascii_lowercase(status);
    contains_str(l.as_str(), "failed") || contains_str(l.as_str(), "error")
}

fn active_status(status: &str) -> (r: bool)
    ensures
        r == is_active_status(status@),
{
    let l = to_ascii_lowercase(status);
    let l = l.as_str();
    str_eq(l, "active") || str_eq(l, "available") || str_eq(l, "ready") || str_eq(l, "inservice")
        || str_eq(l, "succeeded") || str_eq(l, "completed")
}

fn completed_version_status(status: &str) -> (r: bool)
    ensures
        r == is_completed_version_status(status@),
{
    let l = to_ascii_lowercase(status);
    let l = l.as_str();
    str_eq(l, "active") || str_eq(l, "available") || str_eq(l, "ready") || str_eq(l, "succeeded")
        || str_eq(l, "completed")
}

fn emit_summary_count(
    resource: &AwsResource,
    findings: &mut Vec<InventoryFinding>,
    pillar: Pillar,
    count_key: &str,
    reason_code: &str,
    severity: Severity,
    label: &str,
    Ghost(acc): Ghost<Seq<FindingSpec>>,
    Ghost(start): Ghost<Seq<InventoryFinding>>,
)
    requires
        extends(start, old(findings)@, *resource, acc),
    ensures
        extends(
            start,
            final(findings)@,
            *resource,
            acc + summary(*resource, pillar, count_key@, reason_code@, severity, label@),
        ),
{
    let ghost r = *resource;
    let n = count(resource, count_key);
    if n == 0 {
        assert(acc + summary(r, pillar, count_key@, reason_code@, severity, label@) =~= acc);
        return;
    }
    let shown = u64_decimal(n);
    let mut message = concat5("Textract account ", resource.resource_id.as_str(), " has ", shown.as_str(), " ");
    message.append(label);
    let ghost s = summary(r, pillar, count_key@, reason_code@, severity, label@)[0];
    emit(
        findings,
        resource,
        pillar,
        reason_code,
        severity,
        message,
        obj2(
            count_key,
            ev_u64(n),
            "resources_by_kind",
            ev_opt_copy(&resource.resource_data, "resources_by_kind"),
            Ghost(Ev::U64(n)),
            Ghost(opt_copy(r.resource_data, "resources_by_kind"@)),
        ),
        Ghost(acc),
        Ghost(start),
        Ghost(s),
    );
    assert(acc.push(s) =~= acc + summary(r, pillar, count_key@, reason_code@, severity, label@));
}

fn evaluate_cost(resource: &AwsResource, findings: &mut Vec<InventoryFinding>)
    ensures
        extends(old(findings)@, final(findings)@, *resource, cost_checks(*resource)),
{
    let ghost r = *resource;
    let ghost start = findings@;
    let ghost mut acc: Seq<FindingSpec> = Seq::empty();
    proof {
        lemma_extends_start(start, r);
    }
    let data = &resource.resource_data;
    if kind_is(resource, "adapter") && !has_any_tag(&resource.tags, &COST_ALLOCATION_TAG_KEYS) {
        emit(
            findings,
            resource,
            Pillar::Cost,
            REASON_COST_NO_TAGS,
            Severity::Medium,
            concat3("Textract adapter ", resource.resource_id.as_str(), " has no cost allocation tags"),
            obj2(
                "tags",
                ev_copy(&resource.tags),
                "accepted_tag_keys",
                ev_texts(&COST_ALLOCATION_TAG_KEYS),
                Ghost(Ev::Copy(r.tags)),
                Ghost(Ev::Texts(cost_allocation_keys())),
            ),
            Ghost(acc),
            Ghost(start),
            Ghost(cost_no_tags(r)),
        );
        proof {
            acc = acc.push(cost_no_tags(r));
        }
    }
    if kind_is(resource, "adapter_version") {
        emit(
            findings,
            resource,
            Pillar::Cost,
            REASON_COST_CUSTOM_ADAPTER_VERSION,
            Severity::Low,
            concat3(
                "Textract adapter version ",
                resource.resource_id.as_str(),
                " should be tracked as a custom ML asset",
            ),
            obj4(
                "adapter_id",
                ev_opt_copy(data, "adapter_id"),
                "adapter_version",
                ev_opt_copy(data, "adapter_version"),
                "feature_types",
                ev_opt_copy(data, "feature_types"),
                "status",
                ev_opt_copy(data, "status"),
                Ghost(opt_copy(r.resource_data, "adapter_id"@)),
                Ghost(opt_copy(r.resource_data, "adapter_version"@)),
                Ghost(opt_copy(r.resource_data, "feature_types"@)),
                Ghost(opt_copy(r.resource_data, "status"@)),
            ),
            Ghost(acc),
            Ghost(start),
            Ghost(cost_custom_version(r)),
        );
        proof {
            acc = acc.push(cost_custom_version(r));
        }
    }
    assert(acc =~= cost_checks(r));
}

fn evaluate_resilience(resource: &AwsResource, findings: &mut Vec<InventoryFinding>)
    ensures
        extends(old(findings)@, final(findings)@, *resource, resilience_checks(*resource)),
{
    let ghost r = *resource;
    let ghost start = findings@;
    let ghost mut acc: Seq<FindingSpec> = Seq::empty();
    proof {
        lemma_extends_start(start, r);
    }
    let data = &resource.resource_data;
    let id = resource.resource_id.as_str();
    if kind_is(resource, "account_summary") {
        let collection_errors = count(resource, "collection_error_count");
        if collection_errors > 0 {
            let shown = u64_decimal(collection_errors);
            emit(
                findings,
                resource,
                Pillar::Resilience,
                REASON_RES_COLLECTION_ERRORS,
                Severity::Medium,
                concat5("Textract account ", id, " had ", shown.as_str(), " inventory collection errors"),
                obj2(
                    "collection_error_count",
                    ev_u64(collection_errors),
                    "collection_errors",
                    ev_opt_copy(data, "collection_errors"),
                    Ghost(Ev::U64(collection_errors)),
                    Ghost(opt_copy(r.resource_data, "collection_errors"@)),
                ),
                Ghost(acc),
                Ghost(start),
                Ghost(res_collection_errors(r)),
            );
            proof {
                acc = acc.push(res_collection_errors(r));
            }
        }
        emit_summary_count(
            resource,
            findings,
            Pillar::Resilience,
            "inactive_adapter_count",
            REASON_RES_INACTIVE_ADAPTER,
            Severity::Medium,
            "Textract inactive adapters",
            Ghost(acc),
            Ghost(start),
        );
        proof {
            acc = acc + summary(
                r,
                Pillar::Resilience,
                "inactive_adapter_count"@,
                REASON_RES_INACTIVE_ADAPTER@,
                Severity::Medium,
                "Textract inactive adapters"@,
            );
        }
        emit_summary_count(
            resource,
            findings,
            Pillar::Resilience,
            "failed_adapter_version_count",
            REASON_RES_FAILED_ADAPTER_VERSION,
            Severity::High,
            "Textract failed adapter versions",
            Ghost(acc),
            Ghost(start),
        );
        proof {
            acc = acc + summary(
                r,
                Pillar::Resilience,
                "failed_adapter_version_count"@,
                REASON_RES_FAILED_ADAPTER_VERSION@,
                Severity::High,
                "Textract failed adapter versions"@,
            );
        }
        emit_summary_count(
            resource,
            findings,
            Pillar::Resilience,
            "incomplete_adapter_version_count",
            REASON_RES_INCOMPLETE_ADAPTER_VERSION,
            Severity::Medium,
            "Textract incomplete adapter versions",
            Ghost(acc),
            Ghost(start),
        );
        proof {
            acc = acc + summary(
                r,
                Pillar::Resilience,
                "incomplete_adapter_version_count"@,
                REASON_RES_INCOMPLETE_ADAPTER_VERSION@,
                Severity::Medium,
                "Textract incomplete adapter versions"@,
            );
        }
    }
    let status = data_str(data, "status");
    let inactive = match &status {
        Some(s) => !active_status(s.as_str()),
        None => false,
    };
    if kind_is(resource, "adapter") && inactive {
        emit(
            findings,
            resource,
            Pillar::Resilience,
            REASON_RES_INACTIVE_ADAPTER,
            Severity::Medium,
            concat3("Textract adapter ", id, " is not active"),
            obj2(
                "status",
                ev_opt_copy(data, "status"),
                "adapter_id",
                ev_opt_copy(data, "adapter_id"),
                Ghost(opt_copy(r.resource_data, "status"@)),
                Ghost(opt_copy(r.resource_data, "adapter_id"@)),
            ),
            Ghost(acc),
            Ghost(start),
            Ghost(res_inactive_adapter(r)),
        );
        proof {
            acc = acc.push(res_inactive_adapter(r));
        }
    }
    if kind_is(resource, "adapter_version") {
        let failed = match &status {
            Some(s) => failed_status(s.as_str()),
            None => false,
        };
        let incomplete = match &status {
            Some(s) => !completed_version_status(s.as_str()),
            None => false,
        };
        if failed {
            emit(
                findings,
                resource,
                Pillar::Resilience,
                REASON_RES_FAILED_ADAPTER_VERSION,
                Severity::High,
                concat3("Textract adapter version ", id, " is failed"),
                obj2(
                    "status",
                    ev_opt_copy(data, "status"),
                    "status_message",
                    ev_opt_copy(data, "status_message"),
                    Ghost(opt_copy(r.resource_data, "status"@)),
                    Ghost(opt_copy(r.resource_data, "status_message"@)),
                ),
                Ghost(acc),
                Ghost(start),
                Ghost(res_version(r, REASON_RES_FAILED_ADAPTER_VERSION@, Severity::High, " is failed"@)),
            );
            proof {
                acc = acc.push(res_version(r, REASON_RES_FAILED_ADAPTER_VERSION@, Severity::High, " is failed"@));
            }
        } else if incomplete {
            emit(
                findings,
                resource,
                Pillar::Resilience,
                REASON_RES_INCOMPLETE_ADAPTER_VERSION,
                Severity::Medium,
                concat3("Textract adapter version ", id, " is incomplete"),
                obj2(
                    "status",
                    ev_opt_copy(data, "status"),
                    "status_message",
                    ev_opt_copy(data, "status_message"),
                    Ghost(opt_copy(r.resource_data, "status"@)),
                    Ghost(opt_copy(r.resource_data, "status_message"@)),
                ),
                Ghost(acc),
                Ghost(start),
                Ghost(res_version(r, REASON_RES_INCOMPLETE_ADAPTER_VERSION@, Severity::Medium, " is incomplete"@)),
            );
            proof {
                acc = acc.push(
                    res_version(r, REASON_RES_INCOMPLETE_ADAPTER_VERSION@, Severity::Medium, " is incomplete"@),
                );
            }
        }
    }
    assert(acc =~= resilience_checks(r));
}

fn evaluate_security(resource: &AwsResource, findings: &mut Vec<InventoryFinding>)
    ensures
        extends(old(findings)@, final(findings)@, *resource, security_checks(*resource)),
{
    let ghost r = *resource;
    let ghost start = findings@;
    let ghost mut acc: Seq<FindingSpec> = Seq::empty();
    proof {
        lemma_extends_start(start, r);
    }
    let data = &resource.resource_data;
    let id = resource.resource_id.as_str();
    if kind_is(resource, "account_summary") {
        emit_summary_count(
            resource,
            findings,
            Pillar::Security,
            "adapter_version_without_kms_count",
            REASON_SEC_ADAPTER_VERSION_WITHOUT_KMS,
            Severity::High,
            "Textract adapter versions without KMS keys",
            Ghost(acc),
            Ghost(start),
        );
        proof {
            acc = acc + summary(
                r,
                Pillar::Security,
                "adapter_version_without_kms_count"@,
                REASON_SEC_ADAPTER_VERSION_WITHOUT_KMS@,
                Severity::High,
                "Textract adapter versions without KMS keys"@,
            );
        }
        emit_summary_count(
            resource,
            findings,
            Pillar::Security,
            "output_without_kms_count",
            REASON_SEC_OUTPUT_WITHOUT_KMS,
            Severity::High,
            "Textract output configurations without KMS keys",
            Ghost(acc),
            Ghost(start),
        );
        proof {
            acc = acc + summary(
                r,
                Pillar::Security,
                "output_without_kms_count"@,
                REASON_SEC_OUTPUT_WITHOUT_KMS@,
                Severity::High,
                "Textract output configurations without KMS keys"@,
            );
        }
        emit_summary_count(
            resource,
            findings,
            Pillar::Security,
            "output_config_missing_count",
            REASON_SEC_OUTPUT_CONFIG_MISSING,
            Severity::Medium,
            "Textract adapter versions without output configuration",
            Ghost(acc),
            Ghost(start),
        );
        proof {
            acc = acc + summary(
                r,
                Pillar::Security,
                "output_config_missing_count"@,
                REASON_SEC_OUTPUT_CONFIG_MISSING@,
                Severity::Medium,
                "Textract adapter versions without output configuration"@,
            );
        }
    }
    let is_version = kind_is(resource, "adapter_version");
    if is_version && data_str(data, "kms_key_id").is_none() {
        emit(
            findings,
            resource,
            Pillar::Security,
            REASON_SEC_ADAPTER_VERSION_WITHOUT_KMS,
            Severity::High,
            concat3("Textract adapter version ", id, " has no KMS key evidence"),
            obj3(
                "adapter_id",
                ev_opt_copy(data, "adapter_id"),
                "adapter_version",
                ev_opt_copy(data, "adapter_version"),
                "kms_key_id",
                ev_opt_copy(data, "kms_key_id"),
                Ghost(opt_copy(r.resource_data, "adapter_id"@)),
                Ghost(opt_copy(r.resource_data, "adapter_version"@)),
                Ghost(opt_copy(r.resource_data, "kms_key_id"@)),
            ),
            Ghost(acc),
            Ghost(start),
            Ghost(sec_version_without_kms(r)),
        );
        proof {
            acc = acc.push(sec_version_without_kms(r));
        }
    }
    let output_configured = flag(resource, "output_configured");
    let output_kms_configured = flag(resource, "output_kms_configured");
    if is_version && output_configured && !output_kms_configured {
        emit(
            findings,
            resource,
            Pillar::Security,
            REASON_SEC_OUTPUT_WITHOUT_KMS,
            Severity::High,
            concat3(
                "Textract adapter version ",
                id,
                " has output configuration without KMS key evidence",
            ),
            obj4(
                "adapter_id",
                ev_opt_copy(data, "adapter_id"),
                "adapter_version",
                ev_opt_copy(data, "adapter_version"),
                "output_configured",
                ev_opt_copy(data, "output_configured"),
                "output_kms_configured",
                ev_opt_copy(data, "output_kms_configured"),
                Ghost(opt_copy(r.resource_data, "adapter_id"@)),
                Ghost(opt_copy(r.resource_data, "adapter_version"@)),
                Ghost(opt_copy(r.resource_data, "output_configured"@)),
                Ghost(opt_copy(r.resource_data, "output_kms_configured"@)),
            ),
            Ghost(acc),
            Ghost(start),
            Ghost(sec_output_without_kms(r)),
        );
        proof {
            acc = acc.push(sec_output_without_kms(r));
        }
    }
    if is_version && !output_configured {
        emit(
            findings,
            resource,
            Pillar::Security,
            REASON_SEC_OUTPUT_CONFIG_MISSING,
            Severity::Medium,
            concat3("Textract adapter version ", id, " has no output configuration evidence"),
            obj4(
                "adapter_id",
                ev_opt_copy(data, "adapter_id"),
                "adapter_version",
                ev_opt_copy(data, "adapter_version"),
                "output_configured",
                ev_opt_copy(data, "output_configured"),
                "output_kms_configured",
                ev_opt_copy(data, "output_kms_configured"),
                Ghost(opt_copy(r.resource_data, "adapter_id"@)),
                Ghost(opt_copy(r.resource_data, "adapter_version"@)),
                Ghost(opt_copy(r.resource_data, "output_configured"@)),
                Ghost(opt_copy(r.resource_data, "output_kms_configured"@)),
            ),
            Ghost(acc),
            Ghost(start),
            Ghost(sec_output_missing(r)),
        );
        proof {
            acc = acc.push(sec_output_missing(r));
        }
    }
    assert(acc =~= security_checks(r));
}

/// No account-summary count yields more than one finding.
proof fn lemma_summary_len(r: AwsResource)
    ensures
        forall|p: Pillar, k: Seq<char>, c: Seq<char>, s: Severity, l: Seq<char>|
            #[trigger] summary(r, p, k, c, s, l).len() <= 1,
{
}

/// Every account-summary finding is about the pillar it is made for.
proof fn lemma_summary_about(r: AwsResource, p: Pillar, k: Seq<char>, c: Seq<char>, s: Severity, l: Seq<char>)
    ensures
        all_about(summary(r, p, k, c, s, l), p),
{
}

proof fn lemma_checks_about(r: AwsResource, pillar: Pillar)
    ensures
        all_about(checks(r, pillar), pillar),
{
    match pillar {
        Pillar::Cost => {
            lemma_about_concat(
                only_if(is_kind(r, "adapter"@) && !has_tag(r.tags, cost_allocation_keys()), cost_no_tags(r)),
                only_if(is_kind(r, "adapter_version"@), cost_custom_version(r)),
                pillar,
            );
        },
        Pillar::Resilience => {
            let p = Pillar::Resilience;
            let s0 = only_if(count_of(r, "collection_error_count"@) > 0, res_collection_errors(r));
            let s1 = summary(r, p, "inactive_adapter_count"@, REASON_RES_INACTIVE_ADAPTER@, Severity::Medium, "Textract inactive adapters"@);
            let s2 = summary(r, p, "failed_adapter_version_count"@, REASON_RES_FAILED_ADAPTER_VERSION@, Severity::High, "Textract failed adapter versions"@);
            let s3 = summary(r, p, "incomplete_adapter_version_count"@, REASON_RES_INCOMPLETE_ADAPTER_VERSION@, Severity::Medium, "Textract incomplete adapter versions"@);
            lemma_summary_about(r, p, "inactive_adapter_count"@, REASON_RES_INACTIVE_ADAPTER@, Severity::Medium, "Textract inactive adapters"@);
            lemma_summary_about(r, p, "failed_adapter_version_count"@, REASON_RES_FAILED_ADAPTER_VERSION@, Severity::High, "Textract failed adapter versions"@);
            lemma_summary_about(r, p, "incomplete_adapter_version_count"@, REASON_RES_INCOMPLETE_ADAPTER_VERSION@, Severity::Medium, "Textract incomplete adapter versions"@);
            lemma_about_concat(s0, s1, p);
            lemma_about_concat(s0 + s1, s2, p);
            lemma_about_concat(s0 + s1 + s2, s3, p);
            let a: Seq<FindingSpec> = if is_kind(r, "account_summary"@) {
                s0 + s1 + s2 + s3
            } else {
                Seq::empty()
            };
            let b = only_if(
                is_kind(r, "adapter"@) && match status_of(r) {
                    Some(st) => !is_active_status(st),
                    None => false,
                },
                res_inactive_adapter(r),
            );
            let c: Seq<FindingSpec> = if is_kind(r, "adapter_version"@) {
                match status_of(r) {
                    Some(st) => if is_failed_status(st) {
                        seq![res_version(r, REASON_RES_FAILED_ADAPTER_VERSION@, Severity::High, " is failed"@)]
                    } else if !is_completed_version_status(st) {
                        seq![res_version(r, REASON_RES_INCOMPLETE_ADAPTER_VERSION@, Severity::Medium, " is incomplete"@)]
                    } else {
                        Seq::empty()
                    },
                    None => Seq::empty(),
                }
            } else {
                Seq::empty()
            };
            lemma_about_concat(a, b, p);
            lemma_about_concat(a + b, c, p);
            assert(checks(r, pillar) == a + b + c);
        },
        Pillar::Security => {
            let p = Pillar::Security;
            let s1 = summary(r, p, "adapter_version_without_kms_count"@, REASON_SEC_ADAPTER_VERSION_WITHOUT_KMS@, Severity::High, "Textract adapter versions without KMS keys"@);
            let s2 = summary(r, p, "output_without_kms_count"@, REASON_SEC_OUTPUT_WITHOUT_KMS@, Severity::High, "Textract output configurations without KMS keys"@);
            let s3 = summary(r, p, "output_config_missing_count"@, REASON_SEC_OUTPUT_CONFIG_MISSING@, Severity::Medium, "Textract adapter versions without output configuration"@);
            lemma_summary_about(r, p, "adapter_version_without_kms_count"@, REASON_SEC_ADAPTER_VERSION_WITHOUT_KMS@, Severity::High, "Textract adapter versions without KMS keys"@);
            lemma_summary_about(r, p, "output_without_kms_count"@, REASON_SEC_OUTPUT_WITHOUT_KMS@, Severity::High, "Textract output configurations without KMS keys"@);
            lemma_summary_about(r, p, "output_config_missing_count"@, REASON_SEC_OUTPUT_CONFIG_MISSING@, Severity::Medium, "Textract adapter versions without output configuration"@);
            lemma_about_concat(s1, s2, p);
            lemma_about_concat(s1 + s2, s3, p);
            let a: Seq<FindingSpec> = if is_kind(r, "account_summary"@) {
                s1 + s2 + s3
            } else {
                Seq::empty()
            };
            let b = only_if(
                is_kind(r, "adapter_version"@) && data_text(r.resource_data, "kms_key_id"@) is None,
                sec_version_without_kms(r),
            );
            let c = only_if(
                is_kind(r, "adapter_version"@) && flag_of(r, "output_configured"@) && !flag_of(r, "output_kms_configured"@),
                sec_output_without_kms(r),
            );
            let d = only_if(is_kind(r, "adapter_version"@) && !flag_of(r, "output_configured"@), sec_output_missing(r));
            lemma_about_concat(a, b, p);
            lemma_about_concat(a + b, c, p);
            lemma_about_concat(a + b + c, d, p);
            assert(checks(r, pillar) == a + b + c + d);
        },
        _ => {},
    }
}

/// The Textract rules.
pub struct TextractRules;

impl InventoryRules for TextractRules {
    open spec fn covers(r: AwsResource) -> bool {
        r.resource_type@ == RESOURCE_TYPE@
    }

    open spec fn spec_stale_code() -> Seq<char> {
        REASON_INV_STALE_DATA@
    }

    open spec fn checks(&self, i: int, r: AwsResource, pillar: Pillar, now: Timestamp) -> Seq<FindingSpec> {
        checks(r, pillar)
    }

    fn covers_row(resource: &AwsResource) -> (b: bool) {
        str_eq(resource.resource_type.as_str(), RESOURCE_TYPE)
    }

    fn stale_code() -> (r: &'static str) {
        REASON_INV_STALE_DATA
    }

    open spec fn serves(&self, i: int) -> bool {
        true
    }

    proof fn lemma_checks_pillar(&self, i: int, r: AwsResource, pillar: Pillar, now: Timestamp) {
        lemma_checks_about(r, pillar);
    }

    proof fn lemma_checks_bound(&self, i: int, r: AwsResource, pillar: Pillar, now: Timestamp) {
        lemma_summary_len(r);
    }

    fn evaluate_resource(
        &self,
        i: usize,
        resource: &AwsResource,
        pillar: Pillar,
        now: &Timestamp,
        findings: &mut Vec<InventoryFinding>,
    ) {
        match pillar {
            Pillar::Cost => evaluate_cost(resource, findings),
            Pillar::Resilience => evaluate_resilience(resource, findings),
            Pillar::Security => evaluate_security(resource, findings),
            _ => {
                proof {
                    lemma_extends_start(findings@, *resource);
                }
            },
        }
    }
}

/// Evaluate every Textract row in the fleet for one pillar. Rows of other
/// resource types are skipped and not counted.
pub fn evaluate_textract_fleet(resources: &[AwsResource], pillar: Pillar, now: Timestamp) -> (report: PillarReport)
    requires
        fleet_penalty(TextractRules, resources@, pillar, now) <= i32::MAX,
    ensures
        report_holds(TextractRules, report, resources@, pillar, now),
{
    evaluate_fleet(&TextractRules, resources, pillar, now)
}

} // verus!

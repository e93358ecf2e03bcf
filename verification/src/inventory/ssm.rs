//! Deterministic SSM document inventory evaluators for the cost, security,
//! and resilience pillars.
//!
//! Evaluates fields persisted by the SSM collector: owner, document_type,
//! document_format, schema_version, created_date, review_status,
//! shared_account_ids, shared_publicly, plus the tags column. The collector
//! only ingests account-owned (Owner=Self) documents, so the owner check is a
//! consistency guard against third-party documents leaking into inventory.
use vstd::prelude::*;
use crate::inventory::fleet::{evaluate_fleet, fleet_penalty, report_holds, InventoryRules};
use crate::inventory::types::{data_bool, data_flag, data_str, data_text, emit, ev_bool, ev_i64, ev_opt_copy, ev_opt_text, ev_text, extends, finding, is_text, lemma_extends_start, obj1, obj2, obj3, only_if, opt_copy, AwsResource, Ev, FindingSpec, InventoryFinding, Pillar, PillarReport, Severity};
use crate::text::{before_char, concat3, concat5, i64_decimal, parse_u32, parse_u32_spec, signed_decimal, split_first, str_eq};
use crate::time::{days_between, parse_rfc3339, seconds_from_to, spec_parse_rfc3339, trunc_div, Timestamp};

verus! {

/// Only rows of this resource type are evaluated.
pub const RESOURCE_TYPE: &'static str = "SsmDocument";

/// A NOT_REVIEWED document older than this many days is treated as accumulating cruft.
pub const AGING_NEVER_REVIEWED_DAYS: i64 = 365;

// Reason codes are the stable contract for findings; never reuse or rename.
pub const REASON_COST_NO_TAGS: &'static str = "SSM_COST_NO_TAGS";
pub const REASON_COST_AGING_NEVER_REVIEWED: &'static str = "SSM_COST_AGING_NEVER_REVIEWED";
pub const REASON_COST_CREATED_DATE_DATA_NOT_COLLECTED: &'static str = "SSM_COST_CREATED_DATE_DATA_NOT_COLLECTED";
pub const REASON_RES_LEGACY_SCHEMA_VERSION: &'static str = "SSM_RES_LEGACY_SCHEMA_VERSION";
pub const REASON_RES_SCHEMA_DATA_NOT_COLLECTED: &'static str = "SSM_RES_SCHEMA_DATA_NOT_COLLECTED";
pub const REASON_RES_TEXT_FORMAT_DOCUMENT: &'static str = "SSM_RES_TEXT_FORMAT_DOCUMENT";
pub const REASON_SEC_DOCUMENT_SHARED_PUBLICLY: &'static str = "SSM_SEC_DOCUMENT_SHARED_PUBLICLY";
pub const REASON_SEC_SHARING_DATA_NOT_COLLECTED: &'static str = "SSM_SEC_SHARING_DATA_NOT_COLLECTED";
pub const REASON_SEC_REVIEW_NOT_APPROVED: &'static str = "SSM_SEC_REVIEW_NOT_APPROVED";
pub const REASON_SEC_THIRD_PARTY_OWNER: &'static str = "SSM_SEC_THIRD_PARTY_OWNER";
pub const REASON_SEC_OWNER_DATA_NOT_COLLECTED: &'static str = "SSM_SEC_OWNER_DATA_NOT_COLLECTED";
pub const REASON_INV_STALE_DATA: &'static str = "SSM_INV_STALE_DATA";

// ---------------------------------------------------------------------------
// What the row says.
// ---------------------------------------------------------------------------

pub open spec fn review_of(r: AwsResource) -> Option<Seq<char>> {
    data_text(r.resource_data, "review_status"@)
}

/// The creation instant, as Unix seconds and nanoseconds, when it is
/// collected and readable as RFC 3339.
pub open spec fn created_of(r: AwsResource) -> Option<(i64, u32)> {
    match data_text(r.resource_data, "created_date"@) {
        Some(t) => spec_parse_rfc3339(t),
        None => None,
    }
}

/// Whole days from the instant `p` to `now`, as `Duration::num_days` counts them.
pub open spec fn age_days(now: Timestamp, p: (i64, u32)) -> int {
    trunc_div(
        seconds_from_to(now.spec_secs() as int, now.spec_nanos() as int, p.0 as int, p.1 as int),
        86400,
    )
}

pub open spec fn schema_of(r: AwsResource) -> Option<Seq<char>> {
    data_text(r.resource_data, "schema_version"@)
}

/// The major schema version: the digits before the first `.`.
pub open spec fn major_of(r: AwsResource) -> Option<u32> {
    match schema_of(r) {
        Some(v) => parse_u32_spec(before_char(v, '.')),
        None => None,
    }
}

pub open spec fn owner_of(r: AwsResource) -> Option<Seq<char>> {
    data_text(r.resource_data, "owner"@)
}

// ---------------------------------------------------------------------------
// The findings.
// ---------------------------------------------------------------------------

pub open spec fn cost_no_tags(r: AwsResource) -> FindingSpec {
    finding(
        Pillar::Cost,
        REASON_COST_NO_TAGS@,
        Severity::Low,
        "SSM document "@ + r.resource_id@
            + " has no tags recorded (untagged resource or tag collection gap); ownership and cleanup decisions cannot be routed"@,
        seq![("tags"@, Ev::Copy(r.tags))],
    )
}

pub open spec fn cost_aging(r: AwsResource, age: int) -> FindingSpec {
    finding(
        Pillar::Cost,
        REASON_COST_AGING_NEVER_REVIEWED@,
        Severity::Low,
        "SSM document "@ + r.resource_id@ + " was created "@ + signed_decimal(age)
            + " days ago and has never been reviewed; review or delete it to stop automation cruft from accumulating"@,
        seq![
            ("review_status"@, Ev::Text("NOT_REVIEWED"@)),
            ("age_days"@, Ev::I64(age as i64)),
            ("aging_threshold_days"@, Ev::I64(AGING_NEVER_REVIEWED_DAYS)),
        ],
    )
}

pub open spec fn cost_created_gap(r: AwsResource) -> FindingSpec {
    finding(
        Pillar::Cost,
        REASON_COST_CREATED_DATE_DATA_NOT_COLLECTED@,
        Severity::Low,
        "Creation date for never-reviewed SSM document "@ + r.resource_id@
            + " is not collected; aging cannot be assessed"@,
        seq![("created_date_collected"@, Ev::Bool(false))],
    )
}

/// Cost: untagged documents; never-reviewed documents older than a year, or
/// whose creation date is not collected.
pub open spec fn cost_checks(r: AwsResource, now: Timestamp) -> Seq<FindingSpec> {
    only_if(r.tags.spec_object_empty_or_absent(), cost_no_tags(r)) + if review_of(r) == Some(
        "NOT_REVIEWED"@,
    ) {
        match created_of(r) {
            Some(p) => only_if(age_days(now, p) > AGING_NEVER_REVIEWED_DAYS, cost_aging(r, age_days(now, p))),
            None => seq![cost_created_gap(r)],
        }
    } else {
        Seq::empty()
    }
}

pub open spec fn res_legacy_schema(r: AwsResource) -> FindingSpec {
    finding(
        Pillar::Resilience,
        REASON_RES_LEGACY_SCHEMA_VERSION@,
        Severity::Medium,
        "Command document "@ + r.resource_id@ + " uses legacy schema version "@ + match schema_of(r) {
            Some(v) => v,
            None => "unknown"@,
        } + "; migrate to schema 2.x for current execution semantics"@,
        seq![("schema_version"@, Ev::OptText(schema_of(r))), ("document_type"@, Ev::Text("Command"@))],
    )
}

pub open spec fn res_schema_gap(r: AwsResource) -> FindingSpec {
    finding(
        Pillar::Resilience,
        REASON_RES_SCHEMA_DATA_NOT_COLLECTED@,
        Severity::Low,
        "Schema version for Command document "@ + r.resource_id@
            + " is not collected or unparseable; schema currency cannot be assessed"@,
        seq![("schema_version"@, Ev::OptText(schema_of(r)))],
    )
}

pub open spec fn res_text_format(r: AwsResource) -> FindingSpec {
    finding(
        Pillar::Resilience,
        REASON_RES_TEXT_FORMAT_DOCUMENT@,
        Severity::Low,
        "SSM document "@ + r.resource_id@
            + " is stored in TEXT format; convert to JSON or YAML for validated, reviewable content"@,
        seq![("document_format"@, Ev::Text("TEXT"@))],
    )
}

/// Resilience: Command documents on a schema before 2 (or whose schema is
/// not collected or unreadable), and TEXT-format documents.
pub open spec fn resilience_checks(r: AwsResource) -> Seq<FindingSpec> {
    (if data_text(r.resource_data, "document_type"@) == Some("Command"@) {
        match major_of(r) {
            Some(m) => only_if(m < 2, res_legacy_schema(r)),
            None => seq![res_schema_gap(r)],
        }
    } else {
        Seq::empty()
    }) + only_if(data_text(r.resource_data, "document_format"@) == Some("TEXT"@), res_text_format(r))
}

pub open spec fn sec_public(r: AwsResource) -> FindingSpec {
    finding(
        Pillar::Security,
        REASON_SEC_DOCUMENT_SHARED_PUBLICLY@,
        Severity::High,
        "SSM document "@ + r.resource_id@
            + " is shared publicly (account id 'all'); its content is readable by every AWS account"@,
        seq![
            ("shared_publicly"@, Ev::Bool(true)),
            ("shared_account_ids"@, opt_copy(r.resource_data, "shared_account_ids"@)),
        ],
    )
}

pub open spec fn sec_sharing_gap(r: AwsResource) -> FindingSpec {
    finding(
        Pillar::Security,
        REASON_SEC_SHARING_DATA_NOT_COLLECTED@,
        Severity::Low,
        "Sharing permissions for SSM document "@ + r.resource_id@
            + " are not collected yet; public exposure cannot be assessed"@,
        seq![("shared_publicly_collected"@, Ev::Bool(false))],
    )
}

pub open spec fn sec_review(r: AwsResource) -> FindingSpec {
    finding(
        Pillar::Security,
        REASON_SEC_REVIEW_NOT_APPROVED@,
        Severity::Medium,
        "SSM document "@ + r.resource_id@ + " requires review but is in status "@ + match review_of(r) {
            Some(v) => v,
            None => "unknown"@,
        } + "; only APPROVED content should be executable"@,
        seq![("review_status"@, Ev::OptText(review_of(r)))],
    )
}

pub open spec fn sec_third_party(r: AwsResource, owner: Seq<char>) -> FindingSpec {
    finding(
        Pillar::Security,
        REASON_SEC_THIRD_PARTY_OWNER@,
        Severity::Medium,
        "SSM document "@ + r.resource_id@ + " is owned by "@ + owner + " rather than account "@
            + r.account_id@ + "; third-party documents must be reviewed before execution"@,
        seq![("owner"@, Ev::Text(owner)), ("account_id"@, Ev::Text(r.account_id@))],
    )
}

pub open spec fn sec_owner_gap(r: AwsResource) -> FindingSpec {
    finding(
        Pillar::Security,
        REASON_SEC_OWNER_DATA_NOT_COLLECTED@,
        Severity::Low,
        "Owner for SSM document "@ + r.resource_id@
            + " is not collected; document provenance cannot be assessed"@,
        seq![("owner_collected"@, Ev::Bool(false))],
    )
}

/// Security: publicly shared documents (or sharing not collected), documents
/// pending or rejected in review, documents owned by another account (or
/// whose owner is not collected).
pub open spec fn security_checks(r: AwsResource) -> Seq<FindingSpec> {
    (match data_flag(r.resource_data, "shared_publicly"@) {
        Some(true) => seq![sec_public(r)],
        Some(false) => Seq::empty(),
        None => seq![sec_sharing_gap(r)],
    }) + only_if(
        review_of(r) == Some("PENDING"@) || review_of(r) == Some("REJECTED"@),
        sec_review(r),
    ) + match owner_of(r) {
        Some(o) => only_if(o != r.account_id@, sec_third_party(r, o)),
        None => seq![sec_owner_gap(r)],
    }
}

/// The pillar findings for one document; pillars without checks for this
/// service yet produce none.
pub open spec fn checks(r: AwsResource, pillar: Pillar, now: Timestamp) -> Seq<FindingSpec> {
    match pillar {
        Pillar::Cost => cost_checks(r, now),
        Pillar::Security => security_checks(r),
        Pillar::Resilience => resilience_checks(r),
        _ => Seq::empty(),
    }
}

// ---------------------------------------------------------------------------
// The evaluation.
// ---------------------------------------------------------------------------

fn evaluate_cost(resource: &AwsResource, now: &Timestamp, findings: &mut Vec<InventoryFinding>)
    ensures
        extends(old(findings)@, final(findings)@, *resource, cost_checks(*resource, *now)),
{
    let ghost r = *resource;
    let ghost start = findings@;
    let ghost mut acc: Seq<FindingSpec> = Seq::empty();
    proof {
        lemma_extends_start(start, r);
    }
    let id = resource.resource_id.as_str();
    if resource.tags.object_empty_or_absent() {
        emit(
            findings,
            resource,
            Pillar::Cost,
            REASON_COST_NO_TAGS,
            Severity::Low,
            concat3(
                "SSM document ",
                id,
                " has no tags recorded (untagged resource or tag collection gap); ownership and cleanup decisions cannot be routed",
            ),
            obj1("tags", crate::inventory::types::ev_copy(&resource.tags), Ghost(Ev::Copy(r.tags))),
            Ghost(acc),
            Ghost(start),
            Ghost(cost_no_tags(r)),
        );
        proof {
            acc = acc.push(cost_no_tags(r));
        }
    }
    let review_status = data_str(&resource.resource_data, "review_status");
    if is_text(&review_status, "NOT_REVIEWED") {
        let created = match data_str(&resource.resource_data, "created_date") {
            Some(raw) => parse_rfc3339(raw.as_str()),
            None => None,
        };
        match created {
            Some(created) => {
                let age_days_value = days_between(now, &created);
                if age_days_value > AGING_NEVER_REVIEWED_DAYS {
                    let age = i64_decimal(age_days_value);
                    emit(
                        findings,
                        resource,
                        Pillar::Cost,
                        REASON_COST_AGING_NEVER_REVIEWED,
                        Severity::Low,
                        concat5(
                            "SSM document ",
                            id,
                            " was created ",
                            age.as_str(),
                            " days ago and has never been reviewed; review or delete it to stop automation cruft from accumulating",
                        ),
                        obj3(
                            "review_status",
                            ev_text("NOT_REVIEWED"),
                            "age_days",
                            ev_i64(age_days_value),
                            "aging_threshold_days",
                            ev_i64(AGING_NEVER_REVIEWED_DAYS),
                            Ghost(Ev::Text("NOT_REVIEWED"@)),
                            Ghost(Ev::I64(age_days_value)),
                            Ghost(Ev::I64(AGING_NEVER_REVIEWED_DAYS)),
                        ),
                        Ghost(acc),
                        Ghost(start),
                        Ghost(cost_aging(r, age_days(*now, created_of(r).unwrap()))),
                    );
                    proof {
                        acc = acc.push(cost_aging(r, age_days(*now, created_of(r).unwrap())));
                    }
                }
            },
            None => {
                emit(
                    findings,
                    resource,
                    Pillar::Cost,
                    REASON_COST_CREATED_DATE_DATA_NOT_COLLECTED,
                    Severity::Low,
                    concat3(
                        "Creation date for never-reviewed SSM document ",
                        id,
                        " is not collected; aging cannot be assessed",
                    ),
                    obj1("created_date_collected", ev_bool(false), Ghost(Ev::Bool(false))),
                    Ghost(acc),
                    Ghost(start),
                    Ghost(cost_created_gap(r)),
                );
                proof {
                    acc = acc.push(cost_created_gap(r));
                }
            },
        }
    }
    assert(acc =~= cost_checks(r, *now));
}

fn evaluate_resilience(resource: &AwsResource, findings: &mut Vec<InventoryFinding>)
    ensures
        extends(old(findings)@, final(findings)@, *resource, resilience_checks(*resource)),
{
    let ghost r = *resource;
    let ghost start = findings@;
    let ghost mut acc: Seq<FindingSpec> = Seq::empty();
    proof {
        lemma_extends_start(start, r);
    }
    let id = resource.resource_id.as_str();
    let document_type = data_str(&resource.resource_data, "document_type");
    if is_text(&document_type, "Command") {
        let schema_version = data_str(&resource.resource_data, "schema_version");
        let major = match &schema_version {
            Some(v) => {
                let first = split_first(v.as_str(), '.');
                parse_u32(first.as_str())
            },
            None => None,
        };
        match major {
            Some(m) => {
                if m < 2 {
                    let shown = match &schema_version {
                        Some(v) => v.as_str(),
                        None => "unknown",
                    };
                    emit(
                        findings,
                        resource,
                        Pillar::Resilience,
                        REASON_RES_LEGACY_SCHEMA_VERSION,
                        Severity::Medium,
                        concat5(
                            "Command document ",
                            id,
                            " uses legacy schema version ",
                            shown,
                            "; migrate to schema 2.x for current execution semantics",
                        ),
                        obj2(
                            "schema_version",
                            ev_opt_text(&schema_version),
                            "document_type",
                            ev_text("Command"),
                            Ghost(Ev::OptText(schema_of(r))),
                            Ghost(Ev::Text("Command"@)),
                        ),
                        Ghost(acc),
                        Ghost(start),
                        Ghost(res_legacy_schema(r)),
                    );
                    proof {
                        acc = acc.push(res_legacy_schema(r));
                    }
                }
            },
            None => {
                emit(
                    findings,
                    resource,
                    Pillar::Resilience,
                    REASON_RES_SCHEMA_DATA_NOT_COLLECTED,
                    Severity::Low,
                    concat3(
                        "Schema version for Command document ",
                        id,
                        " is not collected or unparseable; schema currency cannot be assessed",
                    ),
                    obj1("schema_version", ev_opt_text(&schema_version), Ghost(Ev::OptText(schema_of(r)))),
                    Ghost(acc),
                    Ghost(start),
                    Ghost(res_schema_gap(r)),
                );
                proof {
                    acc = acc.push(res_schema_gap(r));
                }
            },
        }
    }
    if is_text(&data_str(&resource.resource_data, "document_format"), "TEXT") {
        emit(
            findings,
            resource,
            Pillar::Resilience,
            REASON_RES_TEXT_FORMAT_DOCUMENT,
            Severity::Low,
            concat3(
                "SSM document ",
                id,
                " is stored in TEXT format; convert to JSON or YAML for validated, reviewable content",
            ),
            obj1("document_format", ev_text("TEXT"), Ghost(Ev::Text("TEXT"@))),
            Ghost(acc),
            Ghost(start),
            Ghost(res_text_format(r)),
        );
        proof {
            acc = acc.push(res_text_format(r));
        }
    }
    assert(acc =~= resilience_checks(r));
}

fn evaluate_security(resource: &AwsResource, findings: &mut Vec<InventoryFinding>)
    ensures
        extends(old(findings)@, final(findings)@, *resource, security_checks(*resource)),
{
    let ghost r = *resource;
    let ghost start = findings@;
    let ghost mut acc: Seq<FindingSpec> = Seq::empty();
    proof {
        lemma_extends_start(start, r);
    }
    let id = resource.resource_id.as_str();
    match data_bool(&resource.resource_data, "shared_publicly") {
        Some(true) => {
            emit(
                findings,
                resource,
                Pillar::Security,
                REASON_SEC_DOCUMENT_SHARED_PUBLICLY,
                Severity::High,
                concat3(
                    "SSM document ",
                    id,
                    " is shared publicly (account id 'all'); its content is readable by every AWS account",
                ),
                obj2(
                    "shared_publicly",
                    ev_bool(true),
                    "shared_account_ids",
                    ev_opt_copy(&resource.resource_data, "shared_account_ids"),
                    Ghost(Ev::Bool(true)),
                    Ghost(opt_copy(r.resource_data, "shared_account_ids"@)),
                ),
                Ghost(acc),
                Ghost(start),
                Ghost(sec_public(r)),
            );
            proof {
                acc = acc.push(sec_public(r));
            }
        },
        Some(false) => {},
        None => {
            emit(
                findings,
                resource,
                Pillar::Security,
                REASON_SEC_SHARING_DATA_NOT_COLLECTED,
                Severity::Low,
                concat3(
                    "Sharing permissions for SSM document ",
                    id,
                    " are not collected yet; public exposure cannot be assessed",
                ),
                obj1("shared_publicly_collected", ev_bool(false), Ghost(Ev::Bool(false))),
                Ghost(acc),
                Ghost(start),
                Ghost(sec_sharing_gap(r)),
            );
            proof {
                acc = acc.push(sec_sharing_gap(r));
            }
        },
    }
    let review_status = data_str(&resource.resource_data, "review_status");
    if is_text(&review_status, "PENDING") || is_text(&review_status, "REJECTED") {
        let shown = match &review_status {
            Some(v) => v.as_str(),
            None => "unknown",
        };
        emit(
            findings,
            resource,
            Pillar::Security,
            REASON_SEC_REVIEW_NOT_APPROVED,
            Severity::Medium,
            concat5(
                "SSM document ",
                id,
                " requires review but is in status ",
                shown,
                "; only APPROVED content should be executable",
            ),
            obj1("review_status", ev_opt_text(&review_status), Ghost(Ev::OptText(review_of(r)))),
            Ghost(acc),
            Ghost(start),
            Ghost(sec_review(r)),
        );
        proof {
            acc = acc.push(sec_review(r));
        }
    }
    match data_str(&resource.resource_data, "owner") {
        Some(owner) => {
            if !str_eq(owner.as_str(), resource.account_id.as_str()) {
                let mut message = concat5(
                    "SSM document ",
                    id,
                    " is owned by ",
                    owner.as_str(),
                    " rather than account ",
                );
                message.append(resource.account_id.as_str());
                message.append("; third-party documents must be reviewed before execution");
                emit(
                    findings,
                    resource,
                    Pillar::Security,
                    REASON_SEC_THIRD_PARTY_OWNER,
                    Severity::Medium,
                    message,
                    obj2(
                        "owner",
                        ev_text(owner.as_str()),
                        "account_id",
                        ev_text(resource.account_id.as_str()),
                        Ghost(Ev::Text(owner@)),
                        Ghost(Ev::Text(r.account_id@)),
                    ),
                    Ghost(acc),
                    Ghost(start),
                    Ghost(sec_third_party(r, owner@)),
                );
                proof {
                    acc = acc.push(sec_third_party(r, owner@));
                }
            }
        },
        None => {
            emit(
                findings,
                resource,
                Pillar::Security,
                REASON_SEC_OWNER_DATA_NOT_COLLECTED,
                Severity::Low,
                concat3(
                    "Owner for SSM document ",
                    id,
                    " is not collected; document provenance cannot be assessed",
                ),
                obj1("owner_collected", ev_bool(false), Ghost(Ev::Bool(false))),
                Ghost(acc),
                Ghost(start),
                Ghost(sec_owner_gap(r)),
            );
            proof {
                acc = acc.push(sec_owner_gap(r));
            }
        },
    }
    assert(acc =~= security_checks(r));
}

/// The SSM document rules.
pub struct SsmRules;

impl InventoryRules for SsmRules {
    open spec fn covers(r: AwsResource) -> bool {
        r.resource_type@ == RESOURCE_TYPE@
    }

    open spec fn spec_stale_code() -> Seq<char> {
        REASON_INV_STALE_DATA@
    }

    open spec fn checks(&self, i: int, r: AwsResource, pillar: Pillar, now: Timestamp) -> Seq<FindingSpec> {
        checks(r, pillar, now)
    }

    fn covers_row(resource: &AwsResource) -> (b: bool) {
        str_eq(resource.resource_type.as_str(), RESOURCE_TYPE)
    }

    fn stale_code() -> (r: &'static str) {
        REASON_INV_STALE_DATA
    }

    open spec fn serves(&self, i: int) -> bool {
        true
    }

    proof fn lemma_checks_pillar(&self, i: int, r: AwsResource, pillar: Pillar, now: Timestamp) {
    }

    proof fn lemma_checks_bound(&self, i: int, r: AwsResource, pillar: Pillar, now: Timestamp) {
    }

    fn evaluate_resource(
        &self,
        i: usize,
        resource: &AwsResource,
        pillar: Pillar,
        now: &Timestamp,
        findings: &mut Vec<InventoryFinding>,
    ) {
        match pillar {
            Pillar::Cost => evaluate_cost(resource, now, findings),
            Pillar::Security => evaluate_security(resource, findings),
            Pillar::Resilience => evaluate_resilience(resource, findings),
            // Pillars without checks for this service yet produce no findings.
            _ => {
                proof {
                    lemma_extends_start(findings@, *resource);
                }
            },
        }
    }
}

/// Evaluate every SSM document in the fleet for one pillar. Rows whose
/// `resource_type` is not `SsmDocument` are skipped and not counted.
pub fn evaluate_ssm_fleet(resources: &[AwsResource], pillar: Pillar, now: Timestamp) -> (report: PillarReport)
    requires
        fleet_penalty(SsmRules, resources@, pillar, now) <= i32::MAX,
    ensures
        report_holds(SsmRules, report, resources@, pillar, now),
{
    evaluate_fleet(&SsmRules, resources, pillar, now)
}

} // verus!

//! Shared domain types for the deterministic inventory pillar evaluators:
//! pillars, severities, findings, reports, the inventory row, the stale-data
//! check, the score, and tag lookup.
use vstd::prelude::*;
use crate::json::{fields_seq, JsonFields, JsonList, JsonNumber, JsonValue, ObjectBuilder, ArrayBuilder};
use crate::text::{ascii_lower, concat5, i64_decimal, lower_eq, owned, signed_decimal, str_eq, to_ascii_lowercase};
use crate::time::{hours_between, rfc3339_text, to_rfc3339, whole_hours, Timestamp};

verus! {

/// Well-Architected pillar covered by the inventory evaluators.
#[derive(PartialEq, Eq, Structural, Clone, Copy, Debug)]
pub enum Pillar {
    Cost,
    Security,
    Resilience,
    Performance,
    Scalability,
    DisasterRecovery,
    OperationalExcellence,
}

/// The name of a pillar, as reports and APIs write it.
pub open spec fn pillar_name(p: Pillar) -> Seq<char> {
    match p {
        Pillar::Cost => "cost"@,
        Pillar::Security => "security"@,
        Pillar::Resilience => "resilience"@,
        Pillar::Performance => "performance"@,
        Pillar::Scalability => "scalability"@,
        Pillar::DisasterRecovery => "disaster-recovery"@,
        Pillar::OperationalExcellence => "operational-excellence"@,
    }
}

/// The pillar that a name stands for, ASCII case ignored; `_` may stand for
/// `-` in the two-word names.
pub open spec fn pillar_of_name(s: Seq<char>) -> Option<Pillar> {
    let l = ascii_lower(s);
    if l == "cost"@ {
        Some(Pillar::Cost)
    } else if l == "security"@ {
        Some(Pillar::Security)
    } else if l == "resilience"@ {
        Some(Pillar::Resilience)
    } else if l == "performance"@ {
        Some(Pillar::Performance)
    } else if l == "scalability"@ {
        Some(Pillar::Scalability)
    } else if l == "disaster-recovery"@ || l == "disaster_recovery"@ {
        Some(Pillar::DisasterRecovery)
    } else if l == "operational-excellence"@ || l == "operational_excellence"@ {
        Some(Pillar::OperationalExcellence)
    } else {
        None
    }
}

impl Pillar {
    pub fn as_str(&self) -> (r: &'static str)
        ensures
            r@ == pillar_name(*self),
    {
        match self {
            Pillar::Cost => "cost",
            Pillar::Security => "security",
            Pillar::Resilience => "resilience",
            Pillar::Performance => "performance",
            Pillar::Scalability => "scalability",
            Pillar::DisasterRecovery => "disaster-recovery",
            Pillar::OperationalExcellence => "operational-excellence",
        }
    }

    pub fn parse(s: &str) -> (r: Option<Pillar>)
        ensures
            r == pillar_of_name(s@),
    {
        let l = to_ascii_lowercase(s);
        let l = l.as_str();
        if str_eq(l, "cost") {
            Some(Pillar::Cost)
        } else if str_eq(l, "security") {
            Some(Pillar::Security)
        } else if str_eq(l, "resilience") {
            Some(Pillar::Resilience)
        } else if str_eq(l, "performance") {
            Some(Pillar::Performance)
        } else if str_eq(l, "scalability") {
            Some(Pillar::Scalability)
        } else if str_eq(l, "disaster-recovery") || str_eq(l, "disaster_recovery") {
            Some(Pillar::DisasterRecovery)
        } else if str_eq(l, "operational-excellence") || str_eq(l, "operational_excellence") {
            Some(Pillar::OperationalExcellence)
        } else {
            None
        }
    }
}

/// How much a finding weighs against a pillar score.
#[derive(PartialEq, Eq, Structural, Clone, Copy, Debug)]
pub enum Severity {
    High,
    Medium,
    Low,
}

/// Points subtracted from a score for one finding of this severity.
pub open spec fn penalty(s: Severity) -> int {
    match s {
        Severity::High => 15,
        Severity::Medium => 7,
        Severity::Low => 3,
    }
}

impl Severity {
    fn score_penalty(&self) -> (r: i32)
        ensures
            r == penalty(*self),
    {
        match self {
            Severity::High => 15,
            Severity::Medium => 7,
            Severity::Low => 3,
        }
    }
}

/// Inventory rows older than this many hours are treated as stale evidence.
pub const DEFAULT_STALE_AFTER_HOURS: i64 = 24;

/// Tag keys accepted as cost allocation ownership.
pub const COST_ALLOCATION_TAG_KEYS: [&'static str; 6] = [
    "owner",
    "team",
    "cost-center",
    "costcenter",
    "cost_center",
    "project",
];

/// Tag keys accepted as a routable owner.
pub const OWNER_TAG_KEYS: [&'static str; 2] = ["owner", "team"];

/// The cost allocation tag keys, as texts.
pub open spec fn cost_allocation_keys() -> Seq<Seq<char>> {
    COST_ALLOCATION_TAG_KEYS@.map_values(|s: &str| s@)
}

/// The owner tag keys, as texts.
pub open spec fn owner_keys() -> Seq<Seq<char>> {
    OWNER_TAG_KEYS@.map_values(|s: &str| s@)
}

/// One inventory row: a cloud resource as the collectors persisted it.
pub struct AwsResource {
    pub account_id: String,
    pub profile: Option<String>,
    pub region: String,
    pub resource_type: String,
    pub resource_id: String,
    pub arn: String,
    pub name: Option<String>,
    /// The tags column: an object map or an AWS-style array of key/value entries.
    pub tags: JsonValue,
    /// The normalized resource data object.
    pub resource_data: JsonValue,
    pub last_refreshed: Timestamp,
}

/// A single deterministic finding with the evidence that produced it.
pub struct InventoryFinding {
    pub resource_id: String,
    pub arn: String,
    pub pillar: Pillar,
    pub reason_code: String,
    pub severity: Severity,
    pub message: String,
    pub evidence: JsonValue,
}

/// Pillar evaluation result for one resource fleet (one account, one type).
pub struct PillarReport {
    pub pillar: Pillar,
    pub resources_evaluated: usize,
    pub stale_resources: usize,
    pub score: u8,
    pub findings: Vec<InventoryFinding>,
}

// ---------------------------------------------------------------------------
// What a finding must hold.
// ---------------------------------------------------------------------------

/// A value that the evidence of a finding holds under one of its keys.
pub enum Ev {
    Null,
    Bool(bool),
    U64(u64),
    I64(i64),
    Text(Seq<char>),
    /// An optional text: the text, or null.
    OptText(Option<Seq<char>>),
    /// An optional boolean: the boolean, or null.
    OptBool(Option<bool>),
    /// An array of texts.
    Texts(Seq<Seq<char>>),
    /// A copy of a value of the inventory row.
    Copy(JsonValue),
}

/// `v` is the JSON that serde writes for the evidence value `e`.
pub open spec fn ev_holds(v: JsonValue, e: Ev) -> bool {
    match e {
        Ev::Null => v is Null,
        Ev::Bool(b) => v == JsonValue::Bool(b),
        Ev::U64(n) => v == JsonValue::Number(JsonNumber::PosInt(n)),
        Ev::I64(n) => if n >= 0 {
            v == JsonValue::Number(JsonNumber::PosInt(n as u64))
        } else {
            v == JsonValue::Number(JsonNumber::NegInt(n))
        },
        Ev::Text(s) => v.spec_str() == Some(s),
        Ev::OptText(o) => match o {
            Some(s) => v.spec_str() == Some(s),
            None => v is Null,
        },
        Ev::OptBool(o) => match o {
            Some(b) => v == JsonValue::Bool(b),
            None => v is Null,
        },
        Ev::Texts(ss) => match v.spec_array() {
            Some(items) => items.len() == ss.len() && forall|i: int|
                0 <= i < items.len() ==> (#[trigger] items[i]).spec_str() == Some(ss[i]),
            None => false,
        },
        Ev::Copy(j) => v == j,
    }
}

/// `v` is an object whose fields are the keys of `entries`, in order, each
/// holding its evidence value.
pub open spec fn ev_object(v: JsonValue, entries: Seq<(Seq<char>, Ev)>) -> bool {
    match v {
        JsonValue::Object(f) => {
            let fs = fields_seq(*f);
            &&& fs.len() == entries.len()
            &&& forall|i: int|
                0 <= i < fs.len() ==> (#[trigger] fs[i]).0 == entries[i].0 && ev_holds(
                    fs[i].1,
                    entries[i].1,
                )
        },
        _ => false,
    }
}

/// What one finding says: its pillar, reason code, severity, message and evidence.
pub struct FindingSpec {
    pub pillar: Pillar,
    pub code: Seq<char>,
    pub severity: Severity,
    pub message: Seq<char>,
    pub evidence: Seq<(Seq<char>, Ev)>,
}

pub open spec fn finding(
    pillar: Pillar,
    code: Seq<char>,
    severity: Severity,
    message: Seq<char>,
    evidence: Seq<(Seq<char>, Ev)>,
) -> FindingSpec {
    FindingSpec { pillar, code, severity, message, evidence }
}

/// `f` is the finding `s` about the row `r`.
pub open spec fn finding_matches(f: InventoryFinding, r: AwsResource, s: FindingSpec) -> bool {
    &&& f.resource_id@ == r.resource_id@
    &&& f.arn@ == r.arn@
    &&& f.pillar == s.pillar
    &&& f.reason_code@ == s.code
    &&& f.severity == s.severity
    &&& f.message@ == s.message
    &&& ev_object(f.evidence, s.evidence)
}

/// `[s]` when `c` holds, nothing otherwise.
pub open spec fn only_if(c: bool, s: FindingSpec) -> Seq<FindingSpec> {
    if c {
        seq![s]
    } else {
        Seq::empty()
    }
}

/// Every finding of `s` is about the pillar `p`.
pub open spec fn all_about(s: Seq<FindingSpec>, p: Pillar) -> bool {
    forall|k: int| 0 <= k < s.len() ==> (#[trigger] s[k]).pillar == p
}

pub proof fn lemma_about_concat(a: Seq<FindingSpec>, b: Seq<FindingSpec>, p: Pillar)
    requires
        all_about(a, p),
        all_about(b, p),
    ensures
        all_about(a + b, p),
{
    assert forall|k: int| 0 <= k < (a + b).len() implies (#[trigger] (a + b)[k]).pillar == p by {
        if k < a.len() {
            assert((a + b)[k] == a[k]);
        } else {
            assert((a + b)[k] == b[k - a.len()]);
        }
    }
}

/// `new` is `old` followed by one finding about `r` for each of `specs`, in order.
pub open spec fn extends(
    old: Seq<InventoryFinding>,
    new: Seq<InventoryFinding>,
    r: AwsResource,
    specs: Seq<FindingSpec>,
) -> bool {
    &&& new.len() == old.len() + specs.len()
    &&& new.take(old.len() as int) == old
    &&& forall|i: int|
        0 <= i < specs.len() ==> finding_matches(new[old.len() + i], r, #[trigger] specs[i])
}

pub proof fn lemma_extends_start(old: Seq<InventoryFinding>, r: AwsResource)
    ensures
        extends(old, old, r, Seq::empty()),
{
    assert(old.take(old.len() as int) =~= old);
}

pub proof fn lemma_extends_push(
    old: Seq<InventoryFinding>,
    cur: Seq<InventoryFinding>,
    r: AwsResource,
    specs: Seq<FindingSpec>,
    f: InventoryFinding,
    s: FindingSpec,
)
    requires
        extends(old, cur, r, specs),
        finding_matches(f, r, s),
    ensures
        extends(old, cur.push(f), r, specs.push(s)),
{
    let new = cur.push(f);
    assert(new.take(old.len() as int) =~= cur.take(old.len() as int));
    assert forall|i: int| 0 <= i < specs.push(s).len() implies finding_matches(
        new[old.len() + i],
        r,
        #[trigger] specs.push(s)[i],
    ) by {
        if i < specs.len() {
            assert(specs.push(s)[i] == specs[i]);
        }
    }
}

// ---------------------------------------------------------------------------
// Building findings.
// ---------------------------------------------------------------------------

/// Appends the finding about `resource` with the given parts.
pub fn emit(
    findings: &mut Vec<InventoryFinding>,
    resource: &AwsResource,
    pillar: Pillar,
    reason_code: &str,
    severity: Severity,
    message: String,
    evidence: JsonValue,
    Ghost(acc): Ghost<Seq<FindingSpec>>,
    Ghost(start): Ghost<Seq<InventoryFinding>>,
    Ghost(s): Ghost<FindingSpec>,
)
    requires
        extends(start, old(findings)@, *resource, acc),
        s.pillar == pillar,
        s.code == reason_code@,
        s.severity == severity,
        s.message == message@,
        ev_object(evidence, s.evidence),
    ensures
        extends(start, final(findings)@, *resource, acc.push(s)),
{
    let f = InventoryFinding {
        resource_id: resource.resource_id.clone(),
        arn: resource.arn.clone(),
        pillar,
        reason_code: owned(reason_code),
        severity,
        message,
        evidence,
    };
    proof {
        lemma_extends_push(start, findings@, *resource, acc, f, s);
    }
    findings.push(f);
}

/// A JSON string holding a copy of `s`.
pub fn ev_text(s: &str) -> (r: JsonValue)
    ensures
        ev_holds(r, Ev::Text(s@)),
{
    JsonValue::Str(owned(s))
}

/// A JSON string holding the text, or null.
pub fn ev_opt_text(s: &Option<String>) -> (r: JsonValue)
    ensures
        ev_holds(
            r,
            Ev::OptText(
                match s {
                    Some(t) => Some(t@),
                    None => None,
                },
            ),
        ),
{
    match s {
        Some(t) => JsonValue::Str(t.clone()),
        None => JsonValue::Null,
    }
}

pub fn ev_opt_bool(b: Option<bool>) -> (r: JsonValue)
    ensures
        ev_holds(r, Ev::OptBool(b)),
{
    match b {
        Some(x) => JsonValue::Bool(x),
        None => JsonValue::Null,
    }
}

pub fn ev_bool(b: bool) -> (r: JsonValue)
    ensures
        ev_holds(r, Ev::Bool(b)),
{
    JsonValue::Bool(b)
}

pub fn ev_u64(n: u64) -> (r: JsonValue)
    ensures
        ev_holds(r, Ev::U64(n)),
{
    JsonValue::Number(JsonNumber::PosInt(n))
}

pub fn ev_i64(n: i64) -> (r: JsonValue)
    ensures
        ev_holds(r, Ev::I64(n)),
{
    if n >= 0 {
        JsonValue::Number(JsonNumber::PosInt(n as u64))
    } else {
        JsonValue::Number(JsonNumber::NegInt(n))
    }
}

pub fn ev_copy(v: &JsonValue) -> (r: JsonValue)
    ensures
        ev_holds(r, Ev::Copy(*v)),
{
    v.deep_clone()
}

/// The value of `key` in the row data as serde writes an `Option<&Value>`:
/// a copy of the value, or null.
pub open spec fn opt_copy(data: JsonValue, key: Seq<char>) -> Ev {
    match data.spec_get(key) {
        Some(v) => Ev::Copy(v),
        None => Ev::Null,
    }
}

pub fn ev_opt_copy(data: &JsonValue, key: &str) -> (r: JsonValue)
    ensures
        ev_holds(r, opt_copy(*data, key@)),
{
    match data.get(key) {
        Some(v) => v.deep_clone(),
        None => JsonValue::Null,
    }
}

/// An array of texts.
pub fn ev_texts(items: &[&str]) -> (r: JsonValue)
    ensures
        ev_holds(r, Ev::Texts(items@.map_values(|s: &str| s@))),
{
    let mut b = ArrayBuilder::new();
    let ghost want = items@.map_values(|s: &str| s@);
    for i in 0..items.len()
        invariant
            want == items@.map_values(|s: &str| s@),
            b.items().len() == i,
            forall|j: int| 0 <= j < i ==> (#[trigger] b.items()[j]).spec_str() == Some(want[j]),
    {
        let ghost before = b.items();
        b = b.item(ev_text(items[i]));
        assert(forall|j: int| 0 <= j < i ==> b.items()[j] == before[j]);
    }
    b.build()
}

/// A one-field evidence object.
pub fn obj1(k1: &str, v1: JsonValue, Ghost(e1): Ghost<Ev>) -> (r: JsonValue)
    requires
        ev_holds(v1, e1),
    ensures
        ev_object(r, seq![(k1@, e1)]),
{
    let r = ObjectBuilder::new().field(k1, v1).build();
    r
}

/// A two-field evidence object.
pub fn obj2(k1: &str, v1: JsonValue, k2: &str, v2: JsonValue, Ghost(e1): Ghost<Ev>, Ghost(
    e2,
): Ghost<Ev>) -> (r: JsonValue)
    requires
        ev_holds(v1, e1),
        ev_holds(v2, e2),
    ensures
        ev_object(r, seq![(k1@, e1), (k2@, e2)]),
{
    let r = ObjectBuilder::new().field(k1, v1).field(k2, v2).build();
    r
}

/// A three-field evidence object.
pub fn obj3(
    k1: &str,
    v1: JsonValue,
    k2: &str,
    v2: JsonValue,
    k3: &str,
    v3: JsonValue,
    Ghost(e1): Ghost<Ev>,
    Ghost(e2): Ghost<Ev>,
    Ghost(e3): Ghost<Ev>,
) -> (r: JsonValue)
    requires
        ev_holds(v1, e1),
        ev_holds(v2, e2),
        ev_holds(v3, e3),
    ensures
        ev_object(r, seq![(k1@, e1), (k2@, e2), (k3@, e3)]),
{
    let r = ObjectBuilder::new().field(k1, v1).field(k2, v2).field(k3, v3).build();
    r
}

/// A four-field evidence object.
pub fn obj4(
    k1: &str,
    v1: JsonValue,
    k2: &str,
    v2: JsonValue,
    k3: &str,
    v3: JsonValue,
    k4: &str,
    v4: JsonValue,
    Ghost(e1): Ghost<Ev>,
    Ghost(e2): Ghost<Ev>,
    Ghost(e3): Ghost<Ev>,
    Ghost(e4): Ghost<Ev>,
) -> (r: JsonValue)
    requires
        ev_holds(v1, e1),
        ev_holds(v2, e2),
        ev_holds(v3, e3),
        ev_holds(v4, e4),
    ensures
        ev_object(r, seq![(k1@, e1), (k2@, e2), (k3@, e3), (k4@, e4)]),
{
    let r = ObjectBuilder::new().field(k1, v1).field(k2, v2).field(k3, v3).field(k4, v4).build();
    r
}

// ---------------------------------------------------------------------------
// The score.
// ---------------------------------------------------------------------------

/// The sum of the penalties of the findings.
pub open spec fn total_penalty(fs: Seq<InventoryFinding>) -> int
    decreases fs.len(),
{
    if fs.len() == 0 {
        0
    } else {
        total_penalty(fs.drop_last()) + penalty(fs.last().severity)
    }
}

/// Deterministic score: 100 less the penalties, clamped to 0..=100.
pub open spec fn pillar_score(fs: Seq<InventoryFinding>) -> int {
    let s = 100 - total_penalty(fs);
    if s < 0 {
        0
    } else if s > 100 {
        100
    } else {
        s
    }
}

pub proof fn lemma_total_penalty_bounds(fs: Seq<InventoryFinding>)
    ensures
        3 * fs.len() <= total_penalty(fs) <= 15 * fs.len(),
    decreases fs.len(),
{
    if fs.len() > 0 {
        lemma_total_penalty_bounds(fs.drop_last());
    }
}

/// Deterministic score: start at 100, subtract a fixed penalty per finding
/// severity, clamp to 0.
pub fn score_pillar(findings: &[InventoryFinding]) -> (r: u8)
    requires
        total_penalty(findings@) <= i32::MAX,
    ensures
        r == pillar_score(findings@),
{
    let mut penalty: i32 = 0;
    for i in 0..findings.len()
        invariant
            penalty == total_penalty(findings@.take(i as int)),
            total_penalty(findings@) <= i32::MAX,
    {
        proof {
            assert(findings@.take(i + 1).drop_last() =~= findings@.take(i as int));
            lemma_total_penalty_prefix(findings@, i + 1);
            lemma_total_penalty_bounds(findings@.take(i + 1));
        }
        penalty = penalty + findings[i].severity.score_penalty();
    }
    assert(findings@.take(findings@.len() as int) =~= findings@);
    proof {
        lemma_total_penalty_bounds(findings@);
    }
    let s: i32 = 100 - penalty;
    if s < 0 {
        0
    } else if s > 100 {
        100
    } else {
        s as u8
    }
}

/// A prefix never weighs more than the whole.
pub proof fn lemma_total_penalty_prefix(fs: Seq<InventoryFinding>, n: int)
    requires
        0 <= n <= fs.len(),
    ensures
        total_penalty(fs.take(n)) <= total_penalty(fs),
    decreases fs.len() - n,
{
    if n < fs.len() {
        lemma_total_penalty_prefix(fs, n + 1);
        assert(fs.take(n + 1).drop_last() =~= fs.take(n));
    } else {
        assert(fs.take(n) =~= fs);
    }
}

// ---------------------------------------------------------------------------
// Stale inventory.
// ---------------------------------------------------------------------------

/// The row's data is older than the stale threshold at `now`.
pub open spec fn is_stale(r: AwsResource, now: Timestamp) -> bool {
    whole_hours(now, r.last_refreshed) > DEFAULT_STALE_AFTER_HOURS
}

/// The stale-data finding for the row at `now`.
pub open spec fn stale_finding(r: AwsResource, pillar: Pillar, code: Seq<char>, now: Timestamp) -> FindingSpec {
    let age = whole_hours(now, r.last_refreshed);
    finding(
        pillar,
        code,
        Severity::Medium,
        "Inventory data for "@ + r.resource_id@ + " is "@ + signed_decimal(age)
            + " hours old (threshold 24 hours); pillar evaluation may not reflect current state"@,
        seq![
            ("last_refreshed"@, Ev::Text(rfc3339_text(r.last_refreshed.spec_secs(), r.last_refreshed.spec_nanos()))),
            ("age_hours"@, Ev::I64(age as i64)),
            ("stale_after_hours"@, Ev::I64(DEFAULT_STALE_AFTER_HOURS)),
        ],
    )
}

/// Stale-data failure path shared by every evaluator. `reason_code` is the
/// service-specific stale code (e.g. `EC2_INV_STALE_DATA`).
pub fn check_stale(
    resource: &AwsResource,
    pillar: Pillar,
    reason_code: &str,
    now: &Timestamp,
) -> (r: Option<InventoryFinding>)
    ensures
        r is Some <==> is_stale(*resource, *now),
        r matches Some(f) ==> finding_matches(
            f,
            *resource,
            stale_finding(*resource, pillar, reason_code@, *now),
        ),
{
    let age_hours = hours_between(now, &resource.last_refreshed);
    if age_hours <= DEFAULT_STALE_AFTER_HOURS {
        return None;
    }
    let age = i64_decimal(age_hours);
    let mut message = concat5(
        "Inventory data for ",
        resource.resource_id.as_str(),
        " is ",
        age.as_str(),
        " hours old (threshold 24 hours); pillar evaluation may not reflect current state",
    );
    let refreshed = to_rfc3339(&resource.last_refreshed);
    let evidence = obj3(
        "last_refreshed",
        JsonValue::Str(refreshed),
        "age_hours",
        ev_i64(age_hours),
        "stale_after_hours",
        ev_i64(DEFAULT_STALE_AFTER_HOURS),
        Ghost(Ev::Text(rfc3339_text(resource.last_refreshed.spec_secs(), resource.last_refreshed.spec_nanos()))),
        Ghost(Ev::I64(age_hours)),
        Ghost(Ev::I64(DEFAULT_STALE_AFTER_HOURS)),
    );
    Some(
        InventoryFinding {
            resource_id: resource.resource_id.clone(),
            arn: resource.arn.clone(),
            pillar,
            reason_code: owned(reason_code),
            severity: Severity::Medium,
            message,
            evidence,
        },
    )
}

// ---------------------------------------------------------------------------
// Reading the row.
// ---------------------------------------------------------------------------

/// The text under `key` in the resource data, when it is a string.
pub open spec fn data_text(data: JsonValue, key: Seq<char>) -> Option<Seq<char>> {
    match data.spec_get(key) {
        Some(v) => v.spec_str(),
        None => None,
    }
}

/// The boolean under `key` in the resource data.
pub open spec fn data_flag(data: JsonValue, key: Seq<char>) -> Option<bool> {
    match data.spec_get(key) {
        Some(v) => v.spec_bool(),
        None => None,
    }
}

/// The non-negative integer under `key` in the resource data.
pub open spec fn data_count(data: JsonValue, key: Seq<char>) -> Option<u64> {
    match data.spec_get(key) {
        Some(v) => v.spec_u64(),
        None => None,
    }
}

/// The integer under `key` in the resource data, when it fits in `i64`.
pub open spec fn data_int(data: JsonValue, key: Seq<char>) -> Option<i64> {
    match data.spec_get(key) {
        Some(v) => v.spec_i64(),
        None => None,
    }
}

/// Read a string field from the normalized `resource_data` JSON object.
pub fn data_str(resource_data: &JsonValue, key: &str) -> (r: Option<String>)
    ensures
        r is Some <==> data_text(*resource_data, key@) is Some,
        r matches Some(s) ==> s@ == data_text(*resource_data, key@).unwrap(),
{
    match resource_data.get(key) {
        Some(v) => match v.as_str() {
            Some(s) => Some(s.clone()),
            None => None,
        },
        None => None,
    }
}

/// Read a boolean field from the normalized `resource_data` JSON object.
pub fn data_bool(resource_data: &JsonValue, key: &str) -> (r: Option<bool>)
    ensures
        r == data_flag(*resource_data, key@),
{
    match resource_data.get(key) {
        Some(v) => v.as_bool(),
        None => None,
    }
}

/// Read a non-negative integer field from the normalized `resource_data` JSON object.
pub fn data_u64(resource_data: &JsonValue, key: &str) -> (r: Option<u64>)
    ensures
        r == data_count(*resource_data, key@),
{
    match resource_data.get(key) {
        Some(v) => v.as_u64(),
        None => None,
    }
}

/// Read an integer field from the normalized `resource_data` JSON object.
pub fn data_i64(resource_data: &JsonValue, key: &str) -> (r: Option<i64>)
    ensures
        r == data_int(*resource_data, key@),
{
    match resource_data.get(key) {
        Some(v) => v.as_i64(),
        None => None,
    }
}

/// The optional text as a sequence of characters.
pub open spec fn opt_view(o: Option<String>) -> Option<Seq<char>> {
    match o {
        Some(s) => Some(s@),
        None => None,
    }
}

/// The text is present and equal to `lit`.
pub fn is_text(o: &Option<String>, lit: &str) -> (r: bool)
    ensures
        r == (opt_view(*o) == Some(lit@)),
{
    match o {
        Some(s) => str_eq(s.as_str(), lit),
        None => false,
    }
}

// ---------------------------------------------------------------------------
// Tags.
// ---------------------------------------------------------------------------

/// Object shape: the value of the first key equal to `wanted` once
/// lower-cased, only_if that value is a string.
pub open spec fn map_tag(f: JsonFields, wanted: Seq<char>) -> Option<Seq<char>>
    decreases f,
{
    match f {
        JsonFields::Nil => None,
        JsonFields::Cons(k, v, rest) => if ascii_lower(k@) == wanted {
            v.spec_str()
        } else {
            map_tag(*rest, wanted)
        },
    }
}

/// The text under `Key` (or, only_if there is none, under `key`) of an entry.
pub open spec fn entry_text(e: JsonValue, upper: Seq<char>, lower: Seq<char>) -> Option<Seq<char>> {
    match e.spec_get(upper) {
        Some(v) => v.spec_str(),
        None => match e.spec_get(lower) {
            Some(v) => v.spec_str(),
            None => None,
        },
    }
}

/// What one array entry says of the wanted key: its value, if its key matches.
pub open spec fn entry_tag(e: JsonValue, wanted: Seq<char>) -> Option<Seq<char>> {
    match entry_text(e, "Key"@, "key"@) {
        Some(k) => if ascii_lower(k) == wanted {
            entry_text(e, "Value"@, "value"@)
        } else {
            None
        },
        None => None,
    }
}

/// Array shape: the first entry that names the wanted key and has a value.
pub open spec fn list_tag(l: JsonList, wanted: Seq<char>) -> Option<Seq<char>>
    decreases l,
{
    match l {
        JsonList::Nil => None,
        JsonList::Cons(e, rest) => match entry_tag(*e, wanted) {
            Some(v) => Some(v),
            None => list_tag(*rest, wanted),
        },
    }
}

/// Look up a tag value in either shape; keys are compared without regard to ASCII case.
pub open spec fn tag_of(tags: JsonValue, key: Seq<char>) -> Option<Seq<char>> {
    let wanted = ascii_lower(key);
    match tags {
        JsonValue::Object(f) => map_tag(*f, wanted),
        JsonValue::Array(l) => list_tag(*l, wanted),
        _ => None,
    }
}

/// Some key of `keys` has a tag value.
pub open spec fn has_tag(tags: JsonValue, keys: Seq<Seq<char>>) -> bool {
    exists|i: int| 0 <= i < keys.len() && (#[trigger] tag_of(tags, keys[i])) is Some
}

fn lookup_map_tag(f: &JsonFields, wanted: &str) -> (r: Option<String>)
    ensures
        opt_view(r) == map_tag(*f, wanted@),
    decreases f,
{
    match f {
        JsonFields::Nil => None,
        JsonFields::Cons(k, v, rest) => {
            if lower_eq(k.as_str(), wanted) {
                match (&**v).as_str() {
                    Some(s) => Some(s.clone()),
                    None => None,
                }
            } else {
                lookup_map_tag(&**rest, wanted)
            }
        },
    }
}

fn entry_field_text(e: &JsonValue, upper: &str, lower: &str) -> (r: Option<String>)
    ensures
        opt_view(r) == entry_text(*e, upper@, lower@),
{
    let found = match e.get(upper) {
        Some(v) => Some(v),
        None => e.get(lower),
    };
    match found {
        Some(v) => match v.as_str() {
            Some(s) => Some(s.clone()),
            None => None,
        },
        None => None,
    }
}

fn lookup_list_tag(l: &JsonList, wanted: &str) -> (r: Option<String>)
    ensures
        opt_view(r) == list_tag(*l, wanted@),
    decreases l,
{
    match l {
        JsonList::Nil => None,
        JsonList::Cons(e, rest) => {
            let e: &JsonValue = &**e;
            let here = match entry_field_text(e, "Key", "key") {
                Some(k) => {
                    if lower_eq(k.as_str(), wanted) {
                        entry_field_text(e, "Value", "value")
                    } else {
                        None
                    }
                },
                None => None,
            };
            match here {
                Some(v) => Some(v),
                None => lookup_list_tag(&**rest, wanted),
            }
        },
    }
}

/// Look up a tag value. Supports both shapes that collectors persist:
/// an object map `{"Owner": "x"}` and an AWS-style array
/// `[{"Key": "Owner", "Value": "x"}]` (or lowercase `key`/`value`).
/// Tag key comparison is case-insensitive.
pub fn tag_value(tags: &JsonValue, key: &str) -> (r: Option<String>)
    ensures
        opt_view(r) == tag_of(*tags, key@),
{
    let wanted = to_ascii_lowercase(key);
    match tags {
        JsonValue::Object(f) => lookup_map_tag(&**f, wanted.as_str()),
        JsonValue::Array(l) => lookup_list_tag(&**l, wanted.as_str()),
        _ => None,
    }
}

/// Some key of `keys` carries a tag value.
pub fn has_any_tag(tags: &JsonValue, keys: &[&str]) -> (r: bool)
    ensures
        r == has_tag(*tags, keys@.map_values(|s: &str| s@)),
{
    let ghost ks = keys@.map_values(|s: &str| s@);
    for i in 0..keys.len()
        invariant
            ks == keys@.map_values(|s: &str| s@),
            forall|j: int| 0 <= j < i ==> (#[trigger] tag_of(*tags, ks[j])) is None,
    {
        if tag_value(tags, keys[i]).is_some() {
            assert(tag_of(*tags, ks[i as int]) is Some);
            return true;
        }
    }
    false
}

} // verus!

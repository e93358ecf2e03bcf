//! Cost categories: the rules that put a cost item in a category, the
//! predefined categories, tag-based categories, and the periods over which
//! category trends are taken.
use vstd::prelude::*;
use crate::json::JsonValue;
use crate::text::{
    before_char, chars_of, concat2, contains_str, contains_text, ends_with, has_prefix, has_suffix, i64_decimal,
    owned, signed_decimal, starts_with, str_eq, to_lowercase, unicode_lower,
};
use crate::time::{now, Timestamp};

verus! {

/// A named group of cost items, given by rules: an item belongs to the
/// category when any rule matches it.
pub struct CostCategory {
    pub id: String,
    pub name: String,
    pub description: Option<String>,
    pub rules: Vec<CostCategoryRule>,
    pub created_at: Timestamp,
    pub updated_at: Timestamp,
}

/// One rule: which field of a cost item it reads, how it compares it, and
/// with what.
pub struct CostCategoryRule {
    pub rule_type: CostCategoryRuleType,
    pub field: String,
    pub operator: CostCategoryOperator,
    pub value: String,
}

#[derive(Debug, Clone, Copy, PartialEq, Eq, Structural)]
pub enum CostCategoryRuleType {
    Tag,
    Service,
    ResourceType,
    Region,
    InstanceType,
}

#[derive(Debug, Clone, Copy, PartialEq, Eq, Structural)]
pub enum CostCategoryOperator {
    Equals,
    Contains,
    StartsWith,
    EndsWith,
    Regex,
}

/// What the rules read of a cost record: its service, its region, and its
/// tags.
pub struct CostItem {
    pub service_name: String,
    pub region: Option<String>,
    pub tags: Option<JsonValue>,
}

// ---------------------------------------------------------------------------
// Matching.
// ---------------------------------------------------------------------------

/// The text that the tags hold under `key`.
pub open spec fn tag_text(tags: Option<JsonValue>, key: Seq<char>) -> Option<Seq<char>> {
    match tags {
        Some(t) => match t.spec_get(key) {
            Some(v) => v.spec_str(),
            None => None,
        },
        None => None,
    }
}

/// The value a rule reads from an item: the service name for service and
/// resource-type rules, the region, the `instance_type` tag, or the tag the
/// rule names.
pub open spec fn field_value(item: CostItem, rule: CostCategoryRule) -> Option<Seq<char>> {
    match rule.rule_type {
        CostCategoryRuleType::Service => Some(item.service_name@),
        CostCategoryRuleType::ResourceType => Some(item.service_name@),
        CostCategoryRuleType::Region => match item.region {
            Some(r) => Some(r@),
            None => None,
        },
        CostCategoryRuleType::InstanceType => tag_text(item.tags, "instance_type"@),
        CostCategoryRuleType::Tag => tag_text(item.tags, rule.field@),
    }
}

/// Some `|`-separated piece of `pattern` occurs in `value`.
pub open spec fn some_piece_in(value: Seq<char>, pattern: Seq<char>) -> bool
    decreases pattern.len(),
{
    let first = before_char(pattern, '|');
    contains_text(value, first) || (first.len() < pattern.len() && some_piece_in(
        value,
        pattern.skip(first.len() as int + 1),
    ))
}

/// The operator holds between the item's value and the rule's.
pub open spec fn operator_holds(op: CostCategoryOperator, value: Seq<char>, pattern: Seq<char>) -> bool {
    match op {
        CostCategoryOperator::Equals => value == pattern,
        CostCategoryOperator::Contains => contains_text(value, pattern),
        CostCategoryOperator::StartsWith => has_prefix(value, pattern),
        CostCategoryOperator::EndsWith => has_suffix(value, pattern),
        CostCategoryOperator::Regex => some_piece_in(value, pattern),
    }
}

/// The rule matches the item: it reads a value, and its operator holds.
pub open spec fn rule_matches(item: CostItem, rule: CostCategoryRule) -> bool {
    match field_value(item, rule) {
        Some(v) => operator_holds(rule.operator, v, rule.value@),
        None => false,
    }
}

/// The item belongs to the category: some rule matches it.
pub open spec fn category_matches(item: CostItem, rules: Seq<CostCategoryRule>) -> bool {
    exists|i: int| 0 <= i < rules.len() && rule_matches(item, #[trigger] rules[i])
}

/// The index of the first `c` at or after `i` in `x`, or its length.
fn next_index_of(x: &Vec<char>, i: usize, c: char) -> (j: usize)
    requires
        i <= x@.len(),
    ensures
        i <= j <= x@.len(),
        before_char(x@.skip(i as int), c) == x@.subrange(i as int, j as int),
        j < x@.len() ==> x@[j as int] == c,
{
    let mut j = i;
    assert(x@.subrange(i as int, i as int) + before_char(x@.skip(i as int), c) =~= before_char(
        x@.skip(i as int),
        c,
    ));
    while j < x.len()
        invariant
            i <= j <= x@.len(),
            x@.subrange(i as int, j as int) + before_char(x@.skip(j as int), c) == before_char(
                x@.skip(i as int),
                c,
            ),
        decreases x@.len() - j,
    {
        if x[j] == c {
            assert(before_char(x@.skip(j as int), c) =~= Seq::<char>::empty());
            assert(x@.subrange(i as int, j as int) =~= before_char(x@.skip(i as int), c));
            return j;
        }
        assert(x@.skip(j as int).drop_first() =~= x@.skip(j + 1));
        assert(x@.subrange(i as int, j + 1) =~= x@.subrange(i as int, j as int).push(x@[j as int]));
        j = j + 1;
    }
    assert(x@.skip(j as int) =~= Seq::<char>::empty());
    assert(x@.subrange(i as int, j as int) =~= before_char(x@.skip(i as int), c));
    j
}

/// The characters `x[i..j]` as a string.
fn text_of(x: &Vec<char>, i: usize, j: usize) -> (r: String)
    requires
        i <= j <= x@.len(),
    ensures
        r@ == x@.subrange(i as int, j as int),
{
    let mut r = String::new();
    let mut k = i;
    while k < j
        invariant
            i <= k <= j <= x@.len(),
            r@ == x@.subrange(i as int, k as int),
        decreases j - k,
    {
        r.push(x[k]);
        assert(r@ =~= x@.subrange(i as int, k + 1));
        k = k + 1;
    }
    r
}

/// Some `|`-separated piece of `pattern` occurs in `value`.
fn any_piece_in(value: &str, pattern: &str) -> (r: bool)
    ensures
        r == some_piece_in(value@, pattern@),
{
    let x = chars_of(pattern);
    let mut i: usize = 0;
    assert(pattern@.skip(0) =~= pattern@);
    loop
        invariant
            x@ == pattern@,
            i <= x@.len(),
            some_piece_in(value@, pattern@) == some_piece_in(value@, pattern@.skip(i as int)),
        decreases x@.len() - i,
    {
        let j = next_index_of(&x, i, '|');
        let piece = text_of(&x, i, j);
        if contains_str(value, piece.as_str()) {
            return true;
        }
        if j == x.len() {
            return false;
        }
        assert(pattern@.skip(i as int).skip(j - i + 1) =~= pattern@.skip(j + 1));
        i = j + 1;
    }
}

fn tag_lookup(tags: &Option<JsonValue>, key: &str) -> (r: Option<String>)
    ensures
        match r {
            Some(s) => tag_text(*tags, key@) == Some(s@),
            None => tag_text(*tags, key@) is None,
        },
{
    match tags {
        Some(t) => match t.get(key) {
            Some(v) => match v.as_str() {
                Some(s) => Some(s.clone()),
                None => None,
            },
            None => None,
        },
        None => None,
    }
}

/// The rule matches the cost item.
pub fn matches_rule(cost_item: &CostItem, rule: &CostCategoryRule) -> (r: bool)
    ensures
        r == rule_matches(*cost_item, *rule),
{
    let field_value = match rule.rule_type {
        CostCategoryRuleType::Service => Some(cost_item.service_name.clone()),
        CostCategoryRuleType::Region => match &cost_item.region {
            Some(r) => Some(r.clone()),
            None => None,
        },
        // The instance type comes from the tags, when they hold it.
        CostCategoryRuleType::InstanceType => tag_lookup(&cost_item.tags, "instance_type"),
        // Resource types are matched by service name patterns.
        CostCategoryRuleType::ResourceType => Some(cost_item.service_name.clone()),
        CostCategoryRuleType::Tag => tag_lookup(&cost_item.tags, rule.field.as_str()),
    };
    match field_value {
        Some(value) => {
            let v = value.as_str();
            let p = rule.value.as_str();
            match rule.operator {
                CostCategoryOperator::Equals => str_eq(v, p),
                CostCategoryOperator::Contains => contains_str(v, p),
                CostCategoryOperator::StartsWith => starts_with(v, p),
                CostCategoryOperator::EndsWith => ends_with(v, p),
                // Alternatives separated by '|', each matched as a substring.
                CostCategoryOperator::Regex => any_piece_in(v, p),
            }
        },
        None => false,
    }
}

/// The cost item belongs to the category: some rule matches it.
pub fn matches_category(cost_item: &CostItem, category: &CostCategory) -> (r: bool)
    ensures
        r == category_matches(*cost_item, category.rules@),
{
    for i in 0..category.rules.len()
        invariant
            forall|k: int| 0 <= k < i ==> !rule_matches(*cost_item, #[trigger] category.rules@[k]),
    {
        if matches_rule(cost_item, &category.rules[i]) {
            return true;
        }
    }
    false
}

/// The indices of the items that belong to the category, in order.
pub fn category_members(cost_items: &[CostItem], category: &CostCategory) -> (r: Vec<usize>)
    ensures
        forall|k: int| 0 <= k < r@.len() ==> #[trigger] r@[k] < cost_items@.len(),
        forall|k: int, l: int| 0 <= k < l < r@.len() ==> r@[k] < r@[l],
        forall|i: int|
            0 <= i < cost_items@.len() ==> (category_matches(#[trigger] cost_items@[i], category.rules@) <==> r@.contains(
                i as usize,
            )),
{
    let mut r: Vec<usize> = Vec::new();
    for i in 0..cost_items.len()
        invariant
            forall|k: int| 0 <= k < r@.len() ==> #[trigger] r@[k] < i,
            forall|k: int, l: int| 0 <= k < l < r@.len() ==> r@[k] < r@[l],
            forall|j: int|
                0 <= j < i ==> (category_matches(#[trigger] cost_items@[j], category.rules@) <==> r@.contains(
                    j as usize,
                )),
    {
        let ghost before = r@;
        if matches_category(&cost_items[i], category) {
            r.push(i);
            assert(r@[r@.len() - 1] == i);
        }
        assert forall|j: int| 0 <= j < i + 1 implies (category_matches(
            #[trigger] cost_items@[j],
            category.rules@,
        ) <==> r@.contains(j as usize)) by {
            if j < i {
                if before.contains(j as usize) {
                    let k = choose|k: int| 0 <= k < before.len() && before[k] == j as usize;
                    assert(r@[k] == j as usize);
                }
                if r@.contains(j as usize) {
                    let k = choose|k: int| 0 <= k < r@.len() && r@[k] == j as usize;
                    if k < before.len() {
                        assert(before[k] == j as usize);
                    }
                }
            } else {
                if r@.contains(j as usize) {
                    let k = choose|k: int| 0 <= k < r@.len() && r@[k] == j as usize;
                    if k < before.len() {
                        assert(before[k] < i);
                    }
                }
            }
        }
    }
    r
}

// ---------------------------------------------------------------------------
// Predefined and tag-based categories.
// ---------------------------------------------------------------------------

/// A rule as plain values: its type, field, operator and value.
pub open spec fn rule_view(r: CostCategoryRule) -> (CostCategoryRuleType, Seq<char>, CostCategoryOperator, Seq<char>) {
    (r.rule_type, r.field@, r.operator, r.value@)
}

/// A category as plain values: its id, name, description and rules.
pub open spec fn category_view(c: CostCategory) -> (
    Seq<char>,
    Seq<char>,
    Option<Seq<char>>,
    Seq<(CostCategoryRuleType, Seq<char>, CostCategoryOperator, Seq<char>)>,
) {
    (
        c.id@,
        c.name@,
        match c.description {
            Some(d) => Some(d@),
            None => None,
        },
        c.rules@.map_values(|r: CostCategoryRule| rule_view(r)),
    )
}

/// A rule on the service name.
pub open spec fn service_rule(op: CostCategoryOperator, value: Seq<char>) -> (
    CostCategoryRuleType,
    Seq<char>,
    CostCategoryOperator,
    Seq<char>,
) {
    (CostCategoryRuleType::Service, "service_name"@, op, value)
}

/// The predefined categories: compute, storage, database and networking.
pub open spec fn default_categories() -> Seq<
    (Seq<char>, Seq<char>, Option<Seq<char>>, Seq<(CostCategoryRuleType, Seq<char>, CostCategoryOperator, Seq<char>)>),
> {
    seq![
        (
            "compute"@,
            "Compute Resources"@,
            Some("EC2 instances, Lambda functions, and other compute resources"@),
            seq![
                service_rule(CostCategoryOperator::Equals, "Amazon Elastic Compute Cloud - Compute"@),
                service_rule(CostCategoryOperator::Equals, "AWS Lambda"@),
            ],
        ),
        (
            "storage"@,
            "Storage Resources"@,
            Some("S3, EBS, RDS storage, and other storage services"@),
            seq![
                service_rule(CostCategoryOperator::Contains, "Storage"@),
                service_rule(CostCategoryOperator::Equals, "Amazon Simple Storage Service"@),
            ],
        ),
        (
            "database"@,
            "Database Services"@,
            Some("RDS, DynamoDB, and other database services"@),
            seq![
                service_rule(CostCategoryOperator::Contains, "Database"@),
                service_rule(CostCategoryOperator::Equals, "Amazon Relational Database Service"@),
                service_rule(CostCategoryOperator::Equals, "Amazon DynamoDB"@),
            ],
        ),
        (
            "networking"@,
            "Networking"@,
            Some("VPC, CloudFront, Route 53, and other networking services"@),
            seq![
                service_rule(CostCategoryOperator::Contains, "CloudFront"@),
                service_rule(CostCategoryOperator::Contains, "Route 53"@),
                service_rule(CostCategoryOperator::Contains, "VPC"@),
            ],
        ),
    ]
}

fn service_rule_of(op: CostCategoryOperator, value: &str) -> (r: CostCategoryRule)
    ensures
        rule_view(r) == service_rule(op, value@),
{
    CostCategoryRule { rule_type: CostCategoryRuleType::Service, field: owned("service_name"), operator: op, value: owned(value) }
}

fn category_of(id: &str, name: &str, description: &str, rules: Vec<CostCategoryRule>) -> (r: CostCategory)
    ensures
        category_view(r) == (id@, name@, Some(description@), rules@.map_values(|x: CostCategoryRule| rule_view(x))),
{
    CostCategory {
        id: owned(id),
        name: owned(name),
        description: Some(owned(description)),
        rules,
        created_at: now(),
        updated_at: now(),
    }
}

/// Create the predefined cost categories for common use cases, stamped with
/// the current time.
pub fn create_default_categories() -> (r: Vec<CostCategory>)
    ensures
        r@.map_values(|c: CostCategory| category_view(c)) == default_categories(),
{
    let compute_rules = vec![
        service_rule_of(CostCategoryOperator::Equals, "Amazon Elastic Compute Cloud - Compute"),
        service_rule_of(CostCategoryOperator::Equals, "AWS Lambda"),
    ];
    assert(compute_rules@.map_values(|x: CostCategoryRule| rule_view(x)) =~= seq![
        service_rule(CostCategoryOperator::Equals, "Amazon Elastic Compute Cloud - Compute"@),
        service_rule(CostCategoryOperator::Equals, "AWS Lambda"@),
    ]);
    let compute = category_of("compute", "Compute Resources", "EC2 instances, Lambda functions, and other compute resources", compute_rules);
    let storage_rules = vec![
        service_rule_of(CostCategoryOperator::Contains, "Storage"),
        service_rule_of(CostCategoryOperator::Equals, "Amazon Simple Storage Service"),
    ];
    assert(storage_rules@.map_values(|x: CostCategoryRule| rule_view(x)) =~= seq![
        service_rule(CostCategoryOperator::Contains, "Storage"@),
        service_rule(CostCategoryOperator::Equals, "Amazon Simple Storage Service"@),
    ]);
    let storage = category_of("storage", "Storage Resources", "S3, EBS, RDS storage, and other storage services", storage_rules);
    let database_rules = vec![
        service_rule_of(CostCategoryOperator::Contains, "Database"),
        service_rule_of(CostCategoryOperator::Equals, "Amazon Relational Database Service"),
        service_rule_of(CostCategoryOperator::Equals, "Amazon DynamoDB"),
    ];
    assert(database_rules@.map_values(|x: CostCategoryRule| rule_view(x)) =~= seq![
        service_rule(CostCategoryOperator::Contains, "Database"@),
        service_rule(CostCategoryOperator::Equals, "Amazon Relational Database Service"@),
        service_rule(CostCategoryOperator::Equals, "Amazon DynamoDB"@),
    ]);
    let database = category_of("database", "Database Services", "RDS, DynamoDB, and other database services", database_rules);
    let networking_rules = vec![
        service_rule_of(CostCategoryOperator::Contains, "CloudFront"),
        service_rule_of(CostCategoryOperator::Contains, "Route 53"),
        service_rule_of(CostCategoryOperator::Contains, "VPC"),
    ];
    assert(networking_rules@.map_values(|x: CostCategoryRule| rule_view(x)) =~= seq![
        service_rule(CostCategoryOperator::Contains, "CloudFront"@),
        service_rule(CostCategoryOperator::Contains, "Route 53"@),
        service_rule(CostCategoryOperator::Contains, "VPC"@),
    ]);
    let networking = category_of("networking", "Networking", "VPC, CloudFront, Route 53, and other networking services", networking_rules);
    let r = vec![compute, storage, database, networking];
    assert(r@.map_values(|c: CostCategory| category_view(c)) =~= default_categories());
    r
}

/// The tag-based category: one equality rule per tag value on the tag
/// `tag_key`, with the id `custom-<lower-cased key>-<id_secs>`.
pub fn build_tag_based_category(
    tag_key: &str,
    lowered_key: &str,
    tag_values: &[String],
    category_name: &str,
    description: Option<String>,
    id_secs: i64,
    created_at: Timestamp,
    updated_at: Timestamp,
) -> (r: CostCategory)
    ensures
        r.id@ == "custom-"@ + lowered_key@ + "-"@ + signed_decimal(id_secs as int),
        r.name@ == category_name@,
        r.description == description,
        r.rules@.map_values(|x: CostCategoryRule| rule_view(x)) == tag_values@.map_values(
            |v: String| (CostCategoryRuleType::Tag, tag_key@, CostCategoryOperator::Equals, v@),
        ),
        r.created_at == created_at,
        r.updated_at == updated_at,
{
    let mut rules: Vec<CostCategoryRule> = Vec::new();
    for i in 0..tag_values.len()
        invariant
            rules@.len() == i,
            forall|j: int|
                0 <= j < i ==> rule_view(#[trigger] rules@[j]) == (
                    CostCategoryRuleType::Tag,
                    tag_key@,
                    CostCategoryOperator::Equals,
                    tag_values@[j]@,
                ),
    {
        rules.push(
            CostCategoryRule {
                rule_type: CostCategoryRuleType::Tag,
                field: owned(tag_key),
                operator: CostCategoryOperator::Equals,
                value: tag_values[i].clone(),
            },
        );
    }
    assert(rules@.map_values(|x: CostCategoryRule| rule_view(x)) =~= tag_values@.map_values(
        |v: String| (CostCategoryRuleType::Tag, tag_key@, CostCategoryOperator::Equals, v@),
    ));
    let mut id = concat2("custom-", lowered_key);
    id.append("-");
    id.append(i64_decimal(id_secs).as_str());
    CostCategory { id, name: owned(category_name), description, rules, created_at, updated_at }
}

/// Create a custom category from tag values: one equality rule per value on
/// the tag `tag_key`. Its id is `custom-<key, lower-cased>-<Unix seconds of
/// the clock>`; it is stamped with the current time.
pub fn create_tag_based_category(
    tag_key: &str,
    tag_values: &[String],
    category_name: &str,
    description: Option<String>,
) -> (r: CostCategory)
    ensures
        exists|t: i64| r.id@ == "custom-"@ + unicode_lower(tag_key@) + "-"@ + signed_decimal(t as int),
        r.name@ == category_name@,
        r.description == description,
        r.rules@.map_values(|x: CostCategoryRule| rule_view(x)) == tag_values@.map_values(
            |v: String| (CostCategoryRuleType::Tag, tag_key@, CostCategoryOperator::Equals, v@),
        ),
{
    let lowered = to_lowercase(tag_key);
    let id_time = now();
    let secs = id_time.secs();
    let created_at = now();
    let updated_at = now();
    let r = build_tag_based_category(
        tag_key,
        lowered.as_str(),
        tag_values,
        category_name,
        description,
        secs,
        created_at,
        updated_at,
    );
    assert(r.id@ == "custom-"@ + unicode_lower(tag_key@) + "-"@ + signed_decimal(secs as int));
    r
}

// ---------------------------------------------------------------------------
// Trend periods.
// ---------------------------------------------------------------------------

/// The first and last day (counted from the Common Era, as chrono's
/// `num_days_from_ce` counts them) of the dates chrono can hold.
pub const MIN_CE_DAY: i32 = -95_746_129;
pub const MAX_CE_DAY: i32 = 95_745_399;

/// The periods of a trend over the days `start..=end`, `g` days each (the
/// last one cut at `end`), each as its first and last day.
pub open spec fn trend_periods(start: int, end: int, g: int) -> Seq<(int, int)>
    decreases end + 1 - start,
    when g >= 1
{
    if start > end {
        Seq::empty()
    } else {
        let period_end = if start + g < end + 1 {
            start + g
        } else {
            end + 1
        };
        seq![(start, period_end - 1)] + trend_periods(period_end, end, g)
    }
}

/// The first day of the last period of a trend that starts at `start`.
pub open spec fn last_period_start(start: int, end: int, g: int) -> int {
    start + g * ((end - start) / g)
}

/// Day arithmetic stays within the dates chrono can hold: the day after
/// `end`, and `g` days after the start of each period.
pub open spec fn periods_in_range(start: int, end: int, g: int) -> bool {
    start > end || (end < MAX_CE_DAY && last_period_start(start, end, g) + g <= MAX_CE_DAY)
}

proof fn lemma_period_start_bound(start: int, end: int, g: int, k: int)
    requires
        g >= 1,
        k >= 0,
        start + k * g <= end,
    ensures
        start + k * g <= last_period_start(start, end, g),
{
    let q = (end - start) / g;
    assert(k * g <= end - start);
    assert(k <= q) by (nonlinear_arith)
        requires
            g >= 1,
            k * g <= end - start,
            q == (end - start) / g,
            k >= 0,
    ;
    assert(k * g <= g * q) by (nonlinear_arith)
        requires
            k <= q,
            g >= 1,
    ;
}

/// The periods of a category trend over the days `start..=end`, each
/// `granularity` days long except that the last one ends at `end`.
pub fn category_trend_periods(start: i32, end: i32, granularity: i64) -> (r: Vec<(i32, i32)>)
    requires
        granularity >= 1,
        MIN_CE_DAY <= start <= MAX_CE_DAY,
        MIN_CE_DAY <= end <= MAX_CE_DAY,
        periods_in_range(start as int, end as int, granularity as int),
    ensures
        r@.map_values(|p: (i32, i32)| (p.0 as int, p.1 as int)) == trend_periods(
            start as int,
            end as int,
            granularity as int,
        ),
{
    let ghost g = granularity as int;
    let ghost want = trend_periods(start as int, end as int, g);
    let mut r: Vec<(i32, i32)> = Vec::new();
    if start > end {
        assert(r@.map_values(|p: (i32, i32)| (p.0 as int, p.1 as int)) =~= want);
        return r;
    }
    let mut current: i32 = start;
    let ghost mut k: int = 0;
    while current <= end
        invariant
            granularity >= 1,
            g == granularity,
            MIN_CE_DAY <= start <= MAX_CE_DAY,
            MIN_CE_DAY <= end <= MAX_CE_DAY,
            periods_in_range(start as int, end as int, g),
            k >= 0,
            current == start + k * g || current == end + 1,
            current <= end + 1,
            r@.map_values(|p: (i32, i32)| (p.0 as int, p.1 as int)) + trend_periods(current as int, end as int, g)
                == want,
        decreases end + 1 - current,
    {
        proof {
            lemma_period_start_bound(start as int, end as int, g, k);
        }
        let next: i64 = current as i64 + granularity;
        let stop: i64 = end as i64 + 1;
        let period_end: i32 = if next < stop {
            next as i32
        } else {
            stop as i32
        };
        let ghost before = r@;
        r.push((current, period_end - 1));
        assert(r@.map_values(|p: (i32, i32)| (p.0 as int, p.1 as int)) =~= before.map_values(
            |p: (i32, i32)| (p.0 as int, p.1 as int),
        ).push((current as int, period_end - 1)));
        assert(r@.map_values(|p: (i32, i32)| (p.0 as int, p.1 as int)) + trend_periods(
            period_end as int,
            end as int,
            g,
        ) =~= before.map_values(|p: (i32, i32)| (p.0 as int, p.1 as int)) + trend_periods(
            current as int,
            end as int,
            g,
        ));
        proof {
            assert((k + 1) * g == k * g + g) by (nonlinear_arith);
            k = k + 1;
            if period_end as int != current + g {
                assert(period_end == end + 1);
            }
        }
        current = period_end;
    }
    assert(r@.map_values(|p: (i32, i32)| (p.0 as int, p.1 as int)) =~= want);
    r
}

/// The periods of a trend tile its days: none for an empty range;
/// otherwise the first starts at `start`, the last ends at `end`, each
/// starts the day after the one before ends, and each holds between one
/// and `g` days.
pub proof fn lemma_trend_periods_tile(start: int, end: int, g: int)
    requires
        g >= 1,
    ensures
        start > end ==> trend_periods(start, end, g).len() == 0,
        start <= end ==> trend_periods(start, end, g).len() > 0 && trend_periods(start, end, g)[0].0 == start
            && trend_periods(start, end, g).last().1 == end,
        forall|i: int|
            0 <= i < trend_periods(start, end, g).len() ==> #[trigger] trend_periods(start, end, g)[i].0
                <= trend_periods(start, end, g)[i].1 < trend_periods(start, end, g)[i].0 + g,
        forall|i: int|
            0 < i < trend_periods(start, end, g).len() ==> #[trigger] trend_periods(start, end, g)[i].0
                == trend_periods(start, end, g)[i - 1].1 + 1,
    decreases end + 1 - start,
{
    if start <= end {
        let pe = if start + g < end + 1 {
            start + g
        } else {
            end + 1
        };
        lemma_trend_periods_tile(pe, end, g);
        let rest = trend_periods(pe, end, g);
        let all = trend_periods(start, end, g);
        assert(all == seq![(start, pe - 1)] + rest);
        assert forall|i: int| 0 <= i < all.len() implies #[trigger] all[i].0 <= all[i].1 < all[i].0 + g by {
            if i > 0 {
                assert(all[i] == rest[i - 1]);
            }
        }
        assert forall|i: int| 0 < i < all.len() implies #[trigger] all[i].0 == all[i - 1].1 + 1 by {
            assert(all[i] == rest[i - 1]);
            if i > 1 {
                assert(all[i - 1] == rest[i - 2]);
                assert(rest[i - 1].0 == rest[i - 2].1 + 1);
            } else {
                assert(rest.len() > 0);
                assert(pe <= end);
            }
        }
        if rest.len() > 0 {
            assert(all.last() == rest.last());
        }
    }
}

} // verus!

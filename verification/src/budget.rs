//! Budgets: the period a budget covers, the checks a budget must pass, and
//! which cost rows its spending counts.
//!
//! Amounts, utilisation and forecasts are floating-point figures and are
//! computed by the caller.
use vstd::prelude::*;
use crate::calendar::{days_in, days_in_month, earlier, not_later, valid_ymd, CivilDate};
use crate::json::JsonValue;
use crate::text::{concat2, concat5, contains_str, contains_text, owned, str_eq, trim, trimmed};

verus! {

/// What a budget's spending is measured over.
#[derive(Debug, Clone, Copy, PartialEq, Eq, Structural)]
pub enum BudgetType {
    Overall,
    Service,
    Category,
    TagBased,
    Resource,
}

impl BudgetType {
    /// The name under which the type is stored.
    pub fn as_str(&self) -> (r: &'static str)
        ensures
            r@ == budget_type_name(*self),
    {
        match self {
            BudgetType::Overall => "overall",
            BudgetType::Service => "service",
            BudgetType::Category => "category",
            BudgetType::TagBased => "tag_based",
            BudgetType::Resource => "resource",
        }
    }
}

/// The stored name of a budget type.
pub open spec fn budget_type_name(t: BudgetType) -> Seq<char> {
    match t {
        BudgetType::Overall => "overall"@,
        BudgetType::Service => "service"@,
        BudgetType::Category => "category"@,
        BudgetType::TagBased => "tag_based"@,
        BudgetType::Resource => "resource"@,
    }
}

// ---------------------------------------------------------------------------
// Budget periods
// ---------------------------------------------------------------------------

/// The first month of the quarter that month `m` falls in.
pub open spec fn quarter_start(m: int) -> int {
    ((m - 1) / 3) * 3 + 1
}

/// The first and last day of the period that holds `today`: its month for a
/// monthly budget and for any period not named otherwise, its quarter, its
/// year, or the budget's own dates for a custom one (the start date alone
/// where it has no end date).
pub open spec fn period_bounds(
    period: Seq<char>,
    start: (int, int, int),
    end: Option<(int, int, int)>,
    today: (int, int, int),
) -> ((int, int, int), (int, int, int)) {
    let (y, m, _d) = today;
    if period == "quarterly"@ {
        let q = quarter_start(m);
        ((y, q, 1), (y, q + 2, days_in(y, q + 2)))
    } else if period == "yearly"@ {
        ((y, 1, 1), (y, 12, 31))
    } else if period == "custom"@ {
        (
            start,
            match end {
                Some(e) => e,
                None => start,
            },
        )
    } else {
        ((y, m, 1), (y, m, days_in(y, m)))
    }
}

/// The view of an optional date.
pub open spec fn opt_date(d: Option<CivilDate>) -> Option<(int, int, int)> {
    match d {
        Some(x) => Some(x@),
        None => None,
    }
}

/// The budget service: the decisions it takes on budgets.
pub struct BudgetService;

impl BudgetService {
    pub fn new() -> (r: BudgetService) {
        BudgetService
    }

    /// The first and last day of the budget period that holds `current_date`:
    /// its month, its quarter or its year, or the budget's own dates for a
    /// custom period.
    pub fn get_budget_period_dates(
        &self,
        budget_period: &str,
        start_date: &CivilDate,
        end_date: &Option<CivilDate>,
        current_date: &CivilDate,
    ) -> (r: (CivilDate, CivilDate))
        ensures
            (r.0@, r.1@) == period_bounds(
                budget_period@,
                start_date@,
                opt_date(*end_date),
                current_date@,
            ),
    {
        let y = current_date.year();
        let m = current_date.month();
        if str_eq(budget_period, "quarterly") {
            let start_month = ((m - 1) / 3) * 3 + 1;
            let end_month = start_month + 2;
            let start = CivilDate::from_ymd_opt(y, start_month, 1).unwrap();
            let end = CivilDate::from_ymd_opt(y, end_month, days_in_month(y, end_month)).unwrap();
            (start, end)
        } else if str_eq(budget_period, "yearly") {
            let start = CivilDate::from_ymd_opt(y, 1, 1).unwrap();
            let end = CivilDate::from_ymd_opt(y, 12, 31).unwrap();
            (start, end)
        } else if str_eq(budget_period, "custom") {
            let end = match end_date {
                Some(e) => *e,
                None => *start_date,
            };
            (*start_date, end)
        } else {
            let start = CivilDate::from_ymd_opt(y, m, 1).unwrap();
            let end = CivilDate::from_ymd_opt(y, m, days_in_month(y, m)).unwrap();
            (start, end)
        }
    }
}

/// A monthly, quarterly or yearly period runs from a valid first day to a
/// valid last day, and holds the date it was worked out for.
pub proof fn lemma_period_holds_date(
    period: Seq<char>,
    start: (int, int, int),
    end: Option<(int, int, int)>,
    today: (int, int, int),
)
    requires
        valid_ymd(today.0, today.1, today.2),
        period != "custom"@,
    ensures
        ({
            let (first, last) = period_bounds(period, start, end, today);
            &&& valid_ymd(first.0, first.1, first.2)
            &&& valid_ymd(last.0, last.1, last.2)
            &&& not_later(first, today)
            &&& not_later(today, last)
        }),
{
}

// ---------------------------------------------------------------------------
// Checks on a budget
// ---------------------------------------------------------------------------

/// The date taken as the end of a budget that has none.
pub open spec fn open_end() -> (int, int, int) {
    (9999, 12, 31)
}

/// Why a budget is refused, if it is: the first check it fails, in order.
pub open spec fn budget_refusal(
    name: Seq<char>,
    amount_is_positive: bool,
    start: (int, int, int),
    end: Option<(int, int, int)>,
    budget_type: BudgetType,
    tags: JsonValue,
) -> Option<Seq<char>> {
    if trimmed(name).len() == 0 {
        Some("Budget name cannot be empty"@)
    } else if !amount_is_positive {
        Some("Budget amount must be greater than 0"@)
    } else if !earlier(
        start,
        match end {
            Some(e) => e,
            None => open_end(),
        },
    ) {
        Some("Start date must be before end date"@)
    } else if budget_type == BudgetType::Service && tags.spec_get("service"@) is None {
        Some("Service budget must specify a service tag"@)
    } else if budget_type == BudgetType::Category && tags.spec_get("category"@) is None {
        Some("Category budget must specify a category tag"@)
    } else if budget_type == BudgetType::TagBased && (tags.spec_get("tag_key"@) is None
        || tags.spec_get("tag_value"@) is None) {
        Some("Tag-based budget must specify tag_key and tag_value"@)
    } else {
        None
    }
}

// ---------------------------------------------------------------------------
// What a budget's spending counts
// ---------------------------------------------------------------------------

/// Which cost rows a budget's spending adds up.
pub enum SpendingQuery {
    /// Every cost row of the account.
    AllCosts,
    /// The rows of one service, as the cost store selects them.
    ServiceCosts { service: String },
    /// The rows whose service name or tags mention the category.
    CategoryCosts { category: String },
    /// The rows tagged `key` with `value`.
    TagCosts { key: String, value: String },
    /// The costs of one resource, as the cost store selects them.
    ResourceCosts { resource_id: String },
}

/// The text under `key` in the budget's tags.
pub open spec fn tag_text(tags: JsonValue, key: Seq<char>) -> Option<Seq<char>> {
    match tags.spec_get(key) {
        Some(v) => v.spec_str(),
        None => None,
    }
}

/// The query of a budget type with these tags, or why there is none.
pub open spec fn query_refusal(budget_type: Seq<char>, tags: JsonValue) -> Option<Seq<char>> {
    if budget_type == "overall"@ {
        None
    } else if budget_type == "service"@ {
        if tag_text(tags, "service"@) is None {
            Some("Service budget missing service tag"@)
        } else {
            None
        }
    } else if budget_type == "category"@ {
        if tag_text(tags, "category"@) is None {
            Some("Category budget missing category tag"@)
        } else {
            None
        }
    } else if budget_type == "tag_based"@ {
        if tag_text(tags, "tag_key"@) is None {
            Some("Tag-based budget missing tag_key"@)
        } else if tag_text(tags, "tag_value"@) is None {
            Some("Tag-based budget missing tag_value"@)
        } else {
            None
        }
    } else if budget_type == "resource"@ {
        if tag_text(tags, "resource_id"@) is None {
            Some("Resource budget missing resource_id"@)
        } else {
            None
        }
    } else {
        Some("Unknown budget type: "@ + budget_type)
    }
}

/// The query fits the budget type and its tags.
pub open spec fn query_fits(q: SpendingQuery, budget_type: Seq<char>, tags: JsonValue) -> bool {
    if budget_type == "overall"@ {
        q is AllCosts
    } else if budget_type == "service"@ {
        q matches SpendingQuery::ServiceCosts { service } && Some(service@) == tag_text(
            tags,
            "service"@,
        )
    } else if budget_type == "category"@ {
        q matches SpendingQuery::CategoryCosts { category } && Some(category@) == tag_text(
            tags,
            "category"@,
        )
    } else if budget_type == "tag_based"@ {
        q matches SpendingQuery::TagCosts { key, value } && Some(key@) == tag_text(tags, "tag_key"@)
            && Some(value@) == tag_text(tags, "tag_value"@)
    } else {
        q matches SpendingQuery::ResourceCosts { resource_id } && Some(resource_id@) == tag_text(
            tags,
            "resource_id"@,
        )
    }
}

/// The text that marks a row tagged `key` with `value` in its tags' JSON text.
pub open spec fn tag_pair_text(key: Seq<char>, value: Seq<char>) -> Seq<char> {
    "\""@ + key + "\":\""@ + value + "\""@
}

/// A cost row, by its service name and the JSON text of its tags where it has
/// any, counts toward the query: category rows mention the category in the
/// service name or the tags, tag rows carry the key and value pair; the other
/// queries are selected by the store itself.
pub open spec fn row_counts(q: SpendingQuery, service_name: Seq<char>, tags_text: Option<Seq<char>>) -> bool {
    match q {
        SpendingQuery::CategoryCosts { category } => contains_text(service_name, category@) || (
        tags_text matches Some(t) && contains_text(t, category@)),
        SpendingQuery::TagCosts { key, value } => tags_text matches Some(t) && contains_text(
            t,
            tag_pair_text(key@, value@),
        ),
        _ => true,
    }
}

fn tag_of(tags: &JsonValue, key: &str) -> (r: Option<String>)
    ensures
        r is Some <==> tag_text(*tags, key@) is Some,
        r matches Some(t) ==> t@ == tag_text(*tags, key@).unwrap(),
{
    match tags.get(key) {
        Some(v) => match v.as_str() {
            Some(t) => Some(t.clone()),
            None => None,
        },
        None => None,
    }
}

impl BudgetService {
    /// Checks a budget before it is stored: a name that is not blank, a
    /// positive amount (`amount_is_positive`, as the caller compares it), a
    /// start before the end (before 9999-12-31 where there is no end), and the
    /// tags that service, category and tag-based budgets need.
    pub fn validate_budget_dto(
        &self,
        name: &str,
        amount_is_positive: bool,
        start_date: &CivilDate,
        end_date: &Option<CivilDate>,
        budget_type: BudgetType,
        tags: &JsonValue,
    ) -> (r: Result<(), String>)
        ensures
            match budget_refusal(
                name@,
                amount_is_positive,
                start_date@,
                opt_date(*end_date),
                budget_type,
                *tags,
            ) {
                None => r is Ok,
                Some(m) => r matches Err(e) && e@ == m,
            },
    {
        let t = trim(name);
        if t.as_str().unicode_len() == 0 {
            return Err(owned("Budget name cannot be empty"));
        }
        if !amount_is_positive {
            return Err(owned("Budget amount must be greater than 0"));
        }
        let end = match end_date {
            Some(e) => *e,
            None => CivilDate::from_ymd_opt(9999, 12, 31).unwrap(),
        };
        if !start_date.is_before(&end) {
            return Err(owned("Start date must be before end date"));
        }
        match budget_type {
            BudgetType::Service => {
                if tags.get("service").is_none() {
                    return Err(owned("Service budget must specify a service tag"));
                }
            },
            BudgetType::Category => {
                if tags.get("category").is_none() {
                    return Err(owned("Category budget must specify a category tag"));
                }
            },
            BudgetType::TagBased => {
                if tags.get("tag_key").is_none() || tags.get("tag_value").is_none() {
                    return Err(owned("Tag-based budget must specify tag_key and tag_value"));
                }
            },
            _ => {},
        }
        Ok(())
    }

    /// Which cost rows the spending of a budget of this type adds up, read
    /// from its tags; a missing tag or an unknown type is refused.
    pub fn spending_query(&self, budget_type: &str, tags: &JsonValue) -> (r: Result<
        SpendingQuery,
        String,
    >)
        ensures
            match query_refusal(budget_type@, *tags) {
                None => r matches Ok(q) && query_fits(q, budget_type@, *tags),
                Some(m) => r matches Err(e) && e@ == m,
            },
    {
        if str_eq(budget_type, "overall") {
            Ok(SpendingQuery::AllCosts)
        } else if str_eq(budget_type, "service") {
            match tag_of(tags, "service") {
                Some(service) => Ok(SpendingQuery::ServiceCosts { service }),
                None => Err(owned("Service budget missing service tag")),
            }
        } else if str_eq(budget_type, "category") {
            match tag_of(tags, "category") {
                Some(category) => Ok(SpendingQuery::CategoryCosts { category }),
                None => Err(owned("Category budget missing category tag")),
            }
        } else if str_eq(budget_type, "tag_based") {
            match tag_of(tags, "tag_key") {
                None => Err(owned("Tag-based budget missing tag_key")),
                Some(key) => match tag_of(tags, "tag_value") {
                    None => Err(owned("Tag-based budget missing tag_value")),
                    Some(value) => Ok(SpendingQuery::TagCosts { key, value }),
                },
            }
        } else if str_eq(budget_type, "resource") {
            match tag_of(tags, "resource_id") {
                Some(resource_id) => Ok(SpendingQuery::ResourceCosts { resource_id }),
                None => Err(owned("Resource budget missing resource_id")),
            }
        } else {
            Err(concat2("Unknown budget type: ", budget_type))
        }
    }

    /// Whether a cost row counts toward the query, by its service name and the
    /// JSON text of its tags where it has any.
    pub fn row_counts(&self, query: &SpendingQuery, service_name: &str, tags_text: Option<&str>) -> (r: bool)
        ensures
            r == row_counts(
                *query,
                service_name@,
                match tags_text {
                    Some(t) => Some(t@),
                    None => None,
                },
            ),
    {
        match query {
            SpendingQuery::CategoryCosts { category } => {
                contains_str(service_name, category.as_str()) || match tags_text {
                    Some(t) => contains_str(t, category.as_str()),
                    None => false,
                }
            },
            SpendingQuery::TagCosts { key, value } => match tags_text {
                Some(t) => {
                    let pair = concat5("\"", key.as_str(), "\":\"", value.as_str(), "\"");
                    contains_str(t, pair.as_str())
                },
                None => false,
            },
            _ => true,
        }
    }
}

/// A tag-based budget counts the rows tagged with its own tag: when the
/// budget's tags hold the text `k` under "tag_key" and `v` under
/// "tag_value", its query is the tag query for key `k` and value `v`, and a
/// row with tags counts toward it exactly when the JSON text of its tags
/// holds `"k":"v"`; a row without tags never does.
pub proof fn lemma_tag_budget_counts_its_tag(
    q: SpendingQuery,
    tags: JsonValue,
    k: Seq<char>,
    v: Seq<char>,
    service_name: Seq<char>,
    row_tags: Option<Seq<char>>,
)
    requires
        tag_text(tags, "tag_key"@) == Some(k),
        tag_text(tags, "tag_value"@) == Some(v),
        query_fits(q, "tag_based"@, tags),
    ensures
        q matches SpendingQuery::TagCosts { key, value } && key@ == k && value@ == v,
        row_counts(q, service_name, row_tags) <==> (row_tags matches Some(t) && contains_text(
            t,
            "\""@ + k + "\":\""@ + v + "\""@,
        )),
{
    reveal_strlit("tag_based");
    reveal_strlit("overall");
    reveal_strlit("service");
    reveal_strlit("category");
    assert("tag_based"@.len() == 9);
    assert("tag_based"@ != "overall"@);
    assert("tag_based"@ != "service"@);
    assert("tag_based"@[0] != "category"@[0]);
    assert("tag_based"@ != "category"@);
    if let SpendingQuery::TagCosts { key, value } = q {
        assert(tag_pair_text(key@, value@) == "\""@ + k + "\":\""@ + v + "\""@);
    }
}

} // verus!

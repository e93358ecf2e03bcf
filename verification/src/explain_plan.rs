//! Query plan analysis: which EXPLAIN statement a cluster's engine takes,
//! what a JSON plan shows (index use, full scans, sorts), and what is
//! recommended for it.
use vstd::prelude::*;
use crate::json::{JsonFields, JsonList, JsonValue};
use crate::text::{concat2, owned, str_eq, to_lowercase, unicode_lower};

verus! {

/// What a plan shows.
pub struct PlanFlags {
    pub uses_indexes: bool,
    pub has_full_scan: bool,
    pub has_filesort: bool,
    pub has_temp_table: bool,
}

/// Query plan analysis.
pub struct ExplainPlanService;

// ---------------------------------------------------------------------------
// The EXPLAIN statement.
// ---------------------------------------------------------------------------

/// MySQL engines, by their lower-cased name.
pub open spec fn is_mysql(engine: Seq<char>) -> bool {
    engine == "mysql"@ || engine == "aurora-mysql"@
}

/// The EXPLAIN statement for a query on an engine with the lower-cased name
/// `engine`: MySQL's JSON format, or PostgreSQL's JSON format with ANALYZE.
pub open spec fn explain_statement_of(engine: Seq<char>, sql: Seq<char>) -> Seq<char> {
    if is_mysql(engine) {
        "EXPLAIN FORMAT=JSON "@ + sql
    } else {
        "EXPLAIN (FORMAT JSON, ANALYZE) "@ + sql
    }
}

// ---------------------------------------------------------------------------
// What a JSON plan shows.
// ---------------------------------------------------------------------------

/// The text under `key` of `v`, when `v` is an object holding a string there.
pub open spec fn text_at(v: JsonValue, key: Seq<char>) -> Option<Seq<char>> {
    match v.spec_get(key) {
        Some(x) => x.spec_str(),
        None => None,
    }
}

/// The access type of a MySQL query block's table.
pub open spec fn access_type(block: JsonValue) -> Option<Seq<char>> {
    match block.spec_get("table"@) {
        Some(t) => text_at(t, "access_type"@),
        None => None,
    }
}

/// Index access types of MySQL.
pub open spec fn is_index_access(a: Seq<char>) -> bool {
    a == "index"@ || a == "range"@ || a == "ref"@ || a == "eq_ref"@ || a == "const"@
}

/// The MySQL query block sorts through a filesort.
pub open spec fn block_filesort(block: JsonValue) -> bool {
    match block.spec_get("ordering_operation"@) {
        Some(o) => match o.spec_get("using_filesort"@) {
            Some(f) => f.spec_bool() == Some(true),
            None => false,
        },
        None => false,
    }
}

/// The node type of a PostgreSQL plan node is one of `kinds`.
pub open spec fn node_is(v: JsonValue, kinds: Seq<Seq<char>>) -> bool {
    match text_at(v, "Node Type"@) {
        Some(t) => kinds.contains(t),
        None => false,
    }
}

/// Some node of the PostgreSQL plan tree rooted at `v` (the node and, under
/// "Plans", its sub-plans) is of one of `kinds`.
pub open spec fn tree_has(v: JsonValue, kinds: Seq<Seq<char>>) -> bool
    decreases v,
{
    match v {
        JsonValue::Object(f) => node_is(v, kinds) || plans_have(*f, kinds),
        _ => false,
    }
}

/// The first "Plans" field of an object holds an array with a sub-plan
/// tree that has a node of one of `kinds`.
pub open spec fn plans_have(f: JsonFields, kinds: Seq<Seq<char>>) -> bool
    decreases f,
{
    match f {
        JsonFields::Nil => false,
        JsonFields::Cons(k, v, rest) => if k@ == "Plans"@ {
            match *v {
                JsonValue::Array(l) => list_has(*l, kinds),
                _ => false,
            }
        } else {
            plans_have(*rest, kinds)
        },
    }
}

/// Some tree of the list has a node of one of `kinds`.
pub open spec fn list_has(l: JsonList, kinds: Seq<Seq<char>>) -> bool
    decreases l,
{
    match l {
        JsonList::Nil => false,
        JsonList::Cons(v, rest) => tree_has(*v, kinds) || list_has(*rest, kinds),
    }
}

pub open spec fn seq_scan_kinds() -> Seq<Seq<char>> {
    seq!["Seq Scan"@]
}

pub open spec fn index_scan_kinds() -> Seq<Seq<char>> {
    seq!["Index Scan"@, "Index Only Scan"@, "Bitmap Index Scan"@]
}

pub open spec fn sort_kinds() -> Seq<Seq<char>> {
    seq!["Sort"@]
}

/// The top plan node of a PostgreSQL plan: "Plan" of the array's first element.
pub open spec fn pg_top(plan: JsonValue) -> Option<JsonValue> {
    match plan.spec_array() {
        Some(items) => if items.len() > 0 {
            items[0].spec_get("Plan"@)
        } else {
            None
        },
        None => None,
    }
}

/// What a JSON plan shows: an array is read as a PostgreSQL plan tree, any
/// other value as a MySQL plan. Temporary tables are not read from JSON plans.
pub open spec fn plan_flags_of(plan: JsonValue) -> (bool, bool, bool, bool) {
    match plan {
        JsonValue::Array(_) => match pg_top(plan) {
            Some(top) => (
                tree_has(top, index_scan_kinds()),
                tree_has(top, seq_scan_kinds()),
                tree_has(top, sort_kinds()),
                false,
            ),
            None => (false, false, false, false),
        },
        _ => match plan.spec_get("query_block"@) {
            Some(qb) => (
                match access_type(qb) {
                    Some(a) => is_index_access(a),
                    None => false,
                },
                access_type(qb) == Some("ALL"@),
                block_filesort(qb),
                false,
            ),
            None => (false, false, false, false),
        },
    }
}

/// The flags as a tuple.
pub open spec fn flags_view(f: PlanFlags) -> (bool, bool, bool, bool) {
    (f.uses_indexes, f.has_full_scan, f.has_filesort, f.has_temp_table)
}

/// The recommendations for what a plan shows.
pub open spec fn recommendations_for(f: PlanFlags) -> Seq<Seq<char>> {
    (if f.has_full_scan {
        seq!["Consider adding indexes to avoid full table scans"@]
    } else {
        Seq::empty()
    }) + (if f.has_filesort {
        seq!["Filesort detected - add indexes on ORDER BY columns"@]
    } else {
        Seq::empty()
    }) + (if f.has_temp_table {
        seq!["Temporary table created - review GROUP BY performance"@]
    } else {
        Seq::empty()
    })
}

/// The flag names listed in `names` that are known.
pub open spec fn named(names: Seq<Seq<char>>, name: Seq<char>) -> bool {
    names.contains(name)
}

proof fn lemma_push_contains(s: Seq<Seq<char>>, x: Seq<char>, y: Seq<char>)
    ensures
        s.push(x).contains(y) <==> (s.contains(y) || x == y),
{
    if s.contains(y) {
        let k = choose|k: int| 0 <= k < s.len() && s[k] == y;
        assert(s.push(x)[k] == y);
    }
    if x == y {
        assert(s.push(x)[s.len() as int] == y);
    }
    if s.push(x).contains(y) {
        let k = choose|k: int| 0 <= k < s.push(x).len() && s.push(x)[k] == y;
        if k < s.len() {
            assert(s[k] == y);
        }
    }
}

fn text_at_exec(v: &JsonValue, key: &str) -> (r: Option<String>)
    ensures
        match r {
            Some(s) => text_at(*v, key@) == Some(s@),
            None => text_at(*v, key@) is None,
        },
{
    match v.get(key) {
        Some(x) => match x.as_str() {
            Some(s) => Some(s.clone()),
            None => None,
        },
        None => None,
    }
}

fn is_one_of(t: &str, kinds: &[&str]) -> (r: bool)
    ensures
        r == kinds@.map_values(|k: &str| k@).contains(t@),
{
    let ghost ks = kinds@.map_values(|k: &str| k@);
    for i in 0..kinds.len()
        invariant
            ks == kinds@.map_values(|k: &str| k@),
            forall|j: int| 0 <= j < i ==> ks[j] != t@,
    {
        if str_eq(t, kinds[i]) {
            assert(ks[i as int] == t@);
            return true;
        }
    }
    false
}

/// Visits a PostgreSQL plan tree, noting which kinds of node it holds.
fn visit_node(v: &JsonValue, flags: &mut PlanFlags)
    ensures
        final(flags).uses_indexes == (old(flags).uses_indexes || tree_has(*v, index_scan_kinds())),
        final(flags).has_full_scan == (old(flags).has_full_scan || tree_has(*v, seq_scan_kinds())),
        final(flags).has_filesort == (old(flags).has_filesort || tree_has(*v, sort_kinds())),
        final(flags).has_temp_table == old(flags).has_temp_table,
    decreases v,
{
    match v {
        JsonValue::Object(f) => {
            if let Some(t) = text_at_exec(v, "Node Type") {
                let t = t.as_str();
                // A node has one type, so at most one of these holds.
                if is_one_of(t, &["Seq Scan"]) {
                    flags.has_full_scan = true;
                }
                if is_one_of(t, &["Index Scan", "Index Only Scan", "Bitmap Index Scan"]) {
                    flags.uses_indexes = true;
                }
                if is_one_of(t, &["Sort"]) {
                    flags.has_filesort = true;
                }
                assert(["Seq Scan"]@.map_values(|k: &str| k@) =~= seq_scan_kinds());
                assert(["Index Scan", "Index Only Scan", "Bitmap Index Scan"]@.map_values(|k: &str| k@)
                    =~= index_scan_kinds());
                assert(["Sort"]@.map_values(|k: &str| k@) =~= sort_kinds());
            }
            visit_plans(&**f, flags);
        },
        _ => {},
    }
}

fn visit_plans(f: &JsonFields, flags: &mut PlanFlags)
    ensures
        final(flags).uses_indexes == (old(flags).uses_indexes || plans_have(*f, index_scan_kinds())),
        final(flags).has_full_scan == (old(flags).has_full_scan || plans_have(*f, seq_scan_kinds())),
        final(flags).has_filesort == (old(flags).has_filesort || plans_have(*f, sort_kinds())),
        final(flags).has_temp_table == old(flags).has_temp_table,
    decreases f,
{
    match f {
        JsonFields::Nil => {},
        JsonFields::Cons(k, v, rest) => {
            if str_eq(k.as_str(), "Plans") {
                match &**v {
                    JsonValue::Array(l) => visit_list(&**l, flags),
                    _ => {},
                }
            } else {
                visit_plans(&**rest, flags);
            }
        },
    }
}

fn visit_list(l: &JsonList, flags: &mut PlanFlags)
    ensures
        final(flags).uses_indexes == (old(flags).uses_indexes || list_has(*l, index_scan_kinds())),
        final(flags).has_full_scan == (old(flags).has_full_scan || list_has(*l, seq_scan_kinds())),
        final(flags).has_filesort == (old(flags).has_filesort || list_has(*l, sort_kinds())),
        final(flags).has_temp_table == old(flags).has_temp_table,
    decreases l,
{
    match l {
        JsonList::Nil => {},
        JsonList::Cons(v, rest) => {
            visit_node(&**v, flags);
            visit_list(&**rest, flags);
        },
    }
}

impl ExplainPlanService {
    /// The service; the stores it reads and writes are the caller's.
    pub fn new() -> (r: ExplainPlanService) {
        ExplainPlanService
    }

    /// The EXPLAIN statement for a query on an engine, with the plan format
    /// it yields; the engine name is compared case-insensitively.
    pub fn explain_statement(engine: &str, sql: &str) -> (r: (String, &'static str))
        ensures
            r.0@ == explain_statement_of(unicode_lower(engine@), sql@),
            r.1@ == "JSON"@,
    {
        let lowered = to_lowercase(engine);
        Self::explain_statement_for(lowered.as_str(), sql)
    }

    /// The EXPLAIN statement for a query on an engine whose lower-cased name
    /// is `engine`, with the plan format it yields.
    pub fn explain_statement_for(engine: &str, sql: &str) -> (r: (String, &'static str))
        ensures
            r.0@ == explain_statement_of(engine@, sql@),
            r.1@ == "JSON"@,
    {
        if str_eq(engine, "mysql") || str_eq(engine, "aurora-mysql") {
            (concat2("EXPLAIN FORMAT=JSON ", sql), "JSON")
        } else {
            (concat2("EXPLAIN (FORMAT JSON, ANALYZE) ", sql), "JSON")
        }
    }

    /// What a JSON plan shows: an array is a PostgreSQL plan, whose tree is
    /// searched for scans and sorts; anything else is a MySQL plan, whose
    /// query block gives the table's access type and whether it sorts
    /// through a filesort.
    pub fn analyze_json_plan(plan: &JsonValue) -> (r: PlanFlags)
        ensures
            flags_view(r) == plan_flags_of(*plan),
    {
        let mut flags = PlanFlags { uses_indexes: false, has_full_scan: false, has_filesort: false, has_temp_table: false };
        match plan {
            JsonValue::Array(items) => {
                match &**items {
                    JsonList::Cons(first, _) => {
                        assert(plan.spec_array().unwrap()[0] == **first);
                        if let Some(top) = first.get("Plan") {
                            visit_node(top, &mut flags);
                        }
                    },
                    JsonList::Nil => {},
                }
            },
            _ => {
                if let Some(qb) = plan.get("query_block") {
                    if let Some(t) = qb.get("table") {
                        if let Some(a) = text_at_exec(t, "access_type") {
                            let a = a.as_str();
                            // An access type is one of these at most.
                            if str_eq(a, "ALL") {
                                flags.has_full_scan = true;
                            }
                            if str_eq(a, "index") || str_eq(a, "range") || str_eq(a, "ref") || str_eq(a, "eq_ref")
                                || str_eq(a, "const") {
                                flags.uses_indexes = true;
                            }
                        }
                    }
                    if let Some(o) = qb.get("ordering_operation") {
                        if let Some(fs) = o.get("using_filesort") {
                            if fs.as_bool() == Some(true) {
                                flags.has_filesort = true;
                            }
                        }
                    }
                }
            },
        }
        flags
    }

    /// What a captured plan shows, by its format: a `JSON` plan is read once
    /// parsed (`parsed` holds the parse of its text, or the parser's error,
    /// which fails the analysis); a `TRADITIONAL` plan, and a plan of any
    /// other format, shows nothing. `parsed` is read for `JSON` plans alone.
    pub fn analyze_explain_plan(plan_format: &str, parsed: Result<&JsonValue, &str>) -> (r: Result<PlanFlags, String>)
        ensures
            plan_format@ == "JSON"@ ==> match parsed {
                Ok(v) => r matches Ok(f) && flags_view(f) == plan_flags_of(*v),
                Err(e) => r matches Err(m) && m@ == "Failed to parse JSON plan: "@ + e@,
            },
            plan_format@ != "JSON"@ ==> (r matches Ok(f) && flags_view(f) == (false, false, false, false)),
    {
        if str_eq(plan_format, "JSON") {
            match parsed {
                Ok(v) => Ok(Self::analyze_json_plan(v)),
                Err(e) => Err(concat2("Failed to parse JSON plan: ", e)),
            }
        } else {
            Ok(PlanFlags { uses_indexes: false, has_full_scan: false, has_filesort: false, has_temp_table: false })
        }
    }

    /// The recommendations for what a plan shows: indexes for full scans and
    /// for filesorts, a review of GROUP BY for temporary tables.
    pub fn plan_recommendations(flags: &PlanFlags) -> (r: Vec<String>)
        ensures
            r@.map_values(|s: String| s@) == recommendations_for(*flags),
    {
        let mut r: Vec<String> = Vec::new();
        if flags.has_full_scan {
            r.push(owned("Consider adding indexes to avoid full table scans"));
        }
        if flags.has_filesort {
            r.push(owned("Filesort detected - add indexes on ORDER BY columns"));
        }
        if flags.has_temp_table {
            r.push(owned("Temporary table created - review GROUP BY performance"));
        }
        assert(r@.map_values(|s: String| s@) =~= recommendations_for(*flags));
        r
    }

    /// The flags that a list of flag names sets; unknown names are ignored.
    pub fn flags_from_names(names: &[String]) -> (r: PlanFlags)
        ensures
            r.uses_indexes == named(names@.map_values(|s: String| s@), "uses_indexes"@),
            r.has_full_scan == named(names@.map_values(|s: String| s@), "has_full_scan"@),
            r.has_filesort == named(names@.map_values(|s: String| s@), "has_filesort"@),
            r.has_temp_table == named(names@.map_values(|s: String| s@), "has_temp_table"@),
    {
        let ghost ns = names@.map_values(|s: String| s@);
        let mut r = PlanFlags { uses_indexes: false, has_full_scan: false, has_filesort: false, has_temp_table: false };
        for i in 0..names.len()
            invariant
                ns == names@.map_values(|s: String| s@),
                r.uses_indexes == ns.take(i as int).contains("uses_indexes"@),
                r.has_full_scan == ns.take(i as int).contains("has_full_scan"@),
                r.has_filesort == ns.take(i as int).contains("has_filesort"@),
                r.has_temp_table == ns.take(i as int).contains("has_temp_table"@),
        {
            let n = names[i].as_str();
            assert(ns.take(i + 1) =~= ns.take(i as int).push(ns[i as int]));
            proof {
                lemma_push_contains(ns.take(i as int), ns[i as int], "uses_indexes"@);
                lemma_push_contains(ns.take(i as int), ns[i as int], "has_full_scan"@);
                lemma_push_contains(ns.take(i as int), ns[i as int], "has_filesort"@);
                lemma_push_contains(ns.take(i as int), ns[i as int], "has_temp_table"@);
            }
            // A name is one of these at most.
            if str_eq(n, "uses_indexes") {
                r.uses_indexes = true;
            }
            if str_eq(n, "has_full_scan") {
                r.has_full_scan = true;
            }
            if str_eq(n, "has_filesort") {
                r.has_filesort = true;
            }
            if str_eq(n, "has_temp_table") {
                r.has_temp_table = true;
            }
        }
        assert(ns.take(names@.len() as int) =~= ns);
        r
    }
}

/// `w` is a node of the PostgreSQL plan tree rooted at `v`: `v` itself, or
/// a node of one of the sub-plans listed under its "Plans".
pub open spec fn in_tree(v: JsonValue, w: JsonValue) -> bool
    decreases v,
{
    match v {
        JsonValue::Object(f) => v == w || in_plans(*f, w),
        _ => false,
    }
}

/// `w` is a node of a sub-plan under the first "Plans" field.
pub open spec fn in_plans(f: JsonFields, w: JsonValue) -> bool
    decreases f,
{
    match f {
        JsonFields::Nil => false,
        JsonFields::Cons(k, v, rest) => if k@ == "Plans"@ {
            match *v {
                JsonValue::Array(l) => in_list(*l, w),
                _ => false,
            }
        } else {
            in_plans(*rest, w)
        },
    }
}

/// `w` is a node of one of the trees of the list.
pub open spec fn in_list(l: JsonList, w: JsonValue) -> bool
    decreases l,
{
    match l {
        JsonList::Nil => false,
        JsonList::Cons(v, rest) => in_tree(*v, w) || in_list(*rest, w),
    }
}

proof fn lemma_node_found(v: JsonValue, w: JsonValue, kinds: Seq<Seq<char>>)
    requires
        in_tree(v, w),
        node_is(w, kinds),
    ensures
        tree_has(v, kinds),
    decreases v,
{
    match v {
        JsonValue::Object(f) => {
            if v != w {
                lemma_node_found_in_plans(*f, w, kinds);
            }
        },
        _ => {},
    }
}

proof fn lemma_node_found_in_plans(f: JsonFields, w: JsonValue, kinds: Seq<Seq<char>>)
    requires
        in_plans(f, w),
        node_is(w, kinds),
    ensures
        plans_have(f, kinds),
    decreases f,
{
    match f {
        JsonFields::Nil => {},
        JsonFields::Cons(k, v, rest) => {
            if k@ == "Plans"@ {
                match *v {
                    JsonValue::Array(l) => lemma_node_found_in_list(*l, w, kinds),
                    _ => {},
                }
            } else {
                lemma_node_found_in_plans(*rest, w, kinds);
            }
        },
    }
}

proof fn lemma_node_found_in_list(l: JsonList, w: JsonValue, kinds: Seq<Seq<char>>)
    requires
        in_list(l, w),
        node_is(w, kinds),
    ensures
        list_has(l, kinds),
    decreases l,
{
    match l {
        JsonList::Nil => {},
        JsonList::Cons(v, rest) => {
            if in_tree(*v, w) {
                lemma_node_found(*v, w, kinds);
            } else {
                lemma_node_found_in_list(*rest, w, kinds);
            }
        },
    }
}

/// What a node of a PostgreSQL plan shows is what the plan shows: when some
/// node of the tree under the plan's top node is an index scan ("Index
/// Scan", "Index Only Scan" or "Bitmap Index Scan"), the plan uses indexes;
/// when one is a "Seq Scan", it has a full scan; when one is a "Sort", it
/// sorts. So a plan whose top node is an "Index Scan" uses indexes.
pub proof fn lemma_pg_nodes_show(plan: JsonValue, top: JsonValue, w: JsonValue)
    requires
        plan is Array,
        pg_top(plan) == Some(top),
        in_tree(top, w),
    ensures
        (text_at(w, "Node Type"@) == Some("Index Scan"@) || text_at(w, "Node Type"@) == Some(
            "Index Only Scan"@,
        ) || text_at(w, "Node Type"@) == Some("Bitmap Index Scan"@)) ==> plan_flags_of(plan).0,
        text_at(w, "Node Type"@) == Some("Seq Scan"@) ==> plan_flags_of(plan).1,
        text_at(w, "Node Type"@) == Some("Sort"@) ==> plan_flags_of(plan).2,
        !plan_flags_of(plan).3,
{
    let t = text_at(w, "Node Type"@);
    if t == Some("Index Scan"@) {
        assert(index_scan_kinds()[0] == "Index Scan"@);
        lemma_node_found(top, w, index_scan_kinds());
    }
    if t == Some("Index Only Scan"@) {
        assert(index_scan_kinds()[1] == "Index Only Scan"@);
        lemma_node_found(top, w, index_scan_kinds());
    }
    if t == Some("Bitmap Index Scan"@) {
        assert(index_scan_kinds()[2] == "Bitmap Index Scan"@);
        lemma_node_found(top, w, index_scan_kinds());
    }
    if t == Some("Seq Scan"@) {
        assert(seq_scan_kinds()[0] == "Seq Scan"@);
        lemma_node_found(top, w, seq_scan_kinds());
    }
    if t == Some("Sort"@) {
        assert(sort_kinds()[0] == "Sort"@);
        lemma_node_found(top, w, sort_kinds());
    }
}

} // verus!

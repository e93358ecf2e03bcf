use backend::explain_plan::{ExplainPlanService, PlanFlags};
use backend::json::{ArrayBuilder, JsonValue, ObjectBuilder};

fn s(v: &str) -> JsonValue {
    JsonValue::Str(v.to_string())
}

fn node(ty: &str, children: Vec<JsonValue>) -> JsonValue {
    let mut o = ObjectBuilder::new().field("Node Type", s(ty));
    if !children.is_empty() {
        let mut a = ArrayBuilder::new();
        for c in children {
            a = a.item(c);
        }
        o = o.field("Plans", a.build());
    }
    o.build()
}

fn pg_plan(top: JsonValue) -> JsonValue {
    ArrayBuilder::new().item(ObjectBuilder::new().field("Plan", top).build()).build()
}

#[test]
fn explain_statement_by_engine() {
    let (q, f) = ExplainPlanService::explain_statement("Aurora-MySQL", "SELECT 1");
    assert_eq!(q, "EXPLAIN FORMAT=JSON SELECT 1");
    assert_eq!(f, "JSON");
    let (q, _) = ExplainPlanService::explain_statement("aurora-postgresql", "SELECT 1");
    assert_eq!(q, "EXPLAIN (FORMAT JSON, ANALYZE) SELECT 1");
}

#[test]
fn postgres_plan_tree_is_searched_to_the_leaves() {
    let plan = pg_plan(node("Sort", vec![node("Hash Join", vec![node("Seq Scan", vec![]), node("Index Only Scan", vec![])])]));
    let f = ExplainPlanService::analyze_json_plan(&plan);
    assert!(f.uses_indexes && f.has_full_scan && f.has_filesort && !f.has_temp_table);
    let plain = pg_plan(node("Result", vec![]));
    let f = ExplainPlanService::analyze_json_plan(&plain);
    assert!(!f.uses_indexes && !f.has_full_scan && !f.has_filesort);
}

#[test]
fn mysql_plan_reads_access_type_and_filesort() {
    let table = ObjectBuilder::new().field("access_type", s("ALL")).build();
    let ordering = ObjectBuilder::new().field("using_filesort", JsonValue::Bool(true)).build();
    let qb = ObjectBuilder::new().field("table", table).field("ordering_operation", ordering).build();
    let plan = ObjectBuilder::new().field("query_block", qb).build();
    let f = ExplainPlanService::analyze_json_plan(&plan);
    assert!(f.has_full_scan && f.has_filesort && !f.uses_indexes);

    let table = ObjectBuilder::new().field("access_type", s("eq_ref")).build();
    let plan = ObjectBuilder::new().field("query_block", ObjectBuilder::new().field("table", table).build()).build();
    let f = ExplainPlanService::analyze_json_plan(&plan);
    assert!(f.uses_indexes && !f.has_full_scan && !f.has_filesort);
}

#[test]
fn recommendations_follow_the_flags() {
    let f = PlanFlags { uses_indexes: false, has_full_scan: true, has_filesort: false, has_temp_table: true };
    assert_eq!(
        ExplainPlanService::plan_recommendations(&f),
        vec![
            "Consider adding indexes to avoid full table scans".to_string(),
            "Temporary table created - review GROUP BY performance".to_string(),
        ]
    );
}

#[test]
fn flag_names_set_flags() {
    let f = ExplainPlanService::flags_from_names(&["has_filesort".to_string(), "bogus".to_string(), "uses_indexes".to_string()]);
    assert!(f.uses_indexes && f.has_filesort && !f.has_full_scan && !f.has_temp_table);
}

#[test]
fn plans_are_read_by_their_format() {
    let mysql = ObjectBuilder::new()
        .field("query_block", ObjectBuilder::new().field("table", ObjectBuilder::new().field("access_type", s("ALL")).build()).build())
        .build();
    let f = ExplainPlanService::analyze_explain_plan("JSON", Ok(&mysql)).ok().unwrap();
    assert!(f.has_full_scan && !f.uses_indexes);
    match ExplainPlanService::analyze_explain_plan("JSON", Err("expected value at line 1 column 1")) {
        Err(m) => assert_eq!(m, "Failed to parse JSON plan: expected value at line 1 column 1"),
        Ok(_) => panic!("expected a parse failure"),
    }
    let t = ExplainPlanService::analyze_explain_plan("TRADITIONAL", Err("not read")).ok().unwrap();
    assert!(!t.has_full_scan && !t.uses_indexes && !t.has_filesort && !t.has_temp_table);
    let other = ExplainPlanService::analyze_explain_plan("TREE", Ok(&mysql)).ok().unwrap();
    assert!(!other.has_full_scan);
}

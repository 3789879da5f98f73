use in_memory_db::store::in_memory_dbContractState;

fn s(x: &str) -> String {
    x.to_string()
}

fn fresh() -> in_memory_dbContractState {
    in_memory_dbContractState::new().unwrap()
}

fn sorted(mut v: Vec<(String, String)>) -> Vec<(String, String)> {
    v.sort();
    v
}

#[test]
fn new_store_has_no_tables() {
    let db = fresh();
    assert_eq!(db.list_tables(), Vec::<String>::new());
}

#[test]
fn users_scenario() {
    let mut db = fresh();
    assert_eq!(db.create_table(s("users")), 200);
    assert_eq!(db.insert(s("users"), s("u1"), s("name"), s("Ann")), 200);
    assert_eq!(db.get_value(s("users"), s("u1"), s("name")), Some(s("Ann")));
    assert_eq!(db.update(s("users"), s("u1"), s("age"), s("30")), 404);
    assert_eq!(db.insert(s("users"), s("u1"), s("age"), s("30")), 200);
    assert_eq!(db.update(s("users"), s("u1"), s("age"), s("31")), 200);
    assert_eq!(
        sorted(db.get_all_fields(s("users"), s("u1"))),
        vec![(s("age"), s("31")), (s("name"), s("Ann"))]
    );
    assert_eq!(db.remove_record(s("users"), s("u1")), 200);
    assert_eq!(db.get_all_fields(s("users"), s("u1")), Vec::<(String, String)>::new());
    assert_eq!(db.drop_table(s("users")), 200);
    assert_eq!(db.table_size(s("users")), 404);
}

#[test]
fn create_table_twice_conflicts() {
    let mut db = fresh();
    assert_eq!(db.create_table(s("t")), 200);
    assert_eq!(db.insert(s("t"), s("k"), s("f"), s("v")), 200);
    assert_eq!(db.create_table(s("t")), 409);
    assert_eq!(db.get_value(s("t"), s("k"), s("f")), Some(s("v")));
    assert_eq!(db.list_tables(), vec![s("t")]);
}

#[test]
fn create_table_empty_name_is_invalid() {
    let mut db = fresh();
    assert_eq!(db.create_table(s("")), 400);
    assert_eq!(db.list_tables(), Vec::<String>::new());
}

#[test]
fn drop_missing_table_is_not_found() {
    let mut db = fresh();
    assert_eq!(db.create_table(s("a")), 200);
    assert_eq!(db.drop_table(s("b")), 404);
    assert_eq!(db.list_tables(), vec![s("a")]);
}

#[test]
fn list_tables_holds_each_name_once() {
    let mut db = fresh();
    assert_eq!(db.create_table(s("a")), 200);
    assert_eq!(db.create_table(s("b")), 200);
    assert_eq!(db.create_table(s("c")), 200);
    assert_eq!(db.drop_table(s("b")), 200);
    assert_eq!(db.create_table(s("a")), 409);
    let mut names = db.list_tables();
    names.sort();
    assert_eq!(names, vec![s("a"), s("c")]);
}

#[test]
fn table_size_counts_records_not_fields() {
    let mut db = fresh();
    assert_eq!(db.create_table(s("t")), 200);
    assert_eq!(db.table_size(s("t")), 0);
    assert_eq!(db.insert(s("t"), s("k1"), s("a"), s("1")), 200);
    assert_eq!(db.insert(s("t"), s("k1"), s("b"), s("2")), 200);
    assert_eq!(db.insert(s("t"), s("k1"), s("c"), s("3")), 200);
    assert_eq!(db.table_size(s("t")), 1);
    assert_eq!(db.insert(s("t"), s("k2"), s("a"), s("1")), 200);
    assert_eq!(db.table_size(s("t")), 2);
    assert_eq!(db.table_size(s("other")), 404);
}

#[test]
fn empty_table_persists_until_dropped() {
    let mut db = fresh();
    assert_eq!(db.create_table(s("t")), 200);
    assert_eq!(db.insert(s("t"), s("k"), s("f"), s("v")), 200);
    assert_eq!(db.remove_record(s("t"), s("k")), 200);
    assert_eq!(db.table_size(s("t")), 0);
    assert_eq!(db.list_tables(), vec![s("t")]);
}

#[test]
fn insert_into_missing_table_is_not_found() {
    let mut db = fresh();
    assert_eq!(db.insert(s("t"), s("k"), s("f"), s("v")), 404);
    assert_eq!(db.list_tables(), Vec::<String>::new());
    assert_eq!(db.get_value(s("t"), s("k"), s("f")), None);
}

#[test]
fn insert_missing_table_comes_before_empty_key() {
    let mut db = fresh();
    assert_eq!(db.insert(s("t"), s(""), s(""), s("v")), 404);
}

#[test]
fn insert_empty_key_or_field_is_invalid() {
    let mut db = fresh();
    assert_eq!(db.create_table(s("t")), 200);
    assert_eq!(db.insert(s("t"), s(""), s("f"), s("v")), 400);
    assert_eq!(db.insert(s("t"), s("k"), s(""), s("v")), 400);
    assert_eq!(db.insert(s("t"), s(""), s(""), s("v")), 400);
    assert_eq!(db.table_size(s("t")), 0);
    assert_eq!(db.get_value(s("t"), s(""), s("f")), None);
    assert_eq!(db.get_value(s("t"), s("k"), s("")), None);
}

#[test]
fn insert_accepts_empty_value() {
    let mut db = fresh();
    assert_eq!(db.create_table(s("t")), 200);
    assert_eq!(db.insert(s("t"), s("k"), s("f"), s("")), 200);
    assert_eq!(db.get_value(s("t"), s("k"), s("f")), Some(s("")));
}

#[test]
fn insert_overwrites_existing_field() {
    let mut db = fresh();
    assert_eq!(db.create_table(s("t")), 200);
    assert_eq!(db.insert(s("t"), s("k"), s("f"), s("old")), 200);
    assert_eq!(db.insert(s("t"), s("k"), s("f"), s("new")), 200);
    assert_eq!(db.get_value(s("t"), s("k"), s("f")), Some(s("new")));
    assert_eq!(db.get_all_fields(s("t"), s("k")), vec![(s("f"), s("new"))]);
    assert_eq!(db.table_size(s("t")), 1);
}

#[test]
fn insert_then_get_value_round_trip() {
    let mut db = fresh();
    assert_eq!(db.create_table(s("t1")), 200);
    assert_eq!(db.create_table(s("t2")), 200);
    for (t, k, f, v) in [
        ("t1", "k1", "f1", "a"),
        ("t1", "k1", "f2", "b"),
        ("t1", "k2", "f1", "c"),
        ("t2", "k1", "f1", "d"),
    ] {
        assert_eq!(db.insert(s(t), s(k), s(f), s(v)), 200);
        assert_eq!(db.get_value(s(t), s(k), s(f)), Some(s(v)));
    }
    assert_eq!(db.get_value(s("t1"), s("k1"), s("f1")), Some(s("a")));
    assert_eq!(db.get_value(s("t1"), s("k1"), s("f2")), Some(s("b")));
    assert_eq!(db.get_value(s("t1"), s("k2"), s("f1")), Some(s("c")));
    assert_eq!(db.get_value(s("t2"), s("k1"), s("f1")), Some(s("d")));
    assert_eq!(db.get_value(s("t2"), s("k2"), s("f1")), None);
}

#[test]
fn tables_do_not_share_records() {
    let mut db = fresh();
    assert_eq!(db.create_table(s("a")), 200);
    assert_eq!(db.create_table(s("b")), 200);
    assert_eq!(db.insert(s("a"), s("k"), s("f"), s("1")), 200);
    assert_eq!(db.get_value(s("b"), s("k"), s("f")), None);
    assert_eq!(db.insert(s("b"), s("k"), s("f"), s("2")), 200);
    assert_eq!(db.drop_table(s("b")), 200);
    assert_eq!(db.get_value(s("a"), s("k"), s("f")), Some(s("1")));
}

#[test]
fn update_requires_table_record_and_field() {
    let mut db = fresh();
    assert_eq!(db.update(s("t"), s("k"), s("f"), s("v")), 404);
    assert_eq!(db.create_table(s("t")), 200);
    assert_eq!(db.update(s("t"), s("k"), s("f"), s("v")), 404);
    assert_eq!(db.table_size(s("t")), 0);
    assert_eq!(db.insert(s("t"), s("k"), s("other"), s("x")), 200);
    assert_eq!(db.update(s("t"), s("k"), s("f"), s("v")), 404);
    assert_eq!(db.get_all_fields(s("t"), s("k")), vec![(s("other"), s("x"))]);
    assert_eq!(db.update(s("t"), s("k"), s("other"), s("y")), 200);
    assert_eq!(db.get_value(s("t"), s("k"), s("other")), Some(s("y")));
}

#[test]
fn get_value_absence_is_none() {
    let mut db = fresh();
    assert_eq!(db.get_value(s("t"), s("k"), s("f")), None);
    assert_eq!(db.create_table(s("t")), 200);
    assert_eq!(db.get_value(s("t"), s("k"), s("f")), None);
    assert_eq!(db.insert(s("t"), s("k"), s("g"), s("v")), 200);
    assert_eq!(db.get_value(s("t"), s("k"), s("f")), None);
    assert_eq!(db.get_value(s("t"), s("k"), s("g")), Some(s("v")));
}

#[test]
fn remove_field_needs_table_and_record() {
    let mut db = fresh();
    assert_eq!(db.remove_field(s("t"), s("k"), s("f")), 404);
    assert_eq!(db.create_table(s("t")), 200);
    assert_eq!(db.remove_field(s("t"), s("k"), s("f")), 404);
    assert_eq!(db.insert(s("t"), s("k"), s("f"), s("v")), 200);
    assert_eq!(db.insert(s("t"), s("k"), s("g"), s("w")), 200);
    assert_eq!(db.remove_field(s("t"), s("k"), s("f")), 200);
    assert_eq!(db.get_value(s("t"), s("k"), s("f")), None);
    assert_eq!(db.get_value(s("t"), s("k"), s("g")), Some(s("w")));
}

#[test]
fn remove_absent_field_is_idempotent() {
    let mut db = fresh();
    assert_eq!(db.create_table(s("t")), 200);
    assert_eq!(db.insert(s("t"), s("k"), s("f"), s("v")), 200);
    assert_eq!(db.remove_field(s("t"), s("k"), s("missing")), 200);
    assert_eq!(db.get_all_fields(s("t"), s("k")), vec![(s("f"), s("v"))]);
    assert_eq!(db.remove_field(s("t"), s("k"), s("f")), 200);
    assert_eq!(db.remove_field(s("t"), s("k"), s("f")), 200);
    assert_eq!(db.get_all_fields(s("t"), s("k")), Vec::<(String, String)>::new());
    assert_eq!(db.table_size(s("t")), 1);
}

#[test]
fn record_without_fields_stays() {
    let mut db = fresh();
    assert_eq!(db.create_table(s("t")), 200);
    assert_eq!(db.insert(s("t"), s("k"), s("f"), s("v")), 200);
    assert_eq!(db.remove_field(s("t"), s("k"), s("f")), 200);
    assert_eq!(db.table_size(s("t")), 1);
    assert_eq!(db.remove_field(s("t"), s("k"), s("f")), 200);
    assert_eq!(db.update(s("t"), s("k"), s("f"), s("v")), 404);
    assert_eq!(db.remove_record(s("t"), s("k")), 200);
    assert_eq!(db.table_size(s("t")), 0);
    assert_eq!(db.remove_field(s("t"), s("k"), s("f")), 404);
}

#[test]
fn remove_absent_record_is_idempotent() {
    let mut db = fresh();
    assert_eq!(db.remove_record(s("t"), s("k")), 404);
    assert_eq!(db.create_table(s("t")), 200);
    assert_eq!(db.insert(s("t"), s("k1"), s("f"), s("v")), 200);
    assert_eq!(db.remove_record(s("t"), s("k2")), 200);
    assert_eq!(db.table_size(s("t")), 1);
    assert_eq!(db.remove_record(s("t"), s("k1")), 200);
    assert_eq!(db.remove_record(s("t"), s("k1")), 200);
    assert_eq!(db.table_size(s("t")), 0);
}

#[test]
fn remove_record_keeps_other_records() {
    let mut db = fresh();
    assert_eq!(db.create_table(s("t")), 200);
    assert_eq!(db.insert(s("t"), s("k1"), s("f"), s("1")), 200);
    assert_eq!(db.insert(s("t"), s("k2"), s("f"), s("2")), 200);
    assert_eq!(db.insert(s("t"), s("k3"), s("f"), s("3")), 200);
    assert_eq!(db.remove_record(s("t"), s("k2")), 200);
    assert_eq!(db.get_value(s("t"), s("k1"), s("f")), Some(s("1")));
    assert_eq!(db.get_value(s("t"), s("k2"), s("f")), None);
    assert_eq!(db.get_value(s("t"), s("k3"), s("f")), Some(s("3")));
    assert_eq!(db.table_size(s("t")), 2);
}

#[test]
fn dropped_table_answers_not_found() {
    let mut db = fresh();
    assert_eq!(db.create_table(s("t")), 200);
    assert_eq!(db.insert(s("t"), s("k"), s("f"), s("v")), 200);
    assert_eq!(db.drop_table(s("t")), 200);
    assert_eq!(db.table_size(s("t")), 404);
    assert_eq!(db.insert(s("t"), s("k"), s("f"), s("v")), 404);
    assert_eq!(db.update(s("t"), s("k"), s("f"), s("v")), 404);
    assert_eq!(db.remove_field(s("t"), s("k"), s("f")), 404);
    assert_eq!(db.remove_record(s("t"), s("k")), 404);
    assert_eq!(db.drop_table(s("t")), 404);
    assert_eq!(db.get_value(s("t"), s("k"), s("f")), None);
    assert_eq!(db.get_fields(s("t"), s("k"), vec![s("f")]), Vec::<(String, String)>::new());
    assert_eq!(db.get_all_fields(s("t"), s("k")), Vec::<(String, String)>::new());
}

#[test]
fn recreated_table_starts_empty() {
    let mut db = fresh();
    assert_eq!(db.create_table(s("t")), 200);
    assert_eq!(db.insert(s("t"), s("k"), s("f"), s("v")), 200);
    assert_eq!(db.drop_table(s("t")), 200);
    assert_eq!(db.create_table(s("t")), 200);
    assert_eq!(db.table_size(s("t")), 0);
    assert_eq!(db.get_value(s("t"), s("k"), s("f")), None);
}

#[test]
fn get_fields_returns_only_existing() {
    let mut db = fresh();
    assert_eq!(db.create_table(s("t")), 200);
    assert_eq!(db.insert(s("t"), s("k"), s("f1"), s("value")), 200);
    assert_eq!(
        db.get_fields(s("t"), s("k"), vec![s("f1"), s("f2"), s("f3")]),
        vec![(s("f1"), s("value"))]
    );
}

#[test]
fn get_fields_follows_the_request() {
    let mut db = fresh();
    assert_eq!(db.create_table(s("t")), 200);
    assert_eq!(db.insert(s("t"), s("k"), s("a"), s("1")), 200);
    assert_eq!(db.insert(s("t"), s("k"), s("b"), s("2")), 200);
    assert_eq!(db.insert(s("t"), s("k"), s("c"), s("3")), 200);
    assert_eq!(
        db.get_fields(s("t"), s("k"), vec![s("c"), s("x"), s("a")]),
        vec![(s("c"), s("3")), (s("a"), s("1"))]
    );
    assert_eq!(db.get_fields(s("t"), s("k"), vec![]), Vec::<(String, String)>::new());
    assert_eq!(
        db.get_fields(s("t"), s("k"), vec![s("b"), s("b")]),
        vec![(s("b"), s("2")), (s("b"), s("2"))]
    );
}

#[test]
fn get_fields_of_absent_record_is_empty() {
    let mut db = fresh();
    assert_eq!(db.get_fields(s("t"), s("k"), vec![s("f")]), Vec::<(String, String)>::new());
    assert_eq!(db.create_table(s("t")), 200);
    assert_eq!(db.get_fields(s("t"), s("k"), vec![s("f")]), Vec::<(String, String)>::new());
}

#[test]
fn get_all_fields_lists_every_pair() {
    let mut db = fresh();
    assert_eq!(db.get_all_fields(s("t"), s("k")), Vec::<(String, String)>::new());
    assert_eq!(db.create_table(s("t")), 200);
    assert_eq!(db.get_all_fields(s("t"), s("k")), Vec::<(String, String)>::new());
    assert_eq!(db.insert(s("t"), s("k"), s("b"), s("2")), 200);
    assert_eq!(db.insert(s("t"), s("k"), s("a"), s("1")), 200);
    assert_eq!(db.insert(s("t"), s("k"), s("c"), s("3")), 200);
    assert_eq!(db.remove_field(s("t"), s("k"), s("b")), 200);
    assert_eq!(
        sorted(db.get_all_fields(s("t"), s("k"))),
        vec![(s("a"), s("1")), (s("c"), s("3"))]
    );
}

#[test]
fn keys_differing_in_case_are_distinct() {
    let mut db = fresh();
    assert_eq!(db.create_table(s("T")), 200);
    assert_eq!(db.create_table(s("t")), 200);
    assert_eq!(db.insert(s("t"), s("k"), s("F"), s("1")), 200);
    assert_eq!(db.insert(s("t"), s("k"), s("f"), s("2")), 200);
    assert_eq!(db.get_value(s("t"), s("k"), s("F")), Some(s("1")));
    assert_eq!(db.get_value(s("T"), s("k"), s("F")), None);
}

#[test]
fn store_descriptors_name_every_operation() {
    let db = fresh();
    let tools = db.tools();
    assert_eq!(tools, in_memory_db::descriptors::store_tools());
    for name in [
        "create_table",
        "drop_table",
        "list_tables",
        "table_size",
        "insert",
        "update",
        "get_value",
        "remove_field",
        "remove_record",
        "get_fields",
        "get_all_fields",
    ] {
        assert!(tools.contains(&format!("\"name\": \"{}\"", name)));
    }
    assert_eq!(tools.matches("\"type\": \"function\"").count(), 11);
    assert!(tools.starts_with("[\n  {\n    \"type\": \"function\","));
    assert!(tools.ends_with("}\n]"));
    assert_eq!(db.prompts(), "{\n  \"prompts\": []\n}");
}

#[test]
fn store_descriptors_do_not_depend_on_the_state() {
    let mut db = fresh();
    let before = db.tools();
    assert_eq!(db.create_table(s("t")), 200);
    assert_eq!(db.insert(s("t"), s("k"), s("f"), s("v")), 200);
    assert_eq!(db.tools(), before);
}

#[test]
fn update_of_missing_field_matches_its_descriptor() {
    let mut db = fresh();
    assert_eq!(db.create_table(s("t")), 200);
    assert_eq!(db.insert(s("t"), s("k"), s("f"), s("v")), 200);
    assert_eq!(db.update(s("t"), s("k"), s("g"), s("v")), 404);
    assert!(db.tools().contains(
        "updates a field value for a given key (returns 200 success, 404 table, record or field missing)\\n"
    ));
}

use in_memory_db::access::{AccessMode, Operation};
use in_memory_db::catalog::Catalog;
use in_memory_db::record::Record;
use in_memory_db::status::{
    status_of, StoreError, STATUS_CONFLICT, STATUS_INVALID, STATUS_NOT_FOUND, STATUS_OK,
};
use in_memory_db::strmap::StrMap;
use in_memory_db::table::Table;

fn s(x: &str) -> String {
    x.to_string()
}

#[test]
fn status_codes_have_their_values() {
    assert_eq!(STATUS_OK, 200);
    assert_eq!(STATUS_INVALID, 400);
    assert_eq!(STATUS_NOT_FOUND, 404);
    assert_eq!(STATUS_CONFLICT, 409);
    assert_eq!(StoreError::NotFound.code(), 404);
    assert_eq!(StoreError::AlreadyExists.code(), 409);
    assert_eq!(StoreError::InvalidInput.code(), 400);
    assert_eq!(status_of(Ok(())), 200);
    assert_eq!(status_of(Err(StoreError::NotFound)), 404);
    assert_eq!(status_of(Err(StoreError::AlreadyExists)), 409);
    assert_eq!(status_of(Err(StoreError::InvalidInput)), 400);
}

#[test]
fn access_mode_of_each_operation() {
    for op in [
        Operation::CreateTable,
        Operation::DropTable,
        Operation::Insert,
        Operation::Update,
        Operation::RemoveField,
        Operation::RemoveRecord,
    ] {
        assert_eq!(op.access_mode(), AccessMode::Exclusive);
    }
    for op in [
        Operation::ListTables,
        Operation::TableSize,
        Operation::GetValue,
        Operation::GetFields,
        Operation::GetAllFields,
    ] {
        assert_eq!(op.access_mode(), AccessMode::Shared);
    }
}

#[test]
fn strmap_keeps_insertion_order() {
    let mut m: StrMap<u32> = StrMap::new();
    assert_eq!(m.len(), 0);
    m.push(s("b"), 2);
    m.push(s("a"), 1);
    m.push(s("c"), 3);
    assert_eq!(m.len(), 3);
    assert_eq!(m.key_list(), vec![s("b"), s("a"), s("c")]);
    assert_eq!(m.position(&s("a")), Some(1));
    assert_eq!(m.position(&s("z")), None);
    assert_eq!(m.key_at(2), "c");
    assert_eq!(*m.value_at(2), 3);
    *m.value_at_mut(1) = 10;
    assert_eq!(*m.value_at(1), 10);
    assert_eq!(m.remove_at(0), 2);
    assert_eq!(m.key_list(), vec![s("a"), s("c")]);
    assert_eq!(m.position(&s("c")), Some(1));
    assert_eq!(*m.value_at(1), 3);
}

#[test]
fn record_set_get_remove() {
    let mut r = Record::new();
    assert_eq!(r.len(), 0);
    assert_eq!(r.get(&s("f")), None);
    assert!(!r.contains(&s("f")));
    assert_eq!(r.set(s("f"), s("1")), Ok(()));
    assert_eq!(r.set(s("g"), s("2")), Ok(()));
    assert_eq!(r.set(s("f"), s("3")), Ok(()));
    assert_eq!(r.set(s(""), s("4")), Err(StoreError::InvalidInput));
    assert_eq!(r.len(), 2);
    assert!(r.contains(&s("f")));
    assert_eq!(r.get(&s("f")), Some(&s("3")));
    assert_eq!(r.get(&s("g")), Some(&s("2")));
    assert_eq!(r.entries(), vec![(s("f"), s("3")), (s("g"), s("2"))]);
    assert_eq!(
        r.select(&vec![s("g"), s("h"), s("f")]),
        vec![(s("g"), s("2")), (s("f"), s("3"))]
    );
    assert!(r.remove(&s("f")));
    assert!(!r.remove(&s("f")));
    assert_eq!(r.entries(), vec![(s("g"), s("2"))]);
}

#[test]
fn table_operations_and_errors() {
    let mut t = Table::new();
    assert_eq!(t.size(), 0);
    assert_eq!(t.insert(s(""), s("f"), s("v")), Err(StoreError::InvalidInput));
    assert_eq!(t.insert(s("k"), s(""), s("v")), Err(StoreError::InvalidInput));
    assert_eq!(t.update(&s("k"), s("f"), s("v")), Err(StoreError::NotFound));
    assert_eq!(t.remove_field(&s("k"), &s("f")), Err(StoreError::NotFound));
    assert!(!t.remove_record(&s("k")));
    assert_eq!(t.insert(s("k"), s("f"), s("v")), Ok(()));
    assert_eq!(t.size(), 1);
    assert_eq!(t.update(&s("k"), s("g"), s("w")), Err(StoreError::NotFound));
    assert_eq!(t.update(&s("k"), s("f"), s("w")), Ok(()));
    assert_eq!(t.get_value(&s("k"), &s("f")), Some(&s("w")));
    assert_eq!(t.get_value(&s("k"), &s("g")), None);
    assert_eq!(t.get_value(&s("j"), &s("f")), None);
    assert_eq!(t.get_fields(&s("k"), &vec![s("g"), s("f")]), vec![(s("f"), s("w"))]);
    assert_eq!(t.get_fields(&s("j"), &vec![s("f")]), Vec::<(String, String)>::new());
    assert_eq!(t.get_all_fields(&s("k")), vec![(s("f"), s("w"))]);
    assert_eq!(t.get_all_fields(&s("j")), Vec::<(String, String)>::new());
    assert_eq!(t.remove_field(&s("k"), &s("g")), Ok(()));
    assert_eq!(t.remove_field(&s("k"), &s("f")), Ok(()));
    assert_eq!(t.size(), 1);
    assert!(t.remove_record(&s("k")));
    assert_eq!(t.size(), 0);
}

#[test]
fn catalog_operations_and_errors() {
    let mut c = Catalog::new();
    assert_eq!(c.create_table(s("")), Err(StoreError::InvalidInput));
    assert_eq!(c.create_table(s("a")), Ok(()));
    assert_eq!(c.create_table(s("a")), Err(StoreError::AlreadyExists));
    assert_eq!(c.create_table(s("b")), Ok(()));
    assert_eq!(c.list_tables(), vec![s("a"), s("b")]);
    assert_eq!(c.table_size(&s("a")), Ok(0));
    assert_eq!(c.table_size(&s("z")), Err(StoreError::NotFound));
    assert!(c.resolve(&s("z")).is_err());
    assert!(c.resolve_mut(&s("z")).is_err());
    assert_eq!(c.resolve_mut(&s("a")).unwrap().insert(s("k"), s("f"), s("v")), Ok(()));
    assert_eq!(c.resolve(&s("a")).unwrap().get_value(&s("k"), &s("f")), Some(&s("v")));
    assert_eq!(c.resolve(&s("b")).unwrap().get_value(&s("k"), &s("f")), None);
    assert_eq!(c.table_size(&s("a")), Ok(1));
    assert_eq!(c.drop_table(&s("z")), Err(StoreError::NotFound));
    assert_eq!(c.drop_table(&s("a")), Ok(()));
    assert_eq!(c.list_tables(), vec![s("b")]);
    assert_eq!(c.table_size(&s("a")), Err(StoreError::NotFound));
}

//! The mathematical model of the store: nested finite maps over character
//! sequences, and the effect of each operation on them.

use crate::status::{StoreError, STATUS_NOT_FOUND};
use vstd::prelude::*;

verus! {

/// The mathematical value of a string: its sequence of characters.
pub type Text = Seq<char>;

/// A record: field name to value.
pub type RecordModel = Map<Text, Text>;

/// A table: primary key to record.
pub type TableModel = Map<Text, RecordModel>;

/// A store: table name to table.
pub type StoreModel = Map<Text, TableModel>;

/// A record is valid if it has finitely many fields and no field name is
/// empty.
pub open spec fn valid_record(rec: RecordModel) -> bool {
    &&& rec.dom().finite()
    &&& forall|field: Text| rec.contains_key(field) ==> field.len() > 0
}

/// A table is valid if it has finitely many records, no key is empty and
/// every record is valid.
pub open spec fn valid_table(table: TableModel) -> bool {
    &&& table.dom().finite()
    &&& forall|key: Text| #[trigger]
        table.contains_key(key) ==> key.len() > 0 && valid_record(table[key])
}

/// A store is valid if it has finitely many tables, no table name is empty
/// and every table is valid.
pub open spec fn valid_store(store: StoreModel) -> bool {
    &&& store.dom().finite()
    &&& forall|name: Text| #[trigger]
        store.contains_key(name) ==> name.len() > 0 && valid_table(store[name])
}

/// What storing under a name answers: an empty name is refused.
pub open spec fn name_check(name: Text) -> Result<(), StoreError> {
    if name.len() == 0 {
        Err(StoreError::InvalidInput)
    } else {
        Ok(())
    }
}

/// The character sequences of a sequence of strings.
pub open spec fn texts(s: Seq<String>) -> Seq<Text> {
    s.map_values(|x: String| x@)
}

/// The character sequences of a sequence of (field, value) pairs.
pub open spec fn pairs(s: Seq<(String, String)>) -> Seq<(Text, Text)> {
    s.map_values(|p: (String, String)| (p.0@, p.1@))
}

/// `names` holds every key of `m`, each exactly once, and nothing else.
pub open spec fn lists_keys<V>(names: Seq<Text>, m: Map<Text, V>) -> bool {
    &&& names.no_duplicates()
    &&& forall|k: Text| names.contains(k) <==> m.contains_key(k)
}

/// `list` holds every (field, value) pair of `rec`, each field exactly once,
/// and nothing else.
pub open spec fn lists_record(list: Seq<(Text, Text)>, rec: RecordModel) -> bool {
    &&& lists_keys(list.map_values(|p: (Text, Text)| p.0), rec)
    &&& forall|i: int| 0 <= i < list.len() ==> rec[(#[trigger] list[i]).0] == list[i].1
}

/// The (field, value) pairs of `rec` for the requested `names`, in the order
/// of the request; names that `rec` does not hold are passed over.
pub open spec fn select(rec: RecordModel, names: Seq<Text>) -> Seq<(Text, Text)>
    decreases names.len(),
{
    if names.len() == 0 {
        Seq::empty()
    } else {
        let rest = select(rec, names.drop_last());
        let name = names.last();
        if rec.contains_key(name) {
            rest.push((name, rec[name]))
        } else {
            rest
        }
    }
}

/// An empty record holds none of the requested fields.
pub proof fn lemma_select_nothing(names: Seq<Text>)
    ensures
        select(RecordModel::empty(), names) == Seq::<(Text, Text)>::empty(),
    decreases names.len(),
{
    if names.len() > 0 {
        lemma_select_nothing(names.drop_last());
    }
}

/// Only the empty list holds the pairs of an empty record.
pub proof fn lemma_lists_empty(list: Seq<(Text, Text)>)
    requires
        lists_record(list, RecordModel::empty()),
    ensures
        list == Seq::<(Text, Text)>::empty(),
{
    if list.len() > 0 {
        let names = list.map_values(|p: (Text, Text)| p.0);
        assert(names[0] == list[0].0);
        assert(names.contains(list[0].0));
    }
    assert(list =~= Seq::<(Text, Text)>::empty());
}

/// The record under `key`, or the empty record where there is none.
pub open spec fn record_or_empty(table: TableModel, key: Text) -> RecordModel {
    if table.contains_key(key) {
        table[key]
    } else {
        Map::empty()
    }
}

/// The value of `field` in the record under `key`, if both exist.
pub open spec fn field_value(table: TableModel, key: Text, field: Text) -> Option<Text> {
    if table.contains_key(key) && table[key].contains_key(field) {
        Some(table[key][field])
    } else {
        None
    }
}

/// What inserting a field answers: empty keys and field names are refused.
pub open spec fn insert_check(key: Text, field: Text) -> Result<(), StoreError> {
    if key.len() == 0 || field.len() == 0 {
        Err(StoreError::InvalidInput)
    } else {
        Ok(())
    }
}

/// The table after `field` of the record under `key` was set to `value`; the
/// record is created if there was none.
pub open spec fn with_field(table: TableModel, key: Text, field: Text, value: Text) -> TableModel {
    table.insert(key, record_or_empty(table, key).insert(field, value))
}

/// What updating a field answers: the field must already exist.
pub open spec fn update_check(table: TableModel, key: Text, field: Text) -> Result<
    (),
    StoreError,
> {
    if field_value(table, key, field) is Some {
        Ok(())
    } else {
        Err(StoreError::NotFound)
    }
}

/// What removing a field answers: the record must exist, the field need not.
pub open spec fn remove_field_check(table: TableModel, key: Text) -> Result<(), StoreError> {
    if table.contains_key(key) {
        Ok(())
    } else {
        Err(StoreError::NotFound)
    }
}

/// The table after `field` was taken out of the record under `key`. The
/// record stays, even without fields.
pub open spec fn without_field(table: TableModel, key: Text, field: Text) -> TableModel {
    table.insert(key, table[key].remove(field))
}

/// What creating a table answers: the name must not be empty and must not
/// be taken.
pub open spec fn create_check(store: StoreModel, name: Text) -> Result<(), StoreError> {
    if name.len() == 0 {
        Err(StoreError::InvalidInput)
    } else if store.contains_key(name) {
        Err(StoreError::AlreadyExists)
    } else {
        Ok(())
    }
}

/// What naming a table answers: the table must exist.
pub open spec fn resolve_check(store: StoreModel, name: Text) -> Result<(), StoreError> {
    if store.contains_key(name) {
        Ok(())
    } else {
        Err(StoreError::NotFound)
    }
}

/// The store after a table was created, or unchanged where creating it is
/// refused.
pub open spec fn after_create(store: StoreModel, name: Text) -> StoreModel {
    if create_check(store, name) is Ok {
        store.insert(name, TableModel::empty())
    } else {
        store
    }
}

/// What inserting a field into a table of the store answers: the table must
/// exist; then key and field name must not be empty.
pub open spec fn insert_outcome(store: StoreModel, table: Text, key: Text, field: Text) -> Result<
    (),
    StoreError,
> {
    if store.contains_key(table) {
        insert_check(key, field)
    } else {
        Err(StoreError::NotFound)
    }
}

/// The store after an insert, or unchanged where the insert is refused.
pub open spec fn after_insert(
    store: StoreModel,
    table: Text,
    key: Text,
    field: Text,
    value: Text,
) -> StoreModel {
    if insert_outcome(store, table, key, field) is Ok {
        store.insert(table, with_field(store[table], key, field, value))
    } else {
        store
    }
}

/// What updating a field answers: table, record and field must all exist.
pub open spec fn update_outcome(store: StoreModel, table: Text, key: Text, field: Text) -> Result<
    (),
    StoreError,
> {
    if store.contains_key(table) {
        update_check(store[table], key, field)
    } else {
        Err(StoreError::NotFound)
    }
}

/// The store after an update, or unchanged where the update is refused.
pub open spec fn after_update(
    store: StoreModel,
    table: Text,
    key: Text,
    field: Text,
    value: Text,
) -> StoreModel {
    if update_outcome(store, table, key, field) is Ok {
        store.insert(table, with_field(store[table], key, field, value))
    } else {
        store
    }
}

/// What removing a field answers: table and record must exist.
pub open spec fn remove_field_outcome(store: StoreModel, table: Text, key: Text) -> Result<
    (),
    StoreError,
> {
    if store.contains_key(table) {
        remove_field_check(store[table], key)
    } else {
        Err(StoreError::NotFound)
    }
}

/// The store after a field was removed, or unchanged where that is refused.
pub open spec fn after_remove_field(
    store: StoreModel,
    table: Text,
    key: Text,
    field: Text,
) -> StoreModel {
    if remove_field_outcome(store, table, key) is Ok {
        store.insert(table, without_field(store[table], key, field))
    } else {
        store
    }
}

/// The store after a record was removed, or unchanged where the table is
/// absent.
pub open spec fn after_remove_record(store: StoreModel, table: Text, key: Text) -> StoreModel {
    if store.contains_key(table) {
        store.insert(table, store[table].remove(key))
    } else {
        store
    }
}

/// The value stored under table, key and field, if all three exist.
pub open spec fn stored_value(store: StoreModel, table: Text, key: Text, field: Text) -> Option<
    Text,
> {
    if store.contains_key(table) {
        field_value(store[table], key, field)
    } else {
        None
    }
}

/// The record stored under table and key, or the empty record where either
/// is absent.
pub open spec fn stored_record(store: StoreModel, table: Text, key: Text) -> RecordModel {
    if store.contains_key(table) {
        record_or_empty(store[table], key)
    } else {
        Map::empty()
    }
}

/// What asking for a table's size answers: 404 where the table is absent,
/// else the number of its records, capped at the largest `i32`.
pub open spec fn size_answer(store: StoreModel, table: Text) -> int {
    if !store.contains_key(table) {
        STATUS_NOT_FOUND as int
    } else if store[table].dom().len() > i32::MAX {
        i32::MAX as int
    } else {
        store[table].dom().len() as int
    }
}

} // verus!

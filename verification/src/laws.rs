//! Laws that relate the operations of the store to one another, stated over
//! the model and proved from it.

use crate::access::Operation;
use crate::model::{
    after_create, after_insert, after_remove_field, after_remove_record, after_update,
    create_check, insert_outcome, lists_record, remove_field_outcome, resolve_check, select,
    size_answer, stored_record, stored_value, update_outcome, valid_store, RecordModel,
    StoreModel, Text,
};
use crate::status::{spec_status_of, StoreError, STATUS_NOT_FOUND, STATUS_OK};
use vstd::prelude::*;

verus! {

/// Removing a field that an existing record does not hold succeeds and
/// leaves the store as it was.
pub proof fn law_remove_absent_field(store: StoreModel, table: Text, key: Text, field: Text)
    requires
        store.contains_key(table),
        store[table].contains_key(key),
        !store[table][key].contains_key(field),
    ensures
        spec_status_of(remove_field_outcome(store, table, key)) == STATUS_OK,
        after_remove_field(store, table, key, field) == store,
{
    assert(store[table][key].remove(field) =~= store[table][key]);
    assert(store[table].insert(key, store[table][key]) =~= store[table]);
    assert(store.insert(table, store[table]) =~= store);
}

/// Removing a field twice leaves the store as removing it once does, and
/// both calls give the same answer.
pub proof fn law_remove_field_twice(store: StoreModel, table: Text, key: Text, field: Text)
    ensures
        ({
            let once = after_remove_field(store, table, key, field);
            &&& after_remove_field(once, table, key, field) == once
            &&& remove_field_outcome(once, table, key) == remove_field_outcome(store, table, key)
        }),
{
    let once = after_remove_field(store, table, key, field);
    if remove_field_outcome(store, table, key) is Ok {
        assert(once[table][key].remove(field) =~= once[table][key]);
        assert(once[table].insert(key, once[table][key]) =~= once[table]);
        assert(once.insert(table, once[table]) =~= once);
    }
}

/// Removing a record that an existing table does not hold succeeds and
/// leaves the store as it was.
pub proof fn law_remove_absent_record(store: StoreModel, table: Text, key: Text)
    requires
        store.contains_key(table),
        !store[table].contains_key(key),
    ensures
        spec_status_of(resolve_check(store, table)) == STATUS_OK,
        after_remove_record(store, table, key) == store,
{
    assert(store[table].remove(key) =~= store[table]);
    assert(store.insert(table, store[table]) =~= store);
}

/// Removing a record twice leaves the store as removing it once does, and
/// both calls give the same answer.
pub proof fn law_remove_record_twice(store: StoreModel, table: Text, key: Text)
    ensures
        ({
            let once = after_remove_record(store, table, key);
            &&& after_remove_record(once, table, key) == once
            &&& resolve_check(once, table) == resolve_check(store, table)
        }),
{
    let once = after_remove_record(store, table, key);
    if store.contains_key(table) {
        assert(once[table].remove(key) =~= once[table]);
        assert(once.insert(table, once[table]) =~= once);
    }
}

/// A value that was inserted is the value that is read back.
pub proof fn law_insert_then_get(
    store: StoreModel,
    table: Text,
    key: Text,
    field: Text,
    value: Text,
)
    requires
        insert_outcome(store, table, key, field) is Ok,
    ensures
        stored_value(after_insert(store, table, key, field, value), table, key, field) == Some(
            value,
        ),
{
}

/// An insert is accepted exactly when the table exists and neither key nor
/// field name is empty.
pub proof fn law_insert_accepted(store: StoreModel, table: Text, key: Text, field: Text)
    ensures
        insert_outcome(store, table, key, field) is Ok <==> store.contains_key(table) && key.len()
            > 0 && field.len() > 0,
{
}

/// An insert leaves every other field of the store as it was.
pub proof fn law_insert_leaves_others(
    store: StoreModel,
    table: Text,
    key: Text,
    field: Text,
    value: Text,
    other_table: Text,
    other_key: Text,
    other_field: Text,
)
    requires
        other_table != table || other_key != key || other_field != field,
    ensures
        stored_value(
            after_insert(store, table, key, field, value),
            other_table,
            other_key,
            other_field,
        ) == stored_value(store, other_table, other_key, other_field),
{
}

/// Updating a field that was never inserted answers 404 and changes
/// nothing, whatever other fields the record holds.
pub proof fn law_update_needs_field(
    store: StoreModel,
    table: Text,
    key: Text,
    field: Text,
    value: Text,
)
    requires
        stored_value(store, table, key, field) is None,
    ensures
        update_outcome(store, table, key, field) == Err::<(), StoreError>(StoreError::NotFound),
        spec_status_of(update_outcome(store, table, key, field)) == STATUS_NOT_FOUND,
        after_update(store, table, key, field, value) == store,
{
}

/// Updating a field that exists succeeds, and the new value is read back.
pub proof fn law_update_then_get(
    store: StoreModel,
    table: Text,
    key: Text,
    field: Text,
    value: Text,
)
    requires
        stored_value(store, table, key, field) is Some,
    ensures
        spec_status_of(update_outcome(store, table, key, field)) == STATUS_OK,
        stored_value(after_update(store, table, key, field, value), table, key, field) == Some(
            value,
        ),
{
}

/// Once a table is dropped, its size and every operation on its records
/// answer not-found, and every read of it comes back empty.
pub proof fn law_drop_cascades(
    store: StoreModel,
    table: Text,
    key: Text,
    field: Text,
    value: Text,
    names: Seq<Text>,
    listing: Seq<(Text, Text)>,
)
    requires
        lists_record(listing, stored_record(store.remove(table), table, key)),
    ensures
        ({
            let dropped = store.remove(table);
            &&& size_answer(dropped, table) == STATUS_NOT_FOUND
            &&& spec_status_of(insert_outcome(dropped, table, key, field)) == STATUS_NOT_FOUND
            &&& after_insert(dropped, table, key, field, value) == dropped
            &&& spec_status_of(update_outcome(dropped, table, key, field)) == STATUS_NOT_FOUND
            &&& after_update(dropped, table, key, field, value) == dropped
            &&& spec_status_of(remove_field_outcome(dropped, table, key)) == STATUS_NOT_FOUND
            &&& after_remove_field(dropped, table, key, field) == dropped
            &&& spec_status_of(resolve_check(dropped, table)) == STATUS_NOT_FOUND
            &&& after_remove_record(dropped, table, key) == dropped
            &&& stored_value(dropped, table, key, field) is None
            &&& select(stored_record(dropped, table, key), names) == Seq::<(Text, Text)>::empty()
            &&& listing == Seq::<(Text, Text)>::empty()
        }),
{
    crate::model::lemma_select_nothing(names);
    crate::model::lemma_lists_empty(listing);
}

/// Of three requested fields of which the record holds only the first, a
/// selection gives that field with its value and nothing else.
pub proof fn law_select_only_first(rec: RecordModel, first: Text, second: Text, third: Text)
    requires
        rec.contains_key(first),
        !rec.contains_key(second),
        !rec.contains_key(third),
    ensures
        select(rec, seq![first, second, third]) == seq![(first, rec[first])],
{
    let all = seq![first, second, third];
    let two = seq![first, second];
    let one = seq![first];
    assert(all.drop_last() =~= two);
    assert(two.drop_last() =~= one);
    assert(one.drop_last() =~= Seq::<Text>::empty());
    reveal_with_fuel(select, 4);
    assert(select(rec, one) =~= seq![(first, rec[first])]);
}

/// A selection holds, in the order of the request, the requested fields
/// that the record has, each with its value.
pub proof fn law_select_members(rec: RecordModel, names: Seq<Text>, field: Text, value: Text)
    ensures
        select(rec, names).contains((field, value)) <==> names.contains(field) && rec.contains_pair(
            field,
            value,
        ),
    decreases names.len(),
{
    if names.len() > 0 {
        let front = names.drop_last();
        let rest = select(rec, front);
        law_select_members(rec, front, field, value);
        if names.contains(field) {
            let i = choose|i: int| 0 <= i < names.len() && names[i] == field;
            if i < front.len() {
                assert(front[i] == field);
            }
        }
        if front.contains(field) {
            let i = choose|i: int| 0 <= i < front.len() && front[i] == field;
            assert(names[i] == field);
        }
        assert(names[names.len() - 1] == names.last());
        if rec.contains_key(names.last()) {
            let full = rest.push((names.last(), rec[names.last()]));
            if full.contains((field, value)) {
                let i = choose|i: int| 0 <= i < full.len() && full[i] == (field, value);
                if i < rest.len() {
                    assert(rest[i] == (field, value));
                }
            }
            if rest.contains((field, value)) {
                let i = choose|i: int| 0 <= i < rest.len() && rest[i] == (field, value);
                assert(full[i] == (field, value));
            }
            assert(full[full.len() - 1] == (names.last(), rec[names.last()]));
        }
    }
}

/// An operation that is refused leaves the store as it was.
pub proof fn law_refusal_changes_nothing(
    store: StoreModel,
    table: Text,
    key: Text,
    field: Text,
    value: Text,
)
    ensures
        create_check(store, table) is Err ==> after_create(store, table) == store,
        resolve_check(store, table) is Err ==> store.remove(table) == store,
        insert_outcome(store, table, key, field) is Err ==> after_insert(
            store,
            table,
            key,
            field,
            value,
        ) == store,
        update_outcome(store, table, key, field) is Err ==> after_update(
            store,
            table,
            key,
            field,
            value,
        ) == store,
        remove_field_outcome(store, table, key) is Err ==> after_remove_field(
            store,
            table,
            key,
            field,
        ) == store,
        resolve_check(store, table) is Err ==> after_remove_record(store, table, key) == store,
{
    if !store.contains_key(table) {
        assert(store.remove(table) =~= store);
    }
}

/// Every operation leaves a valid store valid: finitely many tables,
/// records and fields, and no empty table name, key or field name.
pub proof fn law_validity_is_kept(
    store: StoreModel,
    table: Text,
    key: Text,
    field: Text,
    value: Text,
)
    requires
        valid_store(store),
    ensures
        valid_store(after_create(store, table)),
        valid_store(store.remove(table)),
        valid_store(after_insert(store, table, key, field, value)),
        valid_store(after_update(store, table, key, field, value)),
        valid_store(after_remove_field(store, table, key, field)),
        valid_store(after_remove_record(store, table, key)),
{
}

/// An insert that is accepted adds one record to the table if the key is
/// new, and none if the key is there already.
pub proof fn law_insert_counts_new_keys(
    store: StoreModel,
    table: Text,
    key: Text,
    field: Text,
    value: Text,
)
    requires
        valid_store(store),
        insert_outcome(store, table, key, field) is Ok,
    ensures
        after_insert(store, table, key, field, value)[table].dom().len() == store[table].dom().len()
            + (if store[table].contains_key(key) {
            0nat
        } else {
            1nat
        }),
{
    let after = after_insert(store, table, key, field, value)[table];
    assert(after.dom() =~= store[table].dom().insert(key));
}

/// Removing a record takes one record from the table if the key is there,
/// and none if it is not.
pub proof fn law_remove_record_counts(store: StoreModel, table: Text, key: Text)
    requires
        valid_store(store),
        store.contains_key(table),
    ensures
        after_remove_record(store, table, key)[table].dom().len() == store[table].dom().len() - (
        if store[table].contains_key(key) {
            1nat
        } else {
            0nat
        }),
{
    let after = after_remove_record(store, table, key)[table];
    assert(after.dom() =~= store[table].dom().remove(key));
}

/// Whenever an operation is refused, its descriptor names the code of that
/// refusal.
pub proof fn law_refusals_are_described(store: StoreModel, table: Text, key: Text, field: Text)
    ensures
        create_check(store, table) matches Err(e) ==> Operation::CreateTable.refusal_text(e)
            is Some,
        resolve_check(store, table) matches Err(e) ==> {
            &&& Operation::DropTable.refusal_text(e) is Some
            &&& Operation::RemoveRecord.refusal_text(e) is Some
            &&& Operation::TableSize.refusal_text(e) is Some
            &&& size_answer(store, table) == e.spec_code()
        },
        insert_outcome(store, table, key, field) matches Err(e) ==> Operation::Insert.refusal_text(
            e,
        ) is Some,
        update_outcome(store, table, key, field) matches Err(e) ==> Operation::Update.refusal_text(
            e,
        ) is Some,
        remove_field_outcome(store, table, key) matches Err(e)
            ==> Operation::RemoveField.refusal_text(e) is Some,
{
}

} // verus!

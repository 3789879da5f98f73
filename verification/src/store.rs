//! The public surface of the store: every operation answers with a status
//! code or a plain value.

use crate::catalog::Catalog;
use crate::descriptors::{owned, store_tools, tools_text, NO_PROMPTS};
use crate::model::{
    after_create, after_insert, after_remove_field, after_remove_record, after_update,
    create_check, insert_outcome, lists_keys, lists_record, pairs, remove_field_outcome,
    resolve_check, select, size_answer, stored_record, stored_value, texts, update_outcome,
    valid_store, StoreModel,
};
use crate::status::{status_of, STATUS_OK};
use vstd::prelude::*;

verus! {

/// The state of a store: its catalog of tables.
#[allow(non_camel_case_types)]
pub struct in_memory_dbContractState {
    catalog: Catalog,
}

impl View for in_memory_dbContractState {
    type V = StoreModel;

    closed spec fn view(&self) -> StoreModel {
        self.catalog@
    }
}

impl in_memory_dbContractState {
    /// The representation is consistent.
    pub closed spec fn inv(&self) -> bool {
        self.catalog.wf()
    }

    /// The store is consistent and what it holds is valid: finitely many
    /// tables, records and fields, and no empty table name, key or field
    /// name. Every store that this library hands out is.
    pub open spec fn wf(&self) -> bool {
        &&& self.inv()
        &&& valid_store(self@)
    }

    /// A store without tables.
    pub fn new() -> (r: Result<Self, String>)
        ensures
            r is Ok,
            r->Ok_0.wf(),
            r->Ok_0@ == StoreModel::empty(),
    {
        Ok(in_memory_dbContractState { catalog: Catalog::new() })
    }

    /// Creates an empty table: 200; 400 for an empty name; 409 where the
    /// name is taken. A refusal changes nothing.
    pub fn create_table(&mut self, table_name: String) -> (code: i32)
        requires
            old(self).wf(),
        ensures
            final(self).wf(),
            code == status_of(create_check(old(self)@, table_name@)),
            final(self)@ == after_create(old(self)@, table_name@),
    {
        status_of(self.catalog.create_table(table_name))
    }

    /// Drops a table with all its records: 200; 404 where there is no such
    /// table.
    pub fn drop_table(&mut self, table_name: String) -> (code: i32)
        requires
            old(self).wf(),
        ensures
            final(self).wf(),
            code == status_of(resolve_check(old(self)@, table_name@)),
            final(self)@ == old(self)@.remove(table_name@),
    {
        status_of(self.catalog.drop_table(&table_name))
    }

    /// The names of the tables, each once.
    pub fn list_tables(&self) -> (names: Vec<String>)
        requires
            self.wf(),
        ensures
            lists_keys(texts(names@), self@),
    {
        self.catalog.list_tables()
    }

    /// The number of records in a table, or 404 where there is no such
    /// table. A count beyond the largest `i32` is reported as that value.
    pub fn table_size(&self, table_name: String) -> (n: i32)
        requires
            self.wf(),
        ensures
            n == size_answer(self@, table_name@),
            self@.contains_key(table_name@) ==> self@[table_name@].dom().finite(),
    {
        match self.catalog.table_size(&table_name) {
            Ok(count) => {
                if count > 0x7fff_ffff {
                    i32::MAX
                } else {
                    count as i32
                }
            },
            Err(e) => e.code(),
        }
    }

    /// Sets a field of a record, creating record and field as needed: 200;
    /// 404 where the table is absent; 400 for an empty key or field name. A
    /// refusal changes nothing.
    pub fn insert(&mut self, table: String, key: String, field: String, value: String) -> (code:
        i32)
        requires
            old(self).wf(),
        ensures
            final(self).wf(),
            code == status_of(insert_outcome(old(self)@, table@, key@, field@)),
            final(self)@ == after_insert(old(self)@, table@, key@, field@, value@),
    {
        let ghost before = self@;
        let code = match self.catalog.resolve_mut(&table) {
            Ok(t) => status_of(t.insert(key, field, value)),
            Err(e) => e.code(),
        };
        assert(self@ =~= after_insert(before, table@, key@, field@, value@));
        code
    }

    /// Overwrites a field that exists: 200; 404 where table, record or field
    /// is absent. A refusal changes nothing.
    pub fn update(&mut self, table: String, key: String, field: String, value: String) -> (code:
        i32)
        requires
            old(self).wf(),
        ensures
            final(self).wf(),
            code == status_of(update_outcome(old(self)@, table@, key@, field@)),
            final(self)@ == after_update(old(self)@, table@, key@, field@, value@),
    {
        let ghost before = self@;
        let code = match self.catalog.resolve_mut(&table) {
            Ok(t) => status_of(t.update(&key, field, value)),
            Err(e) => e.code(),
        };
        assert(self@ =~= after_update(before, table@, key@, field@, value@));
        code
    }

    /// The value of a field, if table, record and field all exist.
    pub fn get_value(&self, table: String, key: String, field: String) -> (r: Option<String>)
        requires
            self.wf(),
        ensures
            match r {
                Some(v) => stored_value(self@, table@, key@, field@) == Some(v@),
                None => stored_value(self@, table@, key@, field@) is None,
            },
    {
        match self.catalog.resolve(&table) {
            Ok(t) => match t.get_value(&key, &field) {
                Some(v) => Some(v.clone()),
                None => None,
            },
            Err(_) => None,
        }
    }

    /// Removes a field from a record: 200, also where the field was already
    /// absent; 404 where table or record is absent. A refusal changes
    /// nothing.
    pub fn remove_field(&mut self, table: String, key: String, field: String) -> (code: i32)
        requires
            old(self).wf(),
        ensures
            final(self).wf(),
            code == status_of(remove_field_outcome(old(self)@, table@, key@)),
            final(self)@ == after_remove_field(old(self)@, table@, key@, field@),
    {
        let ghost before = self@;
        let code = match self.catalog.resolve_mut(&table) {
            Ok(t) => status_of(t.remove_field(&key, &field)),
            Err(e) => e.code(),
        };
        assert(self@ =~= after_remove_field(before, table@, key@, field@));
        code
    }

    /// Removes a record with all its fields: 200, also where the record was
    /// already absent; 404 where the table is absent.
    pub fn remove_record(&mut self, table: String, key: String) -> (code: i32)
        requires
            old(self).wf(),
        ensures
            final(self).wf(),
            code == status_of(resolve_check(old(self)@, table@)),
            final(self)@ == after_remove_record(old(self)@, table@, key@),
    {
        let ghost before = self@;
        let code = match self.catalog.resolve_mut(&table) {
            Ok(t) => {
                let _ = t.remove_record(&key);
                STATUS_OK
            },
            Err(e) => e.code(),
        };
        assert(self@ =~= after_remove_record(before, table@, key@));
        code
    }

    /// The (field, value) pairs of the requested fields that exist, in the
    /// order of the request. An absent table or record holds none.
    pub fn get_fields(&self, table: String, key: String, fields: Vec<String>) -> (list: Vec<
        (String, String),
    >)
        requires
            self.wf(),
        ensures
            pairs(list@) == select(stored_record(self@, table@, key@), texts(fields@)),
    {
        match self.catalog.resolve(&table) {
            Ok(t) => t.get_fields(&key, &fields),
            Err(_) => {
                let list: Vec<(String, String)> = Vec::new();
                proof {
                    crate::model::lemma_select_nothing(texts(fields@));
                }
                list
            },
        }
    }

    /// Every (field, value) pair of a record, each field once; empty where
    /// table or record is absent.
    pub fn get_all_fields(&self, table: String, key: String) -> (list: Vec<(String, String)>)
        requires
            self.wf(),
        ensures
            lists_record(pairs(list@), stored_record(self@, table@, key@)),
    {
        match self.catalog.resolve(&table) {
            Ok(t) => t.get_all_fields(&key),
            Err(_) => {
                let list: Vec<(String, String)> = Vec::new();
                list
            },
        }
    }

    /// The document that advertises the store's operations, the same for
    /// every state.
    pub fn tools(&self) -> (s: String)
        ensures
            s@ == tools_text(),
    {
        store_tools()
    }

    /// The prompt list, which is empty.
    pub fn prompts(&self) -> (s: String)
        ensures
            s@ == NO_PROMPTS@,
    {
        owned(NO_PROMPTS)
    }
}

} // verus!

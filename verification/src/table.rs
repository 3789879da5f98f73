//! A table: primary keys mapped to records.

use crate::model::{
    field_value, insert_check, lists_record, pairs, record_or_empty, remove_field_check, select,
    texts, update_check, valid_record, valid_table, with_field, without_field, TableModel, Text,
};
use crate::record::Record;
use crate::status::StoreError;
use crate::strmap::StrMap;
use vstd::prelude::*;

verus! {

/// The records of one table. Keys are unique; a table may be empty.
pub struct Table {
    records: StrMap<Record>,
}

impl View for Table {
    type V = TableModel;

    closed spec fn view(&self) -> TableModel {
        self.records.as_map().map_values(|r: Record| r@)
    }
}

impl Table {
    /// The representation is consistent: no key is stored twice, none is
    /// empty and every record is consistent.
    pub closed spec fn inv(&self) -> bool {
        &&& self.records.wf()
        &&& forall|i: int|
            0 <= i < self.records.keys().len() ==> (#[trigger] self.records.keys()[i]).len() > 0
        &&& forall|i: int|
            0 <= i < self.records.values().len() ==> (#[trigger] self.records.values()[i]).wf()
    }

    /// The table is consistent and what it holds is valid: finitely many
    /// records, no empty key, every record valid.
    pub open spec fn wf(&self) -> bool {
        &&& self.inv()
        &&& valid_table(self@)
    }

    proof fn lemma_valid(&self)
        requires
            self.inv(),
        ensures
            valid_table(self@),
    {
        self.records.lemma_domain();
        assert(self@.dom() =~= self.records.as_map().dom());
        assert forall|key: Text| #[trigger] self@.contains_key(key) implies key.len() > 0
            && valid_record(self@[key]) by {
            let i = self.records.keys().index_of(key);
            assert(self.records.keys()[i] == key);
            assert(self.records.values()[i].wf());
        }
    }

    /// A table without records.
    pub fn new() -> (t: Self)
        ensures
            t.wf(),
            t@ == TableModel::empty(),
    {
        let t = Table { records: StrMap::new() };
        assert(t@ =~= TableModel::empty());
        proof {
            t.lemma_valid();
        }
        t
    }

    /// The number of records (keys), whatever the number of their fields.
    pub fn size(&self) -> (n: usize)
        requires
            self.wf(),
        ensures
            self@.dom().finite(),
            n == self@.dom().len(),
    {
        assert(self@.dom() =~= self.records.as_map().dom());
        self.records.len()
    }

    /// Sets `field` of the record under `key` to `value`. The record is
    /// created if there is none, the field is overwritten if it exists. An
    /// empty key or field name is refused and changes nothing.
    pub fn insert(&mut self, key: String, field: String, value: String) -> (r: Result<
        (),
        StoreError,
    >)
        requires
            old(self).wf(),
        ensures
            final(self).wf(),
            r == insert_check(key@, field@),
            r is Ok ==> final(self)@ == with_field(old(self)@, key@, field@, value@),
            r is Err ==> final(self)@ == old(self)@,
    {
        if key.as_str().is_empty() || field.as_str().is_empty() {
            return Err(StoreError::InvalidInput);
        }
        let ghost before = *self;
        match self.records.position(&key) {
            Some(i) => {
                let rec = self.records.value_at_mut(i);
                let _ = rec.set(field, value);
            },
            None => {
                let mut rec = Record::new();
                let _ = rec.set(field, value);
                self.records.push(key, rec);
            },
        }
        assert(self@ =~= with_field(before@, key@, field@, value@));
        proof {
            self.lemma_valid();
        }
        Ok(())
    }

    /// Overwrites `field` of the record under `key`. Fails, changing
    /// nothing, unless the record exists and already has that field.
    pub fn update(&mut self, key: &String, field: String, value: String) -> (r: Result<
        (),
        StoreError,
    >)
        requires
            old(self).wf(),
        ensures
            final(self).wf(),
            r == update_check(old(self)@, key@, field@),
            r is Ok ==> final(self)@ == with_field(old(self)@, key@, field@, value@),
            r is Err ==> final(self)@ == old(self)@,
    {
        let ghost before = *self;
        match self.records.position(key) {
            Some(i) => {
                if !self.records.value_at(i).contains(&field) {
                    return Err(StoreError::NotFound);
                }
                let rec = self.records.value_at_mut(i);
                let _ = rec.set(field, value);
                assert(self@ =~= with_field(before@, key@, field@, value@));
                proof {
                    self.lemma_valid();
                }
                Ok(())
            },
            None => Err(StoreError::NotFound),
        }
    }

    /// The value of `field` in the record under `key`, if both exist.
    pub fn get_value(&self, key: &String, field: &String) -> (r: Option<&String>)
        requires
            self.wf(),
        ensures
            match r {
                Some(v) => field_value(self@, key@, field@) == Some(v@),
                None => field_value(self@, key@, field@) is None,
            },
    {
        match self.records.position(key) {
            Some(i) => self.records.value_at(i).get(field),
            None => None,
        }
    }

    /// Takes `field` out of the record under `key`. Fails, changing nothing,
    /// if there is no such record; a field that is already absent is no
    /// error. The record stays even when its last field goes.
    pub fn remove_field(&mut self, key: &String, field: &String) -> (r: Result<(), StoreError>)
        requires
            old(self).wf(),
        ensures
            final(self).wf(),
            r == remove_field_check(old(self)@, key@),
            r is Ok ==> final(self)@ == without_field(old(self)@, key@, field@),
            r is Err ==> final(self)@ == old(self)@,
    {
        let ghost before = *self;
        match self.records.position(key) {
            Some(i) => {
                let rec = self.records.value_at_mut(i);
                let _ = rec.remove(field);
                assert(self@ =~= without_field(before@, key@, field@));
                proof {
                    self.lemma_valid();
                }
                Ok(())
            },
            None => Err(StoreError::NotFound),
        }
    }

    /// Removes the record under `key` with all its fields; says whether
    /// there was one. Removing an absent record changes nothing.
    pub fn remove_record(&mut self, key: &String) -> (removed: bool)
        requires
            old(self).wf(),
        ensures
            final(self).wf(),
            final(self)@ == old(self)@.remove(key@),
            removed == old(self)@.contains_key(key@),
    {
        let ghost before = *self;
        match self.records.position(key) {
            Some(i) => {
                let _ = self.records.remove_at(i);
                assert(self@ =~= before@.remove(key@));
                proof {
                    self.lemma_valid();
                }
                true
            },
            None => {
                assert(self@ =~= before@.remove(key@));
                false
            },
        }
    }

    /// The (field, value) pairs of the requested fields that the record
    /// under `key` holds, in the order of the request. An absent record
    /// holds none.
    pub fn get_fields(&self, key: &String, names: &Vec<String>) -> (list: Vec<(String, String)>)
        requires
            self.wf(),
        ensures
            pairs(list@) == select(record_or_empty(self@, key@), texts(names@)),
    {
        match self.records.position(key) {
            Some(i) => self.records.value_at(i).select(names),
            None => Record::new().select(names),
        }
    }

    /// Every (field, value) pair of the record under `key`, each field once;
    /// empty if there is no such record.
    pub fn get_all_fields(&self, key: &String) -> (list: Vec<(String, String)>)
        requires
            self.wf(),
        ensures
            lists_record(pairs(list@), record_or_empty(self@, key@)),
    {
        match self.records.position(key) {
            Some(i) => self.records.value_at(i).entries(),
            None => {
                let list: Vec<(String, String)> = Vec::new();
                list
            },
        }
    }
}

} // verus!

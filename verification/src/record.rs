//! A record: field names mapped to string values.

use crate::model::{
    lists_record, name_check, pairs, select, texts, valid_record, RecordModel, Text,
};
use crate::status::StoreError;
use crate::strmap::StrMap;
use vstd::prelude::*;

verus! {

/// The fields of one primary key. Field names are unique; a record may be
/// empty.
pub struct Record {
    fields: StrMap<String>,
}

impl View for Record {
    type V = RecordModel;

    closed spec fn view(&self) -> RecordModel {
        self.fields.as_map().map_values(|v: String| v@)
    }
}

impl Record {
    /// The representation is consistent: no field name is stored twice and
    /// none is empty.
    pub closed spec fn inv(&self) -> bool {
        &&& self.fields.wf()
        &&& forall|i: int|
            0 <= i < self.fields.keys().len() ==> (#[trigger] self.fields.keys()[i]).len() > 0
    }

    /// The record is consistent and what it holds is valid: finitely many
    /// fields, none with an empty name.
    pub open spec fn wf(&self) -> bool {
        &&& self.inv()
        &&& valid_record(self@)
    }

    proof fn lemma_valid(&self)
        requires
            self.inv(),
        ensures
            valid_record(self@),
    {
        self.fields.lemma_domain();
        assert(self@.dom() =~= self.fields.as_map().dom());
    }

    /// A record without fields.
    pub fn new() -> (r: Self)
        ensures
            r.wf(),
            r@ == RecordModel::empty(),
    {
        let r = Record { fields: StrMap::new() };
        assert(r@ =~= RecordModel::empty());
        proof {
            r.lemma_valid();
        }
        r
    }

    /// The number of fields.
    pub fn len(&self) -> (n: usize)
        requires
            self.wf(),
        ensures
            self@.dom().finite(),
            n == self@.dom().len(),
    {
        assert(self@.dom() =~= self.fields.as_map().dom());
        self.fields.len()
    }

    /// Whether the record has a field named `field`.
    pub fn contains(&self, field: &String) -> (b: bool)
        requires
            self.wf(),
        ensures
            b == self@.contains_key(field@),
    {
        self.fields.position(field).is_some()
    }

    /// The value of `field`, if the record has it.
    pub fn get(&self, field: &String) -> (r: Option<&String>)
        requires
            self.wf(),
        ensures
            match r {
                Some(v) => self@.contains_key(field@) && v@ == self@[field@],
                None => !self@.contains_key(field@),
            },
    {
        match self.fields.position(field) {
            Some(i) => Some(self.fields.value_at(i)),
            None => None,
        }
    }

    /// Sets `field` to `value`, creating the field or overwriting it. An
    /// empty field name is refused and changes nothing.
    pub fn set(&mut self, field: String, value: String) -> (r: Result<(), StoreError>)
        requires
            old(self).wf(),
        ensures
            final(self).wf(),
            r == name_check(field@),
            r is Ok ==> final(self)@ == old(self)@.insert(field@, value@),
            r is Err ==> final(self)@ == old(self)@,
    {
        if field.as_str().is_empty() {
            return Err(StoreError::InvalidInput);
        }
        let ghost before = *self;
        match self.fields.position(&field) {
            Some(i) => {
                let slot = self.fields.value_at_mut(i);
                *slot = value;
            },
            None => {
                self.fields.push(field, value);
            },
        }
        assert(self@ =~= before@.insert(field@, value@));
        proof {
            self.lemma_valid();
        }
        Ok(())
    }

    /// Removes `field`; says whether it was there. Removing a field that the
    /// record does not hold changes nothing.
    pub fn remove(&mut self, field: &String) -> (removed: bool)
        requires
            old(self).wf(),
        ensures
            final(self).wf(),
            final(self)@ == old(self)@.remove(field@),
            removed == old(self)@.contains_key(field@),
    {
        let ghost before = *self;
        match self.fields.position(field) {
            Some(i) => {
                let _ = self.fields.remove_at(i);
                assert(self@ =~= before@.remove(field@));
                proof {
                    self.lemma_valid();
                }
                true
            },
            None => {
                assert(self@ =~= before@.remove(field@));
                false
            },
        }
    }

    /// Every (field, value) pair of the record, each field once.
    pub fn entries(&self) -> (list: Vec<(String, String)>)
        requires
            self.wf(),
        ensures
            lists_record(pairs(list@), self@),
            list@.len() == self@.dom().len(),
    {
        let n = self.fields.len();
        let mut list: Vec<(String, String)> = Vec::new();
        let mut i: usize = 0;
        while i < n
            invariant
                self.wf(),
                n == self.fields.keys().len(),
                i <= n,
                list@.len() == i,
                forall|j: int|
                    0 <= j < i ==> (#[trigger] list@[j]).0@ == self.fields.keys()[j] && list@[j].1@
                        == self@[self.fields.keys()[j]],
            decreases n - i,
        {
            let name = self.fields.key_at(i).clone();
            let value = self.fields.value_at(i).clone();
            list.push((name, value));
            i += 1;
        }
        proof {
            let names = pairs(list@).map_values(|p: (Text, Text)| p.0);
            assert(names =~= self.fields.keys());
            assert(self@.dom() =~= self.fields.as_map().dom());
        }
        list
    }

    /// The (field, value) pairs of the requested fields that the record
    /// holds, in the order of the request.
    pub fn select(&self, names: &Vec<String>) -> (list: Vec<(String, String)>)
        requires
            self.wf(),
        ensures
            pairs(list@) == select(self@, texts(names@)),
    {
        let mut list: Vec<(String, String)> = Vec::new();
        let mut i: usize = 0;
        while i < names.len()
            invariant
                self.wf(),
                i <= names.len(),
                pairs(list@) == select(self@, texts(names@).take(i as int)),
            decreases names.len() - i,
        {
            let ghost before = list@;
            let ghost wanted = texts(names@).take(i + 1);
            proof {
                assert(wanted.drop_last() =~= texts(names@).take(i as int));
                assert(wanted.last() == names@[i as int]@);
            }
            match self.get(&names[i]) {
                Some(value) => {
                    list.push((names[i].clone(), value.clone()));
                    assert(pairs(list@) =~= pairs(before).push((names@[i as int]@, value@)));
                },
                None => {},
            }
            i += 1;
        }
        assert(texts(names@).take(i as int) =~= texts(names@));
        list
    }
}

} // verus!

//! The catalog: table names mapped to tables.

use crate::model::{
    create_check, lists_keys, resolve_check, texts, valid_store, valid_table, StoreModel,
    TableModel, Text,
};
use crate::status::StoreError;
use crate::strmap::StrMap;
use crate::table::Table;
use vstd::prelude::*;

verus! {

/// The tables of a store. Table names are unique and never empty.
pub struct Catalog {
    tables: StrMap<Table>,
}

impl View for Catalog {
    type V = StoreModel;

    closed spec fn view(&self) -> StoreModel {
        self.tables.as_map().map_values(|t: Table| t@)
    }
}

impl Catalog {
    /// The representation is consistent: no name is stored twice, none is
    /// empty and every table is consistent.
    pub closed spec fn inv(&self) -> bool {
        &&& self.tables.wf()
        &&& forall|i: int|
            0 <= i < self.tables.keys().len() ==> (#[trigger] self.tables.keys()[i]).len() > 0
        &&& forall|i: int|
            0 <= i < self.tables.values().len() ==> (#[trigger] self.tables.values()[i]).wf()
    }

    /// The catalog is consistent and what it holds is valid: finitely many
    /// tables, no empty name, every table valid.
    pub open spec fn wf(&self) -> bool {
        &&& self.inv()
        &&& valid_store(self@)
    }

    proof fn lemma_valid(&self)
        requires
            self.inv(),
        ensures
            valid_store(self@),
    {
        self.tables.lemma_domain();
        assert(self@.dom() =~= self.tables.as_map().dom());
        assert forall|name: Text| #[trigger] self@.contains_key(name) implies name.len() > 0
            && valid_table(self@[name]) by {
            let i = self.tables.keys().index_of(name);
            assert(self.tables.keys()[i] == name);
            assert(self.tables.values()[i].wf());
        }
    }

    /// A catalog without tables.
    pub fn new() -> (c: Self)
        ensures
            c.wf(),
            c@ == StoreModel::empty(),
    {
        let c = Catalog { tables: StrMap::new() };
        assert(c@ =~= StoreModel::empty());
        proof {
            c.lemma_valid();
        }
        c
    }

    /// Creates an empty table called `name`. An empty name and a name that
    /// is taken are refused and change nothing.
    pub fn create_table(&mut self, name: String) -> (r: Result<(), StoreError>)
        requires
            old(self).wf(),
        ensures
            final(self).wf(),
            r == create_check(old(self)@, name@),
            r is Ok ==> final(self)@ == old(self)@.insert(name@, TableModel::empty()),
            r is Err ==> final(self)@ == old(self)@,
    {
        if name.as_str().is_empty() {
            return Err(StoreError::InvalidInput);
        }
        if self.tables.position(&name).is_some() {
            return Err(StoreError::AlreadyExists);
        }
        let ghost before = *self;
        self.tables.push(name, Table::new());
        assert(self@ =~= before@.insert(name@, TableModel::empty()));
        proof {
            self.lemma_valid();
        }
        Ok(())
    }

    /// Removes the table called `name` with all its records. Fails,
    /// changing nothing, if there is no such table.
    pub fn drop_table(&mut self, name: &String) -> (r: Result<(), StoreError>)
        requires
            old(self).wf(),
        ensures
            final(self).wf(),
            r == resolve_check(old(self)@, name@),
            final(self)@ == old(self)@.remove(name@),
    {
        let ghost before = *self;
        match self.tables.position(name) {
            Some(i) => {
                let _ = self.tables.remove_at(i);
                assert(self@ =~= before@.remove(name@));
                proof {
                    self.lemma_valid();
                }
                Ok(())
            },
            None => {
                assert(self@ =~= before@.remove(name@));
                Err(StoreError::NotFound)
            },
        }
    }

    /// The names of the tables, each once.
    pub fn list_tables(&self) -> (names: Vec<String>)
        requires
            self.wf(),
        ensures
            lists_keys(texts(names@), self@),
    {
        let names = self.tables.key_list();
        assert(self@.dom() =~= self.tables.as_map().dom());
        names
    }

    /// The number of records in the table called `name`.
    pub fn table_size(&self, name: &String) -> (r: Result<usize, StoreError>)
        requires
            self.wf(),
        ensures
            match r {
                Ok(n) => self@.contains_key(name@) && self@[name@].dom().finite() && n
                    == self@[name@].dom().len(),
                Err(e) => e == StoreError::NotFound && !self@.contains_key(name@),
            },
    {
        match self.resolve(name) {
            Ok(table) => Ok(table.size()),
            Err(e) => Err(e),
        }
    }

    /// The table called `name`.
    pub fn resolve(&self, name: &String) -> (r: Result<&Table, StoreError>)
        requires
            self.wf(),
        ensures
            match r {
                Ok(table) => self@.contains_key(name@) && table@ == self@[name@] && table.wf(),
                Err(e) => e == StoreError::NotFound && !self@.contains_key(name@),
            },
    {
        match self.tables.position(name) {
            Some(i) => Ok(self.tables.value_at(i)),
            None => Err(StoreError::NotFound),
        }
    }

    /// The table called `name`, for writing. Whatever the caller leaves in
    /// it becomes the table of that name.
    pub fn resolve_mut(&mut self, name: &String) -> (r: Result<&mut Table, StoreError>)
        requires
            old(self).wf(),
        ensures
            match r {
                Ok(table) => {
                    &&& old(self)@.contains_key(name@)
                    &&& table@ == old(self)@[name@]
                    &&& table.wf()
                    &&& final(table).wf() ==> final(self).wf()
                    &&& final(self)@ == old(self)@.insert(name@, final(table)@)
                },
                Err(e) => {
                    &&& e == StoreError::NotFound
                    &&& !old(self)@.contains_key(name@)
                    &&& final(self).wf()
                    &&& final(self)@ == old(self)@
                },
            },
    {
        match self.tables.position(name) {
            Some(i) => {
                let table = self.tables.value_at_mut(i);
                Ok(table)
            },
            None => Err(StoreError::NotFound),
        }
    }
}

} // verus!

//! The operations of the store and the access that each one needs.

use vstd::prelude::*;

verus! {

/// How an operation touches the store.
#[derive(Clone, Copy, Debug, PartialEq, Eq, Structural)]
pub enum AccessMode {
    /// The operation only reads; any number of them may run together.
    Shared,
    /// The operation may change the store; it runs alone.
    Exclusive,
}

/// The operations that the store offers.
#[derive(Clone, Copy, Debug, PartialEq, Eq, Structural)]
pub enum Operation {
    CreateTable,
    DropTable,
    ListTables,
    TableSize,
    Insert,
    Update,
    GetValue,
    RemoveField,
    RemoveRecord,
    GetFields,
    GetAllFields,
}

impl Operation {
    /// Whether the operation may change the store.
    pub open spec fn is_mutating(self) -> bool {
        self == Operation::CreateTable || self == Operation::DropTable || self == Operation::Insert
            || self == Operation::Update || self == Operation::RemoveField || self
            == Operation::RemoveRecord
    }

    /// The access that the operation needs: exclusive for the six that may
    /// change the store, shared for the five that only read it.
    pub fn access_mode(self) -> (mode: AccessMode)
        ensures
            mode == AccessMode::Exclusive <==> self.is_mutating(),
            mode == AccessMode::Shared <==> !self.is_mutating(),
    {
        match self {
            Operation::CreateTable
            | Operation::DropTable
            | Operation::Insert
            | Operation::Update
            | Operation::RemoveField
            | Operation::RemoveRecord => AccessMode::Exclusive,
            Operation::ListTables
            | Operation::TableSize
            | Operation::GetValue
            | Operation::GetFields
            | Operation::GetAllFields => AccessMode::Shared,
        }
    }
}

} // verus!

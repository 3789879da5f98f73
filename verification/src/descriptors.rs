//! The descriptors that advertise each operation to an invocation layer:
//! JSON documents with the operation's name, description and parameters.
//! The answers that a description names are built from the status codes.

use crate::access::{AccessMode, Operation};
use crate::model::Text;
use crate::status::{StoreError, STATUS_OK};
use vstd::prelude::*;
use vstd::string::StringExecFns;

verus! {

/// The parameter schema of `create_table`.
pub const PARAMETERS_CREATE_TABLE: &'static str = r#"{
        "type": "object",
        "properties": {
          "table_name": {
            "type": "string",
            "description": "name of the table to be created\n"
          }
        },
        "required": [
          "table_name"
        ]
      }"#;

/// The parameter schema of `drop_table`.
pub const PARAMETERS_DROP_TABLE: &'static str = r#"{
        "type": "object",
        "properties": {
          "table_name": {
            "type": "string",
            "description": "name of the table to be deleted\n"
          }
        },
        "required": [
          "table_name"
        ]
      }"#;

/// The parameter schema of `list_tables`.
pub const PARAMETERS_LIST_TABLES: &'static str = r#"{
        "type": "object",
        "properties": {},
        "required": []
      }"#;

/// The parameter schema of `table_size`.
pub const PARAMETERS_TABLE_SIZE: &'static str = r#"{
        "type": "object",
        "properties": {
          "table_name": {
            "type": "string",
            "description": "name of the table\n"
          }
        },
        "required": [
          "table_name"
        ]
      }"#;

/// The parameter schema of `insert`.
pub const PARAMETERS_INSERT: &'static str = r#"{
        "type": "object",
        "properties": {
          "table": {
            "type": "string",
            "description": "name of the table\n"
          },
          "key": {
            "type": "string",
            "description": "the key / primary key of the record\n"
          },
          "field": {
            "type": "string",
            "description": "the field name inside the record\n"
          },
          "value": {
            "type": "string",
            "description": "the value associated with the field\n"
          }
        },
        "required": [
          "table",
          "key",
          "field",
          "value"
        ]
      }"#;

/// The parameter schema of `update`.
pub const PARAMETERS_UPDATE: &'static str = r#"{
        "type": "object",
        "properties": {
          "table": {
            "type": "string",
            "description": "name of the table\n"
          },
          "key": {
            "type": "string",
            "description": "the key / primary key of the record\n"
          },
          "field": {
            "type": "string",
            "description": "the field name to update\n"
          },
          "value": {
            "type": "string",
            "description": "the new value of the field\n"
          }
        },
        "required": [
          "table",
          "key",
          "field",
          "value"
        ]
      }"#;

/// The parameter schema of `get_value`.
pub const PARAMETERS_GET_VALUE: &'static str = r#"{
        "type": "object",
        "properties": {
          "table": {
            "type": "string",
            "description": "name of the table\n"
          },
          "key": {
            "type": "string",
            "description": "the key / primary key of the record\n"
          },
          "field": {
            "type": "string",
            "description": "the field name whose value is requested\n"
          }
        },
        "required": [
          "table",
          "key",
          "field"
        ]
      }"#;

/// The parameter schema of `remove_field`.
pub const PARAMETERS_REMOVE_FIELD: &'static str = r#"{
        "type": "object",
        "properties": {
          "table": {
            "type": "string",
            "description": "name of the table\n"
          },
          "key": {
            "type": "string",
            "description": "the key / primary key of the record\n"
          },
          "field": {
            "type": "string",
            "description": "the field name to be removed\n"
          }
        },
        "required": [
          "table",
          "key",
          "field"
        ]
      }"#;

/// The parameter schema of `remove_record`.
pub const PARAMETERS_REMOVE_RECORD: &'static str = r#"{
        "type": "object",
        "properties": {
          "table": {
            "type": "string",
            "description": "name of the table\n"
          },
          "key": {
            "type": "string",
            "description": "the key / primary key of the record\n"
          }
        },
        "required": [
          "table",
          "key"
        ]
      }"#;

/// The parameter schema of `get_fields`.
pub const PARAMETERS_GET_FIELDS: &'static str = r#"{
        "type": "object",
        "properties": {
          "table": {
            "type": "string",
            "description": "name of the table\n"
          },
          "key": {
            "type": "string",
            "description": "the key / primary key of the record\n"
          },
          "fields": {
            "type": "array",
            "description": "list of field names to retrieve\n"
          }
        },
        "required": [
          "table",
          "key",
          "fields"
        ]
      }"#;

/// The parameter schema of `get_all_fields`.
pub const PARAMETERS_GET_ALL_FIELDS: &'static str = r#"{
        "type": "object",
        "properties": {
          "table": {
            "type": "string",
            "description": "name of the table\n"
          },
          "key": {
            "type": "string",
            "description": "the key / primary key of the record\n"
          }
        },
        "required": [
          "table",
          "key"
        ]
      }"#;

/// What opens a descriptor, up to the operation's name.
pub const ENTRY_OPEN: &'static str =
    "  {\n    \"type\": \"function\",\n    \"function\": {\n      \"name\": \"";

/// What stands between the name and the description.
pub const ENTRY_DESCRIPTION: &'static str = "\",\n      \"description\": \"";

/// What stands between the description's text and its answers.
pub const ANSWERS_OPEN: &'static str = " (returns ";

/// What stands between the description and the parameter schema.
pub const ENTRY_PARAMETERS: &'static str = ")\\n\",\n      \"parameters\": ";

/// What closes a descriptor.
pub const ENTRY_CLOSE: &'static str = "\n    }\n  }";

/// The descriptor of the scoring operation.
pub const SCORE_TOOLS: &'static str = r#"[
  {
    "type": "function",
    "function": {
      "name": "get_score",
      "description": "compute a credit score based on financial and payment behavior (returns score as f64, higher is better)\n",
      "parameters": {
        "type": "object",
        "properties": {
          "account_age_months": {
            "type": "integer",
            "description": "age of the account in months\n"
          },
          "monthly_income_avg": {
            "type": "number",
            "description": "average monthly income\n"
          },
          "income_frequency": {
            "type": "string",
            "description": "income frequency (only acceptable parameter is - \"High – Consistent\", \"Medium – Variable\", \"Low-Unpredictable\")\n"
          },
          "monthly_rent": {
            "type": "number",
            "description": "average monthly rent expense\n"
          },
          "monthly_utilities": {
            "type": "number",
            "description": "average monthly utilities expense\n"
          },
          "missed_payments_count": {
            "type": "integer",
            "description": "total number of missed payments\n"
          }
        },
        "required": [
          "account_age_months",
          "monthly_income_avg",
          "income_frequency",
          "monthly_rent",
          "monthly_utilities",
          "missed_payments_count"
        ]
      }
    }
  }
]"#;

/// The prompt list, which is empty.
pub const NO_PROMPTS: &'static str = r#"{
  "prompts": []
}"#;

/// An owned copy of a fixed text.
pub fn owned(text: &'static str) -> (s: String)
    ensures
        s@ == text@,
{
    text.to_owned()
}

/// The character that writes the digit `d`.
pub open spec fn digit(d: int) -> char {
    if d == 0 {
        '0'
    } else if d == 1 {
        '1'
    } else if d == 2 {
        '2'
    } else if d == 3 {
        '3'
    } else if d == 4 {
        '4'
    } else if d == 5 {
        '5'
    } else if d == 6 {
        '6'
    } else if d == 7 {
        '7'
    } else if d == 8 {
        '8'
    } else {
        '9'
    }
}

/// The three decimal digits of a status code.
pub open spec fn decimal(code: int) -> Text {
    seq![digit(code / 100), digit((code / 10) % 10), digit(code % 10)]
}

/// The digits of the code that reports success.
pub fn ok_text() -> (r: &'static str)
    ensures
        r@ == decimal(STATUS_OK as int),
{
    let r = "200";
    proof {
        reveal_strlit("200");
        assert(r@ =~= decimal(STATUS_OK as int));
    }
    r
}

/// The digits of the code that reports `err`.
pub fn code_text(err: StoreError) -> (r: &'static str)
    ensures
        r@ == decimal(err.spec_code() as int),
{
    proof {
        reveal_strlit("404");
        reveal_strlit("409");
        reveal_strlit("400");
    }
    match err {
        StoreError::NotFound => {
            let r = "404";
            assert(r@ =~= decimal(err.spec_code() as int));
            r
        },
        StoreError::AlreadyExists => {
            let r = "409";
            assert(r@ =~= decimal(err.spec_code() as int));
            r
        },
        StoreError::InvalidInput => {
            let r = "400";
            assert(r@ =~= decimal(err.spec_code() as int));
            r
        },
    }
}

impl Operation {

    /// The name under which the operation is invoked.
    pub open spec fn name_text(self) -> Text {
        match self {
            Operation::CreateTable => "create_table"@,
            Operation::DropTable => "drop_table"@,
            Operation::ListTables => "list_tables"@,
            Operation::TableSize => "table_size"@,
            Operation::Insert => "insert"@,
            Operation::Update => "update"@,
            Operation::GetValue => "get_value"@,
            Operation::RemoveField => "remove_field"@,
            Operation::RemoveRecord => "remove_record"@,
            Operation::GetFields => "get_fields"@,
            Operation::GetAllFields => "get_all_fields"@,
        }
    }

    /// The name under which the operation is invoked.
    pub fn name(self) -> (r: &'static str)
        ensures
            r@ == self.name_text(),
    {
        match self {
            Operation::CreateTable => "create_table",
            Operation::DropTable => "drop_table",
            Operation::ListTables => "list_tables",
            Operation::TableSize => "table_size",
            Operation::Insert => "insert",
            Operation::Update => "update",
            Operation::GetValue => "get_value",
            Operation::RemoveField => "remove_field",
            Operation::RemoveRecord => "remove_record",
            Operation::GetFields => "get_fields",
            Operation::GetAllFields => "get_all_fields",
        }
    }

    /// What the operation does, in a few words.
    pub open spec fn summary_text(self) -> Text {
        match self {
            Operation::CreateTable => "creates a table"@,
            Operation::DropTable => "drops/deletes a table"@,
            Operation::ListTables => "list all the tables present in db now"@,
            Operation::TableSize => "gives size of any table"@,
            Operation::Insert => "inserts field-value pair for a given key"@,
            Operation::Update => "updates a field value for a given key"@,
            Operation::GetValue => "get a single field value"@,
            Operation::RemoveField => "removes a field from a record"@,
            Operation::RemoveRecord => "removes a complete record"@,
            Operation::GetFields => "retrieve multiple fields from a record"@,
            Operation::GetAllFields => "retrieve the full record"@,
        }
    }

    /// What the operation does, in a few words.
    pub fn summary(self) -> (r: &'static str)
        ensures
            r@ == self.summary_text(),
    {
        match self {
            Operation::CreateTable => "creates a table",
            Operation::DropTable => "drops/deletes a table",
            Operation::ListTables => "list all the tables present in db now",
            Operation::TableSize => "gives size of any table",
            Operation::Insert => "inserts field-value pair for a given key",
            Operation::Update => "updates a field value for a given key",
            Operation::GetValue => "get a single field value",
            Operation::RemoveField => "removes a field from a record",
            Operation::RemoveRecord => "removes a complete record",
            Operation::GetFields => "retrieve multiple fields from a record",
            Operation::GetAllFields => "retrieve the full record",
        }
    }

    /// What a reading operation hands back; empty for an operation that answers
    /// with a status code alone.
    pub open spec fn result_text(self) -> Text {
        match self {
            Operation::CreateTable => ""@,
            Operation::DropTable => ""@,
            Operation::ListTables => "list of table names, empty if none"@,
            Operation::TableSize => "record count"@,
            Operation::Insert => ""@,
            Operation::Update => ""@,
            Operation::GetValue => "Some(value) if found, None otherwise"@,
            Operation::RemoveField => ""@,
            Operation::RemoveRecord => ""@,
            Operation::GetFields => "list of existing field-value pairs"@,
            Operation::GetAllFields => "all field-value pairs, empty if record missing"@,
        }
    }

    /// What a reading operation hands back; empty for an operation that answers
    /// with a status code alone.
    pub fn result(self) -> (r: &'static str)
        ensures
            r@ == self.result_text(),
    {
        match self {
            Operation::CreateTable => "",
            Operation::DropTable => "",
            Operation::ListTables => "list of table names, empty if none",
            Operation::TableSize => "record count",
            Operation::Insert => "",
            Operation::Update => "",
            Operation::GetValue => "Some(value) if found, None otherwise",
            Operation::RemoveField => "",
            Operation::RemoveRecord => "",
            Operation::GetFields => "list of existing field-value pairs",
            Operation::GetAllFields => "all field-value pairs, empty if record missing",
        }
    }

    /// The schema of the operation's parameters.
    pub open spec fn parameters_text(self) -> Text {
        match self {
            Operation::CreateTable => PARAMETERS_CREATE_TABLE@,
            Operation::DropTable => PARAMETERS_DROP_TABLE@,
            Operation::ListTables => PARAMETERS_LIST_TABLES@,
            Operation::TableSize => PARAMETERS_TABLE_SIZE@,
            Operation::Insert => PARAMETERS_INSERT@,
            Operation::Update => PARAMETERS_UPDATE@,
            Operation::GetValue => PARAMETERS_GET_VALUE@,
            Operation::RemoveField => PARAMETERS_REMOVE_FIELD@,
            Operation::RemoveRecord => PARAMETERS_REMOVE_RECORD@,
            Operation::GetFields => PARAMETERS_GET_FIELDS@,
            Operation::GetAllFields => PARAMETERS_GET_ALL_FIELDS@,
        }
    }

    /// The schema of the operation's parameters.
    pub fn parameters(self) -> (r: &'static str)
        ensures
            r@ == self.parameters_text(),
    {
        match self {
            Operation::CreateTable => PARAMETERS_CREATE_TABLE,
            Operation::DropTable => PARAMETERS_DROP_TABLE,
            Operation::ListTables => PARAMETERS_LIST_TABLES,
            Operation::TableSize => PARAMETERS_TABLE_SIZE,
            Operation::Insert => PARAMETERS_INSERT,
            Operation::Update => PARAMETERS_UPDATE,
            Operation::GetValue => PARAMETERS_GET_VALUE,
            Operation::RemoveField => PARAMETERS_REMOVE_FIELD,
            Operation::RemoveRecord => PARAMETERS_REMOVE_RECORD,
            Operation::GetFields => PARAMETERS_GET_FIELDS,
            Operation::GetAllFields => PARAMETERS_GET_ALL_FIELDS,
        }
    }

    /// Why the operation answers with the code of `err`, if it ever does.
    pub open spec fn refusal_text(self, err: StoreError) -> Option<Text> {
        match (self, err) {
            (Operation::CreateTable, StoreError::AlreadyExists) => Some("already exists"@),
            (Operation::CreateTable, StoreError::InvalidInput) => Some("invalid name"@),
            (Operation::DropTable, StoreError::NotFound) => Some("table not found"@),
            (Operation::TableSize, StoreError::NotFound) => Some("table not found"@),
            (Operation::Insert, StoreError::NotFound) => Some("table missing"@),
            (Operation::Insert, StoreError::InvalidInput) => Some("invalid input"@),
            (Operation::Update, StoreError::NotFound) => Some("table, record or field missing"@),
            (Operation::RemoveField, StoreError::NotFound) => Some("table or record missing"@),
            (Operation::RemoveRecord, StoreError::NotFound) => Some("table missing"@),
            _ => None,
        }
    }

    /// Why the operation answers with the code of `err`, if it ever does.
    pub fn refusal(self, err: StoreError) -> (r: Option<&'static str>)
        ensures
            match r {
                Some(reason) => self.refusal_text(err) == Some(reason@),
                None => self.refusal_text(err) is None,
            },
    {
        match (self, err) {
            (Operation::CreateTable, StoreError::AlreadyExists) => Some("already exists"),
            (Operation::CreateTable, StoreError::InvalidInput) => Some("invalid name"),
            (Operation::DropTable, StoreError::NotFound) => Some("table not found"),
            (Operation::TableSize, StoreError::NotFound) => Some("table not found"),
            (Operation::Insert, StoreError::NotFound) => Some("table missing"),
            (Operation::Insert, StoreError::InvalidInput) => Some("invalid input"),
            (Operation::Update, StoreError::NotFound) => Some("table, record or field missing"),
            (Operation::RemoveField, StoreError::NotFound) => Some("table or record missing"),
            (Operation::RemoveRecord, StoreError::NotFound) => Some("table missing"),
            _ => None,
        }
    }

    /// What success looks like: the code 200 for an operation that may
    /// change the store, the result for one that only reads.
    pub open spec fn success_text(self) -> Text {
        if self.is_mutating() {
            decimal(STATUS_OK as int) + " success"@
        } else {
            self.result_text()
        }
    }

    /// The part of the answers that speaks of `err`: its code and the
    /// reason, or nothing where the operation never answers with it.
    pub open spec fn clause_text(self, err: StoreError) -> Text {
        match self.refusal_text(err) {
            Some(reason) => ", "@ + decimal(err.spec_code() as int) + " "@ + reason,
            None => Seq::empty(),
        }
    }

    /// The answers of the operation: success first, then each refusal with
    /// its code.
    pub open spec fn answers_text(self) -> Text {
        self.success_text() + self.clause_text(StoreError::NotFound) + self.clause_text(
            StoreError::AlreadyExists,
        ) + self.clause_text(StoreError::InvalidInput)
    }

    /// The descriptor of the operation.
    pub open spec fn entry_text(self) -> Text {
        ENTRY_OPEN@ + self.name_text() + ENTRY_DESCRIPTION@ + self.summary_text() + ANSWERS_OPEN@
            + self.answers_text() + ENTRY_PARAMETERS@ + self.parameters_text() + ENTRY_CLOSE@
    }

    /// What success looks like.
    pub fn success(self) -> (s: String)
        ensures
            s@ == self.success_text(),
    {
        match self.access_mode() {
            AccessMode::Exclusive => {
                let mut s = owned(ok_text());
                s.append(" success");
                s
            },
            AccessMode::Shared => owned(self.result()),
        }
    }

    /// The part of the answers that speaks of `err`.
    pub fn clause(self, err: StoreError) -> (s: String)
        ensures
            s@ == self.clause_text(err),
    {
        match self.refusal(err) {
            Some(reason) => {
                let mut s = owned(", ");
                s.append(code_text(err));
                s.append(" ");
                s.append(reason);
                s
            },
            None => String::new(),
        }
    }

    /// The answers of the operation.
    pub fn answers(self) -> (s: String)
        ensures
            s@ == self.answers_text(),
    {
        let mut s = self.success();
        s.append(self.clause(StoreError::NotFound).as_str());
        s.append(self.clause(StoreError::AlreadyExists).as_str());
        s.append(self.clause(StoreError::InvalidInput).as_str());
        s
    }

    /// The descriptor of the operation.
    pub fn entry(self) -> (s: String)
        ensures
            s@ == self.entry_text(),
    {
        let mut s = owned(ENTRY_OPEN);
        s.append(self.name());
        s.append(ENTRY_DESCRIPTION);
        s.append(self.summary());
        s.append(ANSWERS_OPEN);
        s.append(self.answers().as_str());
        s.append(ENTRY_PARAMETERS);
        s.append(self.parameters());
        s.append(ENTRY_CLOSE);
        s
    }
}

/// The operations in the order in which they are advertised.
pub open spec fn all_operations() -> Seq<Operation> {
    seq![

        Operation::CreateTable,
        Operation::DropTable,
        Operation::ListTables,
        Operation::TableSize,
        Operation::Insert,
        Operation::Update,
        Operation::GetValue,
        Operation::RemoveField,
        Operation::RemoveRecord,
        Operation::GetFields,
        Operation::GetAllFields,
    ]
}

/// The operations in the order in which they are advertised.
pub fn operations() -> (ops: Vec<Operation>)
    ensures
        ops@ == all_operations(),
{
    let ops = vec![
        Operation::CreateTable,
        Operation::DropTable,
        Operation::ListTables,
        Operation::TableSize,
        Operation::Insert,
        Operation::Update,
        Operation::GetValue,
        Operation::RemoveField,
        Operation::RemoveRecord,
        Operation::GetFields,
        Operation::GetAllFields,
    ];
    assert(ops@ =~= all_operations());
    ops
}

/// The descriptors of `ops`, one after the other, with a comma between
/// them.
pub open spec fn entries_text(ops: Seq<Operation>) -> Text
    decreases ops.len(),
{
    if ops.len() == 0 {
        Seq::empty()
    } else if ops.len() == 1 {
        ops[0].entry_text()
    } else {
        entries_text(ops.drop_last()) + ",\n"@ + ops.last().entry_text()
    }
}

/// The document that advertises the store: a JSON array with the
/// descriptor of every operation.
pub open spec fn tools_text() -> Text {
    "[\n"@ + entries_text(all_operations()) + "\n]"@
}

/// The document that advertises the store.
pub fn store_tools() -> (s: String)
    ensures
        s@ == tools_text(),
{
    let ops = operations();
    let mut entries = String::new();
    let mut i: usize = 0;
    while i < ops.len()
        invariant
            i <= ops.len(),
            entries@ == entries_text(ops@.take(i as int)),
        decreases ops.len() - i,
    {
        let ghost done = ops@.take(i as int);
        let ghost next = ops@.take(i + 1);
        proof {
            assert(next.drop_last() =~= done);
            assert(next.last() == ops@[i as int]);
        }
        if i > 0 {
            entries.append(",\n");
        }
        entries.append(ops[i].entry().as_str());
        proof {
            if i == 0 {
                assert(entries@ =~= ops@[0].entry_text());
            }
        }
        i += 1;
    }
    assert(ops@.take(i as int) =~= ops@);
    let mut s = owned("[\n");
    s.append(entries.as_str());
    s.append("\n]");
    s
}

} // verus!

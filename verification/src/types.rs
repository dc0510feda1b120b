//! The values that the plugin emits for each row change.

use vstd::prelude::*;

verus! {

/// A C boolean as PostgreSQL hands it out: a `char` that is zero for false.
pub type CBool = libc::c_char;

/// The C value of `false`.
#[allow(non_upper_case_globals)]
pub const CFalse: CBool = 0;

/// The C value of `true`.
#[allow(non_upper_case_globals)]
pub const CTrue: CBool = 1;

/// Reads a C boolean: every value other than `CFalse` counts as true.
pub fn to_bool(cbool: CBool) -> (b: bool)
    ensures
        b == (cbool != CFalse),
{
    cbool != CFalse
}

/// The kind of row change that a [`Change`] reports.
#[derive(Debug, Clone, Copy, PartialEq, Eq, Structural)]
pub enum ChangeType {
    Insert,
    Delete,
    Update,
    Error,
}

impl ChangeType {
    /// The name under which the change type is written out.
    pub open spec fn spec_name(self) -> Seq<char> {
        match self {
            ChangeType::Insert => "Insert"@,
            ChangeType::Delete => "Delete"@,
            ChangeType::Update => "Update"@,
            ChangeType::Error => "Error"@,
        }
    }

    /// Returns the variant's name, the text that stands for it in the emitted record.
    pub fn name(&self) -> (s: &'static str)
        ensures
            s@ == self.spec_name(),
    {
        match self {
            ChangeType::Insert => "Insert",
            ChangeType::Delete => "Delete",
            ChangeType::Update => "Update",
            ChangeType::Error => "Error",
        }
    }
}

/// One column of a row: its name, the name of its type, and its value as text
/// (`None` for SQL `NULL`).
#[derive(Debug)]
pub struct Field {
    pub name: String,
    pub datatype: String,
    pub value: Option<String>,
}

/// A row, as the fields of its columns in column order.
pub type Tuple = Vec<Field>;

/// A row change as the plugin emits it.
#[derive(Debug)]
pub struct Change {
    pub namespace: String,
    pub relation_name: String,
    pub change_type: ChangeType,
    pub new_row: Option<Tuple>,
    pub old_row: Option<Tuple>,
    pub debug_message: Option<String>,
}

} // verus!

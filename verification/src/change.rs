//! What the plugin reports for one change that PostgreSQL's reorder buffer hands it.

use vstd::prelude::*;
use crate::types::{Change, ChangeType, Tuple};

verus! {

/// The reorder-buffer code of an inserted row.
pub const REORDER_BUFFER_CHANGE_INSERT: u32 = 0;

/// The reorder-buffer code of an updated row.
pub const REORDER_BUFFER_CHANGE_UPDATE: u32 = 1;

/// The reorder-buffer code of a deleted row.
pub const REORDER_BUFFER_CHANGE_DELETE: u32 = 2;

/// What a reorder-buffer change does to a row, as far as the plugin tells them apart.
#[derive(Debug, Clone, Copy, PartialEq, Eq, Structural)]
pub enum ChangeAction {
    Insert,
    Update,
    Delete,
    /// Any other change (snapshots, command ids, ...): nothing is emitted for it.
    Other,
}

impl ChangeAction {
    pub open spec fn spec_from_code(code: u32) -> ChangeAction {
        if code == REORDER_BUFFER_CHANGE_INSERT {
            ChangeAction::Insert
        } else if code == REORDER_BUFFER_CHANGE_UPDATE {
            ChangeAction::Update
        } else if code == REORDER_BUFFER_CHANGE_DELETE {
            ChangeAction::Delete
        } else {
            ChangeAction::Other
        }
    }

    /// Classifies the `action` code of a reorder-buffer change.
    pub fn from_code(code: u32) -> (a: ChangeAction)
        ensures
            a == Self::spec_from_code(code),
    {
        if code == REORDER_BUFFER_CHANGE_INSERT {
            ChangeAction::Insert
        } else if code == REORDER_BUFFER_CHANGE_UPDATE {
            ChangeAction::Update
        } else if code == REORDER_BUFFER_CHANGE_DELETE {
            ChangeAction::Delete
        } else {
            ChangeAction::Other
        }
    }
}

/// Which of the change's two tuple buffers a row is read from.
#[derive(Debug, Clone, Copy, PartialEq, Eq, Structural)]
pub enum TupleBuffer {
    /// The row as it is after the change (`newtuple`).
    New,
    /// The row as it was before the change (`oldtuple`).
    Old,
}

/// The buffers that are decoded for a change, in the order in which they are decoded.
/// An update reads its new buffer twice: once for the new row and once for the old row.
pub open spec fn spec_tuple_sources(action: ChangeAction) -> Seq<TupleBuffer> {
    match action {
        ChangeAction::Insert => seq![TupleBuffer::New],
        ChangeAction::Update => seq![TupleBuffer::New, TupleBuffer::New],
        ChangeAction::Delete => seq![TupleBuffer::Old],
        ChangeAction::Other => seq![],
    }
}

/// Lists the tuple buffers that must be decoded before [`decide_change`] can be called.
pub fn tuple_sources(action: ChangeAction) -> (sources: Vec<TupleBuffer>)
    ensures
        sources@ == spec_tuple_sources(action),
{
    match action {
        ChangeAction::Insert => vec![TupleBuffer::New],
        ChangeAction::Update => vec![TupleBuffer::New, TupleBuffer::New],
        ChangeAction::Delete => vec![TupleBuffer::Old],
        ChangeAction::Other => vec![],
    }
}

/// Builds the change record from its parts; always `Some`.
pub fn make_change(
    namespace: String,
    relation_name: String,
    change_type: ChangeType,
    old_row: Option<Tuple>,
    new_row: Option<Tuple>,
    debug: Option<String>,
) -> (res: Option<Change>)
    ensures
        res == Some(
            Change {
                namespace,
                relation_name,
                change_type,
                new_row,
                old_row,
                debug_message: debug,
            },
        ),
{
    Some(
        Change {
            namespace: namespace,
            relation_name: relation_name,
            change_type: change_type,
            old_row: old_row,
            new_row: new_row,
            debug_message: debug,
        },
    )
}

/// The change record emitted for `action`, given the rows decoded from the buffers
/// that [`spec_tuple_sources`] names, in that order: `None` when the action is not a
/// row change or when decoding any of its rows failed.
pub open spec fn spec_decide_change(
    namespace: String,
    relation_name: String,
    action: ChangeAction,
    decoded: Seq<Result<Tuple, String>>,
) -> Option<Change> {
    match action {
        ChangeAction::Insert => match decoded[0] {
            Ok(n) => Some(
                Change {
                    namespace,
                    relation_name,
                    change_type: ChangeType::Insert,
                    new_row: Some(n),
                    old_row: None,
                    debug_message: None,
                },
            ),
            Err(_) => None,
        },
        ChangeAction::Update => match (decoded[0], decoded[1]) {
            (Ok(n), Ok(o)) => Some(
                Change {
                    namespace,
                    relation_name,
                    change_type: ChangeType::Update,
                    new_row: Some(n),
                    old_row: Some(o),
                    debug_message: None,
                },
            ),
            _ => None,
        },
        ChangeAction::Delete => match decoded[0] {
            Ok(o) => Some(
                Change {
                    namespace,
                    relation_name,
                    change_type: ChangeType::Delete,
                    new_row: None,
                    old_row: Some(o),
                    debug_message: None,
                },
            ),
            Err(_) => None,
        },
        ChangeAction::Other => None,
    }
}

/// Decides what is emitted for a change, from the names of its relation and the rows
/// decoded from the buffers that [`tuple_sources`] listed for `action`, in that order.
pub fn decide_change(
    namespace: String,
    relation_name: String,
    action: ChangeAction,
    decoded: Vec<Result<Tuple, String>>,
) -> (res: Option<Change>)
    requires
        decoded@.len() == spec_tuple_sources(action).len(),
    ensures
        res == spec_decide_change(namespace, relation_name, action, decoded@),
{
    let mut decoded = decoded;
    match action {
        ChangeAction::Insert => {
            let first = decoded.remove(0);
            match first {
                Ok(n) => make_change(namespace, relation_name, ChangeType::Insert, None, Some(n), None),
                Err(_) => None,
            }
        },
        ChangeAction::Update => {
            let old_tuple = decoded.remove(1);
            let new_tuple = decoded.remove(0);
            match (new_tuple, old_tuple) {
                (Ok(n), Ok(o)) => make_change(
                    namespace,
                    relation_name,
                    ChangeType::Update,
                    Some(o),
                    Some(n),
                    None,
                ),
                _ => None,
            }
        },
        ChangeAction::Delete => {
            let first = decoded.remove(0);
            match first {
                Ok(o) => make_change(namespace, relation_name, ChangeType::Delete, Some(o), None, None),
                Err(_) => None,
            }
        },
        ChangeAction::Other => None,
    }
}

/// An emitted change is exactly what the laws of row changes call for: one is emitted
/// exactly when the action is a row change and every row read for it decoded; it
/// names the relation it came from, carries no debug message, has the type of its
/// action, and carries the new row for inserts and updates and the old row for
/// updates and deletes, each as decoded.
pub proof fn law_emitted_change_matches_action(
    namespace: String,
    relation_name: String,
    action: ChangeAction,
    decoded: Seq<Result<Tuple, String>>,
)
    requires
        decoded.len() == spec_tuple_sources(action).len(),
    ensures
        spec_decide_change(namespace, relation_name, action, decoded) is Some <==> (action
            != ChangeAction::Other && forall|i: int| 0 <= i < decoded.len() ==> decoded[i] is Ok),
        spec_decide_change(namespace, relation_name, action, decoded) matches Some(c) ==> {
            &&& c.namespace == namespace
            &&& c.relation_name == relation_name
            &&& c.debug_message is None
            &&& action == ChangeAction::Insert ==> c.change_type == ChangeType::Insert
                && c.new_row == Some(decoded[0]->Ok_0) && c.old_row is None
            &&& action == ChangeAction::Update ==> c.change_type == ChangeType::Update
                && c.new_row == Some(decoded[0]->Ok_0) && c.old_row == Some(decoded[1]->Ok_0)
            &&& action == ChangeAction::Delete ==> c.change_type == ChangeType::Delete
                && c.new_row is None && c.old_row == Some(decoded[0]->Ok_0)
        },
{
    if action == ChangeAction::Update {
        if decoded[0] is Ok && decoded[1] is Ok {
            assert forall|i: int| 0 <= i < decoded.len() implies decoded[i] is Ok by {
                if i == 0 {
                } else {
                    assert(i == 1);
                }
            }
        }
    } else if action == ChangeAction::Insert || action == ChangeAction::Delete {
        if decoded[0] is Ok {
            assert forall|i: int| 0 <= i < decoded.len() implies decoded[i] is Ok by {
                assert(i == 0);
            }
        }
    }
}

/// Reorder-buffer code 0 is an insert, 1 an update, 2 a delete, and every other
/// code is something else.
pub proof fn law_action_codes(code: u32)
    ensures
        (ChangeAction::spec_from_code(code) == ChangeAction::Insert) == (code == 0),
        (ChangeAction::spec_from_code(code) == ChangeAction::Update) == (code == 1),
        (ChangeAction::spec_from_code(code) == ChangeAction::Delete) == (code == 2),
        (ChangeAction::spec_from_code(code) == ChangeAction::Other) == (code > 2),
{
}

} // verus!

//! Rules of the node table: blockchain types are unique, missing nodes are
//! reported as not found, and updates keep the fields they do not name.
use vstd::prelude::*;
use crate::error::AppError;
use crate::models::node::{spec_updated, apply_update, CreateNodeRequest, Node, NodeView, UpdateNodeRequest};

verus! {

/// The message of a refused duplicate blockchain type.
pub open spec fn duplicate_type_message(t: Seq<char>) -> Seq<char> {
    "Node with blockchain type '"@ + t + "' already exists"@
}

/// The message of a missing node.
pub open spec fn node_not_found_message() -> Seq<char> {
    "Node not found"@
}

/// The error of a missing node.
pub open spec fn is_node_not_found(e: AppError) -> bool {
    e matches AppError::NotFound(m) && m@ == node_not_found_message()
}

/// The error of a duplicate blockchain type.
pub open spec fn is_duplicate_type(e: AppError, t: Seq<char>) -> bool {
    e matches AppError::Conflict(m) && m@ == duplicate_type_message(t)
}

/// A write may go ahead when the store counts no other node with the type.
pub open spec fn no_duplicates(count: int) -> bool {
    !(count > 0)
}

fn duplicate_type_error(t: &str) -> (e: AppError)
    ensures
        is_duplicate_type(e, t@),
{
    let mut m = String::from_str("Node with blockchain type '");
    m.append(t);
    m.append("' already exists");
    AppError::Conflict(m)
}

fn node_not_found() -> (e: AppError)
    ensures
        is_node_not_found(e),
{
    AppError::NotFound(String::from_str("Node not found"))
}

/// Creating a node, once the store has counted the nodes that already have
/// the requested blockchain type: the node may be inserted only when there is
/// none, and is refused as a conflict otherwise.
pub fn admit_new_node(request: &CreateNodeRequest, same_type_count: i64) -> (r: Result<(), AppError>)
    ensures
        r is Ok <==> no_duplicates(same_type_count as int),
        r matches Err(e) ==> is_duplicate_type(e, request.blockchain_type@),
{
    if same_type_count > 0 {
        Err(duplicate_type_error(request.blockchain_type.as_str()))
    } else {
        Ok(())
    }
}

/// A stored node, or the not-found error.
pub fn found_or_not_found(node: Option<Node>) -> (r: Result<Node, AppError>)
    ensures
        node matches Some(n) ==> r == Ok::<Node, AppError>(n),
        node is None ==> (r matches Err(e) && is_node_not_found(e)),
{
    match node {
        Some(n) => Ok(n),
        None => Err(node_not_found()),
    }
}

/// The outcome of deleting a node, from the number of rows the store removed.
pub fn deletion_outcome(rows_affected: u64) -> (r: Result<(), AppError>)
    ensures
        r is Ok <==> rows_affected != 0,
        r matches Err(e) ==> is_node_not_found(e),
{
    if rows_affected == 0 {
        Err(node_not_found())
    } else {
        Ok(())
    }
}

/// What an update does once the stored node has been read.
#[derive(Debug)]
pub enum UpdatePlan {
    /// Answer at once, without writing.
    Respond(Result<Node, AppError>),
    /// Count the other nodes with the new blockchain type, then store the
    /// updated node if there is none.
    CheckTypeThenStore { blockchain_type: String, updated: Node },
    /// Store the updated node.
    Store(Node),
}

/// Plans an update of a node made at time `now`, from the stored node (if
/// any): a missing node is not found; a body that changes nothing answers with
/// the stored node unchanged; a new blockchain type must first be checked for
/// duplicates; otherwise the updated node is stored.
pub fn plan_update(existing: Option<Node>, update: &UpdateNodeRequest, now: i64) -> (p: UpdatePlan)
    ensures
        existing is None ==> (p matches UpdatePlan::Respond(Err(e)) && is_node_not_found(e)),
        existing is Some && update.changes_nothing() ==> p == UpdatePlan::Respond(
            Ok::<Node, AppError>(existing->0),
        ),
        existing is Some && !update.changes_nothing() && update.blockchain_type is Some ==> (
        p matches UpdatePlan::CheckTypeThenStore { blockchain_type, updated }
            && blockchain_type@ == update.blockchain_type->0@ && updated@ == spec_updated(
            existing->0@,
            *update,
            now,
        )),
        existing is Some && !update.changes_nothing() && update.blockchain_type is None ==> (
        p matches UpdatePlan::Store(updated) && updated@ == spec_updated(existing->0@, *update, now)),
{
    match existing {
        None => UpdatePlan::Respond(Err(node_not_found())),
        Some(n) => {
            if update.is_empty() {
                UpdatePlan::Respond(Ok(n))
            } else {
                let updated = apply_update(&n, update, now);
                match &update.blockchain_type {
                    Some(t) => UpdatePlan::CheckTypeThenStore { blockchain_type: t.clone(), updated },
                    None => UpdatePlan::Store(updated),
                }
            }
        },
    }
}

/// Finishes an update that changes the blockchain type, once the store has
/// counted the other nodes that have it: the updated node may be stored only
/// when there is none.
pub fn confirm_new_type(updated: Node, other_count: i64) -> (r: Result<Node, AppError>)
    ensures
        no_duplicates(other_count as int) ==> r == Ok::<Node, AppError>(updated),
        !no_duplicates(other_count as int) ==> (r matches Err(e) && is_duplicate_type(
            e,
            updated.blockchain_type@,
        )),
{
    if other_count > 0 {
        Err(duplicate_type_error(updated.blockchain_type.as_str()))
    } else {
        Ok(updated)
    }
}

/// A row of the node table matches a blockchain type, leaving aside the node
/// with id `except` when there is one.
pub open spec fn counts_for(row: NodeView, t: Seq<char>, except: Option<i64>) -> bool {
    row.blockchain_type == t && match except {
        Some(id) => row.id != id,
        None => true,
    }
}

/// The number of rows of the node table that match a blockchain type.
pub open spec fn count_with_type(rows: Seq<NodeView>, t: Seq<char>, except: Option<i64>) -> nat
    decreases rows.len(),
{
    if rows.len() == 0 {
        0
    } else {
        count_with_type(rows.drop_last(), t, except) + if counts_for(rows.last(), t, except) {
            1nat
        } else {
            0nat
        }
    }
}

/// No two rows of the node table share a blockchain type.
pub open spec fn types_unique(rows: Seq<NodeView>) -> bool {
    forall|i: int, j: int|
        0 <= i < rows.len() && 0 <= j < rows.len() && i != j ==> #[trigger] rows[i].blockchain_type
            != #[trigger] rows[j].blockchain_type
}

/// No two rows of the node table share an id.
pub open spec fn ids_unique(rows: Seq<NodeView>) -> bool {
    forall|i: int, j: int|
        0 <= i < rows.len() && 0 <= j < rows.len() && i != j ==> #[trigger] rows[i].id
            != #[trigger] rows[j].id
}

proof fn lemma_zero_count_means_absent(rows: Seq<NodeView>, t: Seq<char>, except: Option<i64>)
    requires
        count_with_type(rows, t, except) == 0,
    ensures
        forall|i: int| 0 <= i < rows.len() ==> !counts_for(#[trigger] rows[i], t, except),
    decreases rows.len(),
{
    if rows.len() > 0 {
        lemma_zero_count_means_absent(rows.drop_last(), t, except);
        assert forall|i: int| 0 <= i < rows.len() implies !counts_for(#[trigger] rows[i], t, except) by {
            if i < rows.len() - 1 {
                assert(rows[i] == rows.drop_last()[i]);
            }
        }
    }
}

/// Creation keeps blockchain types unique: when the store counts honestly and
/// the creation is admitted, adding the new row leaves no two rows with the
/// same type.
pub proof fn law_create_keeps_types_unique(
    rows: Seq<NodeView>,
    request: CreateNodeRequest,
    created: NodeView,
)
    requires
        types_unique(rows),
        created.blockchain_type == request.blockchain_type@,
        no_duplicates(count_with_type(rows, request.blockchain_type@, None) as int),
    ensures
        types_unique(rows.push(created)),
{
    lemma_zero_count_means_absent(rows, request.blockchain_type@, None);
    let after = rows.push(created);
    assert forall|i: int, j: int|
        0 <= i < after.len() && 0 <= j < after.len() && i != j implies #[trigger] after[i].blockchain_type
        != #[trigger] after[j].blockchain_type by {
        if i == rows.len() {
            assert(!counts_for(rows[j], request.blockchain_type@, None));
        } else if j == rows.len() {
            assert(!counts_for(rows[i], request.blockchain_type@, None));
        } else {
            assert(after[i] == rows[i] && after[j] == rows[j]);
        }
    }
}

/// Updates keep blockchain types unique: when the row with the updated id is
/// replaced by its update, and a new blockchain type was admitted after an
/// honest count of the other nodes with it, no two rows share a type.
pub proof fn law_update_keeps_types_unique(
    rows: Seq<NodeView>,
    k: int,
    update: UpdateNodeRequest,
    now: i64,
)
    requires
        types_unique(rows),
        ids_unique(rows),
        0 <= k < rows.len(),
        update.blockchain_type matches Some(t) ==> no_duplicates(
            count_with_type(rows, t@, Some(rows[k].id)) as int,
        ),
    ensures
        types_unique(rows.update(k, spec_updated(rows[k], update, now))),
{
    let updated = spec_updated(rows[k], update, now);
    let after = rows.update(k, updated);
    match update.blockchain_type {
        Some(t) => {
            lemma_zero_count_means_absent(rows, t@, Some(rows[k].id));
        },
        None => {},
    }
    assert forall|i: int, j: int|
        0 <= i < after.len() && 0 <= j < after.len() && i != j implies #[trigger] after[i].blockchain_type
        != #[trigger] after[j].blockchain_type by {
        if i == k {
            match update.blockchain_type {
                Some(t) => {
                    assert(!counts_for(rows[j], t@, Some(rows[k].id)));
                },
                None => {},
            }
        } else if j == k {
            match update.blockchain_type {
                Some(t) => {
                    assert(!counts_for(rows[i], t@, Some(rows[k].id)));
                },
                None => {},
            }
        }
    }
}

/// A write goes ahead exactly when the store counts no node with the type.
pub proof fn law_writes_need_a_zero_count(count: int)
    ensures
        no_duplicates(count) <==> count <= 0,
{
}

} // verus!

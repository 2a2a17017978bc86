//! Rules of the price-history table: prices belong to existing nodes, and the
//! latest prices of a node are, per provider, the most recently fetched ones.
use vstd::prelude::*;
use crate::error::AppError;
use crate::models::price_history::{stamps_view, PriceStamp, PriceStampView};
use crate::text::{push_decimal, spec_decimal};

verus! {

/// The message of a price for a missing node.
pub open spec fn missing_node_message(node_id: i64) -> Seq<char> {
    "Node "@ + spec_decimal(node_id as int) + " not found"@
}

/// Recording a price, once the store has counted the nodes with the id: the
/// price may be stored only when the node exists.
pub fn node_must_exist(node_id: i64, node_count: i64) -> (r: Result<(), AppError>)
    ensures
        r is Ok <==> node_count != 0,
        r matches Err(e) ==> (e matches AppError::NotFound(m) && m@ == missing_node_message(
            node_id,
        )),
{
    if node_count == 0 {
        let mut m = String::from_str("Node ");
        push_decimal(&mut m, node_id);
        m.append(" not found");
        Err(AppError::NotFound(m))
    } else {
        Ok(())
    }
}

/// Row `i` is a price of node `node_id` and no price of the same node at the
/// same provider was fetched later.
pub open spec fn is_latest(rows: Seq<PriceStampView>, node_id: i64, i: int) -> bool {
    &&& rows[i].node_id == node_id
    &&& forall|j: int|
        0 <= j < rows.len() && rows[j].node_id == node_id && rows[j].provider == rows[i].provider
            ==> #[trigger] rows[j].fetched_at <= rows[i].fetched_at
}

fn newest_of_provider(rows: &Vec<PriceStamp>, node_id: i64, i: usize) -> (r: bool)
    requires
        i < rows@.len(),
    ensures
        r == is_latest(stamps_view(rows@), node_id, i as int),
{
    let ghost view = stamps_view(rows@);
    if rows[i].node_id != node_id {
        return false;
    }
    let mut j: usize = 0;
    while j < rows.len()
        invariant
            i < rows@.len(),
            view == stamps_view(rows@),
            view[i as int].node_id == node_id,
            j <= rows@.len(),
            forall|k: int|
                0 <= k < j && view[k].node_id == node_id && view[k].provider == view[i as int].provider
                    ==> #[trigger] view[k].fetched_at <= view[i as int].fetched_at,
        decreases rows@.len() - j,
    {
        if rows[j].node_id == node_id && rows[j].provider == rows[i].provider && rows[j].fetched_at
            > rows[i].fetched_at {
            assert(view[j as int].fetched_at > view[i as int].fetched_at);
            return false;
        }
        j = j + 1;
    }
    true
}

/// The positions of the latest prices of a node: for each provider, the
/// prices of the node fetched at that provider's latest time. The positions
/// are listed in increasing order.
pub fn latest_node_prices(rows: &Vec<PriceStamp>, node_id: i64) -> (keep: Vec<usize>)
    ensures
        forall|k: int| 0 <= k < keep@.len() ==> #[trigger] keep@[k] < rows@.len(),
        forall|k: int, l: int| 0 <= k < l < keep@.len() ==> #[trigger] keep@[k] < #[trigger] keep@[l],
        forall|k: int|
            0 <= k < keep@.len() ==> is_latest(
                stamps_view(rows@),
                node_id,
                #[trigger] keep@[k] as int,
            ),
        forall|i: int|
            0 <= i < rows@.len() && #[trigger] is_latest(stamps_view(rows@), node_id, i)
                ==> keep@.contains(i as usize),
{
    let ghost view = stamps_view(rows@);
    let mut keep: Vec<usize> = Vec::new();
    let mut i: usize = 0;
    while i < rows.len()
        invariant
            view == stamps_view(rows@),
            i <= rows@.len(),
            forall|k: int| 0 <= k < keep@.len() ==> #[trigger] keep@[k] < i,
            forall|k: int, l: int| 0 <= k < l < keep@.len() ==> #[trigger] keep@[k] < #[trigger] keep@[l],
            forall|k: int| 0 <= k < keep@.len() ==> is_latest(view, node_id, #[trigger] keep@[k] as int),
            forall|m: int| 0 <= m < i && #[trigger] is_latest(view, node_id, m) ==> keep@.contains(m as usize),
        decreases rows@.len() - i,
    {
        let ghost before = keep@;
        if newest_of_provider(rows, node_id, i) {
            keep.push(i);
            assert(keep@[keep@.len() - 1] == i);
            assert forall|m: int| 0 <= m < i + 1 && #[trigger] is_latest(view, node_id, m) implies keep@.contains(
                m as usize,
            ) by {
                if m < i {
                    let k = choose|k: int| 0 <= k < before.len() && before[k] == m as usize;
                    assert(keep@[k] == m as usize);
                }
            }
        }
        i = i + 1;
    }
    keep
}

/// Among the prices of one node at one provider, some price was fetched
/// last; by induction on how many prices of the provider are newer.
proof fn lemma_newest_by_time(rows: Seq<PriceStampView>, node_id: i64, i: int)
    requires
        0 <= i < rows.len(),
        rows[i].node_id == node_id,
    ensures
        exists|m: int|
            0 <= m < rows.len() && #[trigger] rows[m].provider == rows[i].provider && is_latest(
                rows,
                node_id,
                m,
            ),
    decreases newer_count(rows, node_id, rows[i].provider, rows[i].fetched_at as int, rows.len() as int),
{
    let p = rows[i].provider;
    let t = rows[i].fetched_at as int;
    let later = exists|j: int|
        0 <= j < rows.len() && rows[j].node_id == node_id && rows[j].provider == p
            && #[trigger] rows[j].fetched_at > t;
    if later {
        let j = choose|j: int|
            0 <= j < rows.len() && rows[j].node_id == node_id && rows[j].provider == p
                && #[trigger] rows[j].fetched_at > t;
        lemma_newer_count_drops(rows, node_id, p, t, rows[j].fetched_at as int, j, rows.len() as int);
        lemma_newest_by_time(rows, node_id, j);
    } else {
        assert(is_latest(rows, node_id, i));
    }
}

/// The number of prices among the first `n` rows, of the node at the provider,
/// fetched after `t`.
pub open spec fn newer_count(rows: Seq<PriceStampView>, node_id: i64, p: Seq<char>, t: int, n: int) -> nat
    decreases n,
{
    if n <= 0 {
        0
    } else {
        newer_count(rows, node_id, p, t, n - 1) + if rows[n - 1].node_id == node_id && rows[n
            - 1].provider == p && rows[n - 1].fetched_at > t {
            1nat
        } else {
            0nat
        }
    }
}

proof fn lemma_newer_count_drops(
    rows: Seq<PriceStampView>,
    node_id: i64,
    p: Seq<char>,
    t: int,
    u: int,
    j: int,
    n: int,
)
    requires
        t < u,
        0 <= j < rows.len(),
        rows[j].node_id == node_id,
        rows[j].provider == p,
        rows[j].fetched_at == u,
        0 <= n <= rows.len(),
    ensures
        newer_count(rows, node_id, p, u, n) <= newer_count(rows, node_id, p, t, n),
        j < n ==> newer_count(rows, node_id, p, u, n) < newer_count(rows, node_id, p, t, n),
    decreases n,
{
    if n > 0 {
        lemma_newer_count_drops(rows, node_id, p, t, u, j, n - 1);
    }
}

/// When no two prices of the node at one provider share a fetch time, each
/// provider has at most one latest price.
pub proof fn law_one_latest_price_per_provider(rows: Seq<PriceStampView>, node_id: i64, i: int, j: int)
    requires
        0 <= i < rows.len(),
        0 <= j < rows.len(),
        i != j,
        forall|a: int, b: int|
            0 <= a < rows.len() && 0 <= b < rows.len() && a != b && rows[a].node_id == node_id
                && rows[b].node_id == node_id && rows[a].provider == rows[b].provider ==> #[trigger] rows[a].fetched_at
                != #[trigger] rows[b].fetched_at,
        is_latest(rows, node_id, i),
        is_latest(rows, node_id, j),
    ensures
        rows[i].provider != rows[j].provider,
{
    if rows[i].provider == rows[j].provider {
        assert(rows[j].fetched_at <= rows[i].fetched_at);
        assert(rows[i].fetched_at <= rows[j].fetched_at);
    }
}

/// Every provider with a price for the node is represented among the latest
/// prices, and each latest price is the newest of its provider.
pub proof fn law_latest_covers_every_provider(rows: Seq<PriceStampView>, node_id: i64, i: int)
    requires
        0 <= i < rows.len(),
        rows[i].node_id == node_id,
    ensures
        exists|m: int|
            0 <= m < rows.len() && #[trigger] rows[m].provider == rows[i].provider && is_latest(
                rows,
                node_id,
                m,
            ) && rows[m].fetched_at >= rows[i].fetched_at,
{
    lemma_newest_by_time(rows, node_id, i);
    let m = choose|m: int|
        0 <= m < rows.len() && #[trigger] rows[m].provider == rows[i].provider && is_latest(
            rows,
            node_id,
            m,
        );
    assert(rows[m].fetched_at >= rows[i].fetched_at);
}

/// A price is among the latest of a node exactly when it belongs to the node
/// and no price of the node at the same provider was fetched after it.
pub proof fn law_latest_means_newest_of_provider(rows: Seq<PriceStampView>, node_id: i64, i: int)
    requires
        0 <= i < rows.len(),
    ensures
        is_latest(rows, node_id, i) <==> (rows[i].node_id == node_id && !exists|j: int|
            0 <= j < rows.len() && rows[j].node_id == node_id && rows[j].provider == rows[i].provider
                && #[trigger] rows[j].fetched_at > rows[i].fetched_at),
{
}

} // verus!

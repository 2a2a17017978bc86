//! Miner nodes: their stored form, and the bodies that create and update them.
use vstd::prelude::*;
use crate::validation::{
    add_violation, check_length, check_range, finish, length_ok, length_params, length_rule_params,
    range_ok, range_params, range_rule_params, unless, violation, FieldViolation, ValidationErrors,
    ViolationView,
};

verus! {

/// A stored node: the hardware one blockchain's node needs. Times are whole
/// seconds since the Unix epoch.
#[derive(Clone, Debug)]
pub struct Node {
    pub id: i64,
    pub blockchain_type: String,
    pub cpu_cores: i32,
    pub ram_gb: i32,
    pub storage_gb: i32,
    pub network_mbps: i32,
    pub created_at: i64,
    pub updated_at: Option<i64>,
}

/// A node as a mathematical value.
pub struct NodeView {
    pub id: i64,
    pub blockchain_type: Seq<char>,
    pub cpu_cores: i32,
    pub ram_gb: i32,
    pub storage_gb: i32,
    pub network_mbps: i32,
    pub created_at: i64,
    pub updated_at: Option<i64>,
}

impl View for Node {
    type V = NodeView;

    open spec fn view(&self) -> NodeView {
        NodeView {
            id: self.id,
            blockchain_type: self.blockchain_type@,
            cpu_cores: self.cpu_cores,
            ram_gb: self.ram_gb,
            storage_gb: self.storage_gb,
            network_mbps: self.network_mbps,
            created_at: self.created_at,
            updated_at: self.updated_at,
        }
    }
}

/// The body of a request that creates a node.
#[derive(Clone, Debug)]
pub struct CreateNodeRequest {
    pub blockchain_type: String,
    pub cpu_cores: i32,
    pub ram_gb: i32,
    pub storage_gb: i32,
    pub network_mbps: i32,
}

/// The body of a request that updates a node; absent fields are kept.
#[derive(Clone, Debug)]
pub struct UpdateNodeRequest {
    pub blockchain_type: Option<String>,
    pub cpu_cores: Option<i32>,
    pub ram_gb: Option<i32>,
    pub storage_gb: Option<i32>,
    pub network_mbps: Option<i32>,
}

/// The rule of a blockchain type: at least one character.
pub open spec fn blockchain_type_ok(t: Seq<char>) -> bool {
    length_ok(t.len() as int, Some(1), None, None)
}

/// The rule of a hardware amount: not negative.
pub open spec fn amount_ok(v: Option<i32>) -> bool {
    range_ok(v, Some(0), None)
}

/// The violation of one hardware amount, if it is negative.
pub open spec fn amount_violation(field: Seq<char>, v: Option<i32>) -> Seq<ViolationView> {
    unless(amount_ok(v), violation(field, "range"@, range_params(Some(0), None, v->0 as int)))
}

/// The violations of the four hardware amounts, in field order.
pub open spec fn amount_violations(
    cpu_cores: Option<i32>,
    ram_gb: Option<i32>,
    storage_gb: Option<i32>,
    network_mbps: Option<i32>,
) -> Seq<ViolationView> {
    amount_violation("cpu_cores"@, cpu_cores) + amount_violation("ram_gb"@, ram_gb)
        + amount_violation("storage_gb"@, storage_gb) + amount_violation(
        "network_mbps"@,
        network_mbps,
    )
}

fn check_amount(list: &mut Vec<FieldViolation>, field: &'static str, value: Option<i32>)
    ensures
        final(list)@.map_values(|v: FieldViolation| v@) == old(list)@.map_values(
            |v: FieldViolation| v@,
        ) + amount_violation(field@, value),
{
    let ghost start = list@.map_values(|v: FieldViolation| v@);
    if !check_range(value, Some(0), None) {
        if let Some(v) = value {
            add_violation(list, field, "range", None, range_rule_params(Some(0), None, v));
        }
    }
    assert(list@.map_values(|v: FieldViolation| v@) =~= start + amount_violation(field@, value));
}

fn check_amounts(
    list: &mut Vec<FieldViolation>,
    cpu_cores: Option<i32>,
    ram_gb: Option<i32>,
    storage_gb: Option<i32>,
    network_mbps: Option<i32>,
)
    ensures
        final(list)@.map_values(|v: FieldViolation| v@) == old(list)@.map_values(
            |v: FieldViolation| v@,
        ) + amount_violations(cpu_cores, ram_gb, storage_gb, network_mbps),
{
    let ghost start = list@.map_values(|v: FieldViolation| v@);
    check_amount(list, "cpu_cores", cpu_cores);
    check_amount(list, "ram_gb", ram_gb);
    check_amount(list, "storage_gb", storage_gb);
    check_amount(list, "network_mbps", network_mbps);
    assert(list@.map_values(|v: FieldViolation| v@) =~= start + amount_violations(
        cpu_cores,
        ram_gb,
        storage_gb,
        network_mbps,
    ));
}

impl CreateNodeRequest {
    /// The rule violations of the body: a non-empty blockchain type and
    /// non-negative hardware amounts.
    pub open spec fn violations(&self) -> Seq<ViolationView> {
        unless(
            blockchain_type_ok(self.blockchain_type@),
            violation("blockchain_type"@, "length"@, length_params(Some(1), None, self.blockchain_type@)),
        ) + amount_violations(
            Some(self.cpu_cores),
            Some(self.ram_gb),
            Some(self.storage_gb),
            Some(self.network_mbps),
        )
    }

    /// Checks the body against its field rules.
    pub fn validate(&self) -> (r: Result<(), ValidationErrors>)
        ensures
            r is Ok <==> self.violations().len() == 0,
            r matches Err(e) ==> e@ == self.violations(),
    {
        let mut list: Vec<FieldViolation> = Vec::new();
        if !check_length(self.blockchain_type.as_str(), Some(1), None, None) {
            add_violation(
                &mut list,
                "blockchain_type",
                "length",
                None,
                length_rule_params(Some(1), None, self.blockchain_type.as_str()),
            );
        }
        check_amounts(
            &mut list,
            Some(self.cpu_cores),
            Some(self.ram_gb),
            Some(self.storage_gb),
            Some(self.network_mbps),
        );
        assert(list@.map_values(|v: FieldViolation| v@) =~= self.violations());
        finish(list)
    }
}

impl UpdateNodeRequest {
    /// The body changes no field at all.
    pub open spec fn changes_nothing(&self) -> bool {
        &&& self.blockchain_type is None
        &&& self.cpu_cores is None
        &&& self.ram_gb is None
        &&& self.storage_gb is None
        &&& self.network_mbps is None
    }

    /// The rule violations of the body: the rules of a creation body, applied
    /// to the fields that are present.
    pub open spec fn violations(&self) -> Seq<ViolationView> {
        unless(
            match self.blockchain_type {
                Some(t) => blockchain_type_ok(t@),
                None => true,
            },
            violation(
                "blockchain_type"@,
                "length"@,
                length_params(Some(1), None, self.blockchain_type->0@),
            ),
        ) + amount_violations(self.cpu_cores, self.ram_gb, self.storage_gb, self.network_mbps)
    }

    /// Whether the body changes no field at all.
    pub fn is_empty(&self) -> (r: bool)
        ensures
            r == self.changes_nothing(),
    {
        self.blockchain_type.is_none() && self.cpu_cores.is_none() && self.ram_gb.is_none()
            && self.storage_gb.is_none() && self.network_mbps.is_none()
    }

    /// Checks the body against its field rules.
    pub fn validate(&self) -> (r: Result<(), ValidationErrors>)
        ensures
            r is Ok <==> self.violations().len() == 0,
            r matches Err(e) ==> e@ == self.violations(),
    {
        let mut list: Vec<FieldViolation> = Vec::new();
        match &self.blockchain_type {
            Some(t) => {
                if !check_length(t.as_str(), Some(1), None, None) {
                    add_violation(
                        &mut list,
                        "blockchain_type",
                        "length",
                        None,
                        length_rule_params(Some(1), None, t.as_str()),
                    );
                }
            },
            None => {},
        }
        check_amounts(&mut list, self.cpu_cores, self.ram_gb, self.storage_gb, self.network_mbps);
        assert(list@.map_values(|v: FieldViolation| v@) =~= self.violations());
        finish(list)
    }
}

/// `value` when present, `current` otherwise.
pub open spec fn keep_unless<T>(value: Option<T>, current: T) -> T {
    match value {
        Some(v) => v,
        None => current,
    }
}

/// The node after an update made at time `now`: each field given in the body
/// replaces the stored one, the others stay, and the update time is `now`.
pub open spec fn spec_updated(existing: NodeView, update: UpdateNodeRequest, now: i64) -> NodeView {
    NodeView {
        id: existing.id,
        blockchain_type: match update.blockchain_type {
            Some(t) => t@,
            None => existing.blockchain_type,
        },
        cpu_cores: keep_unless(update.cpu_cores, existing.cpu_cores),
        ram_gb: keep_unless(update.ram_gb, existing.ram_gb),
        storage_gb: keep_unless(update.storage_gb, existing.storage_gb),
        network_mbps: keep_unless(update.network_mbps, existing.network_mbps),
        created_at: existing.created_at,
        updated_at: Some(now),
    }
}

/// Applies an update body to a stored node at time `now`.
pub fn apply_update(existing: &Node, update: &UpdateNodeRequest, now: i64) -> (r: Node)
    ensures
        r@ == spec_updated(existing@, *update, now),
{
    let blockchain_type = match &update.blockchain_type {
        Some(t) => t.clone(),
        None => existing.blockchain_type.clone(),
    };
    Node {
        id: existing.id,
        blockchain_type,
        cpu_cores: match update.cpu_cores {
            Some(v) => v,
            None => existing.cpu_cores,
        },
        ram_gb: match update.ram_gb {
            Some(v) => v,
            None => existing.ram_gb,
        },
        storage_gb: match update.storage_gb {
            Some(v) => v,
            None => existing.storage_gb,
        },
        network_mbps: match update.network_mbps {
            Some(v) => v,
            None => existing.network_mbps,
        },
        created_at: existing.created_at,
        updated_at: Some(now),
    }
}

/// A partial update changes exactly the fields it names: every field that the
/// body leaves out keeps its stored value, and the node keeps its identity.
pub proof fn law_partial_update_keeps_other_fields(
    existing: NodeView,
    update: UpdateNodeRequest,
    now: i64,
)
    ensures
        ({
            let after = spec_updated(existing, update, now);
            &&& after.id == existing.id
            &&& after.created_at == existing.created_at
            &&& update.blockchain_type is None ==> after.blockchain_type == existing.blockchain_type
            &&& update.cpu_cores is None ==> after.cpu_cores == existing.cpu_cores
            &&& update.ram_gb is None ==> after.ram_gb == existing.ram_gb
            &&& update.storage_gb is None ==> after.storage_gb == existing.storage_gb
            &&& update.network_mbps is None ==> after.network_mbps == existing.network_mbps
            &&& update.blockchain_type matches Some(t) ==> after.blockchain_type == t@
            &&& update.cpu_cores matches Some(v) ==> after.cpu_cores == v
            &&& update.ram_gb matches Some(v) ==> after.ram_gb == v
            &&& update.storage_gb matches Some(v) ==> after.storage_gb == v
            &&& update.network_mbps matches Some(v) ==> after.network_mbps == v
        }),
{
}

/// A body changes nothing exactly when all five of its fields are absent; a
/// body that gives any field is written, and every given field, the
/// bandwidth included, takes the given value in the updated node, whose
/// update time is the time of the update.
pub proof fn law_given_fields_are_written(existing: NodeView, update: UpdateNodeRequest, now: i64)
    ensures
        update.changes_nothing() <==> (update.blockchain_type is None && update.cpu_cores is None
            && update.ram_gb is None && update.storage_gb is None && update.network_mbps is None),
        update.network_mbps matches Some(v) ==> !update.changes_nothing() && spec_updated(
            existing,
            update,
            now,
        ).network_mbps == v,
        update.storage_gb matches Some(v) ==> !update.changes_nothing() && spec_updated(
            existing,
            update,
            now,
        ).storage_gb == v,
        update.ram_gb matches Some(v) ==> !update.changes_nothing() && spec_updated(
            existing,
            update,
            now,
        ).ram_gb == v,
        update.cpu_cores matches Some(v) ==> !update.changes_nothing() && spec_updated(
            existing,
            update,
            now,
        ).cpu_cores == v,
        update.blockchain_type matches Some(t) ==> !update.changes_nothing() && spec_updated(
            existing,
            update,
            now,
        ).blockchain_type == t@,
        spec_updated(existing, update, now).updated_at == Some(now),
{
}

/// A creation body is valid exactly when its blockchain type has at least one
/// character and none of its four hardware amounts is negative.
pub proof fn law_create_body_rules(request: CreateNodeRequest)
    ensures
        request.violations().len() == 0 <==> (request.blockchain_type@.len() >= 1
            && request.cpu_cores >= 0 && request.ram_gb >= 0 && request.storage_gb >= 0
            && request.network_mbps >= 0),
{
}

/// An update body is valid exactly when a given blockchain type has at least
/// one character and no given hardware amount is negative.
pub proof fn law_update_body_rules(update: UpdateNodeRequest)
    ensures
        update.violations().len() == 0 <==> ((update.blockchain_type matches Some(t) ==> t@.len()
            >= 1) && (update.cpu_cores matches Some(v) ==> v >= 0) && (update.ram_gb matches Some(v)
            ==> v >= 0) && (update.storage_gb matches Some(v) ==> v >= 0) && (
        update.network_mbps matches Some(v) ==> v >= 0)),
{
}

} // verus!

//! The planning side of fetching hardware prices from the Google Cloud
//! billing catalog: which catalog service and SKUs price each resource,
//! which inputs are refused, and how the paged SKU listing is walked with
//! retries. The network calls and the floating-point sums stay with the
//! caller.
use vstd::prelude::*;
use crate::error::AppError;
use crate::text::{contains_text, spec_contains, str_eq};

verus! {

/// The category of a catalog SKU.
#[derive(Clone, Debug)]
pub struct GcpCategory {
    pub service_display_name: String,
    pub resource_family: String,
    pub resource_group: String,
    pub usage_type: String,
}

/// An amount of money: whole units (as text) and billionths of a unit.
#[derive(Clone, Debug)]
pub struct GcpMoney {
    pub currency_code: String,
    pub units: String,
    pub nanos: i32,
}

/// Where a SKU is offered.
#[derive(Clone, Debug)]
pub struct GeoTaxonomy {
    pub taxonomy_type: String,
    pub regions: Vec<String>,
}

/// What the SKU filter reads of a catalog SKU.
#[derive(Clone, Debug)]
pub struct SkuListing {
    pub description: String,
    pub category: GcpCategory,
}

/// The catalog service of Compute Engine, which prices every resource.
pub open spec fn compute_engine_service() -> Seq<char> {
    "6F81-5844-456A"@
}

/// The resource types that can be priced.
pub open spec fn known_resource(t: Seq<char>) -> bool {
    t == "compute"@ || t == "ram"@ || t == "storage"@ || t == "network"@
}

/// The catalog resource group of a resource type.
pub open spec fn spec_resource_group(t: Seq<char>) -> Seq<char> {
    if t == "compute"@ {
        "CPU"@
    } else if t == "ram"@ {
        "RAM"@
    } else if t == "storage"@ {
        "SSD"@
    } else {
        "Network"@
    }
}

/// The catalog service that prices a resource type, if the type is known.
pub fn gcp_service_id(resource_type: &str) -> (r: Option<&'static str>)
    ensures
        r is Some <==> known_resource(resource_type@),
        r matches Some(id) ==> id@ == compute_engine_service(),
{
    if str_eq(resource_type, "compute") || str_eq(resource_type, "ram") || str_eq(
        resource_type,
        "storage",
    ) || str_eq(resource_type, "network") {
        Some("6F81-5844-456A")
    } else {
        None
    }
}

/// The catalog resource group of a resource type, if the type is known.
pub fn resource_group(resource_type: &str) -> (r: Option<&'static str>)
    ensures
        r is Some <==> known_resource(resource_type@),
        r matches Some(g) ==> g@ == spec_resource_group(resource_type@),
{
    if str_eq(resource_type, "compute") {
        Some("CPU")
    } else if str_eq(resource_type, "ram") {
        Some("RAM")
    } else if str_eq(resource_type, "storage") {
        Some("SSD")
    } else if str_eq(resource_type, "network") {
        Some("Network")
    } else {
        None
    }
}

/// The description of a SKU fits a resource group: CPU and RAM SKUs name
/// their resource and are not preemptible, SSD SKUs name SSD or persistent
/// disks, network SKUs are about network egress; other groups fit nothing.
pub open spec fn fits_group(description: Seq<char>, group: Seq<char>) -> bool {
    if group == "CPU"@ {
        spec_contains(description, "CPU"@) && !spec_contains(description, "Preemptible"@)
    } else if group == "RAM"@ {
        spec_contains(description, "RAM"@) && !spec_contains(description, "Preemptible"@)
    } else if group == "SSD"@ {
        spec_contains(description, "SSD"@) || spec_contains(description, "Persistent Disk"@)
    } else if group == "Network"@ {
        spec_contains(description, "Network"@) && spec_contains(description, "Egress"@)
    } else {
        false
    }
}

/// A SKU prices a resource group: its description fits the group and it is
/// billed on demand.
pub open spec fn sku_fits(sku: SkuListing, group: Seq<char>) -> bool {
    fits_group(sku.description@, group) && sku.category.usage_type@ == "OnDemand"@
}

/// Whether a SKU prices a resource group.
pub fn sku_matches(sku: &SkuListing, group: &str) -> (r: bool)
    ensures
        r == sku_fits(*sku, group@),
{
    let d = sku.description.as_str();
    let fits = if str_eq(group, "CPU") {
        contains_text(d, "CPU") && !contains_text(d, "Preemptible")
    } else if str_eq(group, "RAM") {
        contains_text(d, "RAM") && !contains_text(d, "Preemptible")
    } else if str_eq(group, "SSD") {
        contains_text(d, "SSD") || contains_text(d, "Persistent Disk")
    } else if str_eq(group, "Network") {
        contains_text(d, "Network") && contains_text(d, "Egress")
    } else {
        false
    };
    fits && str_eq(sku.category.usage_type.as_str(), "OnDemand")
}

/// The positions of the SKUs that price a resource group, in increasing order.
pub fn filter_skus(skus: &Vec<SkuListing>, group: &str) -> (keep: Vec<usize>)
    ensures
        forall|k: int| 0 <= k < keep@.len() ==> #[trigger] keep@[k] < skus@.len(),
        forall|k: int, l: int| 0 <= k < l < keep@.len() ==> #[trigger] keep@[k] < #[trigger] keep@[l],
        forall|k: int| 0 <= k < keep@.len() ==> sku_fits(skus@[#[trigger] keep@[k] as int], group@),
        forall|i: int| 0 <= i < skus@.len() && #[trigger] sku_fits(skus@[i], group@) ==> keep@.contains(
            i as usize,
        ),
{
    let mut keep: Vec<usize> = Vec::new();
    let mut i: usize = 0;
    while i < skus.len()
        invariant
            i <= skus@.len(),
            forall|k: int| 0 <= k < keep@.len() ==> #[trigger] keep@[k] < i,
            forall|k: int, l: int| 0 <= k < l < keep@.len() ==> #[trigger] keep@[k] < #[trigger] keep@[l],
            forall|k: int| 0 <= k < keep@.len() ==> sku_fits(skus@[#[trigger] keep@[k] as int], group@),
            forall|m: int| 0 <= m < i && #[trigger] sku_fits(skus@[m], group@) ==> keep@.contains(m as usize),
        decreases skus@.len() - i,
    {
        let ghost before = keep@;
        if sku_matches(&skus[i], group) {
            keep.push(i);
            assert(keep@[keep@.len() - 1] == i);
            assert forall|m: int| 0 <= m < i + 1 && #[trigger] sku_fits(skus@[m], group@) implies keep@.contains(
                m as usize,
            ) by {
                if m < i {
                    let k = choose|k: int| 0 <= k < before.len() && before[k] == m as usize;
                    assert(keep@[k] == m as usize);
                }
            }
        }
        i = i + 1;
    }
    keep
}

/// The usage units whose unit price is charged per unit of the amount: hours,
/// GiB-hours, GiB-months and GiB.
pub open spec fn priced_usage_unit(unit: Seq<char>) -> bool {
    unit == "h"@ || unit == "GiBy.h"@ || unit == "GiBy.mo"@ || unit == "GiBy"@
}

/// Whether a usage unit is charged per unit of the amount (other units price
/// at zero).
pub fn is_priced_usage_unit(unit: &str) -> (r: bool)
    ensures
        r == priced_usage_unit(unit@),
{
    str_eq(unit, "h") || str_eq(unit, "GiBy.h") || str_eq(unit, "GiBy.mo") || str_eq(unit, "GiBy")
}

/// How to price one resource.
#[derive(Clone, Debug)]
pub enum ResourcePricePlan {
    /// Nothing to price: the amount is zero or negative, and the price is zero.
    Free,
    /// The resource type is refused.
    Rejected(AppError),
    /// List the SKUs of the catalog service, and price the first one of the
    /// resource group.
    Fetch { service_id: &'static str, resource_group: &'static str },
}

/// The message of an unknown resource type.
pub open spec fn invalid_resource_message(t: Seq<char>) -> Seq<char> {
    "Invalid resource type: "@ + t
}

/// Plans the pricing of `amount` of a resource type.
pub fn plan_resource_price(resource_type: &str, amount: i32) -> (p: ResourcePricePlan)
    ensures
        amount <= 0 ==> p is Free,
        amount > 0 && !known_resource(resource_type@) ==> (p matches ResourcePricePlan::Rejected(
            AppError::InvalidInput(m),
        ) && m@ == invalid_resource_message(resource_type@)),
        amount > 0 && known_resource(resource_type@) ==> (p matches ResourcePricePlan::Fetch {
            service_id,
            resource_group,
        } && service_id@ == compute_engine_service() && resource_group@ == spec_resource_group(
            resource_type@,
        )),
{
    if amount <= 0 {
        return ResourcePricePlan::Free;
    }
    match gcp_service_id(resource_type) {
        None => {
            let mut m = String::from_str("Invalid resource type: ");
            m.append(resource_type);
            ResourcePricePlan::Rejected(AppError::InvalidInput(m))
        },
        Some(service_id) => {
            match resource_group(resource_type) {
                Some(group) => ResourcePricePlan::Fetch { service_id, resource_group: group },
                None => ResourcePricePlan::Rejected(
                    AppError::InvalidInput(String::from_str("Invalid resource type")),
                ),
            }
        },
    }
}

/// The message of a resource type without matching SKUs.
pub open spec fn no_skus_message(t: Seq<char>) -> Seq<char> {
    "No SKUs found for "@ + t + " resource"@
}

/// The SKU that prices a resource: the first listed one of its group.
pub fn choose_sku(skus: &Vec<SkuListing>, resource_type: &str, group: &str) -> (r: Result<usize, AppError>)
    ensures
        r matches Ok(i) ==> i < skus@.len() && sku_fits(skus@[i as int], group@) && forall|j: int|
            0 <= j < i ==> !sku_fits(#[trigger] skus@[j], group@),
        r is Err <==> forall|j: int| 0 <= j < skus@.len() ==> !sku_fits(#[trigger] skus@[j], group@),
        r matches Err(e) ==> (e matches AppError::ExternalService(m) && m@ == no_skus_message(
            resource_type@,
        )),
{
    let keep = filter_skus(skus, group);
    if keep.len() == 0 {
        assert forall|j: int| 0 <= j < skus@.len() implies !sku_fits(#[trigger] skus@[j], group@) by {
            if sku_fits(skus@[j], group@) {
                assert(keep@.contains(j as usize));
            }
        }
        let mut m = String::from_str("No SKUs found for ");
        m.append(resource_type);
        m.append(" resource");
        return Err(AppError::ExternalService(m));
    }
    let first = keep[0];
    assert forall|j: int| 0 <= j < first implies !sku_fits(#[trigger] skus@[j], group@) by {
        if sku_fits(skus@[j], group@) {
            assert(keep@.contains(j as usize));
            let k = choose|k: int| 0 <= k < keep@.len() && keep@[k] == j as usize;
            if k > 0 {
                assert(keep@[0] < keep@[k]);
            }
        }
    }
    Ok(first)
}

/// One resource to price, and how much of it.
#[derive(Clone, Copy, Debug)]
pub struct ResourceAmount {
    pub resource_type: &'static str,
    pub amount: i32,
}

/// The resources to price for a node, and whether network egress is priced
/// too (and then only as a best effort: a catalog failure on it is skipped).
#[derive(Clone, Debug)]
pub struct FetchPlan {
    pub parts: Vec<ResourceAmount>,
    pub include_network: bool,
}

/// `[(t, n)]` when `n` is positive, nothing otherwise.
pub open spec fn part_if_positive(t: Seq<char>, n: i32) -> Seq<(Seq<char>, i32)> {
    if n > 0 {
        seq![(t, n)]
    } else {
        Seq::empty()
    }
}

/// The resources priced for given hardware: compute, RAM and storage, each
/// when its amount is positive, in that order.
pub open spec fn spec_parts(cpu_cores: i32, ram_gb: i32, storage_gb: i32) -> Seq<(Seq<char>, i32)> {
    part_if_positive("compute"@, cpu_cores) + part_if_positive("ram"@, ram_gb) + part_if_positive(
        "storage"@,
        storage_gb,
    )
}

/// The resources of a plan as mathematical values.
pub open spec fn parts_view(parts: Seq<ResourceAmount>) -> Seq<(Seq<char>, i32)> {
    parts.map_values(|p: ResourceAmount| (p.resource_type@, p.amount))
}

/// The input error of given hardware, if any: the first negative amount, in
/// the order CPU, RAM, storage.
pub open spec fn input_error_message(cpu_cores: i32, ram_gb: i32, storage_gb: i32) -> Option<Seq<char>> {
    if cpu_cores < 0 {
        Some("CPU cores cannot be negative"@)
    } else if ram_gb < 0 {
        Some("RAM cannot be negative"@)
    } else if storage_gb < 0 {
        Some("Storage cannot be negative"@)
    } else {
        None
    }
}

fn add_part(parts: &mut Vec<ResourceAmount>, resource_type: &'static str, amount: i32)
    ensures
        parts_view(final(parts)@) == parts_view(old(parts)@) + part_if_positive(resource_type@, amount),
{
    if amount > 0 {
        parts.push(ResourceAmount { resource_type, amount });
    }
    assert(parts_view(final(parts)@) =~= parts_view(old(parts)@) + part_if_positive(
        resource_type@,
        amount,
    ));
}

/// Plans the price of a node's hardware: negative amounts are refused;
/// otherwise each positive amount of compute, RAM and storage is priced, and
/// network egress too when all three are positive.
pub fn plan_fetch(cpu_cores: i32, ram_gb: i32, storage_gb: i32) -> (r: Result<FetchPlan, AppError>)
    ensures
        input_error_message(cpu_cores, ram_gb, storage_gb) is Some ==> (r matches Err(
            AppError::InvalidInput(m),
        ) && m@ == input_error_message(cpu_cores, ram_gb, storage_gb)->0),
        input_error_message(cpu_cores, ram_gb, storage_gb) is None ==> (r matches Ok(plan)
            && parts_view(plan.parts@) == spec_parts(cpu_cores, ram_gb, storage_gb)
            && plan.include_network == (cpu_cores > 0 && ram_gb > 0 && storage_gb > 0)),
{
    if cpu_cores < 0 {
        return Err(AppError::InvalidInput(String::from_str("CPU cores cannot be negative")));
    }
    if ram_gb < 0 {
        return Err(AppError::InvalidInput(String::from_str("RAM cannot be negative")));
    }
    if storage_gb < 0 {
        return Err(AppError::InvalidInput(String::from_str("Storage cannot be negative")));
    }
    let mut parts: Vec<ResourceAmount> = Vec::new();
    assert(parts_view(parts@) =~= Seq::<(Seq<char>, i32)>::empty());
    add_part(&mut parts, "compute", cpu_cores);
    add_part(&mut parts, "ram", ram_gb);
    add_part(&mut parts, "storage", storage_gb);
    assert(parts_view(parts@) =~= spec_parts(cpu_cores, ram_gb, storage_gb));
    Ok(FetchPlan { parts, include_network: cpu_cores > 0 && ram_gb > 0 && storage_gb > 0 })
}

/// Whether a failure to price network egress is skipped: catalog failures
/// are, every other error stops the fetch.
pub fn network_failure_is_skipped(e: &AppError) -> (r: bool)
    ensures
        r == (*e is ExternalService),
{
    match e {
        AppError::ExternalService(_) => true,
        _ => false,
    }
}

/// The catalog's address.
pub fn default_base_url() -> (u: String)
    ensures
        u@ == "https://cloudbilling.googleapis.com"@,
{
    String::from_str("https://cloudbilling.googleapis.com")
}

/// The address of the SKU listing of a catalog service.
pub fn skus_url(base_url: &str, service_id: &str) -> (u: String)
    ensures
        u@ == base_url@ + "/v1/services/"@ + service_id@ + "/skus"@,
{
    let mut u = String::from_str(base_url);
    u.append("/v1/services/");
    u.append(service_id);
    u.append("/skus");
    u
}

/// SKUs asked for per page of the listing.
pub const PAGE_SIZE: u32 = 100;

/// Attempts of one page before the listing is given up.
pub const MAX_RETRIES: u32 = 3;

/// How fetching one page of the SKU listing went.
#[derive(Clone, Debug)]
pub enum PageOutcome {
    /// The page came, with the token of the next page (none or empty at the end).
    Fetched { next_page_token: Option<String> },
    /// The page could not be fetched or read.
    Failed,
}

/// What to do next while walking the SKU listing.
#[derive(Clone, Debug)]
pub enum PagerStep {
    /// Fetch the page with the given token (the first page has none).
    FetchPage(Option<String>),
    /// Pause, then fetch the page with the given token again.
    RetryAfterPause(Option<String>),
    /// The listing is complete.
    Finished,
    /// The page failed too often: stop with the last failure.
    GiveUp,
}

/// The walk through the SKU listing: the token of the page being fetched and
/// the number of failed attempts at it, which stays below `MAX_RETRIES`.
pub struct SkuPager {
    page_token: Option<String>,
    retry_count: u32,
}

/// A page token as a mathematical value.
pub open spec fn token_view(t: Option<String>) -> Option<Seq<char>> {
    match t {
        Some(s) => Some(s@),
        None => None,
    }
}

/// The failures counted after one more failed attempt at a page, or `None`
/// when that failure gives the listing up.
pub open spec fn retry_after_failure(failures: nat) -> Option<nat> {
    if failures + 1 >= MAX_RETRIES {
        None
    } else {
        Some(failures + 1)
    }
}

/// The number of consecutive failed attempts, from `failures` already
/// counted, that give the listing up.
pub open spec fn failures_until_give_up(failures: nat) -> nat
    decreases MAX_RETRIES - failures,
{
    match retry_after_failure(failures) {
        None => 1,
        Some(next) => 1 + failures_until_give_up(next),
    }
}

/// A page that keeps failing is given up after exactly `MAX_RETRIES` failed
/// attempts in all, counting those already made.
pub proof fn law_page_attempts_are_bounded(failures: nat)
    requires
        failures < MAX_RETRIES,
    ensures
        failures + failures_until_give_up(failures) == MAX_RETRIES,
    decreases MAX_RETRIES - failures,
{
    if let Some(next) = retry_after_failure(failures) {
        law_page_attempts_are_bounded(next);
    }
}

/// A fetched page names a next page: its token is present and not empty.
pub open spec fn moves_on(o: PageOutcome) -> bool {
    match o {
        PageOutcome::Fetched { next_page_token: Some(t) } => t@.len() > 0,
        _ => false,
    }
}

/// The next-page token of a fetched page (empty when there is none).
pub open spec fn next_of(o: PageOutcome) -> Seq<char> {
    match o {
        PageOutcome::Fetched { next_page_token: Some(t) } => t@,
        _ => Seq::empty(),
    }
}

impl SkuPager {
    #[verifier::type_invariant]
    spec fn retries_below_limit(self) -> bool {
        self.retry_count < MAX_RETRIES
    }

    /// The token of the page being fetched.
    pub closed spec fn token(self) -> Option<Seq<char>> {
        token_view(self.page_token)
    }

    /// The failed attempts at the page being fetched.
    pub closed spec fn failures(self) -> nat {
        self.retry_count as nat
    }

    /// A walk that starts at the first page; fetch it first.
    pub fn new() -> (r: (SkuPager, PagerStep))
        ensures
            r.0.token() is None,
            r.0.failures() == 0,
            r.1 matches PagerStep::FetchPage(None),
    {
        (SkuPager { page_token: None, retry_count: 0 }, PagerStep::FetchPage(None))
    }

    /// The failed attempts at the page being fetched.
    pub fn failed_attempts(&self) -> (n: u32)
        ensures
            n == self.failures(),
    {
        self.retry_count
    }

    /// Takes in how the last fetch went and says what to do next: a page with
    /// a non-empty next token moves on to that page with a fresh count of
    /// failures; a page without one ends the walk; a failure is retried after
    /// a pause until the `MAX_RETRIES`-th failure of the same page, which
    /// gives up.
    pub fn on_outcome(&mut self, outcome: PageOutcome) -> (step: PagerStep)
        ensures
            final(self).failures() < MAX_RETRIES,
            moves_on(outcome) ==> (step matches PagerStep::FetchPage(Some(n)) && n@ == next_of(
                outcome,
            )) && final(self).token() == Some(next_of(outcome)) && final(self).failures() == 0,
            outcome is Fetched && !moves_on(outcome) ==> step is Finished && final(self).token()
                == old(self).token() && final(self).failures() == old(self).failures(),
            outcome is Failed && retry_after_failure(old(self).failures()) is None ==> step is GiveUp,
            outcome is Failed && retry_after_failure(old(self).failures()) is Some ==> (
            step matches PagerStep::RetryAfterPause(t) && token_view(t) == old(self).token()
                && final(self).token() == old(self).token() && final(self).failures()
                == retry_after_failure(old(self).failures())->0),
    {
        proof {
            use_type_invariant(&*self);
        }
        match outcome {
            PageOutcome::Fetched { next_page_token } => match next_page_token {
                Some(t) => {
                    if t.unicode_len() > 0 {
                        let next = t.clone();
                        self.page_token = Some(t);
                        self.retry_count = 0;
                        PagerStep::FetchPage(Some(next))
                    } else {
                        PagerStep::Finished
                    }
                },
                None => PagerStep::Finished,
            },
            PageOutcome::Failed => {
                if self.retry_count + 1 >= MAX_RETRIES {
                    PagerStep::GiveUp
                } else {
                    self.retry_count = self.retry_count + 1;
                    let again = match &self.page_token {
                        Some(t) => Some(t.clone()),
                        None => None,
                    };
                    PagerStep::RetryAfterPause(again)
                }
            },
        }
    }
}

/// The rules of the resource groups, in terms of the SKU's description and
/// usage type: a SKU prices a group only when billed on demand; CPU and RAM
/// SKUs name their resource and are never preemptible; SSD SKUs name SSD or
/// persistent disks; network SKUs name network and egress; no other group is
/// priced by any SKU.
pub proof fn law_sku_group_rules(sku: SkuListing, group: Seq<char>)
    ensures
        sku_fits(sku, "CPU"@) <==> (sku.category.usage_type@ == "OnDemand"@ && spec_contains(
            sku.description@,
            "CPU"@,
        ) && !spec_contains(sku.description@, "Preemptible"@)),
        sku_fits(sku, "RAM"@) <==> (sku.category.usage_type@ == "OnDemand"@ && spec_contains(
            sku.description@,
            "RAM"@,
        ) && !spec_contains(sku.description@, "Preemptible"@)),
        sku_fits(sku, "SSD"@) <==> (sku.category.usage_type@ == "OnDemand"@ && (spec_contains(
            sku.description@,
            "SSD"@,
        ) || spec_contains(sku.description@, "Persistent Disk"@))),
        sku_fits(sku, "Network"@) <==> (sku.category.usage_type@ == "OnDemand"@ && spec_contains(
            sku.description@,
            "Network"@,
        ) && spec_contains(sku.description@, "Egress"@)),
        !(group == "CPU"@ || group == "RAM"@ || group == "SSD"@ || group == "Network"@)
            ==> !sku_fits(sku, group),
{
    reveal_strlit("CPU");
    reveal_strlit("RAM");
    reveal_strlit("SSD");
    reveal_strlit("Network");
    assert("SSD"@[0] != "CPU"@[0] && "SSD"@[0] != "RAM"@[0]);
    assert("Network"@.len() != "CPU"@.len() && "Network"@.len() != "RAM"@.len()
        && "Network"@.len() != "SSD"@.len());
    assert("CPU"@[0] != "RAM"@[0]);
}

/// A preemptible SKU never prices CPU or RAM.
pub proof fn law_preemptible_skus_never_price_cpu_or_ram(sku: SkuListing)
    requires
        spec_contains(sku.description@, "Preemptible"@),
    ensures
        !sku_fits(sku, "CPU"@),
        !sku_fits(sku, "RAM"@),
{
    law_sku_group_rules(sku, "CPU"@);
}

/// Each positive amount is priced on its own: with no negative amount, the
/// plan prices compute, RAM and storage each exactly when its own amount is
/// positive, and then with that amount, whatever the other amounts are; it
/// prices nothing else, and nothing twice.
pub proof fn law_each_positive_amount_is_priced(cpu_cores: i32, ram_gb: i32, storage_gb: i32)
    ensures
        ({
            let parts = spec_parts(cpu_cores, ram_gb, storage_gb);
            &&& (exists|i: int| 0 <= i < parts.len() && parts[i] == ("compute"@, cpu_cores))
                <==> cpu_cores > 0
            &&& (exists|i: int| 0 <= i < parts.len() && parts[i] == ("ram"@, ram_gb)) <==> ram_gb
                > 0
            &&& (exists|i: int| 0 <= i < parts.len() && parts[i] == ("storage"@, storage_gb))
                <==> storage_gb > 0
            &&& forall|i: int|
                0 <= i < parts.len() ==> (#[trigger] parts[i] == ("compute"@, cpu_cores) || parts[i]
                    == ("ram"@, ram_gb) || parts[i] == ("storage"@, storage_gb)) && parts[i].1 > 0
            &&& forall|i: int, j: int|
                0 <= i < j < parts.len() ==> #[trigger] parts[i].0 != #[trigger] parts[j].0
        }),
{
    reveal_strlit("compute");
    reveal_strlit("ram");
    reveal_strlit("storage");
    assert("compute"@.len() != "ram"@.len() && "storage"@.len() != "ram"@.len());
    assert("compute"@[0] != "storage"@[0]);
    let a = part_if_positive("compute"@, cpu_cores);
    let b = part_if_positive("ram"@, ram_gb);
    let c = part_if_positive("storage"@, storage_gb);
    let parts = spec_parts(cpu_cores, ram_gb, storage_gb);
    assert(parts == a + b + c);
    if cpu_cores > 0 {
        assert(parts[0] == ("compute"@, cpu_cores));
    }
    if ram_gb > 0 {
        assert(parts[a.len() as int] == ("ram"@, ram_gb));
    }
    if storage_gb > 0 {
        assert(parts[(a.len() + b.len()) as int] == ("storage"@, storage_gb));
    }
    assert forall|i: int|
        0 <= i < parts.len() implies (#[trigger] parts[i] == ("compute"@, cpu_cores) || parts[i] == (
        "ram"@, ram_gb) || parts[i] == ("storage"@, storage_gb)) && parts[i].1 > 0 by {
        if i < a.len() {
            assert(parts[i] == a[i]);
        } else if i < a.len() + b.len() {
            assert(parts[i] == b[i - a.len()]);
        } else {
            assert(parts[i] == c[i - a.len() - b.len()]);
        }
    }
    assert forall|i: int, j: int| 0 <= i < j < parts.len() implies #[trigger] parts[i].0
        != #[trigger] parts[j].0 by {
        let pi = if i < a.len() { 0int } else if i < a.len() + b.len() { 1int } else { 2int };
        let pj = if j < a.len() { 0int } else if j < a.len() + b.len() { 1int } else { 2int };
        if i < a.len() { assert(parts[i] == a[i]); }
        else if i < a.len() + b.len() { assert(parts[i] == b[i - a.len()]); }
        else { assert(parts[i] == c[i - a.len() - b.len()]); }
        if j < a.len() { assert(parts[j] == a[j]); }
        else if j < a.len() + b.len() { assert(parts[j] == b[j - a.len()]); }
        else { assert(parts[j] == c[j - a.len() - b.len()]); }
        assert(pi != pj);
    }
}

/// Every resource a fetch plan names, and network egress, is a known resource
/// priced by Compute Engine, each in a group of its own: compute by CPU SKUs,
/// RAM by RAM SKUs, storage by SSD SKUs, network by network SKUs.
pub proof fn law_planned_resources_are_known(cpu_cores: i32, ram_gb: i32, storage_gb: i32, i: int)
    requires
        0 <= i < spec_parts(cpu_cores, ram_gb, storage_gb).len(),
    ensures
        known_resource(spec_parts(cpu_cores, ram_gb, storage_gb)[i].0),
        known_resource("network"@),
        spec_resource_group("compute"@) == "CPU"@,
        spec_resource_group("ram"@) == "RAM"@,
        spec_resource_group("storage"@) == "SSD"@,
        spec_resource_group("network"@) == "Network"@,
        compute_engine_service() == "6F81-5844-456A"@,
{
    law_each_positive_amount_is_priced(cpu_cores, ram_gb, storage_gb);
    reveal_strlit("compute");
    reveal_strlit("ram");
    reveal_strlit("storage");
    reveal_strlit("network");
    assert("compute"@.len() != "ram"@.len() && "storage"@.len() != "ram"@.len());
    assert("compute"@[0] != "storage"@[0] && "network"@[0] != "compute"@[0] && "network"@[0]
        != "storage"@[0] && "network"@.len() != "ram"@.len());
    let parts = spec_parts(cpu_cores, ram_gb, storage_gb);
    assert(parts[i] == ("compute"@, cpu_cores) || parts[i] == ("ram"@, ram_gb) || parts[i] == (
    "storage"@, storage_gb));
}

/// A page is retried after its first and second failures and given up at its
/// third: from `failures` already counted, one more failure gives up exactly
/// when two had been counted (or more), and otherwise counts one more.
pub proof fn law_third_failure_gives_up(failures: nat)
    ensures
        retry_after_failure(failures) is None <==> failures >= 2,
        failures < 2 ==> retry_after_failure(failures) == Some((failures + 1) as nat),
        failures_until_give_up(0) == 3,
{
    law_page_attempts_are_bounded(0);
}

/// Only the four resource types are priced, and hours, GiB-hours, GiB-months
/// and GiB are the only usage units charged per unit.
pub proof fn law_known_resources_and_units(t: Seq<char>, unit: Seq<char>)
    ensures
        known_resource(t) ==> (t == "compute"@ || t == "ram"@ || t == "storage"@ || t
            == "network"@),
        priced_usage_unit(unit) <==> (unit == "h"@ || unit == "GiBy.h"@ || unit == "GiBy.mo"@
            || unit == "GiBy"@),
{
}

} // verus!

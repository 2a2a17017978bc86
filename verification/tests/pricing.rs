use backend::error::AppError;
use backend::services::price_fetcher::{
    choose_sku, default_base_url, filter_skus, gcp_service_id, is_priced_usage_unit,
    network_failure_is_skipped, plan_fetch, plan_resource_price, resource_group, skus_url,
    GcpCategory, GcpMoney, GeoTaxonomy, PageOutcome, PagerStep, ResourcePricePlan, SkuListing,
    SkuPager, MAX_RETRIES, PAGE_SIZE,
};
use backend::text::{contains_text, push_decimal, starts_with_text, str_eq};

fn sku(description: &str, usage_type: &str) -> SkuListing {
    SkuListing {
        description: description.to_string(),
        category: GcpCategory {
            service_display_name: "Compute Engine".to_string(),
            resource_family: "Compute".to_string(),
            resource_group: "CPU".to_string(),
            usage_type: usage_type.to_string(),
        },
    }
}

#[test]
fn each_resource_has_a_catalog_service() {
    for t in ["compute", "ram", "storage", "network"] {
        assert_eq!(gcp_service_id(t), Some("6F81-5844-456A"));
    }
    assert_eq!(gcp_service_id("gpu"), None);
    assert_eq!(resource_group("compute"), Some("CPU"));
    assert_eq!(resource_group("ram"), Some("RAM"));
    assert_eq!(resource_group("storage"), Some("SSD"));
    assert_eq!(resource_group("network"), Some("Network"));
    assert_eq!(resource_group("Compute"), None);
}

#[test]
fn skus_are_filtered_by_group_and_usage() {
    let skus = vec![
        sku("N1 Predefined Instance Core running in Americas CPU", "OnDemand"),
        sku("Preemptible N1 CPU", "OnDemand"),
        sku("N1 CPU commitment", "Commit1Yr"),
        sku("N1 RAM running", "OnDemand"),
        sku("SSD backed PD Capacity", "OnDemand"),
        sku("Storage PD Capacity (Persistent Disk)", "OnDemand"),
        sku("Network Internet Egress from Americas", "OnDemand"),
        sku("Network Inter Zone Ingress", "OnDemand"),
    ];
    assert_eq!(filter_skus(&skus, "CPU"), vec![0]);
    assert_eq!(filter_skus(&skus, "RAM"), vec![3]);
    assert_eq!(filter_skus(&skus, "SSD"), vec![4, 5]);
    assert_eq!(filter_skus(&skus, "Network"), vec![6]);
    assert_eq!(filter_skus(&skus, "GPU"), Vec::<usize>::new());
    assert_eq!(choose_sku(&skus, "storage", "SSD").unwrap(), 4);
    match choose_sku(&skus, "gpu", "GPU") {
        Err(AppError::ExternalService(m)) => assert_eq!(m, "No SKUs found for gpu resource"),
        _ => panic!("expected an external service error"),
    }
}

#[test]
fn resource_pricing_plans() {
    assert!(matches!(plan_resource_price("compute", 0), ResourcePricePlan::Free));
    assert!(matches!(plan_resource_price("gpu", -3), ResourcePricePlan::Free));
    match plan_resource_price("gpu", 2) {
        ResourcePricePlan::Rejected(AppError::InvalidInput(m)) => assert_eq!(m, "Invalid resource type: gpu"),
        _ => panic!("expected a refusal"),
    }
    match plan_resource_price("ram", 4) {
        ResourcePricePlan::Fetch { service_id, resource_group } => {
            assert_eq!(service_id, "6F81-5844-456A");
            assert_eq!(resource_group, "RAM");
        }
        _ => panic!("expected a fetch"),
    }
}

#[test]
fn negative_hardware_is_refused() {
    match plan_fetch(-1, 4, 100) {
        Err(AppError::InvalidInput(m)) => assert_eq!(m, "CPU cores cannot be negative"),
        _ => panic!("expected invalid input"),
    }
    match plan_fetch(2, -4, 100) {
        Err(AppError::InvalidInput(m)) => assert_eq!(m, "RAM cannot be negative"),
        _ => panic!("expected invalid input"),
    }
    match plan_fetch(2, 4, -100) {
        Err(AppError::InvalidInput(m)) => assert_eq!(m, "Storage cannot be negative"),
        _ => panic!("expected invalid input"),
    }
}

#[test]
fn fetch_plans_price_positive_amounts() {
    let plan = plan_fetch(2, 4, 100).unwrap();
    let parts: Vec<(&str, i32)> = plan.parts.iter().map(|p| (p.resource_type, p.amount)).collect();
    assert_eq!(parts, vec![("compute", 2), ("ram", 4), ("storage", 100)]);
    assert!(plan.include_network);
    let plan = plan_fetch(0, 4, 0).unwrap();
    let parts: Vec<(&str, i32)> = plan.parts.iter().map(|p| (p.resource_type, p.amount)).collect();
    assert_eq!(parts, vec![("ram", 4)]);
    assert!(!plan.include_network);
    let plan = plan_fetch(0, 0, 0).unwrap();
    assert!(plan.parts.is_empty());
    assert!(!plan.include_network);
    assert!(network_failure_is_skipped(&AppError::ExternalService("down".to_string())));
    assert!(!network_failure_is_skipped(&AppError::InvalidInput("bad".to_string())));
}

#[test]
fn usage_units_and_addresses() {
    for u in ["h", "GiBy.h", "GiBy.mo", "GiBy"] {
        assert!(is_priced_usage_unit(u));
    }
    assert!(!is_priced_usage_unit("GiBy.d"));
    assert_eq!(default_base_url(), "https://cloudbilling.googleapis.com");
    assert_eq!(
        skus_url("http://127.0.0.1:1234", "6F81-5844-456A"),
        "http://127.0.0.1:1234/v1/services/6F81-5844-456A/skus"
    );
    assert_eq!(PAGE_SIZE, 100);
}

#[test]
fn pager_walks_pages_and_gives_up_on_third_failure() {
    let (mut pager, first) = SkuPager::new();
    assert!(matches!(first, PagerStep::FetchPage(None)));
    assert!(matches!(pager.on_outcome(PageOutcome::Failed), PagerStep::RetryAfterPause(None)));
    assert_eq!(pager.failed_attempts(), 1);
    match pager.on_outcome(PageOutcome::Fetched { next_page_token: Some("p2".to_string()) }) {
        PagerStep::FetchPage(Some(t)) => assert_eq!(t, "p2"),
        _ => panic!("expected the next page"),
    }
    assert_eq!(pager.failed_attempts(), 0);
    let mut steps = Vec::new();
    for _ in 0..MAX_RETRIES {
        steps.push(pager.on_outcome(PageOutcome::Failed));
    }
    assert!(matches!(&steps[0], PagerStep::RetryAfterPause(Some(t)) if t == "p2"));
    assert!(matches!(&steps[1], PagerStep::RetryAfterPause(Some(t)) if t == "p2"));
    assert!(matches!(&steps[2], PagerStep::GiveUp));
}

#[test]
fn pager_finishes_without_next_token() {
    let (mut pager, _) = SkuPager::new();
    assert!(matches!(
        pager.on_outcome(PageOutcome::Fetched { next_page_token: Some(String::new()) }),
        PagerStep::Finished
    ));
    assert!(matches!(pager.on_outcome(PageOutcome::Fetched { next_page_token: None }), PagerStep::Finished));
}

#[test]
fn catalog_value_types() {
    let money = GcpMoney { currency_code: "USD".to_string(), units: "0".to_string(), nanos: 50_000_000 };
    let geo = GeoTaxonomy { taxonomy_type: "REGIONAL".to_string(), regions: vec!["us-central1".to_string()] };
    assert_eq!(money.nanos, 50_000_000);
    assert_eq!(geo.regions.len(), 1);
}

#[test]
fn text_helpers() {
    assert!(contains_text("Network Internet Egress", "Egress"));
    assert!(contains_text("abc", ""));
    assert!(!contains_text("ab", "abc"));
    assert!(!contains_text("Egres", "Egress"));
    assert!(starts_with_text("/api-keys/3", "/api-keys/"));
    assert!(!starts_with_text("/api", "/api-keys/"));
    assert!(str_eq("ünï", "ünï"));
    assert!(!str_eq("a", "b"));
    let mut s = String::from("n=");
    push_decimal(&mut s, 0);
    push_decimal(&mut s, -7);
    push_decimal(&mut s, i64::MAX);
    assert_eq!(s, "n=0-79223372036854775807");
}

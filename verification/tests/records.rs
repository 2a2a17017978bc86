use backend::db::nodes::{admit_new_node, confirm_new_type, deletion_outcome, found_or_not_found, plan_update, UpdatePlan};
use backend::db::price_history::{latest_node_prices, node_must_exist};
use backend::error::AppError;
use backend::models::api_key::{prepare_api_key, ApiKey, CreateApiKeyRequest, CreateApiKeyResponse};
use backend::models::node::{apply_update, CreateNodeRequest, Node, UpdateNodeRequest};
use backend::models::price_history::{validate_price_request, PriceStamp};
use backend::services::scheduler::interval_seconds;
use backend::validation::FieldViolation;

fn stored_node() -> Node {
    Node {
        id: 1,
        blockchain_type: "test-chain".to_string(),
        cpu_cores: 4,
        ram_gb: 8,
        storage_gb: 500,
        network_mbps: 1000,
        created_at: 10,
        updated_at: None,
    }
}

fn no_change() -> UpdateNodeRequest {
    UpdateNodeRequest { blockchain_type: None, cpu_cores: None, ram_gb: None, storage_gb: None, network_mbps: None }
}

fn fields(v: &[FieldViolation]) -> Vec<(&'static str, &'static str)> {
    v.iter().map(|x| (x.field, x.code)).collect()
}

#[test]
fn partial_update_keeps_other_fields() {
    let existing = stored_node();
    let update = UpdateNodeRequest { cpu_cores: Some(8), ..no_change() };
    let node = apply_update(&existing, &update, 99);
    assert_eq!(node.cpu_cores, 8);
    assert_eq!(node.blockchain_type, existing.blockchain_type);
    assert_eq!(node.ram_gb, existing.ram_gb);
    assert_eq!(node.storage_gb, existing.storage_gb);
    assert_eq!(node.network_mbps, existing.network_mbps);
    assert_eq!(node.id, 1);
    assert_eq!(node.created_at, 10);
    assert_eq!(node.updated_at, Some(99));
}

#[test]
fn full_update_replaces_every_field() {
    let update = UpdateNodeRequest {
        blockchain_type: Some("updated-chain".to_string()),
        cpu_cores: Some(16),
        ram_gb: Some(32),
        storage_gb: Some(1000),
        network_mbps: Some(2000),
    };
    match plan_update(Some(stored_node()), &update, 5) {
        UpdatePlan::CheckTypeThenStore { blockchain_type, updated } => {
            assert_eq!(blockchain_type, "updated-chain");
            let node = confirm_new_type(updated, 0).expect("no duplicate");
            assert_eq!(node.blockchain_type, "updated-chain");
            assert_eq!(node.cpu_cores, 16);
            assert_eq!(node.ram_gb, 32);
            assert_eq!(node.storage_gb, 1000);
            assert_eq!(node.network_mbps, 2000);
        }
        _ => panic!("expected a duplicate check"),
    }
}

#[test]
fn update_of_missing_node_is_not_found() {
    let update = UpdateNodeRequest { blockchain_type: Some("updated-chain".to_string()), ..no_change() };
    match plan_update(None, &update, 5) {
        UpdatePlan::Respond(Err(e)) => {
            assert_eq!(e.status_code(), 404);
            assert_eq!(e.error_body().error, "Node not found");
        }
        _ => panic!("expected not found"),
    }
}

#[test]
fn empty_update_returns_stored_node() {
    match plan_update(Some(stored_node()), &no_change(), 5) {
        UpdatePlan::Respond(Ok(n)) => {
            assert_eq!(n.updated_at, None);
            assert_eq!(n.cpu_cores, 4);
        }
        _ => panic!("expected the stored node"),
    }
    match plan_update(Some(stored_node()), &UpdateNodeRequest { ram_gb: Some(1), ..no_change() }, 5) {
        UpdatePlan::Store(n) => assert_eq!(n.ram_gb, 1),
        _ => panic!("expected a store"),
    }
}

#[test]
fn duplicate_blockchain_types_conflict() {
    let req = CreateNodeRequest {
        blockchain_type: "test_chain".to_string(),
        cpu_cores: 2,
        ram_gb: 4,
        storage_gb: 100,
        network_mbps: 1000,
    };
    assert!(admit_new_node(&req, 0).is_ok());
    let e = admit_new_node(&req, 1).unwrap_err();
    assert_eq!(e.status_code(), 409);
    assert_eq!(e.error_body().error, "Node with blockchain type 'test_chain' already exists");
    let e = confirm_new_type(stored_node(), 2).unwrap_err();
    assert_eq!(e.message(), "Conflict: Node with blockchain type 'test-chain' already exists");
}

#[test]
fn missing_and_deleted_nodes() {
    assert!(found_or_not_found(Some(stored_node())).is_ok());
    let e = found_or_not_found(None).unwrap_err();
    assert_eq!(e.status_code(), 404);
    assert!(deletion_outcome(1).is_ok());
    let e = deletion_outcome(0).unwrap_err();
    assert_eq!(e.message(), "Not found: Node not found");
}

#[test]
fn node_bodies_are_validated() {
    let ok = CreateNodeRequest {
        blockchain_type: "test-chain".to_string(),
        cpu_cores: 4,
        ram_gb: 8,
        storage_gb: 500,
        network_mbps: 1000,
    };
    assert!(ok.validate().is_ok());
    let bad = CreateNodeRequest { blockchain_type: String::new(), cpu_cores: -1, ..ok.clone() };
    let e = bad.validate().unwrap_err();
    assert_eq!(fields(&e.violations), vec![("blockchain_type", "length"), ("cpu_cores", "range")]);
    let update = UpdateNodeRequest { storage_gb: Some(-5), ..no_change() };
    let e = update.validate().unwrap_err();
    assert_eq!(fields(&e.violations), vec![("storage_gb", "range")]);
    assert_eq!(
        e.describe(),
        "storage_gb: Validation error: range [{\"min\": Number(0), \"value\": Number(-5)}]"
    );
    assert!(no_change().validate().is_ok());
    assert!(no_change().is_empty());
}

#[test]
fn api_key_bodies_are_validated() {
    let ok = CreateApiKeyRequest { name: "test_key".to_string(), requests_per_minute: Some(60) };
    assert!(ok.validate().is_ok());
    assert!(CreateApiKeyRequest { name: "x".repeat(100), requests_per_minute: None }.validate().is_ok());
    let e = CreateApiKeyRequest { name: "é".repeat(101), requests_per_minute: Some(1001) }.validate().unwrap_err();
    assert_eq!(fields(&e.violations), vec![("name", "length"), ("requests_per_minute", "range")]);
    let e = CreateApiKeyRequest { name: "k".to_string(), requests_per_minute: Some(0) }.validate().unwrap_err();
    assert_eq!(fields(&e.violations), vec![("requests_per_minute", "range")]);
    let err = AppError::Validation(e);
    assert_eq!(err.status_code(), 400);
    let body = err.error_body();
    assert_eq!(body.error, "Validation error");
    assert_eq!(
        body.details.as_deref(),
        Some("requests_per_minute: Validation error: range [{\"min\": Number(1), \"max\": Number(1000), \"value\": Number(0)}]")
    );
    let e = CreateApiKeyRequest { name: String::new(), requests_per_minute: None }.validate().unwrap_err();
    assert_eq!(
        e.describe(),
        "name: Validation error: length [{\"min\": Number(1), \"max\": Number(100), \"value\": String(\"\")}]"
    );
    let e = CreateApiKeyRequest { name: "a\"b".repeat(34), requests_per_minute: Some(-3) }.validate().unwrap_err();
    let text = AppError::Validation(e).message();
    let expected_name = format!("{:?}", "a\"b".repeat(34));
    assert_eq!(
        text,
        format!(
            "Validation error: name: Validation error: length [{{\"min\": Number(1), \"max\": Number(100), \"value\": String({})}}]\nrequests_per_minute: Validation error: range [{{\"min\": Number(1), \"max\": Number(1000), \"value\": Number(-3)}}]",
            expected_name
        )
    );
}

#[test]
fn price_bodies_are_validated() {
    assert!(validate_price_request("gcp", true, "USD").is_ok());
    let e = validate_price_request("", false, "US").unwrap_err();
    assert_eq!(
        fields(&e.violations),
        vec![("provider", "length"), ("price_per_hour", "range"), ("currency", "length")]
    );
    assert_eq!(
        e.describe(),
        "provider: provider cannot be empty\nprice_per_hour: price must be non-negative\ncurrency: currency must be 3 characters"
    );
    let e = validate_price_request("gcp", true, "EURO").unwrap_err();
    assert_eq!(fields(&e.violations), vec![("currency", "length")]);
}

#[test]
fn new_keys_are_random_uuids_with_default_budget() {
    let a = prepare_api_key(&CreateApiKeyRequest { name: "test_key".to_string(), requests_per_minute: None });
    let b = prepare_api_key(&CreateApiKeyRequest { name: "other".to_string(), requests_per_minute: Some(2) });
    assert!(!a.key.is_empty());
    assert_eq!(a.key.chars().count(), 36);
    assert_eq!(a.key.chars().nth(14), Some('4'));
    assert_eq!(a.key.chars().nth(8), Some('-'));
    assert!(a.key.chars().all(|c| c == '-' || c.is_ascii_digit() || ('a'..='f').contains(&c)));
    assert_ne!(a.key, b.key);
    assert_eq!(a.name, "test_key");
    assert_eq!(a.requests_per_minute, 60);
    assert_eq!(b.requests_per_minute, 2);
}

#[test]
fn created_key_response_copies_the_record() {
    let k = ApiKey {
        id: 7,
        key: "abc".to_string(),
        name: "test_key".to_string(),
        created_at: 0,
        last_used_at: None,
        is_active: true,
        deleted_at: None,
        requests_per_minute: 60,
        requests_this_minute: 0,
        last_request_time: None,
    };
    let r = CreateApiKeyResponse::from_api_key(&k);
    assert_eq!((r.id, r.key.as_str(), r.name.as_str(), r.requests_per_minute), (7, "abc", "test_key", 60));
    assert!(k.is_usable());
    assert_eq!(k.window().requests_per_minute, 60);
}

#[test]
fn prices_need_an_existing_node() {
    assert!(node_must_exist(3, 1).is_ok());
    let e = node_must_exist(999, 0).unwrap_err();
    assert_eq!(e.status_code(), 404);
    assert_eq!(e.error_body().error, "Node 999 not found");
    let e = node_must_exist(-42, 0).unwrap_err();
    assert_eq!(e.error_body().error, "Node -42 not found");
    let e = node_must_exist(i64::MIN, 0).unwrap_err();
    assert_eq!(e.error_body().error, "Node -9223372036854775808 not found");
}

fn stamp(node_id: i64, provider: &str, fetched_at: i64) -> PriceStamp {
    PriceStamp { node_id, provider: provider.to_string(), fetched_at }
}

#[test]
fn latest_prices_are_the_newest_per_provider() {
    let rows = vec![
        stamp(1, "gcp", 10),
        stamp(1, "hetzner", 11),
        stamp(1, "gcp", 20),
        stamp(2, "gcp", 30),
        stamp(1, "hetzner", 11),
        stamp(1, "gcp", 15),
    ];
    assert_eq!(latest_node_prices(&rows, 1), vec![1, 2, 4]);
    assert_eq!(latest_node_prices(&rows, 2), vec![3]);
    assert_eq!(latest_node_prices(&rows, 3), Vec::<usize>::new());
    assert_eq!(latest_node_prices(&Vec::new(), 1), Vec::<usize>::new());
}

#[test]
fn error_responses() {
    let cases = vec![
        (AppError::InternalServerError, 500, "Internal server error", None, "Internal server error"),
        (AppError::Database("disk full".to_string()), 500, "Database error", None, "Database error: disk full"),
        (AppError::NotFound("x".to_string()), 404, "x", None, "Not found: x"),
        (AppError::Conflict("y".to_string()), 409, "y", None, "Conflict: y"),
        (AppError::ExternalService("z".to_string()), 500, "External service error", Some("z"), "External service error: z"),
        (AppError::InvalidInput("w".to_string()), 400, "Invalid input", Some("w"), "Invalid input: w"),
    ];
    for (e, status, error, details, message) in cases {
        assert_eq!(e.status_code(), status);
        let body = e.error_body();
        assert_eq!(body.error, error);
        assert_eq!(body.details.as_deref(), details);
        assert_eq!(e.message(), message);
    }
}

#[test]
fn update_interval_in_seconds() {
    assert_eq!(interval_seconds(1), 60);
    assert_eq!(interval_seconds(0), 0);
    assert_eq!(interval_seconds(u64::MAX / 60), (u64::MAX / 60) * 60);
}

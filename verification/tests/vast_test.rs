use magister::instance_controller::RentOutcome;
use magister::types::{Offer, VastCreateInstanceResponse};
use magister::vast::{
    classify_rent_response, create_instance_url, destroy_instance_url, filter_offers,
    list_instances_url, offers_url, onstart_command, rent_body, status_is_success,
    strip_trailing_slash, validate_offer_count, StartupError, VAST_BASE_URL,
};

fn offer(id: u64, host: u64, machine: u64) -> Offer {
    Offer {
        id,
        machine_id: machine,
        host_id: host,
        gpu_name: "RTX 4090".to_string(),
        geolocation: "US".to_string(),
        dph_total_milli: 500,
    }
}

#[test]
fn accepts_two_hundred_with_body() {
    let body = VastCreateInstanceResponse { success: true, new_contract: 9001 };
    assert_eq!(
        classify_rent_response(200, Some(body)),
        RentOutcome::Accepted { instance_id: 9001 }
    );
}

#[test]
fn rate_limit_is_distinct() {
    assert_eq!(classify_rent_response(429, None), RentOutcome::RateLimited);
}

#[test]
fn other_statuses_fail() {
    assert_eq!(classify_rent_response(500, None), RentOutcome::Failed);
}

#[test]
fn undecodable_success_body_fails() {
    assert_eq!(classify_rent_response(200, None), RentOutcome::Failed);
}

#[test]
fn success_statuses() {
    assert!(status_is_success(200));
    assert!(status_is_success(299));
    assert!(!status_is_success(199));
    assert!(!status_is_success(300));
    assert!(!status_is_success(429));
}

#[test]
fn startup_rejects_empty_offers() {
    assert_eq!(validate_offer_count(0, 2), Err(StartupError::NoOffers));
}

#[test]
fn startup_rejects_insufficient_offers() {
    assert_eq!(validate_offer_count(1, 2), Err(StartupError::InsufficientOffers));
}

#[test]
fn startup_accepts_sufficient_offers() {
    assert_eq!(validate_offer_count(3, 2), Ok(()));
}

#[test]
fn urls_name_the_marketplace_endpoints() {
    assert_eq!(VAST_BASE_URL, "https://console.vast.ai/api/v0");
    assert_eq!(
        offers_url("{\"type\":\"ask\"}"),
        "https://console.vast.ai/api/v0/bundles/?q={\"type\":\"ask\"}"
    );
    assert_eq!(
        create_instance_url(101),
        "https://console.vast.ai/api/v0/asks/101/"
    );
    assert_eq!(
        destroy_instance_url(9001),
        "https://console.vast.ai/api/v0/instances/9001/"
    );
    assert_eq!(list_instances_url(), "https://console.vast.ai/api/v0/instances");
}

#[test]
fn strips_one_trailing_slash() {
    assert_eq!(strip_trailing_slash("http://1.2.3.4/"), "http://1.2.3.4");
    assert_eq!(strip_trailing_slash("http://1.2.3.4"), "http://1.2.3.4");
    assert_eq!(strip_trailing_slash(""), "");
}

#[test]
fn onstart_exports_the_drop_endpoint() {
    assert_eq!(
        onstart_command("1.2.3.4", 8555, 101),
        "\"export MAGISTER_DROP_ENDPOINT=\\\"1.2.3.4:8555/drop/101\\\" chmod +x /entrypoint.sh;bash /entrypoint.sh\""
    );
}

#[test]
fn rent_body_carries_template_label_disk_and_onstart() {
    let onstart = onstart_command("1.2.3.4", 8555, 101);
    let body = rent_body("abc123", 16, &onstart);
    assert!(body.contains("\"template_hash_id\": \"abc123\""));
    assert!(body.contains("\"label\": \"magister\""));
    assert!(body.contains("\"disk\": 16"));
    assert!(body.contains("\"onstart\": \"export MAGISTER_DROP_ENDPOINT="));
    assert!(body.starts_with("{"));
    assert!(body.ends_with("}"));
}

#[test]
fn filter_drops_blacklisted_hosts_and_machines() {
    let offers = vec![offer(1, 10, 100), offer(2, 11, 101), offer(3, 12, 102)];
    let out = filter_offers(offers, &Some(vec![11]), &Some(vec![102]), &None, &None);
    let ids: Vec<u64> = out.iter().map(|o| o.id).collect();
    assert_eq!(ids, vec![1]);
}

#[test]
fn filter_without_lists_keeps_everything_in_order() {
    let offers = vec![offer(1, 10, 100), offer(2, 11, 101), offer(3, 12, 102)];
    let out = filter_offers(offers, &None, &None, &None, &None);
    let ids: Vec<u64> = out.iter().map(|o| o.id).collect();
    assert_eq!(ids, vec![1, 2, 3]);
}

#[test]
fn filter_puts_allowlisted_offers_first_keeping_order() {
    let offers = vec![
        offer(1, 10, 100),
        offer(2, 11, 101),
        offer(3, 12, 102),
        offer(4, 13, 103),
    ];
    let out = filter_offers(offers, &None, &None, &Some(vec![11]), &Some(vec![103]));
    let ids: Vec<u64> = out.iter().map(|o| o.id).collect();
    assert_eq!(ids, vec![2, 4, 1, 3]);
}

#[test]
fn filter_applies_blacklist_before_allowlist() {
    let offers = vec![offer(1, 10, 100), offer(2, 11, 101)];
    let out = filter_offers(offers, &Some(vec![11]), &None, &Some(vec![11]), &None);
    let ids: Vec<u64> = out.iter().map(|o| o.id).collect();
    assert_eq!(ids, vec![1]);
}

use certsd::dns::{acme_challenge_record_ids, challenge_record_name, create_challenge_request, DnsRecordInfo};

fn record(id: &str, name: &str, is_txt: bool) -> DnsRecordInfo {
    DnsRecordInfo { id: String::from(id), name: String::from(name), is_txt }
}

#[test]
fn filter_selects_only_challenge_txt_records() {
    let records = vec![
        record("1", "_acme-challenge.example.com.", true),
        record("2", "mail.example.com", true),
        record("3", "_acme-challenge.example.com.", false),
        record("4", "_acme-challenge.other.org.", true),
        record("5", "prefix._acme-challenge.example.com.suffix", true),
    ];
    let ids = acme_challenge_record_ids(&records, "example.com");
    assert_eq!(ids, vec!["1", "5"]);
}

#[test]
fn empty_listing_is_a_valid_empty_result() {
    let ids = acme_challenge_record_ids(&Vec::new(), "example.com");
    assert!(ids.is_empty());
}

#[test]
fn challenge_record_names() {
    assert_eq!(challenge_record_name("example.com"), "_acme-challenge.example.com.");
}

#[test]
fn challenge_record_creation_request() {
    let req = create_challenge_request("example.com", "proof-token-123");
    assert_eq!(req.name, "_acme-challenge.example.com.");
    assert_eq!(req.content, "proof-token-123");
    assert_eq!(req.ttl, 60);
    assert!(!req.proxied);
}

#[test]
fn created_record_is_found_by_the_filter() {
    let req = create_challenge_request("example.com", "proof");
    let listed = vec![record("9", &req.name, true)];
    let ids = acme_challenge_record_ids(&listed, "example.com");
    assert_eq!(ids, vec!["9"]);
}

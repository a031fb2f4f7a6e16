use certsd::date::Date;
use certsd::naming::{
    account_key_path, archive_path, chain_path, domain_dir, domain_key_path, order_identifier,
    success_message,
};

#[test]
fn storage_layout_names() {
    assert_eq!(account_key_path(), "account.key");
    assert_eq!(domain_dir("example.com", false), "example.com");
    assert_eq!(domain_dir("example.com", true), "wild_example.com");
    assert_eq!(domain_key_path("example.com"), "example.com/domain.key");
    assert_eq!(chain_path("wild_example.com"), "wild_example.com/chained.pem");
}

#[test]
fn archive_name_carries_the_date() {
    let d = Date { year: 2024, month: 5, day: 9 };
    assert_eq!(
        archive_path("example.com/chained.pem", &d),
        "example.com/chained.pem-2024-05-09"
    );
}

#[test]
fn order_names() {
    assert_eq!(order_identifier("example.com", false), "example.com");
    assert_eq!(order_identifier("example.com", true), "*.example.com");
}

#[test]
fn success_messages() {
    assert_eq!(
        success_message("example.com", false),
        "Certificate renewal succeeded for the domain: example.com."
    );
    assert_eq!(
        success_message("example.com", true),
        "Certificate renewal succeeded for the domain: *.example.com."
    );
}

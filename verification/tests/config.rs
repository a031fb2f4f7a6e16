use certsd::config::{CloudFlareAccount, Config};
use certsd::notify::NotifyWith;

fn test_configuration() -> Config {
    Config {
        acme_staging: true,
        notifications: vec![
            NotifyWith::Slack {
                webhook: String::from(
                    "https://hooks.slack.com/services/111111111/33333333333/44444444444444444",
                ),
            },
            NotifyWith::Telegram {
                chat_id: String::from("@Public_Channel"),
                token: String::from("1111111111111111111111111111111"),
            },
        ],
        accounts: vec![
            CloudFlareAccount {
                cloudflare_api_token: String::from("the-api-token"),
                cloudflare_zone_id: String::from("the-zone-id"),
                domain: String::from("the-domain.com"),
                contacts: vec![
                    String::from("me@example.com"),
                    String::from("someone@example.com"),
                ],
            },
            CloudFlareAccount {
                cloudflare_api_token: String::from("the-second-api-token"),
                cloudflare_zone_id: String::from("the-second-zone-id"),
                domain: String::from("the-second-domain.com"),
                contacts: vec![String::from("another.me@example.com")],
            },
        ],
    }
}

#[test]
fn test_config_load() {
    let config = test_configuration();
    assert!(config.acme_staging());
    assert_eq!(config.domains(), vec!["the-domain.com", "the-second-domain.com"]);

    let domain = "the-domain.com";
    assert_eq!(config.contacts_of(domain), ["me@example.com", "someone@example.com"]);
    let zone_id = config.zone_id_of(domain);
    assert_eq!(&zone_id, "the-zone-id");

    let domain = "the-second-domain.com";
    assert_eq!(config.contacts_of(domain), ["another.me@example.com"]);
    let zone_id = config.zone_id_of(domain);
    assert_eq!(&zone_id, "the-second-zone-id");
    let api_token = config.api_token_of(domain);
    assert_eq!(&api_token, "the-second-api-token");

    config.notifications().iter().for_each(|elem| match elem {
        NotifyWith::Slack { webhook } => {
            assert_eq!(
                "https://hooks.slack.com/services/111111111/33333333333/44444444444444444",
                webhook
            );
        }

        NotifyWith::Telegram { chat_id, token } => {
            assert_eq!("@Public_Channel", chat_id);
            assert_eq!("1111111111111111111111111111111", token);
        }

        NotifyWith::Disabled => {
            panic!("Shouldn't have Disabled!");
        }
    });
}

#[test]
fn unknown_domain_yields_empty_credentials() {
    let config = test_configuration();
    assert!(config.contacts_of("nobody.example").is_empty());
    assert_eq!(config.api_token_of("nobody.example"), "");
    assert_eq!(config.zone_id_of("nobody.example"), "");
}

#[test]
fn first_matching_account_wins() {
    let mut config = test_configuration();
    config.accounts.push(CloudFlareAccount {
        cloudflare_api_token: String::from("shadowed-token"),
        cloudflare_zone_id: String::from("shadowed-zone"),
        domain: String::from("the-domain.com"),
        contacts: vec![],
    });
    assert_eq!(config.api_token_of("the-domain.com"), "the-api-token");
    assert_eq!(config.zone_id_of("the-domain.com"), "the-zone-id");
}

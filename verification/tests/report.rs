use txwatch::report::{summary_text, test_origin};
use txwatch::{AlertRule, AppConfig, Network, WatchedContract};

fn contract(label: &str, network: Network, webhook_secret: Option<&str>) -> WatchedContract {
    WatchedContract {
        label: label.into(),
        contract_id: "CABC".into(),
        network,
        rules: vec![AlertRule::AnyTransaction, AlertRule::TransactionFailed],
        webhook_url: "https://example.com/hook".into(),
        webhook_secret: webhook_secret.map(String::from),
        horizon_base_url_override: None,
    }
}

#[test]
fn summary_lists_the_contracts() {
    let cfg = AppConfig {
        poll_interval_seconds: 10,
        contracts: vec![
            contract("Vault", Network::Mainnet, Some("hush")),
            contract("Bridge", Network::Testnet, None),
        ],
    };
    let expected = "Config is valid.
  poll_interval_seconds : 10
  contracts             : 2

  [Stellar Mainnet] Vault
    contract_id  : CABC
    webhook_url  : https://example.com/hook
    secret       : set
    rules        : 2
    horizon      : https://horizon.stellar.org
    explorer     : https://stellar.expert/explorer/public/contract/CABC
  [Stellar Testnet] Bridge
    contract_id  : CABC
    webhook_url  : https://example.com/hook
    secret       : none
    rules        : 2
    horizon      : https://horizon-testnet.stellar.org
    explorer     : https://stellar.expert/explorer/testnet/contract/CABC
";
    assert_eq!(summary_text(&cfg), expected);
}

#[test]
fn summary_keeps_secrets() {
    let with = |secret: &str| AppConfig {
        poll_interval_seconds: 10,
        contracts: vec![contract("Vault", Network::Mainnet, Some(secret))],
    };
    assert_eq!(summary_text(&with("one")), summary_text(&with("another")));
}

#[test]
fn test_webhook_speaks_for_the_first_contract() {
    let cfg = AppConfig {
        poll_interval_seconds: 10,
        contracts: vec![
            contract("a", Network::Futurenet, None),
            contract("b", Network::Mainnet, None),
        ],
    };
    let origin = test_origin(&cfg).unwrap();
    assert_eq!(origin.network, "futurenet");
    assert_eq!(origin.horizon_base_url, "https://horizon-futurenet.stellar.org");
}

#[test]
fn test_webhook_needs_a_contract() {
    let cfg = AppConfig { poll_interval_seconds: 10, contracts: vec![] };
    assert_eq!(
        test_origin(&cfg).unwrap_err().message(),
        "config has no contracts; cannot derive network for test-webhook"
    );
}

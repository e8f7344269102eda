use txwatch::{AlertRule, AppConfig, Network, WatchedContract, MAX_CONTRACTS};

fn text(table: &toml::Table, key: &str) -> String {
    table[key].as_str().unwrap().to_string()
}

fn rule(table: &toml::Table) -> AlertRule {
    match table["type"].as_str().unwrap() {
        "AnyTransaction" => AlertRule::AnyTransaction,
        other => panic!("no such rule here: {}", other),
    }
}

fn contract(table: &toml::Table) -> WatchedContract {
    WatchedContract {
        label: text(table, "label"),
        contract_id: text(table, "contract_id"),
        network: match table["network"].as_str().unwrap() {
            "testnet" => Network::Testnet,
            other => panic!("no such network here: {}", other),
        },
        rules: table["rules"]
            .as_array()
            .unwrap()
            .iter()
            .map(|entry| rule(entry.as_table().unwrap()))
            .collect(),
        webhook_url: text(table, "webhook_url"),
        webhook_secret: None,
        horizon_base_url_override: None,
    }
}

fn config(raw: &str) -> AppConfig {
    let table: toml::Table = raw.parse().unwrap();
    AppConfig {
        poll_interval_seconds: table["poll_interval_seconds"].as_integer().unwrap() as u64,
        contracts: table["contracts"]
            .as_array()
            .unwrap()
            .iter()
            .map(|entry| contract(entry.as_table().unwrap()))
            .collect(),
    }
}

const CONTRACT_BLOCK: &str = r#"
[[contracts]]
label = "Contract"
contract_id = "CAAAAAAAAAAAAAAAAAAAAAAAAAAAAAAAAAAAAAAAAAAAAAAAAAAAAAAA"
network = "testnet"
webhook_url = "https://example.com/hook"
[[contracts.rules]]
type = "AnyTransaction"
"#;

#[test]
fn rejects_poll_interval_over_max() {
    let raw = r#"
            poll_interval_seconds = 9999
            [[contracts]]
            label = "x"
            contract_id = "CAAAAAAAAAAAAAAAAAAAAAAAAAAAAAAAAAAAAAAAAAAAAAAAAAAAAAAA"
            network = "testnet"
            webhook_url = "https://example.com/hook"
            [[contracts.rules]]
            type = "AnyTransaction"
        "#;
    let cfg = config(raw);
    assert!(cfg.validate().is_err());
}

#[test]
fn rejects_config_exceeding_max_contracts() {
    let header = "poll_interval_seconds = 10\n";
    let raw = header.to_string() + &CONTRACT_BLOCK.repeat(MAX_CONTRACTS + 1);
    let cfg = config(&raw);
    let err = cfg.validate();
    assert!(err.is_err());
    assert!(err.unwrap_err().message().contains("too many contracts"));
}

#[test]
fn accepts_config_at_max_contracts_limit() {
    let header = "poll_interval_seconds = 10\n";
    let raw = header.to_string() + &CONTRACT_BLOCK.repeat(MAX_CONTRACTS);
    let cfg = config(&raw);
    assert!(cfg.validate().is_ok());
}

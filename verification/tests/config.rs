use txwatch::{
    AlertRule, AppConfig, ConfigError, LoadFailure, Network, RuleFault, UrlParts, WatchedContract,
    MAX_CONTRACTS,
};

const ADDRESS: &str = "CAAAAAAAAAAAAAAAAAAAAAAAAAAAAAAAAAAAAAAAAAAAAAAAAAAAAAAA";

fn valid_contract() -> WatchedContract {
    WatchedContract {
        label: "Test".into(),
        contract_id: "CAAAAAAAAAAAAAAAAAAAAAAAAAAAAAAAAAAAAAAAAAAAAAAAAAAAAAAA".into(),
        network: Network::Testnet,
        rules: vec![AlertRule::AnyTransaction],
        webhook_url: "https://example.com/hook".into(),
        webhook_secret: None,
        horizon_base_url_override: None,
    }
}

fn config_of(poll_interval_seconds: u64, contracts: usize) -> AppConfig {
    AppConfig {
        poll_interval_seconds,
        contracts: (0..contracts).map(|_| valid_contract()).collect(),
    }
}

fn message(outcome: Result<(), ConfigError>) -> String {
    outcome.unwrap_err().message()
}

#[test]
fn valid_config_passes() {
    let c = valid_contract();
    assert!(c.validate().is_ok());
}

#[test]
fn rejects_short_contract_id() {
    let mut c = valid_contract();
    c.contract_id = "CSHORT".into();
    assert!(c.validate().is_err());
}

#[test]
fn rejects_non_c_contract_id() {
    let mut c = valid_contract();
    c.contract_id = "GAAAAAAAAAAAAAAAAAAAAAAAAAAAAAAAAAAAAAAAAAAAAAAAAAAAAAAA".into();
    assert!(c.validate().is_err());
}

#[test]
fn rejects_bad_webhook_url() {
    let mut c = valid_contract();
    c.webhook_url = "ftp://bad".into();
    assert!(c.validate().is_err());
}

#[test]
fn rejects_webhook_url_with_no_host() {
    // "https://" alone has no host
    let mut c = valid_contract();
    c.webhook_url = "https://".into();
    assert!(c.validate().is_err());
}

#[test]
fn rejects_webhook_url_with_spaces() {
    // Spaces make the URL unparseable
    let mut c = valid_contract();
    c.webhook_url = "https://example .com/hook".into();
    assert!(c.validate().is_err());
}

#[test]
fn rejects_webhook_url_that_is_not_a_url() {
    let mut c = valid_contract();
    c.webhook_url = "not-a-url-at-all".into();
    assert!(c.validate().is_err());
}

#[test]
fn rejects_webhook_url_with_ftp_scheme() {
    let mut c = valid_contract();
    c.webhook_url = "ftp://files.example.com/hook".into();
    assert!(c.validate().is_err());
}

#[test]
fn accepts_valid_http_webhook_url() {
    let mut c = valid_contract();
    c.webhook_url = "http://hooks.example.com/my-webhook".into();
    assert!(c.validate().is_ok());
}

#[test]
fn accepts_valid_https_webhook_url_with_path_and_query() {
    let mut c = valid_contract();
    c.webhook_url = "https://hooks.example.com/alerts?token=abc123".into();
    assert!(c.validate().is_ok());
}

#[test]
fn rejects_empty_rules() {
    let mut c = valid_contract();
    c.rules = vec![];
    assert!(c.validate().is_err());
}

#[test]
fn rejects_zero_threshold() {
    let mut c = valid_contract();
    c.rules = vec![AlertRule::LargeTransfer { threshold_xlm: 0 }];
    assert!(c.validate().is_err());
}

#[test]
fn rejects_empty_function_name() {
    let mut c = valid_contract();
    c.rules = vec![AlertRule::FunctionCalled { function_name: "  ".into() }];
    assert!(c.validate().is_err());
}

#[test]
fn rejects_empty_admin_function_names() {
    let mut c = valid_contract();
    c.rules = vec![AlertRule::AdminFunctionCalled { function_names: vec![] }];
    assert!(c.validate().is_err());
}

#[test]
fn network_urls() {
    assert!(Network::Mainnet.horizon_base_url().contains("horizon.stellar.org"));
    assert!(Network::Testnet.horizon_base_url().contains("testnet"));
    assert!(Network::Futurenet.horizon_base_url().contains("futurenet"));
}

#[test]
fn network_display_names() {
    assert_eq!(Network::Mainnet.display_name(), "Stellar Mainnet");
    assert_eq!(Network::Testnet.display_name(), "Stellar Testnet");
    assert_eq!(Network::Futurenet.display_name(), "Stellar Futurenet");
}

#[test]
fn network_explorer_urls() {
    assert!(Network::Mainnet.explorer_base_url().contains("public"));
    assert!(Network::Testnet.explorer_base_url().contains("testnet"));
}

#[test]
fn network_names() {
    assert_eq!(Network::Mainnet.as_str(), "mainnet");
    assert_eq!(Network::Testnet.as_str(), "testnet");
    assert_eq!(Network::Futurenet.as_str(), "futurenet");
    assert_eq!(Network::Futurenet.explorer_base_url(), "https://stellar.expert/explorer/futurenet");
    assert_eq!(Network::Futurenet.horizon_base_url(), "https://horizon-futurenet.stellar.org");
    assert_ne!(Network::Mainnet, Network::Testnet);
}

#[test]
fn networks_are_told_apart() {
    let networks = [Network::Mainnet, Network::Testnet, Network::Futurenet];
    for i in 0..3 {
        for j in 0..i {
            assert_ne!(networks[i].as_str(), networks[j].as_str());
            assert_ne!(networks[i].display_name(), networks[j].display_name());
            assert_ne!(networks[i].horizon_base_url(), networks[j].horizon_base_url());
            assert_ne!(networks[i].explorer_base_url(), networks[j].explorer_base_url());
        }
    }
}

#[test]
fn rules_without_parameters_are_valid() {
    assert!(AlertRule::AnyTransaction.validate("x").is_ok());
    assert!(AlertRule::TransactionFailed.validate("x").is_ok());
}

#[test]
fn rules_with_sound_parameters_are_valid() {
    assert!(AlertRule::LargeTransfer { threshold_xlm: 1 }.validate("x").is_ok());
    assert!(AlertRule::HighFee { threshold_stroops: 1 }.validate("x").is_ok());
    assert!(AlertRule::FunctionCalled { function_name: " a ".into() }.validate("x").is_ok());
    let admin = AlertRule::AdminFunctionCalled { function_names: vec!["a".into(), "b".into()] };
    assert!(admin.validate("x").is_ok());
}

#[test]
fn each_rule_fault_has_its_message() {
    let refused = |rule: AlertRule| message(rule.validate("Vault"));
    assert_eq!(
        refused(AlertRule::LargeTransfer { threshold_xlm: 0 }),
        "contract 'Vault': LargeTransfer threshold_xlm must be > 0"
    );
    assert_eq!(
        refused(AlertRule::FunctionCalled { function_name: "".into() }),
        "contract 'Vault': FunctionCalled function_name must not be empty"
    );
    assert_eq!(
        refused(AlertRule::AdminFunctionCalled { function_names: vec![] }),
        "contract 'Vault': AdminFunctionCalled function_names must not be empty"
    );
    assert_eq!(
        refused(AlertRule::AdminFunctionCalled { function_names: vec!["a".into(), "\t".into()] }),
        "contract 'Vault': AdminFunctionCalled contains a blank function name"
    );
    assert_eq!(
        refused(AlertRule::HighFee { threshold_stroops: 0 }),
        "contract 'Vault': HighFee threshold_stroops must be > 0"
    );
}

#[test]
fn blank_label_is_refused_first() {
    let mut c = valid_contract();
    c.label = " \u{3000}".into();
    c.contract_id = "".into();
    assert_eq!(message(c.validate()), "a contract has an empty label");
}

#[test]
fn bad_address_is_refused_before_the_webhook() {
    let mut c = valid_contract();
    c.contract_id = "CSHORT".into();
    c.webhook_url = "".into();
    assert_eq!(
        message(c.validate()),
        "contract 'Test': contract_id 'CSHORT' is not a valid Stellar contract address \
         (must start with 'C' and be 56 characters)"
    );
}

#[test]
fn address_is_56_long_in_characters_and_in_bytes() {
    let mut c = valid_contract();
    assert_eq!(c.contract_id.len(), 56);
    assert!(c.validate().is_ok());
    // 29 characters in 56 bytes
    c.contract_id = "C".to_string() + &"\u{e9}".repeat(27) + "A";
    assert_eq!(c.contract_id.len(), 56);
    assert!(c.validate().is_err());
    // 56 characters in 57 bytes
    c.contract_id = "C\u{e9}".to_string() + &"A".repeat(54);
    assert_eq!(c.contract_id.chars().count(), 56);
    assert!(c.validate().is_err());
}

#[test]
fn address_has_neither_more_nor_fewer_characters() {
    let mut c = valid_contract();
    assert_eq!(ADDRESS.chars().count(), 56);
    c.contract_id = format!("{}A", ADDRESS);
    assert!(c.validate().is_err());
    c.contract_id = ADDRESS[..55].into();
    assert!(c.validate().is_err());
    c.contract_id = "".into();
    assert!(c.validate().is_err());
}

#[test]
fn unparsable_webhook_is_refused_with_the_reason() {
    let mut c = valid_contract();
    c.webhook_url = "not-a-url-at-all".into();
    assert_eq!(
        message(c.validate()),
        "contract 'Test': webhook_url 'not-a-url-at-all' is not a valid URL: relative URL without a base"
    );
    c.webhook_url = "https://".into();
    assert_eq!(
        message(c.validate()),
        "contract 'Test': webhook_url 'https://' is not a valid URL: empty host"
    );
}

#[test]
fn webhook_with_another_scheme_is_refused() {
    let mut c = valid_contract();
    c.webhook_url = "ftp://files.example.com/hook".into();
    assert_eq!(
        message(c.validate()),
        "contract 'Test': webhook_url 'ftp://files.example.com/hook' must use http or https scheme"
    );
    c.webhook_url = "data:text/plain,Stuff".into();
    assert!(matches!(c.validate(), Err(ConfigError::UnsupportedScheme { .. })));
}

#[test]
fn webhook_scheme_is_taken_in_lower_case() {
    let mut c = valid_contract();
    c.webhook_url = "HTTPS://example.com/hook".into();
    assert!(c.validate().is_ok());
}

#[test]
fn webhook_without_host_is_refused() {
    let c = valid_contract();
    let parsed = Ok(UrlParts { scheme: "https".into(), has_host: false });
    assert_eq!(
        message(c.validate_parsed(&parsed)),
        "contract 'Test': webhook_url 'https://example.com/hook' has no host"
    );
    let parsed = Ok(UrlParts { scheme: "http".into(), has_host: true });
    assert!(c.validate_parsed(&parsed).is_ok());
    let parsed = Err("no luck".to_string());
    assert_eq!(
        message(c.validate_parsed(&parsed)),
        "contract 'Test': webhook_url 'https://example.com/hook' is not a valid URL: no luck"
    );
}

#[test]
fn contract_without_rules_is_refused() {
    let mut c = valid_contract();
    c.rules = vec![];
    assert_eq!(message(c.validate()), "contract 'Test': at least one rule is required");
}

#[test]
fn first_bad_rule_is_reported() {
    let mut c = valid_contract();
    c.rules = vec![
        AlertRule::AnyTransaction,
        AlertRule::HighFee { threshold_stroops: 0 },
        AlertRule::LargeTransfer { threshold_xlm: 0 },
    ];
    match c.validate() {
        Err(ConfigError::InvalidRule { label, fault }) => {
            assert_eq!(label, "Test");
            assert_eq!(fault, RuleFault::ZeroFeeThreshold);
        }
        _ => panic!("expected a bad rule"),
    }
}

#[test]
fn poll_interval_has_bounds() {
    assert_eq!(message(config_of(0, 1).validate()), "poll_interval_seconds must be > 0");
    assert!(config_of(1, 1).validate().is_ok());
    assert!(config_of(3600, 1).validate().is_ok());
    assert_eq!(
        message(config_of(3601, 1).validate()),
        "poll_interval_seconds must be <= 3600 (1 hour)"
    );
}

#[test]
fn number_of_contracts_has_bounds() {
    assert_eq!(
        message(config_of(10, 0).validate()),
        "at least one [[contracts]] entry is required"
    );
    assert!(config_of(10, MAX_CONTRACTS).validate().is_ok());
    assert_eq!(
        message(config_of(10, 101).validate()),
        "too many contracts: 101 configured, maximum allowed is 100"
    );
}

#[test]
fn one_bad_contract_has_the_config_refused() {
    let mut cfg = config_of(10, 3);
    cfg.contracts[1].label = "Second".into();
    cfg.contracts[1].rules = vec![];
    cfg.contracts[2].contract_id = "".into();
    assert_eq!(message(cfg.validate()), "contract 'Second': at least one rule is required");
}

#[test]
fn complaint_names_its_contract() {
    let mut c = valid_contract();
    c.label = "Bridge".into();
    c.rules = vec![];
    assert!(message(c.validate()).starts_with("contract 'Bridge': "));
}

#[test]
fn file_failures_name_the_path() {
    let unreadable = AppConfig::from_file("a/b.toml", Err(LoadFailure::Unreadable));
    assert_eq!(unreadable.unwrap_err().message(), "cannot read config file 'a/b.toml'");
    let malformed = AppConfig::from_file("a/b.toml", Err(LoadFailure::Malformed));
    assert_eq!(malformed.unwrap_err().message(), "failed to parse config file 'a/b.toml'");
}

#[test]
fn only_valid_configs_come_from_a_file() {
    let cfg = AppConfig::from_file("c.toml", Ok(config_of(7, 2))).unwrap();
    assert_eq!(cfg.poll_interval_seconds, 7);
    assert_eq!(cfg.contracts.len(), 2);
    let refused = AppConfig::from_file("c.toml", Ok(config_of(0, 2)));
    assert_eq!(refused.unwrap_err().message(), "poll_interval_seconds must be > 0");
}

#[test]
fn horizon_override_replaces_the_network() {
    let mut c = valid_contract();
    assert_eq!(c.horizon_base_url(), "https://horizon-testnet.stellar.org");
    c.horizon_base_url_override = Some("http://localhost:8000".into());
    assert_eq!(c.horizon_base_url(), "http://localhost:8000");
}

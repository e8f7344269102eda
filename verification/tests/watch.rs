use txwatch::{
    AlertRule, AppConfig, Cursors, FetchFailure, Network, Operation, PageStep, PollError, PollStep,
    Record, Turn, WatchedContract, Watcher,
};

const ADDRESS: &str = "CAAAAAAAAAAAAAAAAAAAAAAAAAAAAAAAAAAAAAAAAAAAAAAAAAAAAAAA";

fn contract(webhook_url: &str, rules: Vec<AlertRule>) -> WatchedContract {
    WatchedContract {
        label: "Test".into(),
        contract_id: ADDRESS.into(),
        network: Network::Testnet,
        rules,
        webhook_url: webhook_url.into(),
        webhook_secret: Some("hush".into()),
        horizon_base_url_override: None,
    }
}

fn record(hash: &str, paging_token: &str) -> Record {
    Record { hash: hash.into(), paging_token: paging_token.into() }
}

/// What is known outside of a transaction: its operations, and the payloads its
/// rules yield, or `None` where it is unfit for evaluation.
struct Outside {
    operations: Result<Vec<Operation>, FetchFailure>,
    payloads: Option<usize>,
}

fn outside(payloads: Option<usize>) -> Outside {
    Outside { operations: Ok(vec![]), payloads }
}

/// What a poll came to: its result, the URLs it asked for, the function names
/// its rules were evaluated on, and the webhooks it sent.
#[derive(Debug, PartialEq)]
struct Log {
    result: Result<(u64, u64), String>,
    urls: Vec<String>,
    functions: Vec<Vec<String>>,
    gaps: Vec<String>,
    webhooks: Vec<(String, usize)>,
}

fn poll(
    contract: &WatchedContract,
    dry_run: bool,
    cursors: &mut Cursors,
    page: Result<Vec<(Record, Outside)>, FetchFailure>,
) -> Log {
    let mut log = Log {
        result: Err("unfinished".into()),
        urls: vec![],
        functions: vec![],
        gaps: vec![],
        webhooks: vec![],
    };
    let start = PageStep::start(contract, dry_run, cursors);
    log.urls.push(start.url().to_string());
    let mut world: Vec<Option<Outside>> = vec![];
    let answer = page.map(|entries| {
        let mut records = vec![];
        for (record, outside) in entries {
            records.push(record);
            world.push(Some(outside));
        }
        records
    });
    let mut step = match start.arrived(answer, cursors) {
        Ok(step) => step,
        Err(error) => {
            log.result = Err(error.message());
            return log;
        }
    };
    let mut payloads = None;
    loop {
        step = match step {
            PollStep::Operations(step) => {
                log.urls.push(step.url().to_string());
                let outside = world[step.record()].take().unwrap();
                payloads = outside.payloads;
                PollStep::Evaluation(step.answered(outside.operations))
            }
            PollStep::Evaluation(step) => {
                log.functions.push(step.request().details.function_names.clone());
                if let Some(gap) = step.gap() {
                    log.gaps.push(gap.message());
                }
                step.evaluated(payloads, cursors)
            }
            PollStep::Alert(step) => {
                if let Some(delivery) = step.delivery() {
                    assert_eq!(delivery.webhook_secret, contract.webhook_secret.as_deref());
                    log.webhooks.push((delivery.webhook_url.to_string(), step.payload()));
                }
                step.alerted(cursors)
            }
            PollStep::Finished { transactions, alerts } => {
                log.result = Ok((transactions, alerts));
                return log;
            }
        };
    }
}

#[test]
fn poll_returns_ok_on_empty_page() {
    let c = contract("https://example.com/hook", vec![AlertRule::AnyTransaction]);
    let mut cursors = Cursors::starting_now(&vec![]);
    let log = poll(&c, false, &mut cursors, Ok(vec![]));
    assert_eq!(log.result, Ok((0, 0)));
    assert_eq!(
        log.urls,
        vec![format!(
            "{}/accounts/{}/transactions?cursor=now&order=asc&limit=200",
            "https://horizon-testnet.stellar.org",
            "CAAAAAAAAAAAAAAAAAAAAAAAAAAAAAAAAAAAAAAAAAAAAAAAAAAAAAAA"
        )]
    );
    assert_eq!(cursors.get(ADDRESS), "now");
}

#[test]
fn run_polls_once_and_fires_webhook() {
    let mut c = contract("http://receiver/hook", vec![AlertRule::AnyTransaction]);
    c.horizon_base_url_override = Some("http://horizon".into());
    let cfg = AppConfig { poll_interval_seconds: 1, contracts: vec![c] };
    let mut cursors = Cursors::starting_now(&cfg.contracts);
    let mut watcher = Watcher::new(&cfg);

    let mut webhooks = vec![];
    for round in 0..2 {
        assert_eq!(watcher.turn(), Turn::Poll { contract: 0 });
        let page = if round == 0 {
            vec![(record("run001", "500"), outside(Some(1)))]
        } else {
            vec![]
        };
        let log = poll(&cfg.contracts[0], false, &mut cursors, Ok(page));
        webhooks.extend(log.webhooks);
        watcher.settle(&log.result.map_err(|url| PollError::Request { url }));
        assert_eq!(watcher.turn(), Turn::Sleep { seconds: 1 });
        watcher.wake();
    }
    assert_eq!(webhooks, vec![("http://receiver/hook".to_string(), 0)]);
    assert_eq!(watcher.transactions(), 1);
    assert_eq!(watcher.alerts(), 1);
}

#[test]
fn run_polls_contract_and_triggers_function_called_rule() {
    let mut c = contract(
        "http://receiver/hook",
        vec![AlertRule::FunctionCalled { function_name: "withdraw".into() }],
    );
    c.horizon_base_url_override = Some("http://horizon".into());
    let mut cursors = Cursors::starting_now(&vec![]);
    let operations = vec![Operation {
        op_type: "invoke_host_function".into(),
        function: Some("withdraw".into()),
        stroops: None,
    }];
    let page =
        vec![(record("func_tx", "1"), Outside { operations: Ok(operations), payloads: Some(1) })];
    let log = poll(&c, false, &mut cursors, Ok(page));
    assert_eq!(log.functions, vec![vec!["withdraw".to_string()]]);
    assert_eq!(log.urls[1], "http://horizon/transactions/func_tx/operations");
    assert_eq!(log.webhooks.len(), 1);
}

#[test]
fn cursor_advances_after_each_transaction() {
    let contract_id = "CAAAAAAAAAAAAAAAAAAAAAAAAAAAAAAAAAAAAAAAAAAAAAAAAAAAAAAA";
    let mut cursors = Cursors::starting_now(&vec![contract("https://e.com", vec![])]);
    assert_eq!(cursors.get(contract_id), "now");

    for token in &["100", "200", "300"] {
        cursors.advance(contract_id, token);
    }

    assert_eq!(cursors.get(contract_id), "300");
}

#[test]
fn next_poll_reads_on() {
    let c = contract("https://e.com", vec![AlertRule::AnyTransaction]);
    let mut other = contract("https://e.com", vec![]);
    other.contract_id = "COTHER".into();
    let mut cursors = Cursors::starting_now(&vec![c.clone(), other.clone()]);
    let page = vec![(record("a", "10"), outside(Some(0))), (record("b", "20"), outside(None))];
    poll(&c, false, &mut cursors, Ok(page));
    assert!(PageStep::start(&c, false, &cursors).url().contains("cursor=20&"));
    assert!(PageStep::start(&other, false, &cursors).url().contains("cursor=now&"));
    // an empty page leaves the cursor where it is
    poll(&c, false, &mut cursors, Ok(vec![]));
    assert!(PageStep::start(&c, false, &cursors).url().contains("cursor=20&"));
}

#[test]
fn failed_page_leaves_the_cursor() {
    let c = contract("https://e.com", vec![]);
    let mut cursors = Cursors::starting_now(&vec![]);
    cursors.advance(ADDRESS, "77");
    let log = poll(&c, false, &mut cursors, Err(FetchFailure::Request));
    assert_eq!(log.result, Err(format!("GET {} failed", log.urls[0])));
    let log = poll(&c, false, &mut cursors, Err(FetchFailure::Body));
    assert_eq!(
        log.result,
        Err(format!("failed to parse Horizon response from {}", log.urls[0]))
    );
    assert_eq!(cursors.get(ADDRESS), "77");
}

#[test]
fn bad_transactions_do_not_end_the_poll() {
    let c = contract("https://e.com/hook", vec![AlertRule::AnyTransaction]);
    let mut cursors = Cursors::starting_now(&vec![]);
    let failed = Outside { operations: Err(FetchFailure::Body), payloads: Some(1) };
    let page = vec![
        (record("a", "1"), failed),
        (record("b", "2"), outside(None)),
        (record("c", "3"), outside(Some(2))),
        (record("d", "4"), outside(Some(0))),
    ];
    let log = poll(&c, false, &mut cursors, Ok(page));
    assert_eq!(log.result, Ok((3, 3)));
    let base = "https://horizon-testnet.stellar.org/transactions";
    for (i, hash) in ["a", "b", "c", "d"].iter().enumerate() {
        assert_eq!(log.urls[i + 1], format!("{}/{}/operations", base, hash));
    }
    assert_eq!(log.urls.len(), 5);
    assert_eq!(
        log.gaps,
        vec![format!("failed to parse operations from {}/a/operations", base)]
    );
    assert_eq!(log.functions[0], Vec::<String>::new());
    let sent: Vec<usize> = log.webhooks.iter().map(|webhook| webhook.1).collect();
    assert_eq!(sent, vec![0, 0, 1]);
    assert_eq!(cursors.get(ADDRESS), "4");
}

#[test]
fn unfit_record_leaves_no_trace() {
    let c = contract("https://e.com/hook", vec![AlertRule::AnyTransaction]);
    let with = vec![
        (record("a", "1"), outside(Some(2))),
        (record("b", "2"), outside(None)),
        (record("c", "3"), outside(Some(1))),
    ];
    let without = vec![
        (record("a", "1"), outside(Some(2))),
        (record("c", "3"), outside(Some(1))),
    ];
    let with = poll(&c, false, &mut Cursors::starting_now(&vec![]), Ok(with));
    let without = poll(&c, false, &mut Cursors::starting_now(&vec![]), Ok(without));
    assert_eq!(with.result, Ok((2, 3)));
    assert_eq!(with.result, without.result);
    assert_eq!(with.webhooks, without.webhooks);
}

#[test]
fn webhooks_follow_the_page() {
    let c = contract("https://e.com/hook", vec![AlertRule::AnyTransaction]);
    let mut cursors = Cursors::starting_now(&vec![]);
    let page = vec![
        (record("a", "1"), outside(Some(2))),
        (record("b", "2"), outside(Some(0))),
        (record("c", "3"), outside(Some(3))),
    ];
    let log = poll(&c, false, &mut cursors, Ok(page));
    let sent: Vec<usize> = log.webhooks.iter().map(|webhook| webhook.1).collect();
    assert_eq!(sent, vec![0, 1, 0, 1, 2]);
}

#[test]
fn dry_run_sends_nothing() {
    let c = contract("https://e.com/hook", vec![AlertRule::AnyTransaction]);
    let mut cursors = Cursors::starting_now(&vec![]);
    let page = vec![(record("a", "1"), outside(Some(2)))];
    let log = poll(&c, true, &mut cursors, Ok(page));
    assert_eq!(log.result, Ok((1, 2)));
    assert!(log.webhooks.is_empty());
}

#[test]
fn evaluation_is_asked_for_with_the_contract() {
    let mut c = contract("https://e.com/hook", vec![AlertRule::AnyTransaction]);
    c.network = Network::Mainnet;
    c.horizon_base_url_override = Some("http://h".into());
    let mut cursors = Cursors::starting_now(&vec![]);
    let start = PageStep::start(&c, false, &cursors);
    let step = start.arrived(Ok(vec![record("a", "1")]), &mut cursors).ok().unwrap();
    let step = match step {
        PollStep::Operations(step) => step.answered(Err(FetchFailure::Request)),
        _ => panic!("expected operations"),
    };
    let request = step.request();
    assert_eq!(request.label, "Test");
    assert_eq!(request.contract_id, ADDRESS);
    assert_eq!(request.network, "mainnet");
    assert_eq!(request.horizon_base_url, "http://h");
    assert_eq!(request.explorer_base_url, "https://stellar.expert/explorer/public");
    assert_eq!(request.rules.len(), 1);
    assert_eq!(request.record, 0);
    assert_eq!(request.details.amount_stroops, None);
    assert_eq!(step.alerts(), 0);
    assert_eq!(step.gap().unwrap().message(), "GET http://h/transactions/a/operations failed");
}

#[test]
fn contracts_take_turns() {
    let cfg = AppConfig {
        poll_interval_seconds: 30,
        contracts: vec![contract("u", vec![]), contract("v", vec![]), contract("w", vec![])],
    };
    let mut watcher = Watcher::new(&cfg);
    for _ in 0..2 {
        for contract in 0..3 {
            assert_eq!(watcher.turn(), Turn::Poll { contract });
            let failed = Err(PollError::Request { url: "u".into() });
            watcher.settle(&if contract == 1 { failed } else { Ok((2, 1)) });
        }
        assert_eq!(watcher.turn(), Turn::Sleep { seconds: 30 });
        watcher.wake();
    }
    assert_eq!(watcher.transactions(), 8);
    assert_eq!(watcher.alerts(), 4);
}

#[test]
fn totals_start_over_past_the_largest() {
    let cfg = AppConfig { poll_interval_seconds: 1, contracts: vec![] };
    let mut watcher = Watcher::new(&cfg);
    assert_eq!(watcher.turn(), Turn::Sleep { seconds: 1 });
    watcher.settle(&Ok((u64::MAX, 1)));
    watcher.settle(&Ok((3, 1)));
    assert_eq!(watcher.transactions(), 2);
    assert_eq!(watcher.alerts(), 2);
}

#[test]
fn watch_begins_now() {
    let contracts = vec![contract("u", vec![])];
    let cursors = Cursors::starting_now(&contracts);
    assert_eq!(cursors.get(ADDRESS), "now");
    assert_eq!(cursors.get("unknown"), "now");
    assert!(PageStep::start(&contracts[0], false, &cursors).url().contains("cursor=now&"));
}

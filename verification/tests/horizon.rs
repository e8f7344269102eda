use txwatch::horizon::{operations_url_text, soroban_details, summarize, transactions_url_text};
use txwatch::{Details, FetchFailure, Operation, PollError};

const URL: &str = "https://horizon.example/transactions/abc123/operations";

fn stroops(amount: &str) -> Option<u64> {
    amount.parse::<f64>().ok().map(|xlm| (xlm * 10_000_000.0) as u64)
}

fn payment(amount: &str) -> Operation {
    Operation { op_type: "payment".into(), function: None, stroops: stroops(amount) }
}

fn invocation(function: &str) -> Operation {
    Operation {
        op_type: "invoke_host_function".into(),
        function: Some(function.into()),
        stroops: None,
    }
}

fn details(operations: Vec<Operation>) -> Details {
    soroban_details(URL, &Ok(operations)).unwrap()
}

#[test]
fn fetch_soroban_details_extracts_function_name() {
    let found = details(vec![invocation("withdraw")]);
    assert_eq!(found.function_names, vec!["withdraw"]);
    assert!(found.amount_stroops.is_none());
}

#[test]
fn fetch_soroban_details_extracts_payment_amount() {
    let found = details(vec![payment("1000.0000000")]);
    assert!(found.function_names.is_empty());
    assert_eq!(found.amount_stroops, Some(10_000_000_000));
}

#[test]
fn fetch_soroban_details_returns_none_on_empty_ops() {
    let found = details(vec![]);
    assert!(found.function_names.is_empty());
    assert!(found.amount_stroops.is_none());
}

#[test]
fn fetch_soroban_details_sums_multiple_payment_amounts() {
    let found = details(vec![payment("5000.0000000"), payment("5000.0000000")]);
    assert!(found.function_names.is_empty());
    // 5000 + 5000 = 10_000 XLM = 100_000_000_000 stroops
    assert_eq!(found.amount_stroops, Some(100_000_000_000));
}

#[test]
fn fetch_soroban_details_sums_three_payment_ops() {
    let found =
        details(vec![payment("100.0000000"), payment("200.0000000"), payment("300.0000000")]);
    // 100 + 200 + 300 = 600 XLM = 6_000_000_000 stroops
    assert_eq!(found.amount_stroops, Some(6_000_000_000));
}

#[test]
fn fetch_soroban_details_captures_all_function_names() {
    let found = details(vec![invocation("deposit"), invocation("withdraw")]);
    // Both function names must be captured, in order
    assert_eq!(found.function_names, vec!["deposit", "withdraw"]);
    assert!(found.amount_stroops.is_none());
}

#[test]
fn fetch_soroban_details_captures_mixed_ops() {
    let found = details(vec![invocation("transfer"), payment("1000.0000000")]);
    assert_eq!(found.function_names, vec!["transfer"]);
    assert_eq!(found.amount_stroops, Some(10_000_000_000));
}

#[test]
fn payment_without_a_number_counts_for_nothing() {
    let found = details(vec![payment("a lot")]);
    assert_eq!(found.amount_stroops, None);
    let found = details(vec![payment("a lot"), payment("0.0000000")]);
    assert_eq!(found.amount_stroops, Some(0));
}

#[test]
fn total_saturates() {
    let most = || Operation { op_type: "payment".into(), function: None, stroops: Some(u64::MAX) };
    assert_eq!(summarize(&vec![most(), payment("1"), most()]).amount_stroops, Some(u64::MAX));
}

#[test]
fn other_operations_count_for_nothing() {
    let found = summarize(&vec![
        Operation { op_type: "create_account".into(), function: Some("f".into()), stroops: Some(5) },
        Operation { op_type: "payment".into(), function: Some("g".into()), stroops: None },
        Operation { op_type: "invoke_host_function".into(), function: None, stroops: Some(7) },
    ]);
    assert!(found.function_names.is_empty());
    assert_eq!(found.amount_stroops, None);
}

#[test]
fn details_add_up() {
    let first = || vec![invocation("a"), payment("1")];
    let second = || vec![payment("2"), invocation("b")];
    let mut both = first();
    both.extend(second());
    let found = summarize(&both);
    assert_eq!(found.function_names, vec!["a", "b"]);
    let sum = summarize(&first()).amount_stroops.unwrap()
        + summarize(&second()).amount_stroops.unwrap();
    assert_eq!(found.amount_stroops, Some(sum));
    assert_eq!(sum, 30_000_000);
}

#[test]
fn failed_requests_have_their_messages() {
    let no_answer = soroban_details(URL, &Err(FetchFailure::Request)).unwrap_err();
    assert_eq!(
        no_answer.message(),
        "GET https://horizon.example/transactions/abc123/operations failed"
    );
    let no_page = soroban_details(URL, &Err(FetchFailure::Body)).unwrap_err();
    assert_eq!(
        no_page.message(),
        "failed to parse operations from https://horizon.example/transactions/abc123/operations"
    );
    let no_transactions = PollError::Transactions { url: "u".into() };
    assert_eq!(no_transactions.message(), "failed to parse Horizon response from u");
}

#[test]
fn urls_are_spelled_out() {
    assert_eq!(
        transactions_url_text("https://h", "CABC", "now"),
        "https://h/accounts/CABC/transactions?cursor=now&order=asc&limit=200"
    );
    assert_eq!(operations_url_text("https://h", "abc"), "https://h/transactions/abc/operations");
}

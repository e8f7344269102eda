//! What the command line says about a configuration.

use crate::config::AppConfig;
use crate::contract::WatchedContract;
use crate::error::{ConfigError, ConfigErrorView};
use crate::text::decimal_text;
use vstd::prelude::*;
use vstd::string::*;

verus! {

/// The lines about one contract.
pub open spec fn contract_lines(contract: WatchedContract) -> Seq<char> {
    "  ["@ + contract.network.title() + "] "@ + contract.label@ + "\n    contract_id  : "@
        + contract.contract_id@ + "\n    webhook_url  : "@ + contract.webhook_url@
        + "\n    secret       : "@ + (if contract.webhook_secret is Some {
        "set"@
    } else {
        "none"@
    }) + "\n    rules        : "@ + crate::text::decimal(contract.rules@.len())
        + "\n    horizon      : "@ + contract.network.horizon() + "\n    explorer     : "@
        + contract.network.explorer() + "/contract/"@ + contract.contract_id@ + "\n"@
}

/// The lines about several contracts, in order.
pub open spec fn all_contract_lines(contracts: Seq<WatchedContract>) -> Seq<char>
    decreases contracts.len(),
{
    if contracts.len() == 0 {
        Seq::empty()
    } else {
        all_contract_lines(contracts.drop_last()) + contract_lines(contracts.last())
    }
}

/// The summary of a valid configuration. It tells whether a webhook has a secret,
/// never the secret.
pub open spec fn summary(config: AppConfig) -> Seq<char> {
    "Config is valid.\n  poll_interval_seconds : "@ + crate::text::decimal(
        config.poll_interval_seconds as nat,
    ) + "\n  contracts             : "@ + crate::text::decimal(config.contracts@.len()) + "\n\n"@
        + all_contract_lines(config.contracts@)
}

/// Two contracts that agree but for what their secrets, their rules and their
/// overrides hold.
pub open spec fn alike(a: WatchedContract, b: WatchedContract) -> bool {
    &&& a.label@ == b.label@
    &&& a.contract_id@ == b.contract_id@
    &&& a.network == b.network
    &&& a.webhook_url@ == b.webhook_url@
    &&& a.rules@.len() == b.rules@.len()
    &&& a.webhook_secret is Some == b.webhook_secret is Some
}

/// A law: the summary gives no secret away. Where configurations agree but for
/// what their secrets, rules and overrides hold, it reads the same.
pub proof fn law_summary_keeps_secrets(a: AppConfig, b: AppConfig)
    requires
        a.poll_interval_seconds == b.poll_interval_seconds,
        a.contracts@.len() == b.contracts@.len(),
        forall|i: int|
            0 <= i < a.contracts@.len() ==> alike(#[trigger] a.contracts@[i], b.contracts@[i]),
    ensures
        summary(a) == summary(b),
{
    lemma_alike_lines(a.contracts@, b.contracts@);
}

/// Contracts that are alike have the same lines.
proof fn lemma_alike_lines(a: Seq<WatchedContract>, b: Seq<WatchedContract>)
    requires
        a.len() == b.len(),
        forall|i: int| 0 <= i < a.len() ==> alike(#[trigger] a[i], b[i]),
    ensures
        all_contract_lines(a) == all_contract_lines(b),
    decreases a.len(),
{
    if a.len() > 0 {
        assert forall|i: int| 0 <= i < a.drop_last().len() implies alike(
            #[trigger] a.drop_last()[i],
            b.drop_last()[i],
        ) by {
            assert(a.drop_last()[i] == a[i]);
        }
        lemma_alike_lines(a.drop_last(), b.drop_last());
        assert(alike(a[a.len() - 1], b[b.len() - 1]));
    }
}

/// The lines about one contract.
fn contract_lines_text(contract: &WatchedContract) -> (text: String)
    ensures
        text@ == contract_lines(*contract),
{
    let mut text = "  [".to_owned();
    text.append(contract.network.display_name());
    text.append("] ");
    text.append(contract.label.as_str());
    text.append("\n    contract_id  : ");
    text.append(contract.contract_id.as_str());
    text.append("\n    webhook_url  : ");
    text.append(contract.webhook_url.as_str());
    text.append("\n    secret       : ");
    text.append(
        if contract.webhook_secret.is_some() {
            "set"
        } else {
            "none"
        },
    );
    text.append("\n    rules        : ");
    text.append(decimal_text(contract.rules.len() as u64).as_str());
    text.append("\n    horizon      : ");
    text.append(contract.network.horizon_base_url());
    text.append("\n    explorer     : ");
    text.append(contract.network.explorer_base_url());
    text.append("/contract/");
    text.append(contract.contract_id.as_str());
    text.append("\n");
    text
}

/// The summary that is printed of a valid configuration.
pub fn summary_text(config: &AppConfig) -> (text: String)
    ensures
        text@ == summary(*config),
{
    let mut text = "Config is valid.\n  poll_interval_seconds : ".to_owned();
    text.append(decimal_text(config.poll_interval_seconds).as_str());
    text.append("\n  contracts             : ");
    text.append(decimal_text(config.contracts.len() as u64).as_str());
    text.append("\n\n");
    let ghost head = text@;
    let mut i: usize = 0;
    assert(head + all_contract_lines(config.contracts@.take(0)) =~= head);
    while i < config.contracts.len()
        invariant
            i <= config.contracts.len(),
            text@ == head + all_contract_lines(config.contracts@.take(i as int)),
        decreases config.contracts.len() - i,
    {
        text.append(contract_lines_text(&config.contracts[i]).as_str());
        proof {
            let after = config.contracts@.take(i + 1);
            assert(after.drop_last() =~= config.contracts@.take(i as int));
            assert(text@ =~= head + all_contract_lines(after));
        }
        i += 1;
    }
    assert(config.contracts@.take(i as int) =~= config.contracts@);
    text
}

/// What a test webhook says of where it comes from.
#[derive(Debug)]
pub struct TestOrigin {
    pub network: &'static str,
    pub horizon_base_url: &'static str,
}

/// A test webhook speaks for the network of the first contract.
pub fn test_origin(config: &AppConfig) -> (outcome: Result<TestOrigin, ConfigError>)
    ensures
        if config.contracts@.len() == 0 {
            outcome matches Err(error) && error@ == ConfigErrorView::NothingToTest
        } else {
            outcome matches Ok(origin) && origin.network@ == config.contracts@[0].network.name()
                && origin.horizon_base_url@ == config.contracts@[0].network.horizon()
        },
{
    if config.contracts.is_empty() {
        return Err(ConfigError::NothingToTest);
    }
    let network = &config.contracts[0].network;
    Ok(
        TestOrigin {
            network: network.as_str(),
            horizon_base_url: network.horizon_base_url(),
        },
    )
}

/// A law: the summary lists every contract, in order, and no other. That of two
/// lists in a row is the one behind the other.
pub proof fn law_summary_lists_every_contract(
    first: Seq<WatchedContract>,
    second: Seq<WatchedContract>,
    contract: WatchedContract,
)
    ensures
        all_contract_lines(Seq::empty()) == Seq::<char>::empty(),
        all_contract_lines(seq![contract]) == contract_lines(contract),
        all_contract_lines(first + second) == all_contract_lines(first) + all_contract_lines(
            second,
        ),
    decreases second.len(),
{
    assert(seq![contract].drop_last() =~= Seq::<WatchedContract>::empty());
    reveal_with_fuel(all_contract_lines, 2);
    assert(all_contract_lines(seq![contract]) =~= contract_lines(contract));
    let both = first + second;
    if second.len() == 0 {
        assert(both =~= first);
    } else {
        assert(both.drop_last() =~= first + second.drop_last());
        assert(both.last() == second.last());
        law_summary_lists_every_contract(first, second.drop_last(), contract);
    }
    assert(all_contract_lines(both) =~= all_contract_lines(first) + all_contract_lines(second));
}

/// A law: what is said of a contract. Its network and label stand in the first
/// line; one line each gives the address, the webhook, whether there is a secret,
/// the number of rules, the network's Horizon and where to look the contract up.
pub proof fn law_contract_lines_say_it_all(contract: WatchedContract)
    ensures
        ({
            let id = contract.contract_id@;
            let secret = if contract.webhook_secret is None {
                "none"@
            } else {
                "set"@
            };
            contract_lines(contract) == ("  ["@ + contract.network.title() + "] "@ + contract.label@
                + "\n"@) + ("    contract_id  : "@ + id + "\n"@) + ("    webhook_url  : "@
                + contract.webhook_url@ + "\n"@) + ("    secret       : "@ + secret + "\n"@) + (
            "    rules        : "@ + crate::text::decimal(contract.rules@.len()) + "\n"@) + (
            "    horizon      : "@ + contract.network.horizon() + "\n"@) + (
            "    explorer     : "@ + (contract.network.explorer() + "/contract/"@ + id) + "\n"@)
        }),
{
    reveal_strlit("\n");
    reveal_strlit("    contract_id  : ");
    reveal_strlit("\n    contract_id  : ");
    reveal_strlit("    webhook_url  : ");
    reveal_strlit("\n    webhook_url  : ");
    reveal_strlit("    secret       : ");
    reveal_strlit("\n    secret       : ");
    reveal_strlit("    rules        : ");
    reveal_strlit("\n    rules        : ");
    reveal_strlit("    horizon      : ");
    reveal_strlit("\n    horizon      : ");
    reveal_strlit("    explorer     : ");
    reveal_strlit("\n    explorer     : ");
    assert("\n    contract_id  : "@ =~= "\n"@ + "    contract_id  : "@);
    assert("\n    webhook_url  : "@ =~= "\n"@ + "    webhook_url  : "@);
    assert("\n    secret       : "@ =~= "\n"@ + "    secret       : "@);
    assert("\n    rules        : "@ =~= "\n"@ + "    rules        : "@);
    assert("\n    horizon      : "@ =~= "\n"@ + "    horizon      : "@);
    assert("\n    explorer     : "@ =~= "\n"@ + "    explorer     : "@);
    broadcast use lemma_concat_associative;

}

/// Concatenation is associative.
broadcast proof fn lemma_concat_associative(a: Seq<char>, b: Seq<char>, c: Seq<char>)
    ensures
        #[trigger] (a + (b + c)) == a + b + c,
{
    assert(a + (b + c) =~= a + b + c);
}

/// A law: the summary begins with the interval and the number of contracts; the
/// lines about the contracts follow.
pub proof fn law_summary_begins_with_the_figures(config: AppConfig)
    ensures
        summary(config) == "Config is valid.\n"@ + ("  poll_interval_seconds : "@
            + crate::text::decimal(config.poll_interval_seconds as nat) + "\n"@) + (
        "  contracts             : "@ + crate::text::decimal(config.contracts@.len()) + "\n"@)
            + "\n"@ + all_contract_lines(config.contracts@),
{
    reveal_strlit("Config is valid.\n");
    reveal_strlit("  poll_interval_seconds : ");
    reveal_strlit("Config is valid.\n  poll_interval_seconds : ");
    reveal_strlit("\n");
    reveal_strlit("\n\n");
    reveal_strlit("  contracts             : ");
    reveal_strlit("\n  contracts             : ");
    assert("Config is valid.\n  poll_interval_seconds : "@ =~= "Config is valid.\n"@
        + "  poll_interval_seconds : "@);
    assert("\n  contracts             : "@ =~= "\n"@ + "  contracts             : "@);
    assert("\n\n"@ =~= "\n"@ + "\n"@);
    broadcast use lemma_concat_associative;

}

} // verus!

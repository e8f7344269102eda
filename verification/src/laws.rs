//! What holds of the library as a whole.

use crate::config::AppConfig;
use crate::contract::WatchedContract;
use crate::error::{ConfigErrorView, RuleFault};
use crate::horizon::{
    Details, DetailsView, FetchFailure, Operation, PollError, PollErrorView, Record, RecordView,
};
use crate::poll::{AlertView, EvaluationView, PageView, PollStep, ProgressView, StepView};
use crate::rule::AlertRule;
use crate::webhook::UrlParts;
use vstd::prelude::*;

verus! {

/// A character of `text` is no white space.
pub open spec fn inked(text: Seq<char>) -> bool {
    exists|i: int| 0 <= i < text.len() && !crate::text::white_space(#[trigger] text[i])
}

/// `id` is as long as an address, begins like one and is ASCII.
pub open spec fn address_shaped(id: Seq<char>) -> bool {
    &&& id.len() == 56
    &&& id[0] == 'C'
    &&& forall|i: int| 0 <= i < id.len() ==> #[trigger] id[i] <= '\u{7f}'
}

impl AlertRule {
    /// The rule can fire as meant: its threshold is above zero, and each function
    /// it is to look for has a name.
    pub open spec fn sound(self) -> bool {
        match self {
            AlertRule::AnyTransaction => true,
            AlertRule::TransactionFailed => true,
            AlertRule::LargeTransfer { threshold_xlm } => threshold_xlm > 0,
            AlertRule::HighFee { threshold_stroops } => threshold_stroops > 0,
            AlertRule::FunctionCalled { function_name } => inked(function_name@),
            AlertRule::AdminFunctionCalled { function_names } => {
                &&& function_names@.len() > 0
                &&& forall|i: int|
                    0 <= i < function_names@.len() ==> inked(#[trigger] function_names@[i]@)
            },
        }
    }
}

impl WatchedContract {
    /// The contract can be watched: it has a label, an address, a webhook that
    /// can be reached over the web, and rules that can fire.
    pub open spec fn valid(self) -> bool {
        &&& inked(self.label@)
        &&& address_shaped(self.contract_id@)
        &&& crate::webhook::url_parse(self.webhook_url@) matches Ok((scheme, has_host)) && (scheme
            == "http"@ || scheme == "https"@) && has_host
        &&& self.rules@.len() > 0
        &&& forall|i: int| 0 <= i < self.rules@.len() ==> (#[trigger] self.rules@[i]).sound()
    }
}

impl AppConfig {
    /// The configuration can be run: it has an interval of up to an hour, and
    /// from one to a hundred contracts, each of them valid.
    pub open spec fn valid(self) -> bool {
        &&& 1 <= self.poll_interval_seconds <= 3600
        &&& 1 <= self.contracts@.len() <= 100
        &&& forall|i: int| 0 <= i < self.contracts@.len() ==> (#[trigger] self.contracts@[i]).valid()
    }
}

/// A text is blank if and only if it has no ink.
proof fn lemma_blank(text: Seq<char>)
    ensures
        crate::text::blank(text) <==> !inked(text),
{
}

/// A character is not below the first.
proof fn lemma_least_character(c: char)
    ensures
        '\0' <= c,
{
}

/// An address is what has the shape of one.
proof fn lemma_address(id: Seq<char>)
    ensures
        crate::contract::contract_address(id) <==> address_shaped(id),
{
    if address_shaped(id) {
        assert forall|i: int| 0 <= i < id.len() implies '\0' <= #[trigger] id[i] <= '\u{7f}' by {
            lemma_least_character(id[i]);
        }
    }
}

/// A law: a rule passes if and only if it is sound, and an unsound rule is refused
/// for what is wrong with it, in the name of the contract it belongs to.
pub proof fn law_rule_passes_iff_sound(rule: AlertRule, label: Seq<char>)
    ensures
        rule.fault() is None <==> rule.sound(),
        rule.complaint(label) is None <==> rule.sound(),
        !rule.sound() ==> match rule {
            AlertRule::AnyTransaction | AlertRule::TransactionFailed => false,
            AlertRule::LargeTransfer { threshold_xlm } => rule.complaint(label) == Some(
                ConfigErrorView::InvalidRule { label, fault: RuleFault::ZeroTransferThreshold },
            ),
            AlertRule::HighFee { threshold_stroops } => rule.complaint(label) == Some(
                ConfigErrorView::InvalidRule { label, fault: RuleFault::ZeroFeeThreshold },
            ),
            AlertRule::FunctionCalled { function_name } => rule.complaint(label) == Some(
                ConfigErrorView::InvalidRule { label, fault: RuleFault::EmptyFunctionName },
            ),
            AlertRule::AdminFunctionCalled { function_names } => rule.complaint(label) == Some(
                ConfigErrorView::InvalidRule {
                    label,
                    fault: if function_names@.len() == 0 {
                        RuleFault::NoFunctionNames
                    } else {
                        RuleFault::BlankFunctionName
                    },
                },
            ),
        },
{
    match rule {
        AlertRule::FunctionCalled { function_name } => {
            lemma_blank(function_name@);
        },
        AlertRule::AdminFunctionCalled { function_names } => {
            let names = function_names@;
            assert forall|i: int| 0 <= i < names.len() implies (crate::text::blank(names[i]@)
                <==> !inked(#[trigger] names[i]@)) by {
                lemma_blank(names[i]@);
            }
            if crate::rule::has_blank(names) {
                let i = choose|i: int|
                    0 <= i < names.len() && crate::text::blank(#[trigger] names[i]@);
                assert(!inked(names[i]@));
            } else {
                assert forall|i: int| 0 <= i < names.len() implies inked(#[trigger] names[i]@) by {
                    assert(!crate::text::blank(names[i]@));
                }
            }
        },
        _ => {},
    }
}

/// There is no first complaint if and only if there is none.
proof fn lemma_no_complaint(complaints: Seq<Option<ConfigErrorView>>)
    ensures
        crate::error::first_complaint(complaints) is None <==> forall|i: int|
            0 <= i < complaints.len() ==> #[trigger] complaints[i] is None,
    decreases complaints.len(),
{
    if complaints.len() > 0 {
        let rest = complaints.drop_first();
        lemma_no_complaint(rest);
        if crate::error::first_complaint(complaints) is None {
            assert forall|i: int| 0 <= i < complaints.len() implies #[trigger] complaints[i] is None by {
                if i > 0 {
                    assert(rest[i - 1] is None);
                }
            }
        }
        if forall|i: int| 0 <= i < complaints.len() ==> #[trigger] complaints[i] is None {
            assert forall|i: int| 0 <= i < rest.len() implies #[trigger] rest[i] is None by {
                assert(rest[i] == complaints[i + 1]);
            }
        }
    }
}

/// A law: validation of a contract passes if and only if the contract is valid.
pub proof fn law_contract_passes_iff_valid(contract: WatchedContract)
    ensures
        contract.complaint() is None <==> contract.valid(),
{
    let complaints = contract.rule_complaints();
    lemma_blank(contract.label@);
    lemma_address(contract.contract_id@);
    lemma_no_complaint(complaints);
    assert forall|i: int| 0 <= i < contract.rules@.len() implies (complaints[i] is None
        <==> (#[trigger] contract.rules@[i]).sound()) by {
        law_rule_passes_iff_sound(contract.rules@[i], contract.label@);
    }
    if contract.complaint() is None {
        assert forall|i: int| 0 <= i < contract.rules@.len() implies (
        #[trigger] contract.rules@[i]).sound() by {
            assert(complaints[i] is None);
        }
    }
    if contract.valid() {
        assert forall|i: int| 0 <= i < complaints.len() implies #[trigger] complaints[i] is None by {
            assert(contract.rules@[i].sound());
        }
    }
}

/// A law: of all that is wrong with a contract the first thing is told, and told
/// of this contract: a label without ink, an address out of shape, a webhook URL
/// that does not parse, then one with a scheme other than `http` and `https`, then
/// one without a host, the want of rules, the first unsound rule. Nothing else is
/// complained of.
pub proof fn law_first_fault_of_a_contract_is_told(
    contract: WatchedContract,
    parsed: Result<UrlParts, String>,
)
    ensures
        ({
            let told = contract.complaint_given(crate::webhook::parse_view(parsed));
            let label = contract.label@;
            let webhook_url = contract.webhook_url@;
            let rules = contract.rules@;
            &&& crate::webhook::parse_view(parsed) == crate::webhook::url_parse(webhook_url)
                ==> contract.complaint() == told
            &&& !inked(label) ==> told == Some(ConfigErrorView::EmptyLabel)
            &&& inked(label) && !address_shaped(contract.contract_id@) ==> told == Some(
                ConfigErrorView::InvalidContractId { label, contract_id: contract.contract_id@ },
            )
            &&& inked(label) && address_shaped(contract.contract_id@) ==> match parsed {
                Err(reason) => told == Some(
                    ConfigErrorView::InvalidWebhookUrl { label, webhook_url, reason: reason@ },
                ),
                Ok(parts) => {
                    let web = parts.scheme@ == "http"@ || parts.scheme@ == "https"@;
                    &&& !web ==> told == Some(
                        ConfigErrorView::UnsupportedScheme { label, webhook_url },
                    )
                    &&& web && !parts.has_host ==> told == Some(
                        ConfigErrorView::MissingHost { label, webhook_url },
                    )
                    &&& web && parts.has_host && rules.len() == 0 ==> told == Some(
                        ConfigErrorView::NoRules { label },
                    )
                    &&& web && parts.has_host ==> forall|i: int|
                        0 <= i < rules.len() && !(#[trigger] rules[i]).sound() && (forall|j: int|
                            0 <= j < i ==> (#[trigger] rules[j]).sound()) ==> told
                            == rules[i].complaint(label)
                    &&& web && parts.has_host && rules.len() > 0 && (forall|i: int|
                        0 <= i < rules.len() ==> (#[trigger] rules[i]).sound()) ==> told is None
                },
            }
        }),
{
    let complaints = contract.rule_complaints();
    let rules = contract.rules@;
    lemma_blank(contract.label@);
    lemma_address(contract.contract_id@);
    lemma_no_complaint(complaints);
    assert forall|i: int| 0 <= i < rules.len() implies (complaints[i] is None <==> (
    #[trigger] rules[i]).sound()) by {
        law_rule_passes_iff_sound(rules[i], contract.label@);
    }
    assert forall|i: int|
        0 <= i < rules.len() && !(#[trigger] rules[i]).sound() && (forall|j: int|
            0 <= j < i ==> (#[trigger] rules[j]).sound()) implies crate::error::first_complaint(
        complaints,
    ) == rules[i].complaint(contract.label@) by {
        assert forall|j: int| 0 <= j < i implies #[trigger] complaints[j] is None by {
            assert(rules[j].sound());
        }
        crate::error::lemma_first_complaint(complaints, i);
    }
    if forall|i: int| 0 <= i < rules.len() ==> (#[trigger] rules[i]).sound() {
        assert forall|i: int| 0 <= i < complaints.len() implies #[trigger] complaints[i] is None by {
            assert(rules[i].sound());
        }
    }
}

/// A law: validation of a configuration passes if and only if the configuration
/// is valid. One bad contract, or one bad rule in a contract, is enough to have
/// the whole refused.
pub proof fn law_config_passes_iff_valid(config: AppConfig)
    ensures
        config.complaint() is None <==> config.valid(),
{
    let complaints = config.contract_complaints();
    lemma_no_complaint(complaints);
    assert forall|i: int| 0 <= i < config.contracts@.len() implies (complaints[i] is None
        <==> (#[trigger] config.contracts@[i]).valid()) by {
        law_contract_passes_iff_valid(config.contracts@[i]);
    }
    if config.complaint() is None {
        assert forall|i: int| 0 <= i < config.contracts@.len() implies (
        #[trigger] config.contracts@[i]).valid() by {
            assert(complaints[i] is None);
        }
    }
    if config.valid() {
        assert forall|i: int| 0 <= i < complaints.len() implies #[trigger] complaints[i] is None by {
            assert(config.contracts@[i].valid());
        }
    }
}

/// A law: of all that is wrong with a configuration the first thing is told: no
/// interval, one above an hour, no contract, more than a hundred of them, the first
/// contract that is not valid. Nothing else is complained of.
pub proof fn law_first_fault_of_a_config_is_told(config: AppConfig)
    ensures
        ({
            let told = config.complaint();
            let seconds = config.poll_interval_seconds;
            let contracts = config.contracts@;
            &&& seconds == 0 ==> told == Some(ConfigErrorView::ZeroPollInterval)
            &&& seconds > 3600 ==> told == Some(ConfigErrorView::PollIntervalTooLong)
            &&& 1 <= seconds <= 3600 && contracts.len() == 0 ==> told == Some(
                ConfigErrorView::NoContracts,
            )
            &&& 1 <= seconds <= 3600 && contracts.len() > 100 ==> told == Some(
                ConfigErrorView::TooManyContracts { configured: contracts.len() },
            )
            &&& 1 <= seconds <= 3600 && contracts.len() <= 100 ==> forall|i: int|
                0 <= i < contracts.len() && !(#[trigger] contracts[i]).valid() && (forall|j: int|
                    0 <= j < i ==> (#[trigger] contracts[j]).valid()) ==> told
                    == contracts[i].complaint()
            &&& config.valid() ==> told is None
        }),
{
    let complaints = config.contract_complaints();
    let contracts = config.contracts@;
    law_config_passes_iff_valid(config);
    assert forall|i: int| 0 <= i < contracts.len() implies (complaints[i] is None <==> (
    #[trigger] contracts[i]).valid()) by {
        law_contract_passes_iff_valid(contracts[i]);
    }
    assert forall|i: int|
        0 <= i < contracts.len() && !(#[trigger] contracts[i]).valid() && (forall|j: int|
            0 <= j < i ==> (#[trigger] contracts[j]).valid()) implies crate::error::first_complaint(
        complaints,
    ) == contracts[i].complaint() by {
        assert forall|j: int| 0 <= j < i implies #[trigger] complaints[j] is None by {
            assert(contracts[j].valid());
        }
        crate::error::lemma_first_complaint(complaints, i);
    }
}

/// A character takes one byte in UTF-8 if it is ASCII, and more if it is not.
proof fn lemma_bytes_of_character(c: char)
    ensures
        vstd::utf8::encode_scalar(c as u32).len() >= 1,
        vstd::utf8::encode_scalar(c as u32).len() == 1 <==> '\0' <= c <= '\u{7f}',
        '\0' <= c,
{
}

/// A UTF-8 text has at least as many bytes as characters, and as many only where
/// it is ASCII.
proof fn lemma_bytes_and_characters(text: Seq<char>)
    ensures
        vstd::utf8::encode_utf8(text).len() >= text.len(),
        vstd::utf8::encode_utf8(text).len() == text.len() <==> vstd::utf8::is_ascii_chars(text),
    decreases text.len(),
{
    if text.len() > 0 {
        let rest = text.drop_first();
        let first: char = text[0];
        lemma_bytes_and_characters(rest);
        lemma_bytes_of_character(first);
        if vstd::utf8::is_ascii_chars(text) {
            assert forall|i: int| 0 <= i < rest.len() implies '\0' <= #[trigger] rest[i]
                <= '\u{7f}' by {
                assert(rest[i] == text[i + 1]);
            }
        }
        if first <= '\u{7f}' && vstd::utf8::is_ascii_chars(rest) {
            assert forall|i: int| 0 <= i < text.len() implies '\0' <= #[trigger] text[i]
                <= '\u{7f}' by {
                if i > 0 {
                    assert(text[i] == rest[i - 1]);
                } else {
                    assert(text[i] == first);
                }
            }
        }
    }
}

/// A law: a text that starts with 'C' is an address if and only if it is 56 long
/// both in characters and in bytes.
pub proof fn law_address_length_either_way(id: Seq<char>)
    requires
        id.len() > 0,
        id[0] == 'C',
    ensures
        crate::contract::contract_address(id) <==> id.len() == 56 && vstd::utf8::encode_utf8(
            id,
        ).len() == 56,
{
    lemma_bytes_and_characters(id);
}

/// A law: the details of a transaction add up. Operations that follow others add
/// the functions they invoke behind, and what they pay on top.
pub proof fn law_details_add_up(first: Seq<Operation>, second: Seq<Operation>)
    ensures
        crate::horizon::invocations(first + second) == crate::horizon::invocations(first)
            + crate::horizon::invocations(second),
        crate::horizon::total_paid(first + second) == crate::horizon::total_paid(first)
            + crate::horizon::total_paid(second),
        crate::horizon::pays(first + second) <==> crate::horizon::pays(first)
            || crate::horizon::pays(second),
    decreases second.len(),
{
    let both = first + second;
    if second.len() == 0 {
        assert(both =~= first);
    } else {
        assert(both.drop_last() =~= first + second.drop_last());
        assert(both.last() == second.last());
        law_details_add_up(first, second.drop_last());
        assert(crate::horizon::invocations(both) =~= crate::horizon::invocations(first)
            + crate::horizon::invocations(second));
    }
    if crate::horizon::pays(first) {
        let i = choose|i: int| 0 <= i < first.len() && (#[trigger] first[i]).paid() is Some;
        assert(both[i].paid() is Some);
    }
    if crate::horizon::pays(second) {
        let i = choose|i: int| 0 <= i < second.len() && (#[trigger] second[i]).paid() is Some;
        assert(both[first.len() + i].paid() is Some);
    }
    if crate::horizon::pays(both) {
        let i = choose|i: int| 0 <= i < both.len() && (#[trigger] both[i]).paid() is Some;
        if i < first.len() {
            assert(first[i].paid() is Some);
        } else {
            assert(second[i - first.len()].paid() is Some);
        }
    }
}

/// What comes from outside on one record of a page.
pub struct Handling {
    /// The answer to the request for its operations.
    pub answer: Result<Seq<Operation>, FetchFailure>,
    /// How many payloads its rules yield; none, where it is unfit for evaluation.
    pub payloads: Option<nat>,
}

impl Handling {
    /// How many alerts the record gives rise to.
    pub open spec fn count(self) -> nat {
        match self.payloads {
            Some(count) => count,
            None => 0,
        }
    }
}

/// How many alerts are still to be given before `step` moves on.
pub open spec fn alerts_left(step: StepView) -> nat {
    match step {
        StepView::Alert(alert) => if alert.payload < alert.payloads {
            (alert.payloads - alert.payload) as nat
        } else {
            0
        },
        _ => 0,
    }
}

/// The step that is reached from `step` once the alerts on the record in hand
/// have been given.
pub open spec fn past_alerts(step: StepView) -> StepView
    decreases alerts_left(step),
{
    match step {
        StepView::Alert(alert) => if alert.payload < alert.payloads {
            past_alerts(crate::poll::alerted(alert))
        } else {
            step
        },
        _ => step,
    }
}

/// The same, with the cursors as each step on the way leaves them.
pub open spec fn through_alerts(step: StepView, cursors: Map<Seq<char>, Seq<char>>) -> (
    StepView,
    Map<Seq<char>, Seq<char>>,
)
    decreases alerts_left(step),
{
    match step {
        StepView::Alert(alert) => if alert.payload < alert.payloads {
            let next = crate::poll::alerted(alert);
            through_alerts(next, crate::poll::noted(cursors, next))
        } else {
            (step, cursors)
        },
        _ => (step, cursors),
    }
}

/// The payloads that are sent from `step` on, on the record in hand.
pub open spec fn sent(step: StepView) -> Seq<nat>
    decreases alerts_left(step),
{
    match step {
        StepView::Alert(alert) => if alert.payload < alert.payloads {
            let rest = sent(crate::poll::alerted(alert));
            if alert.progress.dry_run {
                rest
            } else {
                seq![alert.payload] + rest
            }
        } else {
            Seq::empty()
        },
        _ => Seq::empty(),
    }
}

/// The step that is reached once the record in hand has been dealt with.
pub open spec fn dealt_with(progress: ProgressView, handling: Handling) -> StepView {
    past_alerts(
        crate::poll::evaluated(
            crate::poll::answered(progress, handling.answer).progress,
            handling.payloads,
        ),
    )
}

/// The step that is reached from `step`, and the cursors then, once as many
/// records have been dealt with as there are `handlings`. Every step on the way
/// leaves its mark on the cursors.
pub open spec fn carried_on(
    step: StepView,
    cursors: Map<Seq<char>, Seq<char>>,
    handlings: Seq<Handling>,
) -> (StepView, Map<Seq<char>, Seq<char>>)
    decreases handlings.len(),
{
    match step {
        StepView::Operations(progress) => if handlings.len() > 0 {
            let first = crate::poll::evaluated(
                crate::poll::answered(progress, handlings[0].answer).progress,
                handlings[0].payloads,
            );
            let (next, read) = through_alerts(first, crate::poll::noted(cursors, first));
            carried_on(next, read, handlings.drop_first())
        } else {
            (step, cursors)
        },
        _ => (step, cursors),
    }
}

/// The requests for operations that are made on the way.
pub open spec fn requested(step: StepView, handlings: Seq<Handling>) -> Seq<Seq<char>>
    decreases handlings.len(),
{
    match step {
        StepView::Operations(progress) => if handlings.len() > 0 {
            seq![progress.url()] + requested(
                dealt_with(progress, handlings[0]),
                handlings.drop_first(),
            )
        } else {
            Seq::empty()
        },
        _ => Seq::empty(),
    }
}

/// The webhooks that are sent on the way: on which record, and with which of its
/// payloads.
pub open spec fn webhooks(step: StepView, handlings: Seq<Handling>) -> Seq<(RecordView, nat)>
    decreases handlings.len(),
{
    match step {
        StepView::Operations(progress) => if handlings.len() > 0 {
            let record = progress.records[progress.position as int];
            let first = crate::poll::evaluated(
                crate::poll::answered(progress, handlings[0].answer).progress,
                handlings[0].payloads,
            );
            sent(first).map_values(|payload: nat| (record, payload)) + webhooks(
                dealt_with(progress, handlings[0]),
                handlings.drop_first(),
            )
        } else {
            Seq::empty()
        },
        _ => Seq::empty(),
    }
}

/// What the rules yield on `records`: record by record, all payloads of each
/// record that is fit for evaluation, from the first to the last.
pub open spec fn yielded(records: Seq<RecordView>, handlings: Seq<Handling>) -> Seq<
    (RecordView, nat),
>
    decreases handlings.len(),
{
    if handlings.len() == 0 {
        Seq::empty()
    } else {
        Seq::new(handlings[0].count(), |payload: int| (records[0], payload as nat)) + yielded(
            records.drop_first(),
            handlings.drop_first(),
        )
    }
}

/// How many records are fit for evaluation.
pub open spec fn fit(handlings: Seq<Handling>) -> nat
    decreases handlings.len(),
{
    if handlings.len() == 0 {
        0
    } else {
        fit(handlings.drop_first()) + if handlings[0].payloads is Some {
            1nat
        } else {
            0
        }
    }
}

/// How many payloads the rules yield in all.
pub open spec fn fired(handlings: Seq<Handling>) -> nat
    decreases handlings.len(),
{
    if handlings.len() == 0 {
        0
    } else {
        fired(handlings.drop_first()) + handlings[0].count()
    }
}

/// Alerts lead on to the next record.
proof fn lemma_past_alerts(alert: AlertView)
    requires
        alert.payload < alert.payloads,
    ensures
        past_alerts(StepView::Alert(alert)) == crate::poll::proceed(alert.progress.next()),
    decreases alert.payloads - alert.payload,
{
    reveal_with_fuel(past_alerts, 2);
    if alert.payload + 1 < alert.payloads {
        lemma_past_alerts(AlertView { payload: alert.payload + 1, ..alert });
    }
}

/// On the way through the alerts the cursors stay as they were.
proof fn lemma_through_alerts(alert: AlertView, cursors: Map<Seq<char>, Seq<char>>)
    requires
        alert.payload < alert.payloads,
    ensures
        ({
            let next = crate::poll::proceed(alert.progress.next());
            through_alerts(StepView::Alert(alert), cursors) == (
                next,
                crate::poll::noted(cursors, next),
            )
        }),
    decreases alert.payloads - alert.payload,
{
    reveal_with_fuel(through_alerts, 2);
    if alert.payload + 1 < alert.payloads {
        lemma_through_alerts(AlertView { payload: alert.payload + 1, ..alert }, cursors);
    }
}

/// The payloads that are sent from an alert on.
proof fn lemma_sent(alert: AlertView)
    requires
        alert.payload < alert.payloads,
    ensures
        sent(StepView::Alert(alert)) == if alert.progress.dry_run {
            Seq::<nat>::empty()
        } else {
            Seq::new(
                (alert.payloads - alert.payload) as nat,
                |i: int| (alert.payload + i) as nat,
            )
        },
    decreases alert.payloads - alert.payload,
{
    if alert.payload + 1 < alert.payloads {
        lemma_sent(AlertView { payload: alert.payload + 1, ..alert });
    } else {
        assert(sent(crate::poll::alerted(alert)) =~= Seq::<nat>::empty());
    }
    if alert.progress.dry_run {
        assert(sent(StepView::Alert(alert)) =~= Seq::<nat>::empty());
    } else {
        assert(sent(StepView::Alert(alert)) =~= Seq::new(
            (alert.payloads - alert.payload) as nat,
            |i: int| (alert.payload + i) as nat,
        ));
    }
}

/// A law: every payload that the rules yield is sent once and in order. In a dry
/// run, none is.
pub proof fn law_each_payload_is_sent_once(progress: ProgressView, payloads: nat)
    ensures
        sent(crate::poll::evaluated(progress, Some(payloads))) == if progress.dry_run {
            Seq::<nat>::empty()
        } else {
            Seq::new(payloads, |i: int| i as nat)
        },
{
    if payloads == 0 {
        assert(Seq::new(payloads, |i: int| i as nat) =~= Seq::<nat>::empty());
    } else {
        let alert = AlertView { progress: progress.counting(payloads), payloads, payload: 0 };
        lemma_sent(alert);
        if !progress.dry_run {
            assert(sent(StepView::Alert(alert)) =~= Seq::new(payloads, |i: int| i as nat));
        }
    }
}

/// A law: a record leads on to the next one, whatever comes of it: operations
/// that cannot be had, a transaction unfit for evaluation, alerts that do not get
/// through. It counts as a transaction if it was fit for evaluation, and each of
/// its payloads as an alert.
pub proof fn law_record_leads_to_the_next(progress: ProgressView, handling: Handling)
    ensures
        dealt_with(progress, handling) == crate::poll::proceed(
            match handling.payloads {
                Some(count) => progress.counting(count).next(),
                None => progress.next(),
            },
        ),
{
    if let Some(count) = handling.payloads {
        if count > 0 {
            lemma_past_alerts(
                AlertView { progress: progress.counting(count), payloads: count, payload: 0 },
            );
        }
    }
}

/// A poll from some record on.
proof fn lemma_carried_on(
    progress: ProgressView,
    cursors: Map<Seq<char>, Seq<char>>,
    handlings: Seq<Handling>,
)
    requires
        progress.position + handlings.len() == progress.records.len(),
    ensures
        ({
            let step = crate::poll::proceed(progress);
            let (last, read) = carried_on(step, crate::poll::noted(cursors, step), handlings);
            &&& last == (StepView::Finished {
                transactions: progress.transactions + fit(handlings),
                alerts: progress.alerts + fired(handlings),
            })
            &&& read == if handlings.len() == 0 {
                cursors
            } else {
                cursors.insert(
                    progress.contract.contract_id@,
                    progress.records.last().paging_token,
                )
            }
        }),
        requested(crate::poll::proceed(progress), handlings) == Seq::new(
            handlings.len(),
            |i: int|
                crate::horizon::operations_url(
                    progress.contract.horizon(),
                    progress.records[progress.position + i].hash,
                ),
        ),
    decreases handlings.len(),
{
    let urls = Seq::new(
        handlings.len(),
        |i: int|
            crate::horizon::operations_url(
                progress.contract.horizon(),
                progress.records[progress.position + i].hash,
            ),
    );
    if handlings.len() == 0 {
        assert(urls =~= Seq::<Seq<char>>::empty());
    } else {
        let rest = handlings.drop_first();
        let after = match handlings[0].payloads {
            Some(count) => progress.counting(count).next(),
            None => progress.next(),
        };
        let id = progress.contract.contract_id@;
        let token = progress.records[progress.position as int].paging_token;
        law_record_leads_to_the_next(progress, handlings[0]);
        if let Some(count) = handlings[0].payloads {
            if count > 0 {
                lemma_through_alerts(
                    AlertView { progress: progress.counting(count), payloads: count, payload: 0 },
                    cursors.insert(id, token),
                );
            }
        }
        lemma_carried_on(after, cursors.insert(id, token), rest);
        assert(cursors.insert(id, token).insert(id, progress.records.last().paging_token)
            =~= cursors.insert(id, progress.records.last().paging_token));
        assert(requested(crate::poll::proceed(progress), handlings) =~= urls);
    }
}

/// A law: a poll whose page arrives deals with every record of the page, once and
/// in order, whatever comes of each, and ends. Then it has counted the
/// transactions that were fit for evaluation and all the payloads, and the
/// contract's cursor stands at the last record of the page; on an empty page it
/// stays where it was.
pub proof fn law_poll_deals_with_every_record(
    page: PageView,
    records: Seq<RecordView>,
    cursors: Map<Seq<char>, Seq<char>>,
    handlings: Seq<Handling>,
)
    requires
        handlings.len() == records.len(),
    ensures
        ({
            let step = crate::poll::arrived(page, records);
            let (last, read) = carried_on(step, crate::poll::noted(cursors, step), handlings);
            &&& last == (StepView::Finished {
                transactions: fit(handlings),
                alerts: fired(handlings),
            })
            &&& read == if records.len() == 0 {
                cursors
            } else {
                cursors.insert(page.contract.contract_id@, records.last().paging_token)
            }
            &&& requested(step, handlings) == Seq::new(
                records.len(),
                |i: int|
                    crate::horizon::operations_url(page.contract.horizon(), records[i].hash),
            )
        }),
{
    let progress = ProgressView {
        contract: page.contract,
        dry_run: page.dry_run,
        records,
        position: 0,
        transactions: 0,
        alerts: 0,
    };
    lemma_carried_on(progress, cursors, handlings);
    assert(requested(crate::poll::proceed(progress), handlings) =~= Seq::new(
        records.len(),
        |i: int| crate::horizon::operations_url(page.contract.horizon(), records[i].hash),
    ));
}

/// The webhooks that are sent from some record on.
proof fn lemma_webhooks(progress: ProgressView, handlings: Seq<Handling>)
    requires
        progress.position + handlings.len() == progress.records.len(),
    ensures
        webhooks(crate::poll::proceed(progress), handlings) == if progress.dry_run {
            Seq::<(RecordView, nat)>::empty()
        } else {
            yielded(progress.records.skip(progress.position as int), handlings)
        },
    decreases handlings.len(),
{
    let here = webhooks(crate::poll::proceed(progress), handlings);
    if handlings.len() > 0 {
        let left = progress.records.skip(progress.position as int);
        let after = match handlings[0].payloads {
            Some(count) => progress.counting(count).next(),
            None => progress.next(),
        };
        law_record_leads_to_the_next(progress, handlings[0]);
        if let Some(count) = handlings[0].payloads {
            law_each_payload_is_sent_once(progress, count);
        }
        lemma_webhooks(after, handlings.drop_first());
        assert(left.drop_first() =~= progress.records.skip(after.position as int));
        assert(left[0] == progress.records[progress.position as int]);
        if progress.dry_run {
            assert(here =~= Seq::<(RecordView, nat)>::empty());
        } else {
            assert(here =~= yielded(left, handlings));
        }
    }
}

/// What the rules yield is as long as they fire often.
proof fn lemma_yielded_len(records: Seq<RecordView>, handlings: Seq<Handling>)
    ensures
        yielded(records, handlings).len() == fired(handlings),
    decreases handlings.len(),
{
    if handlings.len() > 0 {
        lemma_yielded_len(records.drop_first(), handlings.drop_first());
    }
}

/// A law: a poll sends one webhook for each payload that the rules yield, no more
/// and no fewer: record by record in the order of the page, and on each record
/// payload by payload. In a dry run it sends none, though it counts the alerts all
/// the same.
pub proof fn law_poll_sends_what_fires(
    page: PageView,
    records: Seq<RecordView>,
    handlings: Seq<Handling>,
)
    requires
        handlings.len() == records.len(),
    ensures
        webhooks(crate::poll::arrived(page, records), handlings) == if page.dry_run {
            Seq::<(RecordView, nat)>::empty()
        } else {
            yielded(records, handlings)
        },
        yielded(records, handlings).len() == fired(handlings),
{
    lemma_webhooks(
        ProgressView {
            contract: page.contract,
            dry_run: page.dry_run,
            records,
            position: 0,
            transactions: 0,
            alerts: 0,
        },
        handlings,
    );
    assert(records.skip(0) =~= records);
    lemma_yielded_len(records, handlings);
}

/// A law: a record unfit for evaluation leaves no trace in what a poll counts and
/// sends. Without it the page comes to the same transactions, the same alerts and
/// the same webhooks in the same order.
pub proof fn law_unfit_record_leaves_no_trace(
    records: Seq<RecordView>,
    handlings: Seq<Handling>,
    i: int,
)
    requires
        handlings.len() == records.len(),
        0 <= i < handlings.len(),
        handlings[i].payloads is None,
    ensures
        fit(handlings.remove(i)) == fit(handlings),
        fired(handlings.remove(i)) == fired(handlings),
        yielded(records.remove(i), handlings.remove(i)) == yielded(records, handlings),
    decreases handlings.len(),
{
    if i == 0 {
        assert(handlings.remove(0) =~= handlings.drop_first());
        assert(records.remove(0) =~= records.drop_first());
        assert(yielded(records, handlings) =~= yielded(
            records.drop_first(),
            handlings.drop_first(),
        ));
    } else {
        law_unfit_record_leaves_no_trace(records.drop_first(), handlings.drop_first(), i - 1);
        assert(handlings.remove(i).drop_first() =~= handlings.drop_first().remove(i - 1));
        assert(records.remove(i).drop_first() =~= records.drop_first().remove(i - 1));
        assert(handlings.remove(i)[0] == handlings[0]);
        assert(records.remove(i)[0] == records[0]);
    }
}

/// A law: the next poll of a contract reads on behind the last record that the
/// poll before it was given, so that no record is asked for twice; behind an empty
/// page it asks again for the same. A contract with another address is asked for
/// what it would have been asked for anyway.
pub proof fn law_next_poll_reads_on(
    contract: WatchedContract,
    other: WatchedContract,
    dry_run: bool,
    records: Seq<RecordView>,
    cursors: Map<Seq<char>, Seq<char>>,
    handlings: Seq<Handling>,
)
    requires
        handlings.len() == records.len(),
    ensures
        ({
            let page = crate::poll::first_step(contract, dry_run, cursors);
            let step = crate::poll::arrived(page, records);
            let read = carried_on(step, crate::poll::noted(cursors, step), handlings).1;
            &&& records.len() > 0 ==> crate::poll::first_step(contract, dry_run, read).url
                == crate::horizon::transactions_url(
                contract.horizon(),
                contract.contract_id@,
                records.last().paging_token,
            )
            &&& records.len() == 0 ==> crate::poll::first_step(contract, dry_run, read) == page
            &&& other.contract_id@ != contract.contract_id@ ==> crate::poll::first_step(
                other,
                dry_run,
                read,
            ) == crate::poll::first_step(other, dry_run, cursors)
        }),
{
    law_poll_deals_with_every_record(
        crate::poll::first_step(contract, dry_run, cursors),
        records,
        cursors,
        handlings,
    );
}

/// A law: a watch begins in the present. The first poll of each contract of a
/// configuration asks only for what comes from now on.
pub proof fn law_watch_begins_now(config: AppConfig, i: int, dry_run: bool)
    requires
        0 <= i < config.contracts@.len(),
    ensures
        crate::poll::first_step(
            config.contracts@[i],
            dry_run,
            crate::cursor::fresh_cursors(config.contracts@),
        ).url == crate::horizon::transactions_url(
            config.contracts@[i].horizon(),
            config.contracts@[i].contract_id@,
            "now"@,
        ),
{
}

/// A law: a contract is read where its override says, and at its network's own
/// Horizon where it has none.
pub proof fn law_override_goes_first(contract: WatchedContract)
    ensures
        contract.horizon_base_url_override matches Some(url) ==> contract.horizon() == url@,
        contract.horizon_base_url_override is None ==> contract.horizon()
            == contract.network.horizon(),
{
}

/// A law: the URL of a page names the account and the cursor, and asks for up to
/// 200 transactions, oldest first; that of operations names the transaction. Both
/// are below the base.
pub proof fn law_requests_name_what_is_asked_for(
    base: Seq<char>,
    account: Seq<char>,
    cursor: Seq<char>,
    hash: Seq<char>,
)
    ensures
        crate::horizon::transactions_url(base, account, cursor) == base + ("/accounts/"@ + account
            + "/transactions"@) + ("?cursor="@ + cursor + "&order=asc"@ + "&limit=200"@),
        crate::horizon::operations_url(base, hash) == base + ("/transactions/"@ + hash
            + "/operations"@),
{
    reveal_strlit("/transactions?cursor=");
    reveal_strlit("/transactions");
    reveal_strlit("?cursor=");
    reveal_strlit("&order=asc&limit=200");
    reveal_strlit("&order=asc");
    reveal_strlit("&limit=200");
    assert("/transactions?cursor="@ =~= "/transactions"@ + "?cursor="@);
    assert("&order=asc&limit=200"@ =~= "&order=asc"@ + "&limit=200"@);
    assert(crate::horizon::transactions_url(base, account, cursor) =~= base + ("/accounts/"@
        + account + "/transactions"@) + ("?cursor="@ + cursor + "&order=asc"@ + "&limit=200"@));
    assert(crate::horizon::operations_url(base, hash) =~= base + ("/transactions/"@ + hash
        + "/operations"@));
}

/// A law: requests tell apart what is asked for. Pages of one account after
/// different cursors, and operations of different transactions, have different
/// URLs.
pub proof fn law_requests_are_told_apart(
    base: Seq<char>,
    account: Seq<char>,
    one: Seq<char>,
    other: Seq<char>,
)
    requires
        one != other,
    ensures
        crate::horizon::transactions_url(base, account, one) != crate::horizon::transactions_url(
            base,
            account,
            other,
        ),
        crate::horizon::operations_url(base, one) != crate::horizon::operations_url(base, other),
{
    lemma_between(
        base + "/accounts/"@ + account + "/transactions?cursor="@,
        one,
        other,
        "&order=asc&limit=200"@,
    );
    lemma_between(base + "/transactions/"@, one, other, "/operations"@);
}

/// Different texts stay different between the same two others.
proof fn lemma_between(before: Seq<char>, one: Seq<char>, other: Seq<char>, behind: Seq<char>)
    requires
        one != other,
    ensures
        before + one + behind != before + other + behind,
{
    let left = before + one + behind;
    let right = before + other + behind;
    if left == right {
        assert(left.len() == before.len() + one.len() + behind.len());
        assert(right.len() == before.len() + other.len() + behind.len());
        assert forall|i: int| 0 <= i < one.len() implies one[i] == other[i] by {
            assert(left[before.len() + i] == one[i]);
            assert(right[before.len() + i] == other[i]);
        }
        assert(one =~= other);
    }
}

/// A law: without operations nothing is invoked and nothing paid. One operation
/// invokes the function it names if it is of the type `invoke_host_function`, and
/// pays the amount it has if it is of the type `payment`; of any other type, or
/// without a name or an amount, it does neither.
pub proof fn law_single_operation(operation: Operation)
    ensures
        crate::horizon::invocations(Seq::empty()) == Seq::<Seq<char>>::empty(),
        crate::horizon::total_paid(Seq::empty()) == 0,
        !crate::horizon::pays(Seq::empty()),
        crate::horizon::invocations(seq![operation]) == if operation.op_type@
            == "invoke_host_function"@ && operation.function is Some {
            seq![operation.function->0@]
        } else {
            Seq::<Seq<char>>::empty()
        },
        crate::horizon::total_paid(seq![operation]) == if operation.op_type@ == "payment"@
            && operation.stroops is Some {
            operation.stroops->0 as nat
        } else {
            0
        },
        crate::horizon::pays(seq![operation]) <==> operation.op_type@ == "payment"@
            && operation.stroops is Some,
{
    let one = seq![operation];
    assert(one.drop_last() =~= Seq::<Operation>::empty());
    assert(one.last() == operation);
    reveal_with_fuel(crate::horizon::invocations, 2);
    reveal_with_fuel(crate::horizon::total_paid, 2);
    if operation.op_type@ == "payment"@ && operation.stroops is Some {
        assert(one[0].paid() is Some);
    }
    if let Some(name) = operation.function {
        assert(Seq::<Seq<char>>::empty().push(name@) =~= seq![name@]);
    }
}

/// `details` are what `operations` come to: the functions they invoke, and the sum
/// of their payments, cut off at the largest `u64`, where there is a payment.
pub open spec fn sums_up(details: DetailsView, operations: Seq<Operation>) -> bool {
    &&& details.function_names == crate::horizon::invocations(operations)
    &&& details.amount_stroops is Some <==> exists|i: int|
        0 <= i < operations.len() && (#[trigger] operations[i]).op_type@ == "payment"@
            && operations[i].stroops is Some
    &&& details.amount_stroops matches Some(amount) ==> amount <= crate::horizon::total_paid(
        operations,
    ) && (amount == crate::horizon::total_paid(operations) || amount == u64::MAX)
}

/// A law: what a transaction's operations are summed up as.
pub proof fn law_details_sum_up(operations: Seq<Operation>)
    ensures
        sums_up(crate::horizon::details_of(operations), operations),
{
    if crate::horizon::pays(operations) {
        let i = choose|i: int| 0 <= i < operations.len() && (#[trigger] operations[i]).paid() is Some;
        assert(operations[i].op_type@ == "payment"@);
    }
    if exists|i: int|
        0 <= i < operations.len() && (#[trigger] operations[i]).op_type@ == "payment"@
            && operations[i].stroops is Some {
        let i = choose|i: int|
            0 <= i < operations.len() && (#[trigger] operations[i]).op_type@ == "payment"@
                && operations[i].stroops is Some;
        assert(operations[i].paid() is Some);
    }
}

/// `evaluation` knows of the record what `answer` says: all that its operations
/// come to, or nothing, and then why.
pub open spec fn told(
    evaluation: EvaluationView,
    answer: Result<Seq<Operation>, FetchFailure>,
) -> bool {
    let progress = evaluation.progress;
    let url = progress.contract.horizon() + ("/transactions/"@
        + progress.records[progress.position as int].hash + "/operations"@);
    match answer {
        Ok(operations) => evaluation.gap is None && sums_up(evaluation.details, operations),
        Err(failure) => {
            &&& evaluation.details.function_names.len() == 0
            &&& evaluation.details.amount_stroops is None
            &&& failure == FetchFailure::Request ==> evaluation.gap == Some(
                PollErrorView::Request { url },
            )
            &&& failure == FetchFailure::Body ==> evaluation.gap == Some(
                PollErrorView::Operations { url },
            )
        },
    }
}

/// A law: the rules are evaluated on the record in hand with all that its
/// operations came to, whatever the operations; or, where they could not be had,
/// without any and with the reason. The poll is where it was.
pub proof fn law_answer_is_told(
    progress: ProgressView,
    answer: Result<Seq<Operation>, FetchFailure>,
)
    ensures
        crate::poll::answered(progress, answer).progress == progress,
        told(crate::poll::answered(progress, answer), answer),
{
    law_requests_name_what_is_asked_for(
        progress.contract.horizon(),
        Seq::empty(),
        Seq::empty(),
        progress.records[progress.position as int].hash,
    );
    if let Ok(operations) = answer {
        law_details_sum_up(operations);
    }
}

/// A law: only a record taken in hand moves a cursor. It moves that of its own
/// contract, to the record, and no other. The evaluation of rules, an alert and the
/// end of a poll leave all cursors where they are.
pub proof fn law_only_a_record_moves_the_cursor(
    cursors: Map<Seq<char>, Seq<char>>,
    progress: ProgressView,
    evaluation: EvaluationView,
    alert: AlertView,
    transactions: nat,
    alerts: nat,
    id: Seq<char>,
)
    ensures
        crate::poll::noted(cursors, StepView::Evaluation(evaluation)) == cursors,
        crate::poll::noted(cursors, StepView::Alert(alert)) == cursors,
        crate::poll::noted(cursors, StepView::Finished { transactions, alerts }) == cursors,
        crate::cursor::cursor_of(
            crate::poll::noted(cursors, StepView::Operations(progress)),
            progress.contract.contract_id@,
        ) == progress.records[progress.position as int].paging_token,
        id != progress.contract.contract_id@ ==> crate::cursor::cursor_of(
            crate::poll::noted(cursors, StepView::Operations(progress)),
            id,
        ) == crate::cursor::cursor_of(cursors, id),
{
}

/// A law: a cursor that has been set is read back as it was set, and one that has
/// not been set stands for the present. A watch begins with a cursor at the present
/// for the contracts it has, and for no other.
pub proof fn law_cursors_read_back(
    cursors: Map<Seq<char>, Seq<char>>,
    contracts: Seq<WatchedContract>,
    id: Seq<char>,
    token: Seq<char>,
)
    ensures
        crate::cursor::cursor_of(cursors.insert(id, token), id) == token,
        crate::cursor::cursor_of(cursors.remove(id), id) == "now"@,
        crate::cursor::cursor_of(crate::cursor::fresh_cursors(contracts), id) == "now"@,
        crate::cursor::fresh_cursors(contracts).contains_key(id) <==> exists|i: int|
            0 <= i < contracts.len() && (#[trigger] contracts[i]).contract_id@ == id,
{
}

/// A law: a poll is about the contract it was begun for, is a dry run if and only
/// if it was begun as one, and asks for what follows the contract's cursor.
pub proof fn law_poll_begins_as_told(
    contract: WatchedContract,
    dry_run: bool,
    cursors: Map<Seq<char>, Seq<char>>,
)
    ensures
        ({
            let page = crate::poll::first_step(contract, dry_run, cursors);
            let id = contract.contract_id@;
            let cursor = if cursors.contains_key(id) {
                cursors[id]
            } else {
                "now"@
            };
            &&& page.contract == contract
            &&& page.dry_run == dry_run
            &&& page.url == contract.horizon() + ("/accounts/"@ + id + "/transactions"@) + (
            "?cursor="@ + cursor + "&order=asc"@ + "&limit=200"@)
        }),
{
    let id = contract.contract_id@;
    law_requests_name_what_is_asked_for(
        contract.horizon(),
        id,
        crate::cursor::cursor_of(cursors, id),
        Seq::empty(),
    );
}

/// A law: a page leads to its first record with nothing counted yet, and an empty
/// page to the end.
pub proof fn law_page_leads_to_its_first_record(page: PageView, records: Seq<RecordView>)
    ensures
        records.len() == 0 ==> crate::poll::arrived(page, records) == (StepView::Finished {
            transactions: 0,
            alerts: 0,
        }),
        records.len() > 0 ==> (crate::poll::arrived(page, records) matches StepView::Operations(
            progress,
        ) && progress.contract == page.contract && progress.dry_run == page.dry_run
            && progress.records == records && progress.position == 0 && progress.transactions == 0
            && progress.alerts == 0),
{
}

/// `step` is where a poll that stood at `before` goes on behind the record in hand,
/// with so many more transactions and alerts counted: at the next record of the
/// same page, in the same run on the same contract, or at the end.
pub open spec fn goes_on(
    before: ProgressView,
    step: StepView,
    transactions: nat,
    alerts: nat,
) -> bool {
    match step {
        StepView::Operations(after) => {
            &&& before.position + 1 < before.records.len()
            &&& after.position == before.position + 1
            &&& after.contract == before.contract
            &&& after.dry_run == before.dry_run
            &&& after.records == before.records
            &&& after.transactions == before.transactions + transactions
            &&& after.alerts == before.alerts + alerts
        },
        StepView::Finished { transactions: all_transactions, alerts: all_alerts } => {
            &&& before.position + 1 >= before.records.len()
            &&& all_transactions == before.transactions + transactions
            &&& all_alerts == before.alerts + alerts
        },
        _ => false,
    }
}

/// A law: an unfit record is passed over and not counted; a record whose rules
/// yield nothing is counted and passed over; any other is counted with all its
/// payloads, and the first of them is to be given, on the same record of the same
/// contract in the same run.
pub proof fn law_evaluation_leads_on(progress: ProgressView, payloads: Option<nat>)
    ensures
        match payloads {
            None => goes_on(progress, crate::poll::evaluated(progress, payloads), 0, 0),
            Some(count) => if count == 0 {
                goes_on(progress, crate::poll::evaluated(progress, payloads), 1, 0)
            } else {
                crate::poll::evaluated(progress, payloads) matches StepView::Alert(alert)
                    && alert.payload == 0 && alert.payloads == count && alert.progress.contract
                    == progress.contract && alert.progress.dry_run == progress.dry_run
                    && alert.progress.records == progress.records && alert.progress.position
                    == progress.position && alert.progress.transactions == progress.transactions + 1
                    && alert.progress.alerts == progress.alerts + count
            },
        },
{
}

/// A law: an alert leads to the next payload of the same record, and the last one
/// to the next record; what is counted stays as it is.
pub proof fn law_alert_leads_on(alert: AlertView)
    ensures
        alert.payload + 1 < alert.payloads ==> (crate::poll::alerted(alert)
            matches StepView::Alert(next) && next.payload == alert.payload + 1 && next.payloads
            == alert.payloads && next.progress == alert.progress),
        alert.payload + 1 >= alert.payloads ==> goes_on(
            alert.progress,
            crate::poll::alerted(alert),
            0,
            0,
        ),
{
}

/// The evaluations that are made on the way.
pub open spec fn evaluations(step: StepView, handlings: Seq<Handling>) -> Seq<EvaluationView>
    decreases handlings.len(),
{
    match step {
        StepView::Operations(progress) => if handlings.len() > 0 {
            seq![crate::poll::answered(progress, handlings[0].answer)] + evaluations(
                dealt_with(progress, handlings[0]),
                handlings.drop_first(),
            )
        } else {
            Seq::empty()
        },
        _ => Seq::empty(),
    }
}

/// The evaluations from some record on.
proof fn lemma_evaluations(progress: ProgressView, handlings: Seq<Handling>)
    requires
        progress.position + handlings.len() == progress.records.len(),
    ensures
        ({
            let made = evaluations(crate::poll::proceed(progress), handlings);
            &&& made.len() == handlings.len()
            &&& forall|i: int|
                0 <= i < made.len() ==> {
                    let here = (#[trigger] made[i]).progress;
                    &&& here.contract == progress.contract
                    &&& here.dry_run == progress.dry_run
                    &&& here.records == progress.records
                    &&& here.position == progress.position + i
                    &&& here.transactions == progress.transactions + fit(handlings.take(i))
                    &&& here.alerts == progress.alerts + fired(handlings.take(i))
                    &&& told(made[i], handlings[i].answer)
                }
        }),
    decreases handlings.len(),
{
    if handlings.len() > 0 {
        let rest = handlings.drop_first();
        let after = match handlings[0].payloads {
            Some(count) => progress.counting(count).next(),
            None => progress.next(),
        };
        let made = evaluations(crate::poll::proceed(progress), handlings);
        let later = evaluations(crate::poll::proceed(after), rest);
        law_record_leads_to_the_next(progress, handlings[0]);
        law_answer_is_told(progress, handlings[0].answer);
        lemma_evaluations(after, rest);
        assert(made =~= seq![crate::poll::answered(progress, handlings[0].answer)] + later);
        assert forall|i: int| 0 <= i < made.len() implies {
            let here = (#[trigger] made[i]).progress;
            &&& here.contract == progress.contract
            &&& here.dry_run == progress.dry_run
            &&& here.records == progress.records
            &&& here.position == progress.position + i
            &&& here.transactions == progress.transactions + fit(handlings.take(i))
            &&& here.alerts == progress.alerts + fired(handlings.take(i))
            &&& told(made[i], handlings[i].answer)
        } by {
            if i == 0 {
                assert(handlings.take(0) =~= Seq::<Handling>::empty());
            } else {
                assert(made[i] == later[i - 1]);
                assert(handlings.take(i).drop_first() =~= rest.take(i - 1));
                assert(handlings.take(i)[0] == handlings[0]);
                assert(rest[i - 1] == handlings[i]);
            }
        }
    }
}

/// A law: a poll from its beginning to its end. Whatever the contract and the
/// cursors, it has the rules evaluated once on each record, in the order of the
/// page and with what the record's operations came to; it asks for those operations
/// record by record; it sends every payload, or none in a dry run; it ends with the
/// records fit for evaluation and the payloads counted. After it the contract is
/// read on behind the last record, however many alerts there were, and every other
/// cursor is where it was.
pub proof fn law_poll_from_beginning_to_end(
    contract: WatchedContract,
    dry_run: bool,
    cursors: Map<Seq<char>, Seq<char>>,
    records: Seq<RecordView>,
    handlings: Seq<Handling>,
    id: Seq<char>,
)
    requires
        handlings.len() == records.len(),
    ensures
        ({
            let step = crate::poll::arrived(
                crate::poll::first_step(contract, dry_run, cursors),
                records,
            );
            let (last, read) = carried_on(step, crate::poll::noted(cursors, step), handlings);
            let made = evaluations(step, handlings);
            &&& made.len() == records.len()
            &&& forall|i: int|
                0 <= i < records.len() ==> {
                    let here = (#[trigger] made[i]).progress;
                    &&& here.contract == contract
                    &&& here.dry_run == dry_run
                    &&& here.records == records
                    &&& here.position == i
                    &&& here.transactions == fit(handlings.take(i))
                    &&& here.alerts == fired(handlings.take(i))
                    &&& told(made[i], handlings[i].answer)
                }
            &&& requested(step, handlings) == Seq::new(
                records.len(),
                |i: int|
                    contract.horizon() + ("/transactions/"@ + records[i].hash + "/operations"@),
            )
            &&& webhooks(step, handlings) == if dry_run {
                Seq::<(RecordView, nat)>::empty()
            } else {
                yielded(records, handlings)
            }
            &&& last == (StepView::Finished {
                transactions: fit(handlings),
                alerts: fired(handlings),
            })
            &&& crate::cursor::cursor_of(read, id) == if id == contract.contract_id@
                && records.len() > 0 {
                records.last().paging_token
            } else {
                crate::cursor::cursor_of(cursors, id)
            }
        }),
{
    let page = crate::poll::first_step(contract, dry_run, cursors);
    let step = crate::poll::arrived(page, records);
    law_poll_deals_with_every_record(page, records, cursors, handlings);
    law_poll_sends_what_fires(page, records, handlings);
    lemma_evaluations(
        ProgressView { contract, dry_run, records, position: 0, transactions: 0, alerts: 0 },
        handlings,
    );
    let urls = Seq::new(
        records.len(),
        |i: int| contract.horizon() + ("/transactions/"@ + records[i].hash + "/operations"@),
    );
    assert forall|i: int| 0 <= i < urls.len() implies #[trigger] requested(step, handlings)[i]
        == urls[i] by {
        law_requests_name_what_is_asked_for(
            contract.horizon(),
            Seq::empty(),
            Seq::empty(),
            records[i].hash,
        );
    }
    assert(requested(step, handlings) =~= urls);
}

/// A law: views leave nothing out. A page is viewed record by record, details name
/// by name with their amount, an error from Horizon with its URL, a parsed webhook
/// URL with its scheme and host, and a step as the step it is.
pub proof fn law_views_leave_nothing_out(
    records: Seq<Record>,
    details: Details,
    error: PollError,
    parsed: Result<UrlParts, String>,
    step: PollStep,
)
    ensures
        crate::horizon::record_views(records).len() == records.len(),
        forall|i: int|
            0 <= i < records.len() ==> (#[trigger] crate::horizon::record_views(records)[i]).hash
                == records[i].hash@ && crate::horizon::record_views(records)[i].paging_token
                == records[i].paging_token@,
        details@.amount_stroops == details.amount_stroops,
        details@.function_names.len() == details.function_names@.len(),
        forall|i: int|
            0 <= i < details.function_names@.len() ==> #[trigger] details@.function_names[i]
                == details.function_names@[i]@,
        match error {
            PollError::Request { url } => error@ == (PollErrorView::Request { url: url@ })
                && error@.text() == "GET "@ + (url@ + " failed"@),
            PollError::Transactions { url } => error@ == (PollErrorView::Transactions { url: url@ })
                && error@.text() == "failed to parse Horizon response"@ + (" from "@ + url@),
            PollError::Operations { url } => error@ == (PollErrorView::Operations { url: url@ })
                && error@.text() == "failed to parse operations"@ + (" from "@ + url@),
        },
        match parsed {
            Ok(parts) => crate::webhook::parse_view(parsed) matches Ok((scheme, has_host))
                && scheme == parts.scheme@ && has_host == parts.has_host,
            Err(reason) => crate::webhook::parse_view(parsed) matches Err(text) && text == reason@,
        },
        match step {
            PollStep::Operations(inner) => step@ == StepView::Operations(inner@),
            PollStep::Evaluation(inner) => step@ == StepView::Evaluation(inner@),
            PollStep::Alert(inner) => step@ == StepView::Alert(inner@),
            PollStep::Finished { transactions, alerts } => step@ matches StepView::Finished {
                transactions: t,
                alerts: a,
            } && t == transactions && a == alerts,
        },
{
    reveal_strlit("failed to parse Horizon response from ");
    reveal_strlit("failed to parse Horizon response");
    reveal_strlit("failed to parse operations from ");
    reveal_strlit("failed to parse operations");
    reveal_strlit(" from ");
    assert("failed to parse Horizon response from "@ =~= "failed to parse Horizon response"@
        + " from "@);
    assert("failed to parse operations from "@ =~= "failed to parse operations"@ + " from "@);
    match error {
        PollError::Request { url } => {
            assert(error@.text() =~= "GET "@ + (url@ + " failed"@));
        },
        PollError::Transactions { url } => {
            assert(error@.text() =~= "failed to parse Horizon response"@ + (" from "@ + url@));
        },
        PollError::Operations { url } => {
            assert(error@.text() =~= "failed to parse operations"@ + (" from "@ + url@));
        },
    }
}

} // verus!

//! The round of polls: whose turn it is, and what has come of the turns so far.

use crate::config::AppConfig;
use crate::horizon::PollError;
use vstd::prelude::*;

verus! {

/// What comes next in a watch.
#[derive(Debug, Clone, Copy, PartialEq, Eq, Structural)]
pub enum Turn {
    /// Poll the contract at this place in the configuration.
    Poll { contract: usize },
    /// Let this time pass; then the next round begins.
    Sleep { seconds: u64 },
}

/// How far a watch has come.
pub struct WatchView {
    /// How many contracts are watched.
    pub contracts: nat,
    /// The pause between two rounds.
    pub interval: u64,
    /// How many contracts have had their turn in this round.
    pub polled: nat,
    /// Transactions processed since the start, modulo two to the 64.
    pub transactions: nat,
    /// Alerts fired since the start, modulo two to the 64.
    pub alerts: nat,
}

/// `total` with `more` added, on a counter of 64 bits that starts over.
pub open spec fn counted(total: nat, more: u64) -> nat {
    ((total + more) % 0x1_0000_0000_0000_0000) as nat
}

impl WatchView {
    /// A watch that begins.
    pub open spec fn fresh(config: AppConfig) -> WatchView {
        WatchView {
            contracts: config.contracts@.len(),
            interval: config.poll_interval_seconds,
            polled: 0,
            transactions: 0,
            alerts: 0,
        }
    }

    /// Whose turn it is.
    pub open spec fn turn(self) -> Turn {
        if self.polled < self.contracts {
            Turn::Poll { contract: self.polled as usize }
        } else {
            Turn::Sleep { seconds: self.interval }
        }
    }

    /// The watch after a poll: a poll that failed counts for nothing, and the
    /// round goes on after it all the same.
    pub open spec fn settled(self, outcome: Option<(u64, u64)>) -> WatchView {
        WatchView {
            polled: if self.polled < self.contracts {
                self.polled + 1
            } else {
                self.polled
            },
            transactions: match outcome {
                Some((transactions, alerts)) => counted(self.transactions, transactions),
                None => self.transactions,
            },
            alerts: match outcome {
                Some((transactions, alerts)) => counted(self.alerts, alerts),
                None => self.alerts,
            },
            ..self
        }
    }

    /// The watch at the start of the next round.
    pub open spec fn woken(self) -> WatchView {
        WatchView { polled: 0, ..self }
    }
}

/// What a poll counts for: transactions and alerts, or nothing where it failed.
pub open spec fn tally(outcome: Result<(u64, u64), PollError>) -> Option<(u64, u64)> {
    match outcome {
        Ok(counts) => Some(counts),
        Err(error) => None,
    }
}

/// Takes the contracts of a configuration in turn, round after round.
pub struct Watcher {
    contracts: usize,
    interval: u64,
    polled: usize,
    transactions: u64,
    alerts: u64,
}

impl View for Watcher {
    type V = WatchView;

    closed spec fn view(&self) -> WatchView {
        WatchView {
            contracts: self.contracts as nat,
            interval: self.interval,
            polled: self.polled as nat,
            transactions: self.transactions as nat,
            alerts: self.alerts as nat,
        }
    }
}

impl Watcher {
    /// Begins a watch.
    pub fn new(config: &AppConfig) -> (watcher: Watcher)
        ensures
            watcher@ == WatchView::fresh(*config),
    {
        Watcher {
            contracts: config.contracts.len(),
            interval: config.poll_interval_seconds,
            polled: 0,
            transactions: 0,
            alerts: 0,
        }
    }

    /// Whose turn it is.
    pub fn turn(&self) -> (turn: Turn)
        ensures
            turn == self@.turn(),
    {
        if self.polled < self.contracts {
            Turn::Poll { contract: self.polled }
        } else {
            Turn::Sleep { seconds: self.interval }
        }
    }

    /// Notes what came of a poll: transactions and alerts, or an error.
    pub fn settle(&mut self, outcome: &Result<(u64, u64), PollError>)
        ensures
            final(self)@ == old(self)@.settled(tally(*outcome)),
    {
        if let Ok((transactions, alerts)) = outcome {
            self.transactions = self.transactions.wrapping_add(*transactions);
            self.alerts = self.alerts.wrapping_add(*alerts);
        }
        if self.polled < self.contracts {
            self.polled = self.polled + 1;
        }
    }

    /// Begins the next round.
    pub fn wake(&mut self)
        ensures
            final(self)@ == old(self)@.woken(),
    {
        self.polled = 0;
    }

    /// Transactions processed since the start.
    pub fn transactions(&self) -> (transactions: u64)
        ensures
            transactions as nat == self@.transactions,
    {
        self.transactions
    }

    /// Alerts fired since the start.
    pub fn alerts(&self) -> (alerts: u64)
        ensures
            alerts as nat == self@.alerts,
    {
        self.alerts
    }
}

/// The watch after polls with `outcomes`.
pub open spec fn settled_all(watch: WatchView, outcomes: Seq<Option<(u64, u64)>>) -> WatchView
    decreases outcomes.len(),
{
    if outcomes.len() == 0 {
        watch
    } else {
        settled_all(watch, outcomes.drop_last()).settled(outcomes.last())
    }
}

/// The sum of what `pick` takes from the outcomes that did not fail.
pub open spec fn sum_of(
    outcomes: Seq<Option<(u64, u64)>>,
    pick: spec_fn((u64, u64)) -> u64,
) -> nat
    decreases outcomes.len(),
{
    if outcomes.len() == 0 {
        0
    } else {
        let before = sum_of(outcomes.drop_last(), pick);
        match outcomes.last() {
            Some(counts) => before + pick(counts) as nat,
            None => before,
        }
    }
}

/// A law: in every round each contract gets its turn, once and in order,
/// whatever came of the polls before it; then comes the pause, and the next round
/// starts over with the first contract.
pub proof fn law_contracts_take_turns(watch: WatchView, outcomes: Seq<Option<(u64, u64)>>)
    requires
        watch.polled == 0,
        outcomes.len() <= watch.contracts <= usize::MAX,
    ensures
        settled_all(watch, outcomes).turn() == if outcomes.len() < watch.contracts {
            Turn::Poll { contract: outcomes.len() as usize }
        } else {
            Turn::Sleep { seconds: watch.interval }
        },
        settled_all(watch, outcomes).woken().turn() == watch.turn(),
{
    lemma_settled_all(watch, outcomes);
}

/// What does not depend on the outcomes.
proof fn lemma_settled_all(watch: WatchView, outcomes: Seq<Option<(u64, u64)>>)
    requires
        watch.polled + outcomes.len() <= watch.contracts,
    ensures
        settled_all(watch, outcomes).polled == watch.polled + outcomes.len(),
        settled_all(watch, outcomes).contracts == watch.contracts,
        settled_all(watch, outcomes).interval == watch.interval,
    decreases outcomes.len(),
{
    if outcomes.len() > 0 {
        lemma_settled_all(watch, outcomes.drop_last());
    }
}

/// A law: the totals are the sums over the polls that did not fail, on counters
/// of 64 bits. A failed poll leaves them as they were.
pub proof fn law_totals_are_sums(watch: WatchView, outcomes: Seq<Option<(u64, u64)>>)
    requires
        watch.transactions == 0,
        watch.alerts == 0,
    ensures
        settled_all(watch, outcomes).transactions == sum_of(
            outcomes,
            |counts: (u64, u64)| counts.0,
        ) % 0x1_0000_0000_0000_0000,
        settled_all(watch, outcomes).alerts == sum_of(outcomes, |counts: (u64, u64)| counts.1)
            % 0x1_0000_0000_0000_0000,
    decreases outcomes.len(),
{
    if outcomes.len() > 0 {
        law_totals_are_sums(watch, outcomes.drop_last());
    }
}

/// What happens in a watch.
pub enum WatchEvent {
    /// A poll has come to its outcome.
    Polled(Result<(u64, u64), PollError>),
    /// The pause is over.
    Woken,
}

/// The watch after `events`.
pub open spec fn after(watch: WatchView, events: Seq<WatchEvent>) -> WatchView
    decreases events.len(),
{
    if events.len() == 0 {
        watch
    } else {
        match events.last() {
            WatchEvent::Polled(outcome) => after(watch, events.drop_last()).settled(tally(outcome)),
            WatchEvent::Woken => after(watch, events.drop_last()).woken(),
        }
    }
}

/// The transactions and the alerts of all polls among `events` that did not fail.
pub open spec fn all_counts(events: Seq<WatchEvent>) -> (nat, nat)
    decreases events.len(),
{
    if events.len() == 0 {
        (0, 0)
    } else {
        let (transactions, alerts) = all_counts(events.drop_last());
        match events.last() {
            WatchEvent::Polled(Ok(counts)) => (
                transactions + counts.0 as nat,
                alerts + counts.1 as nat,
            ),
            _ => (transactions, alerts),
        }
    }
}

/// A law: whatever happens in a watch, its totals are the sums over all polls that
/// did not fail, from the start and over all rounds, on counters of 64 bits.
pub proof fn law_totals_outlast_rounds(config: AppConfig, events: Seq<WatchEvent>)
    ensures
        after(WatchView::fresh(config), events).transactions == all_counts(events).0
            % 0x1_0000_0000_0000_0000,
        after(WatchView::fresh(config), events).alerts == all_counts(events).1
            % 0x1_0000_0000_0000_0000,
    decreases events.len(),
{
    if events.len() > 0 {
        law_totals_outlast_rounds(config, events.drop_last());
    }
}

/// What does not depend on what happens.
proof fn lemma_after(config: AppConfig, events: Seq<WatchEvent>)
    ensures
        after(WatchView::fresh(config), events).contracts == config.contracts@.len(),
        after(WatchView::fresh(config), events).interval == config.poll_interval_seconds,
    decreases events.len(),
{
    if events.len() > 0 {
        lemma_after(config, events.drop_last());
    }
}

/// A law: a watch of a configuration polls every contract of it, however many
/// there are: the first, then one after the other to the last, whatever came of
/// each; and then lets the configured interval pass. It does so in the first round,
/// and again in every round that begins after whatever has happened.
pub proof fn law_every_round_takes_every_contract(
    config: AppConfig,
    events: Seq<WatchEvent>,
    outcomes: Seq<Option<(u64, u64)>>,
)
    requires
        outcomes.len() <= config.contracts@.len(),
    ensures
        ({
            let first = settled_all(WatchView::fresh(config), outcomes).turn();
            let later = settled_all(
                after(WatchView::fresh(config), events).woken(),
                outcomes,
            ).turn();
            &&& first == later
            &&& outcomes.len() < config.contracts@.len() ==> (first matches Turn::Poll { contract }
                && contract == outcomes.len())
            &&& outcomes.len() == config.contracts@.len() ==> first == (Turn::Sleep {
                seconds: config.poll_interval_seconds,
            })
        }),
{
    assert(config.contracts@.len() == config.contracts.len());
    lemma_after(config, events);
    lemma_settled_all(WatchView::fresh(config), outcomes);
    lemma_settled_all(after(WatchView::fresh(config), events).woken(), outcomes);
}

/// A law: once every contract has had its turn, only waking begins another round.
/// Until then the interval is what comes next, whatever else is settled.
pub proof fn law_only_waking_begins_a_round(
    config: AppConfig,
    events: Seq<WatchEvent>,
    outcomes: Seq<Option<(u64, u64)>>,
)
    requires
        outcomes.len() >= config.contracts@.len(),
    ensures
        settled_all(after(WatchView::fresh(config), events).woken(), outcomes).turn()
            == (Turn::Sleep { seconds: config.poll_interval_seconds }),
    decreases outcomes.len(),
{
    if outcomes.len() == config.contracts@.len() {
        law_every_round_takes_every_contract(config, events, outcomes);
    } else {
        law_only_waking_begins_a_round(config, events, outcomes.drop_last());
    }
}

} // verus!

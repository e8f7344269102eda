//! One poll of one contract, as a chain of steps.
//!
//! Each step says what is to be done outside: a page of transactions to fetch,
//! the operations of a transaction to fetch, rules to evaluate, an alert to give.
//! It takes what came of that and yields the next step. Nothing that comes of a
//! single transaction ends the poll.

use crate::contract::WatchedContract;
use crate::cursor::Cursors;
use crate::horizon::{
    operations_url_text, soroban_details, transactions_url_text, Details, DetailsView,
    FetchFailure, Operation, PollError, PollErrorView, Record, RecordView,
};
use crate::rule::AlertRule;
use vstd::prelude::*;

verus! {

/// How far a poll has come.
pub struct ProgressView {
    pub contract: WatchedContract,
    pub dry_run: bool,
    pub records: Seq<RecordView>,
    /// The record in hand.
    pub position: nat,
    /// Transactions processed so far.
    pub transactions: nat,
    /// Alerts fired so far.
    pub alerts: nat,
}

/// The step that fetches a page of transactions.
pub struct PageView {
    pub contract: WatchedContract,
    pub dry_run: bool,
    pub url: Seq<char>,
}

/// The step that evaluates the rules on the record in hand.
pub struct EvaluationView {
    pub progress: ProgressView,
    pub details: DetailsView,
    /// Why there are no details, where they could not be had.
    pub gap: Option<PollErrorView>,
}

/// The step that gives an alert on the record in hand.
pub struct AlertView {
    pub progress: ProgressView,
    /// How many payloads the rules have yielded.
    pub payloads: nat,
    /// The payload in hand.
    pub payload: nat,
}

/// A step after the page has arrived.
pub enum StepView {
    Operations(ProgressView),
    Evaluation(EvaluationView),
    Alert(AlertView),
    Finished { transactions: nat, alerts: nat },
}

impl ProgressView {
    /// On to the next record.
    pub open spec fn next(self) -> ProgressView {
        ProgressView { position: self.position + 1, ..self }
    }

    /// The record in hand has been processed, and its rules have yielded
    /// `payloads` payloads.
    pub open spec fn counting(self, payloads: nat) -> ProgressView {
        ProgressView {
            transactions: self.transactions + 1,
            alerts: self.alerts + payloads,
            ..self
        }
    }

    /// Where the operations of the record in hand are.
    pub open spec fn url(self) -> Seq<char> {
        crate::horizon::operations_url(
            self.contract.horizon(),
            self.records[self.position as int].hash,
        )
    }
}

/// The step that takes the record in hand, or the end, where no record is left.
pub open spec fn proceed(progress: ProgressView) -> StepView {
    if progress.position < progress.records.len() {
        StepView::Operations(progress)
    } else {
        StepView::Finished { transactions: progress.transactions, alerts: progress.alerts }
    }
}

/// The step that a poll of `contract` begins with.
pub open spec fn first_step(
    contract: WatchedContract,
    dry_run: bool,
    cursors: Map<Seq<char>, Seq<char>>,
) -> PageView {
    PageView {
        contract,
        dry_run,
        url: crate::horizon::transactions_url(
            contract.horizon(),
            contract.contract_id@,
            crate::cursor::cursor_of(cursors, contract.contract_id@),
        ),
    }
}

/// The step after a page with `records`.
pub open spec fn arrived(page: PageView, records: Seq<RecordView>) -> StepView {
    proceed(
        ProgressView {
            contract: page.contract,
            dry_run: page.dry_run,
            records,
            position: 0,
            transactions: 0,
            alerts: 0,
        },
    )
}

/// The step after `answer` to the request for operations: where the operations
/// could not be had, the rules are evaluated without them.
pub open spec fn answered(
    progress: ProgressView,
    answer: Result<Seq<Operation>, FetchFailure>,
) -> EvaluationView {
    match answer {
        Ok(operations) => EvaluationView {
            progress,
            details: crate::horizon::details_of(operations),
            gap: None,
        },
        Err(FetchFailure::Request) => EvaluationView {
            progress,
            details: crate::horizon::no_details(),
            gap: Some(PollErrorView::Request { url: progress.url() }),
        },
        Err(FetchFailure::Body) => EvaluationView {
            progress,
            details: crate::horizon::no_details(),
            gap: Some(PollErrorView::Operations { url: progress.url() }),
        },
    }
}

/// The step after the rules have yielded `payloads` payloads, or after the
/// transaction turned out unfit for evaluation: then it is skipped.
pub open spec fn evaluated(progress: ProgressView, payloads: Option<nat>) -> StepView {
    match payloads {
        None => proceed(progress.next()),
        Some(count) => if count == 0 {
            proceed(progress.counting(0).next())
        } else {
            StepView::Alert(
                AlertView { progress: progress.counting(count), payloads: count, payload: 0 },
            )
        },
    }
}

/// The step after an alert was given, whether it got through or not.
pub open spec fn alerted(alert: AlertView) -> StepView {
    if alert.payload + 1 < alert.payloads {
        StepView::Alert(AlertView { payload: alert.payload + 1, ..alert })
    } else {
        proceed(alert.progress.next())
    }
}

/// The cursors once `step` has been reached: a record that is taken in hand
/// counts as read.
pub open spec fn noted(cursors: Map<Seq<char>, Seq<char>>, step: StepView) -> Map<
    Seq<char>,
    Seq<char>,
> {
    match step {
        StepView::Operations(progress) => cursors.insert(
            progress.contract.contract_id@,
            progress.records[progress.position as int].paging_token,
        ),
        _ => cursors,
    }
}

/// How far a poll has come.
struct Progress<'a> {
    contract: &'a WatchedContract,
    dry_run: bool,
    records: Vec<Record>,
    position: usize,
    transactions: u64,
    alerts: u64,
}

impl<'a> Progress<'a> {
    spec fn to_view(self) -> ProgressView {
        ProgressView {
            contract: *self.contract,
            dry_run: self.dry_run,
            records: crate::horizon::record_views(self.records@),
            position: self.position as nat,
            transactions: self.transactions as nat,
            alerts: self.alerts as nat,
        }
    }

    /// Takes the record at `position` in hand, or ends the poll.
    fn proceed(self, cursors: &mut Cursors) -> (step: PollStep<'a>)
        requires
            self.position <= self.records.len(),
            self.transactions <= self.position,
        ensures
            step@ == proceed(self.to_view()),
            final(cursors)@ == noted(old(cursors)@, step@),
    {
        if self.position < self.records.len() {
            let record = &self.records[self.position];
            cursors.advance(self.contract.contract_id.as_str(), record.paging_token.as_str());
            let url = operations_url_text(self.contract.horizon_base_url(), record.hash.as_str());
            PollStep::Operations(OperationsStep { progress: self, url })
        } else {
            PollStep::Finished { transactions: self.transactions, alerts: self.alerts }
        }
    }
}

/// Fetch a page of transactions.
pub struct PageStep<'a> {
    contract: &'a WatchedContract,
    dry_run: bool,
    url: String,
}

/// Fetch the operations of the record in hand.
pub struct OperationsStep<'a> {
    progress: Progress<'a>,
    url: String,
}

/// Evaluate the rules on the record in hand.
pub struct EvaluationStep<'a> {
    progress: Progress<'a>,
    details: Details,
    gap: Option<PollError>,
}

/// Give an alert on the record in hand.
pub struct AlertStep<'a> {
    progress: Progress<'a>,
    payloads: usize,
    payload: usize,
}

/// A step after the page has arrived.
pub enum PollStep<'a> {
    Operations(OperationsStep<'a>),
    Evaluation(EvaluationStep<'a>),
    Alert(AlertStep<'a>),
    Finished { transactions: u64, alerts: u64 },
}

impl<'a> View for PageStep<'a> {
    type V = PageView;

    closed spec fn view(&self) -> PageView {
        PageView { contract: *self.contract, dry_run: self.dry_run, url: self.url@ }
    }
}

impl<'a> View for OperationsStep<'a> {
    type V = ProgressView;

    closed spec fn view(&self) -> ProgressView {
        self.progress.to_view()
    }
}

impl<'a> View for EvaluationStep<'a> {
    type V = EvaluationView;

    closed spec fn view(&self) -> EvaluationView {
        EvaluationView {
            progress: self.progress.to_view(),
            details: self.details@,
            gap: match self.gap {
                Some(error) => Some(error@),
                None => None,
            },
        }
    }
}

impl<'a> View for AlertStep<'a> {
    type V = AlertView;

    closed spec fn view(&self) -> AlertView {
        AlertView {
            progress: self.progress.to_view(),
            payloads: self.payloads as nat,
            payload: self.payload as nat,
        }
    }
}

impl<'a> View for PollStep<'a> {
    type V = StepView;

    open spec fn view(&self) -> StepView {
        match *self {
            PollStep::Operations(step) => StepView::Operations(step@),
            PollStep::Evaluation(step) => StepView::Evaluation(step@),
            PollStep::Alert(step) => StepView::Alert(step@),
            PollStep::Finished { transactions, alerts } => StepView::Finished {
                transactions: transactions as nat,
                alerts: alerts as nat,
            },
        }
    }
}

impl<'a> PageStep<'a> {
    /// Begins a poll of `contract`, which reads on from the contract's cursor. In
    /// a dry run no webhook is sent.
    pub fn start(contract: &'a WatchedContract, dry_run: bool, cursors: &Cursors) -> (step: PageStep<
        'a,
    >)
        ensures
            step@ == first_step(*contract, dry_run, cursors@),
    {
        let cursor = cursors.get(contract.contract_id.as_str());
        let url = transactions_url_text(
            contract.horizon_base_url(),
            contract.contract_id.as_str(),
            cursor.as_str(),
        );
        PageStep { contract, dry_run, url }
    }

    /// Where the page is.
    pub fn url(&self) -> (url: &str)
        ensures
            url@ == self@.url,
    {
        self.url.as_str()
    }

    /// Takes the page that came, if one came.
    pub fn arrived(
        self,
        answer: Result<Vec<Record>, FetchFailure>,
        cursors: &mut Cursors,
    ) -> (outcome: Result<PollStep<'a>, PollError>)
        ensures
            match answer {
                Ok(records) => outcome matches Ok(step) && step@ == arrived(
                    self@,
                    crate::horizon::record_views(records@),
                ) && final(cursors)@ == noted(old(cursors)@, step@),
                Err(FetchFailure::Request) => outcome matches Err(error) && error@ == (
                PollErrorView::Request { url: self@.url }) && final(cursors)@ == old(cursors)@,
                Err(FetchFailure::Body) => outcome matches Err(error) && error@ == (
                PollErrorView::Transactions { url: self@.url }) && final(cursors)@ == old(
                    cursors,
                )@,
            },
    {
        match answer {
            Ok(records) => {
                let progress = Progress {
                    contract: self.contract,
                    dry_run: self.dry_run,
                    records,
                    position: 0,
                    transactions: 0,
                    alerts: 0,
                };
                Ok(progress.proceed(cursors))
            },
            Err(FetchFailure::Request) => Err(PollError::Request { url: self.url }),
            Err(FetchFailure::Body) => Err(PollError::Transactions { url: self.url }),
        }
    }
}

impl<'a> OperationsStep<'a> {
    #[verifier::type_invariant]
    spec fn well_formed(self) -> bool {
        &&& self.progress.position < self.progress.records.len()
        &&& self.progress.transactions <= self.progress.position
        &&& self.url@ == self.progress.to_view().url()
    }

    /// Which record of the page is in hand.
    pub fn record(&self) -> (position: usize)
        ensures
            position as nat == self@.position,
            position < self@.records.len(),
    {
        proof {
            use_type_invariant(self);
        }
        self.progress.position
    }

    /// Where the operations are.
    pub fn url(&self) -> (url: &str)
        ensures
            url@ == self@.url(),
    {
        proof {
            use_type_invariant(self);
        }
        self.url.as_str()
    }

    /// Takes the operations that came, if they came.
    pub fn answered(self, answer: Result<Vec<Operation>, FetchFailure>) -> (step: EvaluationStep<
        'a,
    >)
        ensures
            step@ == answered(
                self@,
                match answer {
                    Ok(operations) => Ok(operations@),
                    Err(failure) => Err(failure),
                },
            ),
    {
        proof {
            use_type_invariant(&self);
        }
        match soroban_details(self.url.as_str(), &answer) {
            Ok(details) => EvaluationStep { progress: self.progress, details, gap: None },
            Err(error) => {
                let details = Details { function_names: Vec::new(), amount_stroops: None };
                assert(details@.function_names =~= crate::horizon::no_details().function_names);
                EvaluationStep { progress: self.progress, details, gap: Some(error) }
            },
        }
    }
}

/// What the rules are evaluated on.
pub struct EvaluationRequest<'s> {
    pub label: &'s str,
    pub contract_id: &'s str,
    pub network: &'static str,
    pub horizon_base_url: &'s str,
    pub explorer_base_url: &'static str,
    pub rules: &'s Vec<AlertRule>,
    /// Which record of the page is in hand.
    pub record: usize,
    pub details: &'s Details,
}

impl<'a> EvaluationStep<'a> {
    #[verifier::type_invariant]
    spec fn well_formed(self) -> bool {
        &&& self.progress.position < self.progress.records.len()
        &&& self.progress.transactions <= self.progress.position
    }

    /// What to evaluate, and on what.
    pub fn request(&self) -> (request: EvaluationRequest<'_>)
        ensures
            request.label@ == self@.progress.contract.label@,
            request.contract_id@ == self@.progress.contract.contract_id@,
            request.network@ == self@.progress.contract.network.name(),
            request.horizon_base_url@ == self@.progress.contract.horizon(),
            request.explorer_base_url@ == self@.progress.contract.network.explorer(),
            *request.rules == self@.progress.contract.rules,
            request.record as nat == self@.progress.position,
            request.record < self@.progress.records.len(),
            request.details@ == self@.details,
    {
        proof {
            use_type_invariant(self);
        }
        let contract = self.progress.contract;
        EvaluationRequest {
            label: contract.label.as_str(),
            contract_id: contract.contract_id.as_str(),
            network: contract.network.as_str(),
            horizon_base_url: contract.horizon_base_url(),
            explorer_base_url: contract.network.explorer_base_url(),
            rules: &contract.rules,
            record: self.progress.position,
            details: &self.details,
        }
    }

    /// Why there are no details, where they could not be had.
    pub fn gap(&self) -> (gap: Option<&PollError>)
        ensures
            match gap {
                Some(error) => self@.gap == Some(error@),
                None => self@.gap is None,
            },
    {
        match &self.gap {
            Some(error) => Some(error),
            None => None,
        }
    }

    /// The alerts fired before this step.
    pub fn alerts(&self) -> (alerts: u64)
        ensures
            alerts as nat == self@.progress.alerts,
    {
        self.progress.alerts
    }

    /// Takes the number of payloads that the rules have yielded, or `None` where
    /// the transaction turned out unfit for evaluation.
    pub fn evaluated(self, payloads: Option<usize>, cursors: &mut Cursors) -> (step: PollStep<'a>)
        requires
            payloads matches Some(count) ==> self@.progress.alerts + count <= u64::MAX,
        ensures
            step@ == evaluated(
                self@.progress,
                match payloads {
                    Some(count) => Some(count as nat),
                    None => None,
                },
            ),
            final(cursors)@ == noted(old(cursors)@, step@),
    {
        proof {
            use_type_invariant(&self);
        }
        let mut progress = self.progress;
        match payloads {
            None => {
                progress.position = progress.position + 1;
                progress.proceed(cursors)
            },
            Some(count) => {
                progress.transactions = progress.transactions + 1;
                progress.alerts = progress.alerts + count as u64;
                if count == 0 {
                    progress.position = progress.position + 1;
                    progress.proceed(cursors)
                } else {
                    PollStep::Alert(AlertStep { progress, payloads: count, payload: 0 })
                }
            },
        }
    }
}

/// Where an alert is sent.
pub struct Delivery<'s> {
    pub webhook_url: &'s str,
    pub webhook_secret: Option<&'s str>,
}

impl<'a> AlertStep<'a> {
    #[verifier::type_invariant]
    spec fn well_formed(self) -> bool {
        &&& self.progress.position < self.progress.records.len()
        &&& self.progress.transactions <= self.progress.position + 1
        &&& self.payload < self.payloads
    }

    /// Which of the payloads is in hand.
    pub fn payload(&self) -> (payload: usize)
        ensures
            payload as nat == self@.payload,
            payload < self@.payloads,
    {
        proof {
            use_type_invariant(self);
        }
        self.payload
    }

    /// Where to send the payload; nowhere in a dry run.
    pub fn delivery(&self) -> (delivery: Option<Delivery<'_>>)
        ensures
            match delivery {
                Some(delivery) => {
                    &&& !self@.progress.dry_run
                    &&& delivery.webhook_url@ == self@.progress.contract.webhook_url@
                    &&& match (delivery.webhook_secret, self@.progress.contract.webhook_secret) {
                        (Some(sent), Some(secret)) => sent@ == secret@,
                        (None, None) => true,
                        _ => false,
                    }
                },
                None => self@.progress.dry_run,
            },
    {
        if self.progress.dry_run {
            return None;
        }
        let webhook_secret: Option<&str> = match &self.progress.contract.webhook_secret {
            Some(secret) => Some(secret.as_str()),
            None => None,
        };
        Some(Delivery { webhook_url: self.progress.contract.webhook_url.as_str(), webhook_secret })
    }

    /// Goes on after the alert, whether it got through or not.
    pub fn alerted(self, cursors: &mut Cursors) -> (step: PollStep<'a>)
        ensures
            step@ == alerted(self@),
            final(cursors)@ == noted(old(cursors)@, step@),
    {
        proof {
            use_type_invariant(&self);
        }
        if self.payload + 1 < self.payloads {
            PollStep::Alert(
                AlertStep {
                    progress: self.progress,
                    payloads: self.payloads,
                    payload: self.payload + 1,
                },
            )
        } else {
            let mut progress = self.progress;
            progress.position = progress.position + 1;
            progress.proceed(cursors)
        }
    }
}

} // verus!

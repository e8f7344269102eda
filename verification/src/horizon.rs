//! What is asked of Horizon, and what its answers come to.

use crate::text::same_text;
use vstd::prelude::*;
use vstd::string::*;

verus! {

/// A transaction of a page, as far as polling reads it.
#[derive(Debug)]
pub struct Record {
    pub hash: String,
    pub paging_token: String,
}

/// A `Record` with its strings as character sequences.
pub struct RecordView {
    pub hash: Seq<char>,
    pub paging_token: Seq<char>,
}

impl View for Record {
    type V = RecordView;

    open spec fn view(&self) -> RecordView {
        RecordView { hash: self.hash@, paging_token: self.paging_token@ }
    }
}

/// The views of several records.
pub open spec fn record_views(records: Seq<Record>) -> Seq<RecordView> {
    Seq::new(records.len(), |i: int| records[i]@)
}

/// An operation of a transaction, as far as Soroban details are read from it.
#[derive(Debug)]
pub struct Operation {
    pub op_type: String,
    /// Present on `invoke_host_function` operations.
    pub function: Option<String>,
    /// The amount in stroops, where the operation has an amount that reads as a
    /// number.
    pub stroops: Option<u64>,
}

/// What the operations of a transaction come to.
#[derive(Debug)]
pub struct Details {
    /// Each function that was invoked, in order.
    pub function_names: Vec<String>,
    /// What was paid in all, where anything was.
    pub amount_stroops: Option<u64>,
}

/// `Details` with strings as character sequences.
pub struct DetailsView {
    pub function_names: Seq<Seq<char>>,
    pub amount_stroops: Option<u64>,
}

impl View for Details {
    type V = DetailsView;

    open spec fn view(&self) -> DetailsView {
        DetailsView {
            function_names: Seq::new(
                self.function_names@.len(),
                |i: int| self.function_names@[i]@,
            ),
            amount_stroops: self.amount_stroops,
        }
    }
}

/// How a request to Horizon failed.
#[derive(Debug, Clone, Copy, PartialEq, Eq, Structural)]
pub enum FetchFailure {
    /// No answer came.
    Request,
    /// The answer could not be read.
    Body,
}

/// Why something could not be had from Horizon.
#[derive(Debug)]
pub enum PollError {
    /// The request for `url` failed.
    Request { url: String },
    /// The answer from `url` is no page of transactions.
    Transactions { url: String },
    /// The answer from `url` is no page of operations.
    Operations { url: String },
}

/// A `PollError` with its URL as a character sequence.
pub enum PollErrorView {
    Request { url: Seq<char> },
    Transactions { url: Seq<char> },
    Operations { url: Seq<char> },
}

impl View for PollError {
    type V = PollErrorView;

    open spec fn view(&self) -> PollErrorView {
        match *self {
            PollError::Request { url } => PollErrorView::Request { url: url@ },
            PollError::Transactions { url } => PollErrorView::Transactions { url: url@ },
            PollError::Operations { url } => PollErrorView::Operations { url: url@ },
        }
    }
}

impl PollErrorView {
    /// The error in words.
    pub open spec fn text(self) -> Seq<char> {
        match self {
            PollErrorView::Request { url } => "GET "@ + url + " failed"@,
            PollErrorView::Transactions { url } => "failed to parse Horizon response from "@ + url,
            PollErrorView::Operations { url } => "failed to parse operations from "@ + url,
        }
    }
}

impl PollError {
    /// The error in words.
    pub fn message(&self) -> (message: String)
        ensures
            message@ == self@.text(),
    {
        match self {
            PollError::Request { url } => {
                let mut message = "GET ".to_owned();
                message.append(url.as_str());
                message.append(" failed");
                message
            },
            PollError::Transactions { url } => {
                let mut message = "failed to parse Horizon response from ".to_owned();
                message.append(url.as_str());
                message
            },
            PollError::Operations { url } => {
                let mut message = "failed to parse operations from ".to_owned();
                message.append(url.as_str());
                message
            },
        }
    }
}

/// Where the transactions of an account after `cursor` are, oldest first.
pub open spec fn transactions_url(base: Seq<char>, account: Seq<char>, cursor: Seq<char>) -> Seq<
    char,
> {
    base + "/accounts/"@ + account + "/transactions?cursor="@ + cursor + "&order=asc&limit=200"@
}

/// Where the operations of a transaction are.
pub open spec fn operations_url(base: Seq<char>, hash: Seq<char>) -> Seq<char> {
    base + "/transactions/"@ + hash + "/operations"@
}

/// `transactions_url`, executable.
pub fn transactions_url_text(base: &str, account: &str, cursor: &str) -> (url: String)
    ensures
        url@ == transactions_url(base@, account@, cursor@),
{
    let mut url = base.to_owned();
    url.append("/accounts/");
    url.append(account);
    url.append("/transactions?cursor=");
    url.append(cursor);
    url.append("&order=asc&limit=200");
    url
}

/// `operations_url`, executable.
pub fn operations_url_text(base: &str, hash: &str) -> (url: String)
    ensures
        url@ == operations_url(base@, hash@),
{
    let mut url = base.to_owned();
    url.append("/transactions/");
    url.append(hash);
    url.append("/operations");
    url
}

impl Operation {
    /// The function that the operation invokes, where it names one.
    pub open spec fn invoked(self) -> Option<Seq<char>> {
        match self.function {
            Some(name) => if self.op_type@ == "invoke_host_function"@ {
                Some(name@)
            } else {
                None
            },
            None => None,
        }
    }

    /// What the operation pays, where it is a payment with an amount.
    pub open spec fn paid(self) -> Option<u64> {
        if self.op_type@ == "payment"@ {
            self.stroops
        } else {
            None
        }
    }
}

/// The functions that `operations` invoke, in order.
pub open spec fn invocations(operations: Seq<Operation>) -> Seq<Seq<char>>
    decreases operations.len(),
{
    if operations.len() == 0 {
        Seq::empty()
    } else {
        let before = invocations(operations.drop_last());
        match operations.last().invoked() {
            Some(name) => before.push(name),
            None => before,
        }
    }
}

/// The sum of what `operations` pay.
pub open spec fn total_paid(operations: Seq<Operation>) -> nat
    decreases operations.len(),
{
    if operations.len() == 0 {
        0
    } else {
        let before = total_paid(operations.drop_last());
        match operations.last().paid() {
            Some(stroops) => before + stroops as nat,
            None => before,
        }
    }
}

/// A payment is among `operations`.
pub open spec fn pays(operations: Seq<Operation>) -> bool {
    exists|i: int| 0 <= i < operations.len() && (#[trigger] operations[i]).paid() is Some
}

/// What `operations` come to: every invoked function, and the sum of all
/// payments, cut off at the largest `u64`.
pub open spec fn details_of(operations: Seq<Operation>) -> DetailsView {
    DetailsView {
        function_names: invocations(operations),
        amount_stroops: if !pays(operations) {
            None
        } else if total_paid(operations) > u64::MAX {
            Some(u64::MAX)
        } else {
            Some(total_paid(operations) as u64)
        },
    }
}

/// What is known of a transaction whose operations could not be had.
pub open spec fn no_details() -> DetailsView {
    DetailsView { function_names: Seq::empty(), amount_stroops: None }
}

/// Sums up the operations of a transaction.
pub fn summarize(operations: &Vec<Operation>) -> (details: Details)
    ensures
        details@ == details_of(operations@),
{
    let mut function_names: Vec<String> = Vec::new();
    let mut total_stroops: u64 = 0;
    let mut has_payment: bool = false;
    let ghost mut names: Seq<Seq<char>> = Seq::empty();
    let mut i: usize = 0;
    while i < operations.len()
        invariant
            i <= operations.len(),
            names == invocations(operations@.take(i as int)),
            names.len() == function_names@.len(),
            forall|j: int| 0 <= j < names.len() ==> #[trigger] names[j] == function_names@[j]@,
            total_stroops as nat == if total_paid(operations@.take(i as int)) > u64::MAX {
                u64::MAX as nat
            } else {
                total_paid(operations@.take(i as int))
            },
            has_payment == pays(operations@.take(i as int)),
        decreases operations.len() - i,
    {
        let operation = &operations[i];
        let ghost before = operations@.take(i as int);
        let ghost after = operations@.take(i + 1);
        assert(after.drop_last() =~= before);
        assert(after.last() == *operation);
        if same_text(operation.op_type.as_str(), "invoke_host_function") {
            if let Some(name) = &operation.function {
                function_names.push(name.clone());
                proof {
                    names = names.push(name@);
                }
            }
        }
        proof {
            assert forall|j: int| 0 <= j < before.len() implies before[j] == after[j] by {}
            if pays(before) {
                let j = choose|j: int| 0 <= j < before.len() && (#[trigger] before[j]).paid() is Some;
                assert(after[j].paid() is Some);
            }
            if pays(after) && !pays(before) {
                let j = choose|j: int| 0 <= j < after.len() && (#[trigger] after[j]).paid() is Some;
                assert(j == i || before[j].paid() is Some);
            }
        }
        if same_text(operation.op_type.as_str(), "payment") {
            if let Some(stroops) = operation.stroops {
                total_stroops = total_stroops.saturating_add(stroops);
                has_payment = true;
                assert(after[i as int].paid() is Some);
            }
        }
        i += 1;
    }
    assert(operations@.take(i as int) =~= operations@);
    let amount_stroops: Option<u64> = if has_payment {
        Some(total_stroops)
    } else {
        None
    };
    let details = Details { function_names, amount_stroops };
    assert(details@.function_names =~= names);
    details
}

/// Turns the answer from `url` into the details of a transaction.
pub fn soroban_details(url: &str, answer: &Result<Vec<Operation>, FetchFailure>) -> (outcome: Result<
    Details,
    PollError,
>)
    ensures
        match *answer {
            Ok(operations) => outcome matches Ok(details) && details@ == details_of(operations@),
            Err(FetchFailure::Request) => outcome matches Err(error) && error@
                == (PollErrorView::Request { url: url@ }),
            Err(FetchFailure::Body) => outcome matches Err(error) && error@
                == (PollErrorView::Operations { url: url@ }),
        },
{
    match answer {
        Ok(operations) => Ok(summarize(operations)),
        Err(FetchFailure::Request) => Err(PollError::Request { url: url.to_owned() }),
        Err(FetchFailure::Body) => Err(PollError::Operations { url: url.to_owned() }),
    }
}

} // verus!

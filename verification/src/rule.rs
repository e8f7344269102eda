//! Alert rules.

use crate::error::{ConfigError, ConfigErrorView, RuleFault};
use crate::text::is_blank;
use vstd::prelude::*;

verus! {

/// When to alert about a transaction.
#[derive(Debug, Clone)]
pub enum AlertRule {
    AnyTransaction,
    TransactionFailed,
    LargeTransfer { threshold_xlm: u64 },
    FunctionCalled { function_name: String },
    AdminFunctionCalled { function_names: Vec<String> },
    /// Fires when the transaction's fee (in stroops) exceeds the threshold.
    HighFee { threshold_stroops: u64 },
}

/// A blank name is among `names`.
pub open spec fn has_blank(names: Seq<String>) -> bool {
    exists|i: int| 0 <= i < names.len() && crate::text::blank(#[trigger] names[i]@)
}

impl AlertRule {
    /// What is wrong with the rule, if anything.
    pub open spec fn fault(self) -> Option<RuleFault> {
        match self {
            AlertRule::AnyTransaction | AlertRule::TransactionFailed => None,
            AlertRule::LargeTransfer { threshold_xlm } => if threshold_xlm == 0 {
                Some(RuleFault::ZeroTransferThreshold)
            } else {
                None
            },
            AlertRule::FunctionCalled { function_name } => if crate::text::blank(function_name@) {
                Some(RuleFault::EmptyFunctionName)
            } else {
                None
            },
            AlertRule::AdminFunctionCalled { function_names } => if function_names@.len() == 0 {
                Some(RuleFault::NoFunctionNames)
            } else if has_blank(function_names@) {
                Some(RuleFault::BlankFunctionName)
            } else {
                None
            },
            AlertRule::HighFee { threshold_stroops } => if threshold_stroops == 0 {
                Some(RuleFault::ZeroFeeThreshold)
            } else {
                None
            },
        }
    }

    /// The complaint about the rule, if any, in a contract labelled `label`.
    pub open spec fn complaint(self, label: Seq<char>) -> Option<ConfigErrorView> {
        match self.fault() {
            Some(fault) => Some(ConfigErrorView::InvalidRule { label, fault }),
            None => None,
        }
    }

    /// Refuses a rule that could never fire as meant: a threshold of zero, or a
    /// missing or blank function name.
    pub fn validate(&self, contract_label: &str) -> (outcome: Result<(), ConfigError>)
        ensures
            match self.complaint(contract_label@) {
                Some(complaint) => outcome matches Err(error) && error@ == complaint,
                None => outcome is Ok,
            },
    {
        let fault: Option<RuleFault> = match self {
            AlertRule::LargeTransfer { threshold_xlm } => {
                if *threshold_xlm == 0 {
                    Some(RuleFault::ZeroTransferThreshold)
                } else {
                    None
                }
            },
            AlertRule::FunctionCalled { function_name } => {
                if is_blank(function_name.as_str()) {
                    Some(RuleFault::EmptyFunctionName)
                } else {
                    None
                }
            },
            AlertRule::AdminFunctionCalled { function_names } => {
                if function_names.is_empty() {
                    Some(RuleFault::NoFunctionNames)
                } else if any_blank(function_names) {
                    Some(RuleFault::BlankFunctionName)
                } else {
                    None
                }
            },
            AlertRule::AnyTransaction | AlertRule::TransactionFailed => None,
            AlertRule::HighFee { threshold_stroops } => {
                if *threshold_stroops == 0 {
                    Some(RuleFault::ZeroFeeThreshold)
                } else {
                    None
                }
            },
        };
        match fault {
            Some(fault) => Err(ConfigError::InvalidRule { label: contract_label.to_owned(), fault }),
            None => Ok(()),
        }
    }
}

/// Whether a blank name is among `names`.
fn any_blank(names: &Vec<String>) -> (yes: bool)
    ensures
        yes == has_blank(names@),
{
    let mut i: usize = 0;
    while i < names.len()
        invariant
            i <= names.len(),
            forall|j: int| 0 <= j < i ==> !crate::text::blank(#[trigger] names@[j]@),
        decreases names.len() - i,
    {
        if is_blank(names[i].as_str()) {
            assert(crate::text::blank(names@[i as int]@));
            return true;
        }
        i += 1;
    }
    false
}

} // verus!

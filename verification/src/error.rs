//! What can be wrong with a configuration.

use crate::config::MAX_CONTRACTS;
use crate::text::decimal_text;
use vstd::prelude::*;
use vstd::string::*;

verus! {

/// What is wrong with an alert rule.
#[derive(Debug, Clone, Copy, PartialEq, Eq, Structural)]
pub enum RuleFault {
    /// `LargeTransfer` with a threshold of zero.
    ZeroTransferThreshold,
    /// `FunctionCalled` with a blank name.
    EmptyFunctionName,
    /// `AdminFunctionCalled` without names.
    NoFunctionNames,
    /// `AdminFunctionCalled` with a blank name among its names.
    BlankFunctionName,
    /// `HighFee` with a threshold of zero.
    ZeroFeeThreshold,
}

/// Why a configuration is refused.
#[derive(Debug)]
pub enum ConfigError {
    ZeroPollInterval,
    PollIntervalTooLong,
    NoContracts,
    TooManyContracts { configured: usize },
    EmptyLabel,
    InvalidContractId { label: String, contract_id: String },
    InvalidWebhookUrl { label: String, webhook_url: String, reason: String },
    UnsupportedScheme { label: String, webhook_url: String },
    MissingHost { label: String, webhook_url: String },
    NoRules { label: String },
    InvalidRule { label: String, fault: RuleFault },
    /// The configuration file cannot be read.
    UnreadableFile { path: String },
    /// The configuration file does not hold a configuration.
    MalformedFile { path: String },
    /// A test webhook has no contract to take its network from.
    NothingToTest,
}

/// A `ConfigError` with its strings as character sequences.
pub enum ConfigErrorView {
    ZeroPollInterval,
    PollIntervalTooLong,
    NoContracts,
    TooManyContracts { configured: nat },
    EmptyLabel,
    InvalidContractId { label: Seq<char>, contract_id: Seq<char> },
    InvalidWebhookUrl { label: Seq<char>, webhook_url: Seq<char>, reason: Seq<char> },
    UnsupportedScheme { label: Seq<char>, webhook_url: Seq<char> },
    MissingHost { label: Seq<char>, webhook_url: Seq<char> },
    NoRules { label: Seq<char> },
    InvalidRule { label: Seq<char>, fault: RuleFault },
    UnreadableFile { path: Seq<char> },
    MalformedFile { path: Seq<char> },
    NothingToTest,
}

impl View for ConfigError {
    type V = ConfigErrorView;

    open spec fn view(&self) -> ConfigErrorView {
        match *self {
            ConfigError::ZeroPollInterval => ConfigErrorView::ZeroPollInterval,
            ConfigError::PollIntervalTooLong => ConfigErrorView::PollIntervalTooLong,
            ConfigError::NoContracts => ConfigErrorView::NoContracts,
            ConfigError::TooManyContracts { configured } => ConfigErrorView::TooManyContracts {
                configured: configured as nat,
            },
            ConfigError::EmptyLabel => ConfigErrorView::EmptyLabel,
            ConfigError::InvalidContractId { label, contract_id } =>
                ConfigErrorView::InvalidContractId { label: label@, contract_id: contract_id@ },
            ConfigError::InvalidWebhookUrl { label, webhook_url, reason } =>
                ConfigErrorView::InvalidWebhookUrl {
                label: label@,
                webhook_url: webhook_url@,
                reason: reason@,
            },
            ConfigError::UnsupportedScheme { label, webhook_url } =>
                ConfigErrorView::UnsupportedScheme { label: label@, webhook_url: webhook_url@ },
            ConfigError::MissingHost { label, webhook_url } => ConfigErrorView::MissingHost {
                label: label@,
                webhook_url: webhook_url@,
            },
            ConfigError::NoRules { label } => ConfigErrorView::NoRules { label: label@ },
            ConfigError::InvalidRule { label, fault } => ConfigErrorView::InvalidRule {
                label: label@,
                fault,
            },
            ConfigError::UnreadableFile { path } => ConfigErrorView::UnreadableFile { path: path@ },
            ConfigError::MalformedFile { path } => ConfigErrorView::MalformedFile { path: path@ },
            ConfigError::NothingToTest => ConfigErrorView::NothingToTest,
        }
    }
}

impl RuleFault {
    /// The fault in words.
    pub open spec fn text(self) -> Seq<char> {
        match self {
            RuleFault::ZeroTransferThreshold => "LargeTransfer threshold_xlm must be > 0"@,
            RuleFault::EmptyFunctionName => "FunctionCalled function_name must not be empty"@,
            RuleFault::NoFunctionNames => "AdminFunctionCalled function_names must not be empty"@,
            RuleFault::BlankFunctionName =>
                "AdminFunctionCalled contains a blank function name"@,
            RuleFault::ZeroFeeThreshold => "HighFee threshold_stroops must be > 0"@,
        }
    }

    /// The fault in words.
    pub fn message(&self) -> (message: &'static str)
        ensures
            message@ == self.text(),
    {
        match self {
            RuleFault::ZeroTransferThreshold => "LargeTransfer threshold_xlm must be > 0",
            RuleFault::EmptyFunctionName => "FunctionCalled function_name must not be empty",
            RuleFault::NoFunctionNames => "AdminFunctionCalled function_names must not be empty",
            RuleFault::BlankFunctionName => "AdminFunctionCalled contains a blank function name",
            RuleFault::ZeroFeeThreshold => "HighFee threshold_stroops must be > 0",
        }
    }
}

/// How a complaint about the contract labelled `label` begins.
pub open spec fn about(label: Seq<char>) -> Seq<char> {
    "contract '"@ + label + "': "@
}

impl ConfigErrorView {
    /// The error in words.
    pub open spec fn text(self) -> Seq<char> {
        match self {
            ConfigErrorView::ZeroPollInterval => "poll_interval_seconds must be > 0"@,
            ConfigErrorView::PollIntervalTooLong =>
                "poll_interval_seconds must be <= 3600 (1 hour)"@,
            ConfigErrorView::NoContracts => "at least one [[contracts]] entry is required"@,
            ConfigErrorView::TooManyContracts { configured } => "too many contracts: "@
                + crate::text::decimal(configured) + " configured, maximum allowed is "@
                + crate::text::decimal(MAX_CONTRACTS as nat),
            ConfigErrorView::EmptyLabel => "a contract has an empty label"@,
            ConfigErrorView::InvalidContractId { label, contract_id } => about(label)
                + "contract_id '"@ + contract_id
                + "' is not a valid Stellar contract address (must start with 'C' and be 56 characters)"@,
            ConfigErrorView::InvalidWebhookUrl { label, webhook_url, reason } => about(label)
                + "webhook_url '"@ + webhook_url + "' is not a valid URL: "@ + reason,
            ConfigErrorView::UnsupportedScheme { label, webhook_url } => about(label)
                + "webhook_url '"@ + webhook_url + "' must use http or https scheme"@,
            ConfigErrorView::MissingHost { label, webhook_url } => about(label)
                + "webhook_url '"@ + webhook_url + "' has no host"@,
            ConfigErrorView::NoRules { label } => about(label)
                + "at least one rule is required"@,
            ConfigErrorView::InvalidRule { label, fault } => about(label) + fault.text(),
            ConfigErrorView::UnreadableFile { path } => "cannot read config file '"@ + path + "'"@,
            ConfigErrorView::MalformedFile { path } => "failed to parse config file '"@ + path
                + "'"@,
            ConfigErrorView::NothingToTest =>
                "config has no contracts; cannot derive network for test-webhook"@,
        }
    }

    /// The label of the contract that the error is about, where it names one.
    pub open spec fn label(self) -> Option<Seq<char>> {
        match self {
            ConfigErrorView::InvalidContractId { label, .. } => Some(label),
            ConfigErrorView::InvalidWebhookUrl { label, .. } => Some(label),
            ConfigErrorView::UnsupportedScheme { label, .. } => Some(label),
            ConfigErrorView::MissingHost { label, .. } => Some(label),
            ConfigErrorView::NoRules { label } => Some(label),
            ConfigErrorView::InvalidRule { label, .. } => Some(label),
            _ => None,
        }
    }
}

/// `about`, executable.
fn about_text(label: &str) -> (start: String)
    ensures
        start@ == about(label@),
{
    let mut start = "contract '".to_owned();
    start.append(label);
    start.append("': ");
    start
}

/// What every complaint about a webhook URL begins with.
fn about_webhook_text(label: &str, webhook_url: &str) -> (start: String)
    ensures
        start@ == about(label@) + "webhook_url '"@ + webhook_url@,
{
    let mut start = about_text(label);
    start.append("webhook_url '");
    start.append(webhook_url);
    start
}

impl ConfigError {
    /// The error in words.
    pub fn message(&self) -> (message: String)
        ensures
            message@ == self@.text(),
    {
        match self {
            ConfigError::ZeroPollInterval => "poll_interval_seconds must be > 0".to_owned(),
            ConfigError::PollIntervalTooLong =>
                "poll_interval_seconds must be <= 3600 (1 hour)".to_owned(),
            ConfigError::NoContracts => "at least one [[contracts]] entry is required".to_owned(),
            ConfigError::TooManyContracts { configured } => {
                let mut message = "too many contracts: ".to_owned();
                message.append(decimal_text(*configured as u64).as_str());
                message.append(" configured, maximum allowed is ");
                message.append(decimal_text(MAX_CONTRACTS as u64).as_str());
                message
            },
            ConfigError::EmptyLabel => "a contract has an empty label".to_owned(),
            ConfigError::InvalidContractId { label, contract_id } => {
                let mut message = about_text(label.as_str());
                message.append("contract_id '");
                message.append(contract_id.as_str());
                message.append(
                    "' is not a valid Stellar contract address (must start with 'C' and be 56 characters)",
                );
                message
            },
            ConfigError::InvalidWebhookUrl { label, webhook_url, reason } => {
                let mut message = about_webhook_text(label.as_str(), webhook_url.as_str());
                message.append("' is not a valid URL: ");
                message.append(reason.as_str());
                message
            },
            ConfigError::UnsupportedScheme { label, webhook_url } => {
                let mut message = about_webhook_text(label.as_str(), webhook_url.as_str());
                message.append("' must use http or https scheme");
                message
            },
            ConfigError::MissingHost { label, webhook_url } => {
                let mut message = about_webhook_text(label.as_str(), webhook_url.as_str());
                message.append("' has no host");
                message
            },
            ConfigError::NoRules { label } => {
                let mut message = about_text(label.as_str());
                message.append("at least one rule is required");
                message
            },
            ConfigError::InvalidRule { label, fault } => {
                let mut message = about_text(label.as_str());
                message.append(fault.message());
                message
            },
            ConfigError::UnreadableFile { path } => {
                let mut message = "cannot read config file '".to_owned();
                message.append(path.as_str());
                message.append("'");
                message
            },
            ConfigError::MalformedFile { path } => {
                let mut message = "failed to parse config file '".to_owned();
                message.append(path.as_str());
                message.append("'");
                message
            },
            ConfigError::NothingToTest =>
                "config has no contracts; cannot derive network for test-webhook".to_owned(),
        }
    }
}

/// The first of several complaints, in order, if there is one.
pub open spec fn first_complaint(complaints: Seq<Option<ConfigErrorView>>) -> Option<
    ConfigErrorView,
>
    decreases complaints.len(),
{
    if complaints.len() == 0 {
        None
    } else if complaints[0] is Some {
        complaints[0]
    } else {
        first_complaint(complaints.drop_first())
    }
}

/// Where nothing complains before `at`, the first complaint is the one at `at`,
/// or there is none at all.
pub proof fn lemma_first_complaint(complaints: Seq<Option<ConfigErrorView>>, at: int)
    requires
        0 <= at <= complaints.len(),
        forall|i: int| 0 <= i < at ==> #[trigger] complaints[i] is None,
        at < complaints.len() ==> complaints[at] is Some,
    ensures
        first_complaint(complaints) == if at < complaints.len() {
            complaints[at]
        } else {
            None
        },
    decreases complaints.len(),
{
    if complaints.len() > 0 && at > 0 {
        let rest = complaints.drop_first();
        assert forall|i: int| 0 <= i < at - 1 implies #[trigger] rest[i] is None by {
            assert(rest[i] == complaints[i + 1]);
        }
        lemma_first_complaint(rest, at - 1);
    }
}

/// A law: every complaint about one contract starts by naming that contract's
/// label, so that its reader knows which entry to mend.
pub proof fn law_complaint_names_its_contract(error: ConfigErrorView)
    requires
        error.label() is Some,
    ensures
        about(error.label()->0).is_prefix_of(error.text()),
{
    let start = about(error.label()->0);
    let text = error.text();
    assert(text.subrange(0, start.len() as int) =~= start);
}

/// A law: every error says what is wrong and quotes what it is wrong with: the
/// contract by its label, then the address, the URL or the rule; the path of a
/// file; the number of contracts beside the number allowed.
pub proof fn law_errors_say_what_is_wrong(error: ConfigError)
    ensures
        match error {
            ConfigError::ZeroPollInterval => error@.text() == "poll_interval_seconds"@
                + " must be > 0"@,
            ConfigError::PollIntervalTooLong => error@.text() == "poll_interval_seconds"@
                + " must be <= 3600 (1 hour)"@,
            ConfigError::NoContracts => error@.text() == "at least one [[contracts]] entry"@
                + " is required"@,
            ConfigError::TooManyContracts { configured } => error@.text()
                == "too many contracts: "@ + crate::text::decimal(configured as nat)
                + " configured, maximum allowed is 100"@,
            ConfigError::EmptyLabel => error@.text() == "a contract"@ + " has an empty label"@,
            ConfigError::InvalidContractId { label, contract_id } => error@.text() == "contract '"@
                + label@ + "': contract_id '"@ + contract_id@
                + "' is not a valid Stellar contract address"@
                + " (must start with 'C' and be 56 characters)"@,
            ConfigError::InvalidWebhookUrl { label, webhook_url, reason } => error@.text()
                == "contract '"@ + label@ + "': webhook_url '"@ + webhook_url@
                + "' is not a valid URL"@ + ": "@ + reason@,
            ConfigError::UnsupportedScheme { label, webhook_url } => error@.text() == "contract '"@
                + label@ + "': webhook_url '"@ + webhook_url@ + "' must use"@
                + " http or https scheme"@,
            ConfigError::MissingHost { label, webhook_url } => error@.text() == "contract '"@
                + label@ + "': webhook_url '"@ + webhook_url@ + "' has no host"@,
            ConfigError::NoRules { label } => error@.text() == "contract '"@ + label@
                + "': at least one rule is required"@,
            ConfigError::InvalidRule { label, fault } => error@.text() == "contract '"@ + label@
                + "': "@ + match fault {
                RuleFault::ZeroTransferThreshold => "LargeTransfer"@
                    + " threshold_xlm must be > 0"@,
                RuleFault::EmptyFunctionName => "FunctionCalled"@
                    + " function_name must not be empty"@,
                RuleFault::NoFunctionNames => "AdminFunctionCalled"@
                    + " function_names must not be empty"@,
                RuleFault::BlankFunctionName => "AdminFunctionCalled"@
                    + " contains a blank function name"@,
                RuleFault::ZeroFeeThreshold => "HighFee"@ + " threshold_stroops must be > 0"@,
            },
            ConfigError::UnreadableFile { path } => error@.text() == "cannot read"@
                + " config file '"@ + path@ + "'"@,
            ConfigError::MalformedFile { path } => error@.text() == "failed to parse"@
                + " config file '"@ + path@ + "'"@,
            ConfigError::NothingToTest => error@.text() == "config has no contracts"@
                + "; cannot derive network for test-webhook"@,
        },
{
    match error {
        ConfigError::ZeroPollInterval => {
            reveal_strlit("poll_interval_seconds");
            reveal_strlit(" must be > 0");
            reveal_strlit("poll_interval_seconds must be > 0");
            assert(error@.text() =~= "poll_interval_seconds"@ + " must be > 0"@);
        },
        ConfigError::PollIntervalTooLong => {
            reveal_strlit("poll_interval_seconds");
            reveal_strlit(" must be <= 3600 (1 hour)");
            reveal_strlit("poll_interval_seconds must be <= 3600 (1 hour)");
            assert(error@.text() =~= "poll_interval_seconds"@ + " must be <= 3600 (1 hour)"@);
        },
        ConfigError::NoContracts => {
            reveal_strlit("at least one [[contracts]] entry");
            reveal_strlit(" is required");
            reveal_strlit("at least one [[contracts]] entry is required");
            assert(error@.text() =~= "at least one [[contracts]] entry"@ + " is required"@);
        },
        ConfigError::TooManyContracts { configured } => {
            reveal_strlit(" configured, maximum allowed is ");
            reveal_strlit(" configured, maximum allowed is 100");
            reveal_strlit("0");
            reveal_strlit("1");
            reveal_with_fuel(crate::text::decimal, 3);
            let count = crate::text::decimal(configured as nat);
            assert(" configured, maximum allowed is 100"@ =~= " configured, maximum allowed is "@
                + crate::text::decimal(100));
            assert(error@.text() =~= "too many contracts: "@ + count
                + " configured, maximum allowed is 100"@);
        },
        ConfigError::EmptyLabel => {
            reveal_strlit("a contract");
            reveal_strlit(" has an empty label");
            reveal_strlit("a contract has an empty label");
            assert(error@.text() =~= "a contract"@ + " has an empty label"@);
        },
        ConfigError::InvalidContractId { label, contract_id } => {
            reveal_strlit("': ");
            reveal_strlit("contract_id '");
            reveal_strlit("': contract_id '");
            reveal_strlit("' is not a valid Stellar contract address");
            reveal_strlit(" (must start with 'C' and be 56 characters)");
            reveal_strlit(
                "' is not a valid Stellar contract address (must start with 'C' and be 56 characters)",
            );
            assert("': contract_id '"@ =~= "': "@ + "contract_id '"@);
            assert("' is not a valid Stellar contract address (must start with 'C' and be 56 characters)"@
                =~= "' is not a valid Stellar contract address"@
                + " (must start with 'C' and be 56 characters)"@);
            assert(error@.text() =~= "contract '"@ + label@ + "': contract_id '"@ + contract_id@
                + "' is not a valid Stellar contract address"@
                + " (must start with 'C' and be 56 characters)"@);
        },
        ConfigError::InvalidWebhookUrl { label, webhook_url, reason } => {
            lemma_about_webhook(label@);
            reveal_strlit("' is not a valid URL");
            reveal_strlit(": ");
            reveal_strlit("' is not a valid URL: ");
            assert("' is not a valid URL: "@ =~= "' is not a valid URL"@ + ": "@);
            assert(error@.text() =~= "contract '"@ + label@ + "': webhook_url '"@ + webhook_url@
                + "' is not a valid URL"@ + ": "@ + reason@);
        },
        ConfigError::UnsupportedScheme { label, webhook_url } => {
            lemma_about_webhook(label@);
            reveal_strlit("' must use");
            reveal_strlit(" http or https scheme");
            reveal_strlit("' must use http or https scheme");
            assert("' must use http or https scheme"@ =~= "' must use"@ + " http or https scheme"@);
            assert(error@.text() =~= "contract '"@ + label@ + "': webhook_url '"@ + webhook_url@
                + "' must use"@ + " http or https scheme"@);
        },
        ConfigError::MissingHost { label, webhook_url } => {
            lemma_about_webhook(label@);
        },
        ConfigError::NoRules { label } => {
            reveal_strlit("': ");
            reveal_strlit("at least one rule is required");
            reveal_strlit("': at least one rule is required");
            assert("': at least one rule is required"@ =~= "': "@
                + "at least one rule is required"@);
            assert(error@.text() =~= "contract '"@ + label@ + "': at least one rule is required"@);
        },
        ConfigError::InvalidRule { label, fault } => {
            lemma_fault_text(fault);
        },
        ConfigError::UnreadableFile { path } => {
            reveal_strlit("cannot read");
            reveal_strlit(" config file '");
            reveal_strlit("cannot read config file '");
            assert("cannot read config file '"@ =~= "cannot read"@ + " config file '"@);
        },
        ConfigError::MalformedFile { path } => {
            reveal_strlit("failed to parse");
            reveal_strlit(" config file '");
            reveal_strlit("failed to parse config file '");
            assert("failed to parse config file '"@ =~= "failed to parse"@ + " config file '"@);
        },
        ConfigError::NothingToTest => {
            reveal_strlit("config has no contracts");
            reveal_strlit("; cannot derive network for test-webhook");
            reveal_strlit("config has no contracts; cannot derive network for test-webhook");
            assert(error@.text() =~= "config has no contracts"@
                + "; cannot derive network for test-webhook"@);
        },
    }
}

/// A law: an error is viewed as the error it is, with all that it holds.
pub proof fn law_error_view_leaves_nothing_out(error: ConfigError)
    ensures
        match error@ {
            ConfigErrorView::ZeroPollInterval => error is ZeroPollInterval,
            ConfigErrorView::PollIntervalTooLong => error is PollIntervalTooLong,
            ConfigErrorView::NoContracts => error is NoContracts,
            ConfigErrorView::TooManyContracts { configured: n } => {
                error matches ConfigError::TooManyContracts { configured } && configured == n
            },
            ConfigErrorView::EmptyLabel => error is EmptyLabel,
            ConfigErrorView::InvalidContractId { label: l, contract_id: c } => {
                error matches ConfigError::InvalidContractId { label, contract_id } && label@ == l
                    && contract_id@ == c
            },
            ConfigErrorView::InvalidWebhookUrl { label: l, webhook_url: u, reason: r } => {
                error matches ConfigError::InvalidWebhookUrl { label, webhook_url, reason }
                    && label@ == l && webhook_url@ == u && reason@ == r
            },
            ConfigErrorView::UnsupportedScheme { label: l, webhook_url: u } => {
                error matches ConfigError::UnsupportedScheme { label, webhook_url } && label@ == l
                    && webhook_url@ == u
            },
            ConfigErrorView::MissingHost { label: l, webhook_url: u } => {
                error matches ConfigError::MissingHost { label, webhook_url } && label@ == l
                    && webhook_url@ == u
            },
            ConfigErrorView::NoRules { label: l } => {
                error matches ConfigError::NoRules { label } && label@ == l
            },
            ConfigErrorView::InvalidRule { label: l, fault: f } => {
                error matches ConfigError::InvalidRule { label, fault } && label@ == l && fault == f
            },
            ConfigErrorView::UnreadableFile { path: p } => {
                error matches ConfigError::UnreadableFile { path } && path@ == p
            },
            ConfigErrorView::MalformedFile { path: p } => {
                error matches ConfigError::MalformedFile { path } && path@ == p
            },
            ConfigErrorView::NothingToTest => error is NothingToTest,
        },
{
}

/// How a complaint about a webhook begins.
proof fn lemma_about_webhook(label: Seq<char>)
    ensures
        about(label) + "webhook_url '"@ == "contract '"@ + label + "': webhook_url '"@,
{
    reveal_strlit("': ");
    reveal_strlit("webhook_url '");
    reveal_strlit("': webhook_url '");
    assert("': webhook_url '"@ =~= "': "@ + "webhook_url '"@);
    assert(about(label) + "webhook_url '"@ =~= "contract '"@ + label + "': webhook_url '"@);
}

/// A fault is told by the kind of the rule and what must hold of it.
proof fn lemma_fault_text(fault: RuleFault)
    ensures
        fault.text() == match fault {
            RuleFault::ZeroTransferThreshold => "LargeTransfer"@ + " threshold_xlm must be > 0"@,
            RuleFault::EmptyFunctionName => "FunctionCalled"@ + " function_name must not be empty"@,
            RuleFault::NoFunctionNames => "AdminFunctionCalled"@
                + " function_names must not be empty"@,
            RuleFault::BlankFunctionName => "AdminFunctionCalled"@
                + " contains a blank function name"@,
            RuleFault::ZeroFeeThreshold => "HighFee"@ + " threshold_stroops must be > 0"@,
        },
{
    match fault {
        RuleFault::ZeroTransferThreshold => {
            reveal_strlit("LargeTransfer");
            reveal_strlit(" threshold_xlm must be > 0");
            reveal_strlit("LargeTransfer threshold_xlm must be > 0");
            assert(fault.text() =~= "LargeTransfer"@ + " threshold_xlm must be > 0"@);
        },
        RuleFault::EmptyFunctionName => {
            reveal_strlit("FunctionCalled");
            reveal_strlit(" function_name must not be empty");
            reveal_strlit("FunctionCalled function_name must not be empty");
            assert(fault.text() =~= "FunctionCalled"@ + " function_name must not be empty"@);
        },
        RuleFault::NoFunctionNames => {
            reveal_strlit("AdminFunctionCalled");
            reveal_strlit(" function_names must not be empty");
            reveal_strlit("AdminFunctionCalled function_names must not be empty");
            assert(fault.text() =~= "AdminFunctionCalled"@ + " function_names must not be empty"@);
        },
        RuleFault::BlankFunctionName => {
            reveal_strlit("AdminFunctionCalled");
            reveal_strlit(" contains a blank function name");
            reveal_strlit("AdminFunctionCalled contains a blank function name");
            assert(fault.text() =~= "AdminFunctionCalled"@ + " contains a blank function name"@);
        },
        RuleFault::ZeroFeeThreshold => {
            reveal_strlit("HighFee");
            reveal_strlit(" threshold_stroops must be > 0");
            reveal_strlit("HighFee threshold_stroops must be > 0");
            assert(fault.text() =~= "HighFee"@ + " threshold_stroops must be > 0"@);
        },
    }
}

} // verus!

//! Watched contracts.

use crate::error::{ConfigError, ConfigErrorView};
use crate::network::Network;
use crate::rule::AlertRule;
use crate::text::{is_blank, same_text};
use crate::webhook::{parse_url, ParseView, UrlParts};
use vstd::prelude::*;
use vstd::string::*;

verus! {

/// A contract to watch, with the rules that apply to it and the webhook that is
/// told of them.
#[derive(Debug, Clone)]
pub struct WatchedContract {
    pub label: String,
    pub contract_id: String,
    pub network: Network,
    pub rules: Vec<AlertRule>,
    pub webhook_url: String,
    /// Optional secret sent as X-TxWatch-Secret header on every webhook POST.
    pub webhook_secret: Option<String>,
    /// Optional Horizon base URL to poll in place of the network's own.
    pub horizon_base_url_override: Option<String>,
}

/// A Stellar contract address, by its shape: it starts with 'C' and has 56
/// characters, all of them ASCII.
pub open spec fn contract_address(id: Seq<char>) -> bool {
    &&& vstd::utf8::is_ascii_chars(id)
    &&& id.len() == 56
    &&& id[0] == 'C'
}

/// A scheme that a webhook can be reached by.
pub open spec fn web_scheme(scheme: Seq<char>) -> bool {
    scheme == "http"@ || scheme == "https"@
}

/// Whether `id` has the shape of a contract address.
fn is_contract_address(id: &str) -> (yes: bool)
    ensures
        yes == contract_address(id@),
{
    if !id.is_ascii() || id.unicode_len() != 56 {
        return false;
    }
    id.get_char(0) == 'C'
}

impl WatchedContract {
    /// What the parse of the webhook URL gives rise to complain of.
    pub open spec fn webhook_complaint(self, parsed: ParseView) -> Option<ConfigErrorView> {
        match parsed {
            Err(reason) => Some(
                ConfigErrorView::InvalidWebhookUrl {
                    label: self.label@,
                    webhook_url: self.webhook_url@,
                    reason,
                },
            ),
            Ok((scheme, has_host)) => if !web_scheme(scheme) {
                Some(
                    ConfigErrorView::UnsupportedScheme {
                        label: self.label@,
                        webhook_url: self.webhook_url@,
                    },
                )
            } else if !has_host {
                Some(
                    ConfigErrorView::MissingHost {
                        label: self.label@,
                        webhook_url: self.webhook_url@,
                    },
                )
            } else {
                None
            },
        }
    }

    /// The complaint of each rule, in order.
    pub open spec fn rule_complaints(self) -> Seq<Option<ConfigErrorView>> {
        Seq::new(self.rules@.len(), |i: int| self.rules@[i].complaint(self.label@))
    }

    /// The first complaint about the contract, if any, where its webhook URL
    /// parses as `parsed`: the label comes first, then the address, the webhook
    /// URL and the rules.
    pub open spec fn complaint_given(self, parsed: ParseView) -> Option<ConfigErrorView> {
        if crate::text::blank(self.label@) {
            Some(ConfigErrorView::EmptyLabel)
        } else if !contract_address(self.contract_id@) {
            Some(
                ConfigErrorView::InvalidContractId {
                    label: self.label@,
                    contract_id: self.contract_id@,
                },
            )
        } else if self.webhook_complaint(parsed) is Some {
            self.webhook_complaint(parsed)
        } else if self.rules@.len() == 0 {
            Some(ConfigErrorView::NoRules { label: self.label@ })
        } else {
            crate::error::first_complaint(self.rule_complaints())
        }
    }

    /// The first complaint about the contract, if any.
    pub open spec fn complaint(self) -> Option<ConfigErrorView> {
        self.complaint_given(crate::webhook::url_parse(self.webhook_url@))
    }

    /// Where the contract's transactions are read from.
    pub open spec fn horizon(self) -> Seq<char> {
        match self.horizon_base_url_override {
            Some(url) => url@,
            None => self.network.horizon(),
        }
    }

    /// Refuses a contract that cannot be watched.
    pub fn validate(&self) -> (outcome: Result<(), ConfigError>)
        ensures
            match self.complaint() {
                Some(complaint) => outcome matches Err(error) && error@ == complaint,
                None => outcome is Ok,
            },
    {
        let parsed = parse_url(self.webhook_url.as_str());
        self.validate_parsed(&parsed)
    }

    /// `validate`, where the webhook URL has been parsed already.
    pub fn validate_parsed(&self, parsed: &Result<UrlParts, String>) -> (outcome: Result<
        (),
        ConfigError,
    >)
        ensures
            match self.complaint_given(crate::webhook::parse_view(*parsed)) {
                Some(complaint) => outcome matches Err(error) && error@ == complaint,
                None => outcome is Ok,
            },
    {
        if is_blank(self.label.as_str()) {
            return Err(ConfigError::EmptyLabel);
        }
        if !is_contract_address(self.contract_id.as_str()) {
            return Err(
                ConfigError::InvalidContractId {
                    label: self.label.clone(),
                    contract_id: self.contract_id.clone(),
                },
            );
        }
        match parsed {
            Err(reason) => {
                return Err(
                    ConfigError::InvalidWebhookUrl {
                        label: self.label.clone(),
                        webhook_url: self.webhook_url.clone(),
                        reason: reason.clone(),
                    },
                );
            },
            Ok(parts) => {
                if !same_text(parts.scheme.as_str(), "http") && !same_text(
                    parts.scheme.as_str(),
                    "https",
                ) {
                    return Err(
                        ConfigError::UnsupportedScheme {
                            label: self.label.clone(),
                            webhook_url: self.webhook_url.clone(),
                        },
                    );
                }
                if !parts.has_host {
                    return Err(
                        ConfigError::MissingHost {
                            label: self.label.clone(),
                            webhook_url: self.webhook_url.clone(),
                        },
                    );
                }
            },
        }
        if self.rules.is_empty() {
            return Err(ConfigError::NoRules { label: self.label.clone() });
        }
        let mut i: usize = 0;
        #[verifier::loop_isolation(false)]
        while i < self.rules.len()
            invariant
                i <= self.rules.len(),
                forall|j: int| 0 <= j < i ==> #[trigger] self.rule_complaints()[j] is None,
            decreases self.rules.len() - i,
        {
            match self.rules[i].validate(self.label.as_str()) {
                Ok(()) => {
                    assert(self.rule_complaints()[i as int] is None);
                },
                Err(error) => {
                    proof {
                        crate::error::lemma_first_complaint(self.rule_complaints(), i as int);
                    }
                    return Err(error);
                },
            }
            i += 1;
        }
        proof {
            crate::error::lemma_first_complaint(self.rule_complaints(), i as int);
        }
        Ok(())
    }

    /// Where to read the contract's transactions from: the override, if there is
    /// one, else the network's Horizon.
    pub fn horizon_base_url(&self) -> (url: &str)
        ensures
            url@ == self.horizon(),
    {
        match &self.horizon_base_url_override {
            Some(url) => url.as_str(),
            None => self.network.horizon_base_url(),
        }
    }
}

} // verus!

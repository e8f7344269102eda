//! The Stellar networks.

use vstd::prelude::*;

verus! {

/// A Stellar network.
#[derive(Debug, Clone, PartialEq, Eq, Structural)]
pub enum Network {
    Mainnet,
    Testnet,
    Futurenet,
}

impl Network {
    /// Where the network's Horizon API is.
    pub open spec fn horizon(self) -> Seq<char> {
        match self {
            Network::Mainnet => "https://horizon.stellar.org"@,
            Network::Testnet => "https://horizon-testnet.stellar.org"@,
            Network::Futurenet => "https://horizon-futurenet.stellar.org"@,
        }
    }

    /// The network's name in configuration files and payloads.
    pub open spec fn name(self) -> Seq<char> {
        match self {
            Network::Mainnet => "mainnet"@,
            Network::Testnet => "testnet"@,
            Network::Futurenet => "futurenet"@,
        }
    }

    /// The network's name for people.
    pub open spec fn title(self) -> Seq<char> {
        match self {
            Network::Mainnet => "Stellar Mainnet"@,
            Network::Testnet => "Stellar Testnet"@,
            Network::Futurenet => "Stellar Futurenet"@,
        }
    }

    /// Where the network's Stellar Expert explorer is.
    pub open spec fn explorer(self) -> Seq<char> {
        match self {
            Network::Mainnet => "https://stellar.expert/explorer/public"@,
            Network::Testnet => "https://stellar.expert/explorer/testnet"@,
            Network::Futurenet => "https://stellar.expert/explorer/futurenet"@,
        }
    }

    /// Horizon API base URL for this network.
    pub fn horizon_base_url(&self) -> (url: &'static str)
        ensures
            url@ == self.horizon(),
    {
        match self {
            Network::Mainnet => "https://horizon.stellar.org",
            Network::Testnet => "https://horizon-testnet.stellar.org",
            Network::Futurenet => "https://horizon-futurenet.stellar.org",
        }
    }

    /// Lower-case name, as configuration files spell it.
    pub fn as_str(&self) -> (name: &'static str)
        ensures
            name@ == self.name(),
    {
        match self {
            Network::Mainnet => "mainnet",
            Network::Testnet => "testnet",
            Network::Futurenet => "futurenet",
        }
    }

    /// Human-readable display name shown in logs and CLI output.
    pub fn display_name(&self) -> (title: &'static str)
        ensures
            title@ == self.title(),
    {
        match self {
            Network::Mainnet => "Stellar Mainnet",
            Network::Testnet => "Stellar Testnet",
            Network::Futurenet => "Stellar Futurenet",
        }
    }

    /// Stellar Expert explorer base URL for this network.
    pub fn explorer_base_url(&self) -> (url: &'static str)
        ensures
            url@ == self.explorer(),
    {
        match self {
            Network::Mainnet => "https://stellar.expert/explorer/public",
            Network::Testnet => "https://stellar.expert/explorer/testnet",
            Network::Futurenet => "https://stellar.expert/explorer/futurenet",
        }
    }
}

/// A law: no two networks share a name, a title, a Horizon or an explorer, so
/// each of the four tells which network is meant.
pub proof fn law_networks_are_told_apart(a: Network, b: Network)
    requires
        a != b,
    ensures
        a.horizon() != b.horizon(),
        a.name() != b.name(),
        a.title() != b.title(),
        a.explorer() != b.explorer(),
{
    reveal_strlit("https://horizon.stellar.org");
    reveal_strlit("https://horizon-testnet.stellar.org");
    reveal_strlit("https://horizon-futurenet.stellar.org");
    reveal_strlit("mainnet");
    reveal_strlit("testnet");
    reveal_strlit("futurenet");
    reveal_strlit("Stellar Mainnet");
    reveal_strlit("Stellar Testnet");
    reveal_strlit("Stellar Futurenet");
    reveal_strlit("https://stellar.expert/explorer/public");
    reveal_strlit("https://stellar.expert/explorer/testnet");
    reveal_strlit("https://stellar.expert/explorer/futurenet");
    assert(a.horizon().len() != b.horizon().len());
    assert("mainnet"@[0] != "testnet"@[0]);
    assert("Stellar Mainnet"@[8] != "Stellar Testnet"@[8]);
    assert(a.explorer().len() != b.explorer().len());
}

/// A law: addresses and titles go by the network's name. Horizon and explorer of
/// a network other than the main one carry its name; the main network's carry
/// none, and its explorer is the public one.
pub proof fn law_addresses_go_by_name(network: Network)
    ensures
        network.horizon() == "https://horizon"@ + (if network == Network::Mainnet {
            ""@
        } else {
            "-"@ + network.name()
        }) + ".stellar.org"@,
        network.explorer() == "https://stellar.expert/explorer/"@ + (if network
            == Network::Mainnet {
            "public"@
        } else {
            network.name()
        }),
        network.title().skip(9) == network.name().skip(1),
        network.title().take(8) == "Stellar "@,
        network.title()[8] as int == network.name()[0] as int - 'a' as int + 'A' as int,
{
    reveal_strlit("https://horizon");
    reveal_strlit("");
    reveal_strlit("-");
    reveal_strlit(".stellar.org");
    reveal_strlit("https://stellar.expert/explorer/");
    reveal_strlit("public");
    reveal_strlit("Stellar ");
    reveal_strlit("https://horizon.stellar.org");
    reveal_strlit("https://horizon-testnet.stellar.org");
    reveal_strlit("https://horizon-futurenet.stellar.org");
    reveal_strlit("mainnet");
    reveal_strlit("testnet");
    reveal_strlit("futurenet");
    reveal_strlit("Stellar Mainnet");
    reveal_strlit("Stellar Testnet");
    reveal_strlit("Stellar Futurenet");
    reveal_strlit("https://stellar.expert/explorer/public");
    reveal_strlit("https://stellar.expert/explorer/testnet");
    reveal_strlit("https://stellar.expert/explorer/futurenet");
    let horizon = "https://horizon"@ + (if network == Network::Mainnet {
        ""@
    } else {
        "-"@ + network.name()
    }) + ".stellar.org"@;
    assert(network.horizon() =~= horizon);
    let explorer = "https://stellar.expert/explorer/"@ + (if network == Network::Mainnet {
        "public"@
    } else {
        network.name()
    });
    assert(network.explorer() =~= explorer);
    assert(network.title().skip(9) =~= network.name().skip(1));
    assert(network.title().take(8) =~= "Stellar "@);
}

} // verus!

use vstd::prelude::*;

use crate::error::ProbeError;

verus! {

/// The network a run talks to.
#[derive(Clone, Copy, Debug, PartialEq, Eq, Structural)]
pub enum Network {
    Mainnet,
    Devnet,
    Testnet,
}

/// The API keys found in the environment, one slot per network; `None` where the variable is unset.
#[derive(Clone, Debug)]
pub struct ApiKeys {
    pub mainnet: Option<String>,
    pub devnet: Option<String>,
    pub testnet: Option<String>,
}

impl Network {
    /// The fullnode REST endpoint of the network's preset.
    pub open spec fn base_url(self) -> Seq<char> {
        match self {
            Network::Mainnet => "https://fullnode.mainnet.aptoslabs.com/v1"@,
            Network::Devnet => "https://fullnode.devnet.aptoslabs.com/v1"@,
            Network::Testnet => "https://fullnode.testnet.aptoslabs.com/v1"@,
        }
    }

    /// The environment variable that holds the network's API key.
    pub open spec fn api_key_var(self) -> Seq<char> {
        match self {
            Network::Mainnet => "MAINNET_API_KEY"@,
            Network::Devnet => "DEVNET_API_KEY"@,
            Network::Testnet => "TESTNET_API_KEY"@,
        }
    }

    /// The base URL of the network's preset.
    pub fn to_aptos_base_url(&self) -> (r: String)
        ensures
            r@ == self.base_url(),
    {
        match self {
            Network::Mainnet => mainnet_fullnode_url(),
            Network::Devnet => devnet_fullnode_url(),
            Network::Testnet => testnet_fullnode_url(),
        }
    }

    /// The name of the environment variable that holds the network's API key.
    pub fn api_key_var_name(&self) -> (r: String)
        ensures
            r@ == self.api_key_var(),
    {
        match self {
            Network::Mainnet => "MAINNET_API_KEY".to_owned(),
            Network::Devnet => "DEVNET_API_KEY".to_owned(),
            Network::Testnet => "TESTNET_API_KEY".to_owned(),
        }
    }

    /// The network's API key, or `MissingCredential` naming its variable when that is unset or
    /// empty: a key is never empty.
    pub fn get_api_key(&self, keys: &ApiKeys) -> (r: Result<String, ProbeError>)
        ensures
            match r {
                Ok(k) => k@.len() > 0 && keys.key_lookup(*self) == Ok::<Seq<char>, Seq<char>>(k@),
                Err(ProbeError::MissingCredential { var_name }) => keys.key_lookup(*self)
                    == Err::<Seq<char>, Seq<char>>(var_name@),
                Err(_) => false,
            },
    {
        let slot = match self {
            Network::Mainnet => &keys.mainnet,
            Network::Devnet => &keys.devnet,
            Network::Testnet => &keys.testnet,
        };
        match slot {
            Some(k) if !k.as_str().is_empty() => Ok(k.clone()),
            _ => Err(ProbeError::MissingCredential { var_name: self.api_key_var_name() }),
        }
    }
}

impl ApiKeys {
    /// What the slot of network `n` holds.
    pub open spec fn slot(&self, n: Network) -> Option<Seq<char>> {
        let s = match n {
            Network::Mainnet => self.mainnet,
            Network::Devnet => self.devnet,
            Network::Testnet => self.testnet,
        };
        match s {
            Some(k) => Some(k@),
            None => None,
        }
    }

    /// The key of network `n`, or the name of its variable where the slot is unset or empty.
    pub open spec fn key_lookup(&self, n: Network) -> Result<Seq<char>, Seq<char>> {
        match self.slot(n) {
            Some(k) if k.len() > 0 => Ok(k),
            _ => Err(n.api_key_var()),
        }
    }
}

/// No two networks share a base URL.
pub proof fn lemma_base_urls_distinct(a: Network, b: Network)
    requires
        a != b,
    ensures
        a.base_url() != b.base_url(),
{
    reveal_strlit("https://fullnode.mainnet.aptoslabs.com/v1");
    reveal_strlit("https://fullnode.devnet.aptoslabs.com/v1");
    reveal_strlit("https://fullnode.testnet.aptoslabs.com/v1");
    assert(a.base_url()[17] != b.base_url()[17]);
}

/// Looking up a network's key depends on that network's own slot alone: whatever the other
/// two slots hold, an unset or empty slot fails naming exactly that network's variable, and a
/// key that is found is never empty.
pub proof fn lemma_key_lookup_ignores_other_slots(a: ApiKeys, b: ApiKeys, n: Network)
    requires
        a.slot(n) == b.slot(n),
    ensures
        a.key_lookup(n) == b.key_lookup(n),
        a.slot(n) is None ==> a.key_lookup(n) == Err::<Seq<char>, Seq<char>>(n.api_key_var()),
        a.slot(n) == Some(Seq::<char>::empty()) ==> a.key_lookup(n) == Err::<Seq<char>, Seq<char>>(
            n.api_key_var(),
        ),
        a.key_lookup(n) matches Ok(k) ==> k.len() > 0,
{
}

/// Relies on aptos_sdk::AptosConfig::mainnet, whose fullnode URL is parsed from
/// "https://fullnode.mainnet.aptoslabs.com/v1".
#[verifier::external_body]
fn mainnet_fullnode_url() -> (r: String)
    ensures
        r@ == Network::Mainnet.base_url(),
{
    aptos_sdk::AptosConfig::mainnet().fullnode_url().as_str().to_string()
}

/// Relies on aptos_sdk::AptosConfig::devnet, whose fullnode URL is parsed from
/// "https://fullnode.devnet.aptoslabs.com/v1".
#[verifier::external_body]
fn devnet_fullnode_url() -> (r: String)
    ensures
        r@ == Network::Devnet.base_url(),
{
    aptos_sdk::AptosConfig::devnet().fullnode_url().as_str().to_string()
}

/// Relies on aptos_sdk::AptosConfig::testnet, whose fullnode URL is parsed from
/// "https://fullnode.testnet.aptoslabs.com/v1".
#[verifier::external_body]
fn testnet_fullnode_url() -> (r: String)
    ensures
        r@ == Network::Testnet.base_url(),
{
    aptos_sdk::AptosConfig::testnet().fullnode_url().as_str().to_string()
}

} // verus!

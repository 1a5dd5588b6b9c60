use vstd::prelude::*;

use crate::address::{address_of_text, is_strict_address_text, parse_address, Address};
use crate::client::{build_client, check_api_key, first_illegal_char_at, is_header_value, sdk_accepts_url};
use crate::error::{ClientBuildError, ProbeError};
use crate::network::{ApiKeys, Network};

verus! {

/// Everything a run needs before its one request: a client for the selected network, built with
/// that same network's key, and the address to fetch.
pub struct Session {
    pub network: Network,
    pub base_url: String,
    pub api_key: String,
    pub client: aptos_sdk::api::FullnodeClient,
    pub address: Address,
}

/// Resolves the selected network's preset and key, checks that the key can stand in a header
/// value, parses the address and builds the client, in that order, stopping at the first failure.
pub fn prepare_fetch(network: Network, keys: &ApiKeys, address_text: &str) -> (r: Result<
    Session,
    ProbeError,
>)
    ensures
        match r {
            Ok(s) => {
                &&& s.network == network
                &&& s.base_url@ == network.base_url()
                &&& keys.key_lookup(network) == Ok::<Seq<char>, Seq<char>>(s.api_key@)
                &&& is_header_value(s.api_key@)
                &&& is_strict_address_text(address_text@)
                &&& s.address.bytes@ == address_of_text(address_text@)
            },
            Err(ProbeError::MissingCredential { var_name }) => {
                &&& keys.key_lookup(network) == Err::<Seq<char>, Seq<char>>(var_name@)
                &&& var_name@ == network.api_key_var()
            },
            Err(ProbeError::ClientBuild(ClientBuildError::IllegalKeyChar { index })) => {
                keys.key_lookup(network) matches Ok(k) && first_illegal_char_at(k, index as int)
            },
            Err(ProbeError::ClientBuild(ClientBuildError::Sdk { .. })) => {
                &&& keys.key_lookup(network) matches Ok(k) && is_header_value(k)
                &&& is_strict_address_text(address_text@)
            },
            Err(ProbeError::AddressParse { input }) => {
                &&& keys.key_lookup(network) matches Ok(k) && is_header_value(k)
                &&& !is_strict_address_text(address_text@)
                &&& input@ == address_text@
            },
            Err(ProbeError::Fetch { .. }) => false,
        },
        (keys.key_lookup(network) matches Ok(k) && is_header_value(k)) && !is_strict_address_text(
            address_text@,
        ) ==> (r matches Err(ProbeError::AddressParse { input }) && input@ == address_text@),
        r is Ok ==> sdk_accepts_url(network.base_url()),
{
    let base_url = network.to_aptos_base_url();
    let api_key = match network.get_api_key(keys) {
        Ok(k) => k,
        Err(e) => {
            return Err(e);
        },
    };
    match check_api_key(api_key.as_str()) {
        Ok(()) => {},
        Err(index) => {
            return Err(ProbeError::ClientBuild(ClientBuildError::IllegalKeyChar { index }));
        },
    }
    let address = match parse_address(address_text) {
        Ok(a) => a,
        Err(e) => {
            return Err(e);
        },
    };
    let built = build_client(base_url.as_str(), api_key.as_str());
    assemble_session(network, base_url, api_key, address, built)
}

/// Puts a session together from what the client build returned: the session of exactly these parts
/// where a client was built, and the build's own error where none was.
pub fn assemble_session(
    network: Network,
    base_url: String,
    api_key: String,
    address: Address,
    built: Result<aptos_sdk::api::FullnodeClient, ProbeError>,
) -> (r: Result<Session, ProbeError>)
    ensures
        match built {
            Ok(c) => r matches Ok(s) && s.network == network && s.base_url == base_url && s.api_key
                == api_key && s.client == c && s.address == address,
            Err(e) => r == Err::<Session, ProbeError>(e),
        },
{
    match built {
        Ok(client) => Ok(Session { network, base_url, api_key, client, address }),
        Err(e) => Err(e),
    }
}

} // verus!

use vstd::prelude::*;

use crate::error::{ClientBuildError, ProbeError};

verus! {

/// A character that may stand in an HTTP header value: visible ASCII, space, tab, or any
/// character beyond ASCII (whose UTF-8 bytes all lie above 127).
pub open spec fn is_header_value_char(c: char) -> bool {
    (c as u32 >= 32 && c as u32 != 127) || c as u32 == 9
}

/// Every character of `s` may stand in a header value.
pub open spec fn is_header_value(s: Seq<char>) -> bool {
    forall|i: int| 0 <= i < s.len() ==> is_header_value_char(#[trigger] s[i])
}

/// The first character of `s` that may not stand in a header value is at `index`.
pub open spec fn first_illegal_char_at(s: Seq<char>, index: int) -> bool {
    &&& 0 <= index < s.len()
    &&& !is_header_value_char(s[index])
    &&& forall|j: int| 0 <= j < index ==> is_header_value_char(#[trigger] s[j])
}

/// Checks that an API key can be carried as a request credential; on failure, the position of
/// its first illegal character.
pub fn check_api_key(api_key: &str) -> (r: Result<(), usize>)
    ensures
        match r {
            Ok(()) => is_header_value(api_key@),
            Err(index) => first_illegal_char_at(api_key@, index as int),
        },
{
    let n = api_key.unicode_len();
    let mut i: usize = 0;
    while i < n
        invariant
            n == api_key@.len(),
            0 <= i <= n,
            forall|j: int| 0 <= j < i ==> is_header_value_char(#[trigger] api_key@[j]),
        decreases n - i,
    {
        let c = api_key.get_char(i);
        let v = c as u32;
        if !((v >= 32 && v != 127) || v == 9) {
            return Err(i);
        }
        i = i + 1;
    }
    Ok(())
}

/// Builds a client for the fullnode at `base_url` that makes a single attempt per request, with
/// `api_key` stored in its configuration. A key that could not stand in a header value is refused
/// before the SDK is asked. The SDK keeps the key but does not send it with its requests.
pub fn build_client(base_url: &str, api_key: &str) -> (r: Result<
    aptos_sdk::api::FullnodeClient,
    ProbeError,
>)
    ensures
        match r {
            Ok(_) => is_header_value(api_key@),
            Err(ProbeError::ClientBuild(ClientBuildError::IllegalKeyChar { index })) =>
                first_illegal_char_at(api_key@, index as int),
            Err(ProbeError::ClientBuild(ClientBuildError::Sdk { .. })) => is_header_value(api_key@),
            Err(_) => false,
        },
        r is Ok ==> sdk_accepts_url(base_url@),
        is_header_value(api_key@) && !sdk_accepts_url(base_url@) ==> r matches Err(
            ProbeError::ClientBuild(ClientBuildError::Sdk { .. }),
        ),
{
    match check_api_key(api_key) {
        Ok(()) => {},
        Err(index) => {
            return Err(ProbeError::ClientBuild(ClientBuildError::IllegalKeyChar { index }));
        },
    }
    let config = match aptos_sdk::AptosConfig::custom(base_url) {
        Ok(c) => c,
        Err(e) => {
            return Err(ProbeError::ClientBuild(ClientBuildError::Sdk { detail: sdk_error_text(&e) }));
        },
    };
    let config = config_with_api_key(config, api_key.to_owned()).without_retry();
    match aptos_sdk::api::FullnodeClient::new(config) {
        Ok(client) => Ok(client),
        Err(e) => Err(ProbeError::ClientBuild(ClientBuildError::Sdk { detail: sdk_error_text(&e) })),
    }
}

#[verifier::external_type_specification]
#[verifier::external_body]
pub struct ExAptosConfig(aptos_sdk::AptosConfig);

#[verifier::external_type_specification]
#[verifier::external_body]
pub struct ExFullnodeClient(aptos_sdk::api::FullnodeClient);

/// Whether the SDK takes `u` as a fullnode URL: it parses, and its scheme is http or https.
pub uninterp spec fn sdk_accepts_url(u: Seq<char>) -> bool;

/// Relies on aptos_sdk::AptosConfig::custom: parses the fullnode URL, refusing it where it does not
/// parse or its scheme is neither http nor https; whether it succeeds depends on the text alone.
pub assume_specification[ aptos_sdk::AptosConfig::custom ](fullnode_url: &str) -> (r: Result<
    aptos_sdk::AptosConfig,
    aptos_sdk::AptosError,
>)
    ensures
        r is Ok <==> sdk_accepts_url(fullnode_url@),
;

/// Relies on aptos_sdk::AptosConfig::without_retry: every request is attempted once.
pub assume_specification[ aptos_sdk::AptosConfig::without_retry ](
    config: aptos_sdk::AptosConfig,
) -> aptos_sdk::AptosConfig;

/// Relies on aptos_sdk::api::FullnodeClient::new: builds the HTTP client for a configuration.
pub assume_specification[ aptos_sdk::api::FullnodeClient::new ](
    config: aptos_sdk::AptosConfig,
) -> Result<aptos_sdk::api::FullnodeClient, aptos_sdk::AptosError>;

/// Relies on aptos_sdk::AptosConfig::with_api_key: stores the key in the configuration.
#[verifier::external_body]
fn config_with_api_key(config: aptos_sdk::AptosConfig, api_key: String) -> aptos_sdk::AptosConfig {
    config.with_api_key(api_key)
}

/// Relies on the Display impl of aptos_sdk::AptosError: a description of the error.
#[verifier::external_body]
fn sdk_error_text(e: &aptos_sdk::AptosError) -> String {
    e.to_string()
}

} // verus!

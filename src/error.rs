use vstd::prelude::*;

verus! {

/// Why a client for a network could not be built.
#[derive(Clone, Debug)]
pub enum ClientBuildError {
    /// The API key holds a character that may not stand in a header value; `index` is the
    /// position of the first one.
    IllegalKeyChar { index: usize },
    /// The SDK refused the endpoint or could not set up its HTTP client.
    Sdk { detail: String },
}

/// Every way a run can fail. None of them is retried.
#[derive(Clone, Debug)]
pub enum ProbeError {
    /// The environment variable that holds the selected network's API key is unset or empty.
    MissingCredential { var_name: String },
    /// The address text is not in strict form.
    AddressParse { input: String },
    /// The client could not be built.
    ClientBuild(ClientBuildError),
    /// The request failed: an HTTP status where the service answered, else a transport failure.
    Fetch { status: Option<u16>, detail: String },
}

} // verus!

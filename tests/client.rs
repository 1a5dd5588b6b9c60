use aptos_account_probe::address::parse_address;
use aptos_account_probe::client::{build_client, check_api_key};
use aptos_account_probe::error::{ClientBuildError, ProbeError};
use aptos_account_probe::network::{ApiKeys, Network};
use aptos_account_probe::session::{assemble_session, prepare_fetch};

fn keys(devnet: Option<&str>) -> ApiKeys {
    ApiKeys {
        mainnet: Some("m".to_string()),
        devnet: devnet.map(|s| s.to_string()),
        testnet: Some("t".to_string()),
    }
}

#[test]
fn header_safe_keys_pass() {
    assert_eq!(check_api_key("aptoslabs_abc.DEF-123"), Ok(()));
    assert_eq!(check_api_key("with space\tand tab"), Ok(()));
    assert_eq!(check_api_key("caf\u{e9}"), Ok(()));
    assert_eq!(check_api_key(""), Ok(()));
}

#[test]
fn illegal_key_characters_are_found() {
    assert_eq!(check_api_key("abc\n"), Err(3));
    assert_eq!(check_api_key("\r\nx"), Err(0));
    assert_eq!(check_api_key("a\u{7f}b\u{0}"), Err(1));
    assert_eq!(check_api_key("\u{e9}\u{1}"), Err(1));
}

#[test]
fn client_builds_for_each_preset() {
    for n in [Network::Mainnet, Network::Devnet, Network::Testnet] {
        assert!(build_client(&n.to_aptos_base_url(), "key").is_ok());
    }
}

#[test]
fn client_refuses_illegal_key() {
    match build_client("https://fullnode.devnet.aptoslabs.com/v1", "bad\nkey") {
        Err(ProbeError::ClientBuild(ClientBuildError::IllegalKeyChar { index })) => assert_eq!(index, 3),
        Err(e) => panic!("unexpected error {:?}", e),
        Ok(_) => panic!("a key with a newline was accepted"),
    }
}

#[test]
fn client_refuses_unsupported_scheme() {
    match build_client("ftp://example.com/v1", "key") {
        Err(ProbeError::ClientBuild(ClientBuildError::Sdk { .. })) => {},
        Err(e) => panic!("unexpected error {:?}", e),
        Ok(_) => panic!("an ftp endpoint was accepted"),
    }
}

#[test]
fn prepare_fetch_pairs_network_url_and_address() {
    let s = prepare_fetch(Network::Devnet, &keys(Some("d")), "0x1").unwrap();
    assert_eq!(s.network, Network::Devnet);
    assert_eq!(s.base_url, "https://fullnode.devnet.aptoslabs.com/v1");
    assert_eq!(s.address, parse_address("0x1").unwrap());
}

#[test]
fn prepare_fetch_stops_on_missing_devnet_key() {
    match prepare_fetch(Network::Devnet, &keys(None), "0x1") {
        Err(ProbeError::MissingCredential { var_name }) => assert_eq!(var_name, "DEVNET_API_KEY"),
        Err(e) => panic!("unexpected error {:?}", e),
        Ok(_) => panic!("a run without a key went ahead"),
    }
}

#[test]
fn prepare_fetch_checks_key_before_address() {
    match prepare_fetch(Network::Devnet, &keys(Some("x\u{7f}")), "nope") {
        Err(ProbeError::ClientBuild(ClientBuildError::IllegalKeyChar { index })) => assert_eq!(index, 1),
        Err(e) => panic!("unexpected error {:?}", e),
        Ok(_) => panic!("an illegal key was accepted"),
    }
}

#[test]
fn prepare_fetch_refuses_bad_address() {
    match prepare_fetch(Network::Mainnet, &keys(None), "0x01") {
        Err(ProbeError::AddressParse { input }) => assert_eq!(input, "0x01"),
        Err(e) => panic!("unexpected error {:?}", e),
        Ok(_) => panic!("a padded short address was accepted"),
    }
}

#[test]
fn prepare_fetch_keeps_the_selected_networks_key() {
    let s = prepare_fetch(Network::Testnet, &keys(Some("d")), "0x1").unwrap();
    assert_eq!(s.api_key, "t");
    assert_eq!(s.base_url, "https://fullnode.testnet.aptoslabs.com/v1");
}

#[test]
fn prepare_fetch_stops_on_empty_devnet_key() {
    match prepare_fetch(Network::Devnet, &keys(Some("")), "0x1") {
        Err(ProbeError::MissingCredential { var_name }) => assert_eq!(var_name, "DEVNET_API_KEY"),
        Err(e) => panic!("unexpected error {:?}", e),
        Ok(_) => panic!("a run with an empty key went ahead"),
    }
}

#[test]
fn assemble_session_hands_on_the_build_error() {
    let address = parse_address("0x1").unwrap();
    let built = Err(ProbeError::MissingCredential { var_name: "X".to_string() });
    let r = assemble_session(Network::Devnet, "u".to_string(), "k".to_string(), address, built);
    match r {
        Err(ProbeError::MissingCredential { var_name }) => assert_eq!(var_name, "X"),
        Err(e) => panic!("unexpected error {:?}", e),
        Ok(_) => panic!("a failed build gave a session"),
    }
}

#[test]
fn assemble_session_keeps_every_part() {
    let address = parse_address("0xa").unwrap();
    let built = build_client("https://fullnode.devnet.aptoslabs.com/v1", "k");
    assert!(built.is_ok());
    let s = assemble_session(Network::Devnet, "u".to_string(), "k".to_string(), address, built).unwrap();
    assert_eq!(s.network, Network::Devnet);
    assert_eq!(s.base_url, "u");
    assert_eq!(s.api_key, "k");
    assert_eq!(s.address, address);
}

#[test]
fn prepare_fetch_refuses_bad_address_before_building() {
    match prepare_fetch(Network::Devnet, &keys(Some("d")), "0x1 ") {
        Err(ProbeError::AddressParse { input }) => assert_eq!(input, "0x1 "),
        Err(e) => panic!("unexpected error {:?}", e),
        Ok(_) => panic!("an address with a trailing space was accepted"),
    }
}

use aptos_account_probe::address::parse_address;
use aptos_account_probe::error::ProbeError;

fn expect_refused(text: &str) {
    match parse_address(text) {
        Err(ProbeError::AddressParse { input }) => assert_eq!(input, text),
        other => panic!("expected {:?} to be refused, got {:?}", text, other),
    }
}

#[test]
fn core_address_parses_short() {
    let a = parse_address("0x1").unwrap();
    let mut expected = [0u8; 32];
    expected[31] = 1;
    assert_eq!(a.bytes, expected);
}

#[test]
fn core_address_parses_long() {
    let text = format!("0x{}1", "0".repeat(63));
    let a = parse_address(&text).unwrap();
    let mut expected = [0u8; 32];
    expected[31] = 1;
    assert_eq!(a.bytes, expected);
}

#[test]
fn special_short_addresses() {
    assert_eq!(parse_address("0x0").unwrap().bytes, [0u8; 32]);
    let mut expected = [0u8; 32];
    expected[31] = 0x0f;
    assert_eq!(parse_address("0xf").unwrap().bytes, expected);
    assert_eq!(parse_address("0xF").unwrap().bytes, expected);
}

#[test]
fn long_address_decodes_every_byte_in_order() {
    let mut text = String::from("0x");
    let mut expected = [0u8; 32];
    for i in 0..32u8 {
        let b = i.wrapping_mul(37).wrapping_add(5);
        expected[i as usize] = b;
        text.push_str(&format!("{:02x}", b));
    }
    assert_eq!(parse_address(&text).unwrap().bytes, expected);
    assert_eq!(parse_address(&text.to_uppercase().replacen("0X", "0x", 1)).unwrap().bytes, expected);
}

#[test]
fn wrong_lengths_are_refused() {
    expect_refused("0x");
    expect_refused("0x01");
    expect_refused("0x123");
    expect_refused(&format!("0x{}", "0".repeat(63)));
    expect_refused(&format!("0x{}", "0".repeat(65)));
    expect_refused("");
}

#[test]
fn non_hex_characters_are_refused() {
    expect_refused("0xg");
    expect_refused(&format!("0x{}z", "0".repeat(63)));
    expect_refused("0x\u{e9}");
}

#[test]
fn prefix_and_whitespace_are_strict() {
    expect_refused("1");
    expect_refused(&"1".repeat(64));
    expect_refused("0X1");
    expect_refused(" 0x1");
    expect_refused("0x1 ");
    expect_refused("00x1");
}

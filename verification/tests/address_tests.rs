use aptos_wasm::address::{load_account_arg, AccountAddress, AccountAddressWrapper};
use aptos_wasm::cli_error::CliError;

#[test]
fn hex_literal_short_form_pads_left() {
    let addr = load_account_arg("0x1").unwrap();
    let mut expected = vec![0u8; 16];
    expected[15] = 1;
    assert_eq!(addr.as_bytes(), &expected);
}

#[test]
fn hex_literal_mixed_case_digits() {
    let addr = load_account_arg("0xDeadBeef").unwrap();
    let bytes = addr.as_bytes();
    assert_eq!(&bytes[12..16], &[0xde, 0xad, 0xbe, 0xef]);
    assert!(bytes[..12].iter().all(|b| *b == 0));
}

#[test]
fn hex_literal_bare_prefix_is_zero_address() {
    let addr = load_account_arg("0x").unwrap();
    assert_eq!(addr.as_bytes(), &vec![0u8; 16]);
}

#[test]
fn hex_literal_rejects_bad_digits() {
    match load_account_arg("0xZZ") {
        Err(CliError::CommandArgumentError(msg)) => {
            assert_eq!(msg, "Failed to parse AccountAddress")
        }
        other => panic!("expected a command-argument error, got {:?}", other),
    }
}

#[test]
fn hex_literal_rejects_overlong_input() {
    let long = format!("0x{}", "1".repeat(33));
    assert!(load_account_arg(&long).is_err());
    let max = format!("0x{}", "1".repeat(32));
    assert!(load_account_arg(&max).is_ok());
}

#[test]
fn canonical_form_needs_exactly_32_digits() {
    let canonical = "00000000000000000000000000000a0b";
    let addr = load_account_arg(canonical).unwrap();
    assert_eq!(addr.as_bytes()[14], 0x0a);
    assert_eq!(addr.as_bytes()[15], 0x0b);
    match load_account_arg("1") {
        Err(CliError::CommandArgumentError(msg)) => assert_eq!(
            msg,
            "'--account' or '--profile' after using aptos init must be provided"
        ),
        other => panic!("expected the guidance message, got {:?}", other),
    }
}

#[test]
fn from_hex_literal_agrees_with_move_core_types() {
    for input in ["0x1", "0xDeadBeef", "0x", "0x00ff00ff00ff00ff00ff00ff00ff00ff"] {
        let ours = AccountAddress::from_hex_literal(input).unwrap();
        let theirs =
            move_core_types::account_address::AccountAddress::from_hex_literal(input).unwrap();
        assert_eq!(ours.as_bytes(), &theirs.to_vec());
    }
    for input in ["0xZZ", "0x123456789012345678901234567890123", "00x1", "plain"] {
        assert!(AccountAddress::from_hex_literal(input).is_err());
        assert!(
            move_core_types::account_address::AccountAddress::from_hex_literal(input).is_err()
        );
    }
}

#[test]
fn wrapper_carries_the_resolved_address() {
    let wrapper = AccountAddressWrapper::from_arg("0x42").unwrap();
    assert_eq!(wrapper.account_address.as_bytes()[15], 0x42);
    assert!(AccountAddressWrapper::from_arg("oops").is_err());
}

use aptos_wasm::cli_error::CliError;
use aptos_wasm::move_package_dir::resolve_named_addresses;
use aptos_wasm::utils::parse_map;

const SYNTAX_MSG: &str = "Invalid syntax for map. Example: Name=Value,Name2=Value";

fn expect_syntax_error(input: &str) {
    match parse_map(input) {
        Err(CliError::CommandArgumentError(msg)) => assert_eq!(msg, SYNTAX_MSG),
        other => panic!("expected the fixed syntax error for {:?}, got {:?}", input, other),
    }
}

#[test]
fn parse_map_two_entries() {
    let pairs = parse_map("a=1,b=2").unwrap();
    assert_eq!(pairs.len(), 2);
    let keys: Vec<&str> = pairs.iter().map(|p| p.0.as_str()).collect();
    let values: Vec<&str> = pairs.iter().map(|p| p.1.as_str()).collect();
    assert!(keys.contains(&"a") && keys.contains(&"b"));
    assert!(values.contains(&"1") && values.contains(&"2"));
    for (k, v) in &pairs {
        match k.as_str() {
            "a" => assert_eq!(v, "1"),
            "b" => assert_eq!(v, "2"),
            other => panic!("unexpected key {}", other),
        }
    }
}

#[test]
fn parse_map_trailing_comma_fails() {
    expect_syntax_error("a=1,");
}

#[test]
fn parse_map_empty_value_fails() {
    expect_syntax_error("a=,b=2");
}

#[test]
fn parse_map_double_equals_fails() {
    expect_syntax_error("a=1=2");
}

#[test]
fn parse_map_empty_input_is_empty_table() {
    let pairs = parse_map("").unwrap();
    assert!(pairs.is_empty());
}

#[test]
fn parse_map_trims_whitespace() {
    let pairs = parse_map(" alice = 0x1 , bob = 0x2 ").unwrap();
    assert_eq!(pairs.len(), 2);
    assert_eq!(pairs[0], ("alice".to_string(), "0x1".to_string()));
    assert_eq!(pairs[1], ("bob".to_string(), "0x2".to_string()));
}

#[test]
fn parse_map_missing_equals_fails() {
    expect_syntax_error("justakey");
    expect_syntax_error("a=1,b");
}

#[test]
fn resolve_named_addresses_resolves_values() {
    let pairs = parse_map("alice=0x1,bob=0x2").unwrap();
    let table = resolve_named_addresses(&pairs).unwrap();
    assert_eq!(table.len(), 2);
    for (name, wrapper) in &table {
        let bytes = wrapper.account_address.as_bytes();
        assert_eq!(bytes.len(), 16);
        match name.as_str() {
            "alice" => assert_eq!(bytes[15], 1),
            "bob" => assert_eq!(bytes[15], 2),
            other => panic!("unexpected name {}", other),
        }
    }
}

#[test]
fn resolve_named_addresses_is_all_or_nothing() {
    let pairs = parse_map("alice=0x1,bob=nonsense").unwrap();
    match resolve_named_addresses(&pairs) {
        Err(CliError::CommandArgumentError(_)) => {}
        other => panic!("expected a command-argument error, got {:?}", other),
    }
}

#[test]
fn resolve_named_addresses_last_duplicate_wins() {
    let pairs = parse_map("a=0x1,a=0x2").unwrap();
    let table = resolve_named_addresses(&pairs).unwrap();
    assert_eq!(table.len(), 1);
    assert_eq!(table[0].0, "a");
    assert_eq!(table[0].1.account_address.as_bytes()[15], 2);
}

use br_primitives::contracts::{AggregatorContracts, InvalidContractAddress, ProtocolContracts};

const MIXED: &str = "0xAbCdEf0123456789aBcDeF0123456789AbCdEf01";
const MIXED_BYTES: [u8; 20] = [
	0xab, 0xcd, 0xef, 0x01, 0x23, 0x45, 0x67, 0x89, 0xab, 0xcd, 0xef, 0x01, 0x23, 0x45, 0x67, 0x89,
	0xab, 0xcd, 0xef, 0x01,
];

fn repeated(byte: &str, n: usize) -> String {
	format!("0x{}", byte.repeat(n))
}

#[test]
fn protocol_contracts_resolve_addresses() {
	let c = ProtocolContracts::new(
		repeated("11", 20),
		MIXED.to_string(),
		"2222222222222222222222222222222222222222".to_string(),
		None,
	)
	.unwrap();
	assert_eq!(c.socket, [0x11; 20]);
	assert_eq!(c.vault, MIXED_BYTES);
	assert_eq!(c.authority, [0x22; 20]);
	assert_eq!(c.relayer_manager, None);
}

#[test]
fn protocol_contracts_optional_relayer_manager() {
	let c = ProtocolContracts::new(
		repeated("11", 20),
		repeated("22", 20),
		repeated("33", 20),
		Some(repeated("44", 20)),
	)
	.unwrap();
	assert_eq!(c.relayer_manager, Some([0x44; 20]));
}

#[test]
fn nineteen_byte_address_fails() {
	let r = ProtocolContracts::new(repeated("11", 19), repeated("22", 20), repeated("33", 20), None);
	assert!(matches!(r, Err(InvalidContractAddress)));
}

#[test]
fn twenty_one_byte_address_fails() {
	let r = ProtocolContracts::new(repeated("11", 20), repeated("22", 21), repeated("33", 20), None);
	assert!(matches!(r, Err(InvalidContractAddress)));
}

#[test]
fn non_hex_address_fails() {
	let bad = format!("0x{}zz", "11".repeat(19));
	let r = ProtocolContracts::new(repeated("11", 20), repeated("22", 20), bad, None);
	assert!(matches!(r, Err(InvalidContractAddress)));
}

#[test]
fn malformed_optional_address_fails() {
	let r = ProtocolContracts::new(
		repeated("11", 20),
		repeated("22", 20),
		repeated("33", 20),
		Some("0x1234".to_string()),
	);
	assert!(matches!(r, Err(InvalidContractAddress)));
}

#[test]
fn upper_case_prefix_is_not_stripped() {
	let bad = format!("0X{}", "11".repeat(20));
	let r = ProtocolContracts::new(bad, repeated("22", 20), repeated("33", 20), None);
	assert!(matches!(r, Err(InvalidContractAddress)));
}

#[test]
fn aggregator_contracts_resolve_given_addresses() {
	let c = AggregatorContracts::new(Some(repeated("aa", 20)), None, Some(MIXED.to_string()))
		.unwrap();
	assert_eq!(c.chainlink_usdc_usd, Some([0xaa; 20]));
	assert_eq!(c.chainlink_usdt_usd, None);
	assert_eq!(c.chainlink_dai_usd, Some(MIXED_BYTES));
	let none = AggregatorContracts::new(None, None, None).unwrap();
	assert!(none.chainlink_usdc_usd.is_none() && none.chainlink_dai_usd.is_none());
}

#[test]
fn aggregator_contracts_fail_on_any_bad_address() {
	let r = AggregatorContracts::new(None, Some(repeated("11", 19)), None);
	assert!(matches!(r, Err(InvalidContractAddress)));
	let r = AggregatorContracts::new(Some("not an address".to_string()), None, None);
	assert!(matches!(r, Err(InvalidContractAddress)));
}

#[test]
fn blanks_between_digits_are_skipped() {
	let spaced = format!("0x{} \n\t{}\r", "11".repeat(10), "22".repeat(10));
	let c = ProtocolContracts::new(spaced, repeated("22", 20), repeated("33", 20), None).unwrap();
	let mut expected = [0x11u8; 20];
	expected[10..].fill(0x22);
	assert_eq!(c.socket, expected);
	let leading = format!(" 0x{}", "11".repeat(20));
	let r = ProtocolContracts::new(leading, repeated("22", 20), repeated("33", 20), None);
	assert!(matches!(r, Err(InvalidContractAddress)));
}

use std::cmp::Ordering;

use br_primitives::status::{RoundUpEventStatus, SocketEventStatus, UnknownEventStatus};

const SOCKET_ORDER: [SocketEventStatus; 8] = [
	SocketEventStatus::Requested,
	SocketEventStatus::Failed,
	SocketEventStatus::Executed,
	SocketEventStatus::Reverted,
	SocketEventStatus::Accepted,
	SocketEventStatus::Rejected,
	SocketEventStatus::Committed,
	SocketEventStatus::Rollbacked,
];

#[test]
fn socket_codes_round_trip() {
	for code in 1u8..=8 {
		let status = SocketEventStatus::from_u8(code).unwrap();
		assert_eq!(u8::from(status), code);
	}
}

#[test]
fn socket_codes_decode_to_their_variants() {
	for (i, expected) in SOCKET_ORDER.iter().enumerate() {
		assert_eq!(SocketEventStatus::from_u8(i as u8 + 1), Ok(*expected));
	}
}

#[test]
fn roundup_codes_decode() {
	assert_eq!(RoundUpEventStatus::from_u8(9), Ok(RoundUpEventStatus::NextAuthorityRelayed));
	assert_eq!(RoundUpEventStatus::from_u8(10), Ok(RoundUpEventStatus::NextAuthorityCommitted));
}

#[test]
fn codes_outside_each_range_fail() {
	for code in 0u8..=255 {
		let socket = SocketEventStatus::from_u8(code);
		let roundup = RoundUpEventStatus::from_u8(code);
		if (1..=8).contains(&code) {
			assert!(socket.is_ok());
			assert_eq!(roundup, Err(UnknownEventStatus::RoundUp(code)));
		} else if (9..=10).contains(&code) {
			assert!(roundup.is_ok());
			assert_eq!(socket, Err(UnknownEventStatus::Socket(code)));
		} else {
			assert_eq!(socket, Err(UnknownEventStatus::Socket(code)));
			assert_eq!(roundup, Err(UnknownEventStatus::RoundUp(code)));
		}
	}
}

#[test]
fn zero_and_max_codes_fail() {
	assert_eq!(SocketEventStatus::from_u8(0), Err(UnknownEventStatus::Socket(0)));
	assert_eq!(SocketEventStatus::from_u8(255), Err(UnknownEventStatus::Socket(255)));
	assert_eq!(RoundUpEventStatus::from_u8(11), Err(UnknownEventStatus::RoundUp(11)));
	assert_eq!(RoundUpEventStatus::from_u8(8), Err(UnknownEventStatus::RoundUp(8)));
}

#[test]
fn socket_order_is_pairwise_by_code() {
	for i in 0..SOCKET_ORDER.len() {
		for j in 0..SOCKET_ORDER.len() {
			let (a, b) = (SOCKET_ORDER[i], SOCKET_ORDER[j]);
			assert_eq!(a < b, i < j);
			assert_eq!(a > b, i > j);
			assert_eq!(a.partial_cmp(&b), Some(i.cmp(&j)));
		}
	}
}

#[test]
fn socket_order_adjacent_pairs() {
	assert!(SocketEventStatus::Requested < SocketEventStatus::Failed);
	assert!(SocketEventStatus::Failed < SocketEventStatus::Executed);
	assert!(SocketEventStatus::Executed < SocketEventStatus::Reverted);
	assert!(SocketEventStatus::Reverted < SocketEventStatus::Accepted);
	assert!(SocketEventStatus::Accepted < SocketEventStatus::Rejected);
	assert!(SocketEventStatus::Rejected < SocketEventStatus::Committed);
	assert!(SocketEventStatus::Committed < SocketEventStatus::Rollbacked);
	assert_eq!(
		SocketEventStatus::Committed.partial_cmp(&SocketEventStatus::Committed),
		Some(Ordering::Equal)
	);
}

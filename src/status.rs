//! The two event status models decoded from on-chain status codes.
//!
//! Bridge request statuses use the codes 1 to 8 and authority rotation
//! statuses the codes 9 and 10; the two ranges never overlap.
use vstd::prelude::*;
use std::cmp::Ordering;

verus! {

/// The status of a bridge request as recorded by the socket contract.
///
/// The order of the variants is the order of their codes, and consumers
/// rely on it to tell forward progress from a regression.
#[derive(Clone, Copy, Debug, PartialEq, Eq, Structural)]
pub enum SocketEventStatus {
    Requested,
    Failed,
    Executed,
    Reverted,
    Accepted,
    Rejected,
    Committed,
    Rollbacked,
}

/// The progress of one authority set rotation.
#[derive(Clone, Copy, Debug, PartialEq, Eq, Structural)]
pub enum RoundUpEventStatus {
    /// A relayer has relayed a `RoundUp` event, but the quorum is not reached yet.
    NextAuthorityRelayed,
    /// A relayer has relayed a `RoundUp` event and the quorum has been reached.
    NextAuthorityCommitted,
}

/// A status code that lies outside the range of the model it was decoded for.
#[derive(Clone, Copy, Debug, PartialEq, Eq, Structural)]
pub enum UnknownEventStatus {
    /// The code is not one of the bridge request codes 1 to 8.
    Socket(u8),
    /// The code is not one of the authority rotation codes 9 and 10.
    RoundUp(u8),
}

/// The wire code of a bridge request status.
pub open spec fn socket_code(s: SocketEventStatus) -> u8 {
    match s {
        SocketEventStatus::Requested => 1,
        SocketEventStatus::Failed => 2,
        SocketEventStatus::Executed => 3,
        SocketEventStatus::Reverted => 4,
        SocketEventStatus::Accepted => 5,
        SocketEventStatus::Rejected => 6,
        SocketEventStatus::Committed => 7,
        SocketEventStatus::Rollbacked => 8,
    }
}

/// The wire code of an authority rotation status.
pub open spec fn roundup_code(s: RoundUpEventStatus) -> u8 {
    match s {
        RoundUpEventStatus::NextAuthorityRelayed => 9,
        RoundUpEventStatus::NextAuthorityCommitted => 10,
    }
}

pub open spec fn is_socket_code(code: u8) -> bool {
    1 <= code <= 8
}

pub open spec fn is_roundup_code(code: u8) -> bool {
    9 <= code <= 10
}

impl RoundUpEventStatus {
    /// Decodes an authority rotation status code; any code but 9 and 10 is refused.
    pub fn from_u8(status: u8) -> (r: Result<Self, UnknownEventStatus>)
        ensures
            r is Ok <==> is_roundup_code(status),
            r matches Ok(s) ==> roundup_code(s) == status,
            r is Err ==> r == Err::<Self, UnknownEventStatus>(UnknownEventStatus::RoundUp(status)),
    {
        match status {
            9 => Ok(RoundUpEventStatus::NextAuthorityRelayed),
            10 => Ok(RoundUpEventStatus::NextAuthorityCommitted),
            _ => Err(UnknownEventStatus::RoundUp(status)),
        }
    }
}

impl SocketEventStatus {
    /// Decodes a bridge request status code; any code outside 1 to 8 is refused.
    pub fn from_u8(status: u8) -> (r: Result<Self, UnknownEventStatus>)
        ensures
            r is Ok <==> is_socket_code(status),
            r matches Ok(s) ==> socket_code(s) == status,
            r is Err ==> r == Err::<Self, UnknownEventStatus>(UnknownEventStatus::Socket(status)),
    {
        match status {
            1 => Ok(SocketEventStatus::Requested),
            2 => Ok(SocketEventStatus::Failed),
            3 => Ok(SocketEventStatus::Executed),
            4 => Ok(SocketEventStatus::Reverted),
            5 => Ok(SocketEventStatus::Accepted),
            6 => Ok(SocketEventStatus::Rejected),
            7 => Ok(SocketEventStatus::Committed),
            8 => Ok(SocketEventStatus::Rollbacked),
            _ => Err(UnknownEventStatus::Socket(status)),
        }
    }
}

impl From<SocketEventStatus> for u8 {
    fn from(status: SocketEventStatus) -> (r: u8)
        ensures
            r == socket_code(status),
    {
        match status {
            SocketEventStatus::Requested => 1,
            SocketEventStatus::Failed => 2,
            SocketEventStatus::Executed => 3,
            SocketEventStatus::Reverted => 4,
            SocketEventStatus::Accepted => 5,
            SocketEventStatus::Rejected => 6,
            SocketEventStatus::Committed => 7,
            SocketEventStatus::Rollbacked => 8,
        }
    }
}

impl vstd::std_specs::convert::FromSpecImpl<SocketEventStatus> for u8 {
    open spec fn obeys_from_spec() -> bool {
        true
    }

    open spec fn from_spec(v: SocketEventStatus) -> u8 {
        socket_code(v)
    }
}

/// How two bridge request statuses compare: by their codes.
pub open spec fn socket_order(a: SocketEventStatus, b: SocketEventStatus) -> Option<Ordering> {
    if socket_code(a) < socket_code(b) {
        Some(Ordering::Less)
    } else if socket_code(a) > socket_code(b) {
        Some(Ordering::Greater)
    } else {
        Some(Ordering::Equal)
    }
}

impl PartialOrd for SocketEventStatus {
    fn partial_cmp(&self, other: &SocketEventStatus) -> (r: Option<Ordering>)
        ensures
            r == socket_order(*self, *other),
    {
        let a: u8 = u8::from(*self);
        let b: u8 = u8::from(*other);
        if a < b {
            Some(Ordering::Less)
        } else if a > b {
            Some(Ordering::Greater)
        } else {
            Some(Ordering::Equal)
        }
    }
}

impl vstd::std_specs::cmp::PartialOrdSpecImpl for SocketEventStatus {
    open spec fn obeys_partial_cmp_spec() -> bool {
        true
    }

    open spec fn partial_cmp_spec(&self, other: &SocketEventStatus) -> Option<Ordering> {
        socket_order(*self, *other)
    }
}

/// Every bridge request status has a code in 1 to 8, every code in 1 to 8
/// belongs to a status, and no two statuses share a code: decoding a code in
/// that range and converting the status back gives the code again.
pub proof fn lemma_socket_code_round_trip(code: u8, s: SocketEventStatus)
    ensures
        is_socket_code(socket_code(s)),
        is_socket_code(code) ==> exists|t: SocketEventStatus| socket_code(t) == code,
        forall|t: SocketEventStatus| socket_code(t) == socket_code(s) ==> t == s,
{
    if is_socket_code(code) {
        let t = if code == 1 {
            SocketEventStatus::Requested
        } else if code == 2 {
            SocketEventStatus::Failed
        } else if code == 3 {
            SocketEventStatus::Executed
        } else if code == 4 {
            SocketEventStatus::Reverted
        } else if code == 5 {
            SocketEventStatus::Accepted
        } else if code == 6 {
            SocketEventStatus::Rejected
        } else if code == 7 {
            SocketEventStatus::Committed
        } else {
            SocketEventStatus::Rollbacked
        };
        assert(socket_code(t) == code);
    }
}

/// The two code ranges are disjoint, and a code outside 1 to 10 belongs to
/// neither model: no code decodes in both, and such a code decodes in none.
pub proof fn lemma_status_code_ranges(code: u8)
    ensures
        !(is_socket_code(code) && is_roundup_code(code)),
        (code == 0 || code > 10) ==> !is_socket_code(code) && !is_roundup_code(code),
        forall|s: SocketEventStatus| !is_roundup_code(#[trigger] socket_code(s)),
        forall|s: RoundUpEventStatus| !is_socket_code(#[trigger] roundup_code(s)),
{
}

/// `a` comes strictly before `b` in the order of bridge request statuses.
pub open spec fn socket_before(a: SocketEventStatus, b: SocketEventStatus) -> bool {
    socket_order(a, b) == Some(Ordering::Less)
}

/// The statuses are ordered Requested, Failed, Executed, Reverted, Accepted,
/// Rejected, Committed, Rollbacked, and that order is strict and total.
pub proof fn lemma_socket_order()
    ensures
        socket_before(SocketEventStatus::Requested, SocketEventStatus::Failed),
        socket_before(SocketEventStatus::Failed, SocketEventStatus::Executed),
        socket_before(SocketEventStatus::Executed, SocketEventStatus::Reverted),
        socket_before(SocketEventStatus::Reverted, SocketEventStatus::Accepted),
        socket_before(SocketEventStatus::Accepted, SocketEventStatus::Rejected),
        socket_before(SocketEventStatus::Rejected, SocketEventStatus::Committed),
        socket_before(SocketEventStatus::Committed, SocketEventStatus::Rollbacked),
        forall|a: SocketEventStatus, b: SocketEventStatus, c: SocketEventStatus|
            #[trigger] socket_before(a, b) && #[trigger] socket_before(b, c) ==> socket_before(a, c),
        forall|a: SocketEventStatus| !#[trigger] socket_before(a, a),
        forall|a: SocketEventStatus, b: SocketEventStatus|
            a != b ==> #[trigger] socket_before(a, b) != #[trigger] socket_before(b, a),
{
    assert forall|a: SocketEventStatus, b: SocketEventStatus|
        a != b implies #[trigger] socket_before(a, b) != #[trigger] socket_before(b, a) by {
        lemma_socket_code_round_trip(socket_code(a), a);
    }
}

} // verus!

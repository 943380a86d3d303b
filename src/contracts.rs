//! Contract addresses of one chain, resolved from configured hex strings.
//!
//! Construction fails as a whole when any configured address is malformed,
//! so no partly resolved set of contracts is ever observable.
use vstd::prelude::*;
use std::str::FromStr;
use ethers::types::H160;

verus! {

/// A 20-byte account or contract address.
pub type Address = [u8; 20];

pub open spec fn is_hex_digit(c: char) -> bool {
    ('0' <= c <= '9') || ('a' <= c <= 'f') || ('A' <= c <= 'F')
}

/// The blanks that the hex reader skips.
pub open spec fn is_hex_blank(c: char) -> bool {
    c == ' ' || c == '\r' || c == '\n' || c == '\t'
}

pub open spec fn hex_value(c: char) -> int {
    if '0' <= c <= '9' {
        c as int - '0' as int
    } else if 'a' <= c <= 'f' {
        c as int - 'a' as int + 10
    } else {
        c as int - 'A' as int + 10
    }
}

/// The text without one leading `0x`, if it has one.
pub open spec fn strip_0x(s: Seq<char>) -> Seq<char> {
    if s.len() >= 2 && s[0] == '0' && s[1] == 'x' {
        s.subrange(2, s.len() as int)
    } else {
        s
    }
}

/// The hex digits of the text after the prefix, blanks left out.
pub open spec fn hex_digits(s: Seq<char>) -> Seq<char> {
    strip_0x(s).filter(|c: char| is_hex_digit(c))
}

/// The text holds a 20-byte address: after an optional `0x` only hex digits
/// and blanks, and exactly 40 digits.
pub open spec fn is_address_text(s: Seq<char>) -> bool {
    &&& forall|i: int|
        0 <= i < strip_0x(s).len() ==> is_hex_digit(#[trigger] strip_0x(s)[i]) || is_hex_blank(
            strip_0x(s)[i],
        )
    &&& hex_digits(s).len() == 40
}

/// The address that the text spells, two digits per byte, most significant first.
pub open spec fn address_bytes(s: Seq<char>) -> Seq<u8> {
    Seq::new(
        20,
        |k: int| (16 * hex_value(hex_digits(s)[2 * k]) + hex_value(hex_digits(s)[2 * k + 1])) as u8,
    )
}

/// Relies on `H160::from_str` (fixed-hash's `FromStr`, reading through
/// rustc-hex's `FromHexIter`): it strips one leading `0x`, skips blanks, and
/// accepts exactly 40 hex digits of either case, read big-endian; anything
/// else is an error.
#[verifier::external_body]
fn parse_address(s: &str) -> (r: Option<Address>)
    ensures
        r is Some <==> is_address_text(s@),
        r matches Some(a) ==> a@ == address_bytes(s@),
{
    H160::from_str(s).ok().map(|h| h.0)
}

/// A configured contract address that is not a 20-byte hex address.
#[derive(Clone, Copy, Debug, PartialEq, Eq, Structural)]
pub struct InvalidContractAddress;

/// The configured text, if any, holds an address.
pub open spec fn is_optional_address(o: Option<String>) -> bool {
    match o {
        Some(s) => is_address_text(s@),
        None => true,
    }
}

/// The address resolved from configured text, if any.
pub open spec fn resolves_to(r: Option<Address>, o: Option<String>) -> bool {
    match o {
        Some(s) => r matches Some(a) && a@ == address_bytes(s@),
        None => r is None,
    }
}

fn resolve(address: &String) -> (r: Result<Address, InvalidContractAddress>)
    ensures
        r is Ok <==> is_address_text(address@),
        r matches Ok(a) ==> a@ == address_bytes(address@),
{
    match parse_address(address.as_str()) {
        Some(a) => Ok(a),
        None => Err(InvalidContractAddress),
    }
}

fn resolve_optional(address: &Option<String>) -> (r: Result<Option<Address>, InvalidContractAddress>)
    ensures
        r is Ok <==> is_optional_address(*address),
        r matches Ok(a) ==> resolves_to(a, *address),
{
    match address {
        Some(s) => match resolve(s) {
            Ok(a) => Ok(Some(a)),
            Err(e) => Err(e),
        },
        None => Ok(None),
    }
}

/// The price aggregator contracts of a chain; a chain may host any of them.
pub struct AggregatorContracts {
    /// Chainlink usdc/usd aggregator
    pub chainlink_usdc_usd: Option<Address>,
    /// Chainlink usdt/usd aggregator
    pub chainlink_usdt_usd: Option<Address>,
    /// Chainlink dai/usd aggregator
    pub chainlink_dai_usd: Option<Address>,
}

impl AggregatorContracts {
    /// Resolves the configured aggregator addresses; fails if any given one is malformed.
    pub fn new(
        chainlink_usdc_usd_address: Option<String>,
        chainlink_usdt_usd_address: Option<String>,
        chainlink_dai_usd_address: Option<String>,
    ) -> (r: Result<Self, InvalidContractAddress>)
        ensures
            r is Ok <==> {
                &&& is_optional_address(chainlink_usdc_usd_address)
                &&& is_optional_address(chainlink_usdt_usd_address)
                &&& is_optional_address(chainlink_dai_usd_address)
            },
            r matches Ok(c) ==> {
                &&& resolves_to(c.chainlink_usdc_usd, chainlink_usdc_usd_address)
                &&& resolves_to(c.chainlink_usdt_usd, chainlink_usdt_usd_address)
                &&& resolves_to(c.chainlink_dai_usd, chainlink_dai_usd_address)
            },
    {
        let chainlink_usdc_usd = match resolve_optional(&chainlink_usdc_usd_address) {
            Ok(a) => a,
            Err(e) => return Err(e),
        };
        let chainlink_usdt_usd = match resolve_optional(&chainlink_usdt_usd_address) {
            Ok(a) => a,
            Err(e) => return Err(e),
        };
        let chainlink_dai_usd = match resolve_optional(&chainlink_dai_usd_address) {
            Ok(a) => a,
            Err(e) => return Err(e),
        };
        Ok(AggregatorContracts { chainlink_usdc_usd, chainlink_usdt_usd, chainlink_dai_usd })
    }
}

/// The protocol contracts of a chain.
pub struct ProtocolContracts {
    /// The socket contract.
    pub socket: Address,
    /// The vault contract.
    pub vault: Address,
    /// The authority contract.
    pub authority: Address,
    /// The relayer manager contract (native chain only).
    pub relayer_manager: Option<Address>,
}

impl ProtocolContracts {
    /// Resolves the configured protocol contract addresses; fails if any given
    /// one is malformed.
    pub fn new(
        socket_address: String,
        vault_address: String,
        authority_address: String,
        relayer_manager_address: Option<String>,
    ) -> (r: Result<Self, InvalidContractAddress>)
        ensures
            r is Ok <==> {
                &&& is_address_text(socket_address@)
                &&& is_address_text(vault_address@)
                &&& is_address_text(authority_address@)
                &&& is_optional_address(relayer_manager_address)
            },
            r matches Ok(c) ==> {
                &&& c.socket@ == address_bytes(socket_address@)
                &&& c.vault@ == address_bytes(vault_address@)
                &&& c.authority@ == address_bytes(authority_address@)
                &&& resolves_to(c.relayer_manager, relayer_manager_address)
            },
    {
        let socket = match resolve(&socket_address) {
            Ok(a) => a,
            Err(e) => return Err(e),
        };
        let vault = match resolve(&vault_address) {
            Ok(a) => a,
            Err(e) => return Err(e),
        };
        let authority = match resolve(&authority_address) {
            Ok(a) => a,
            Err(e) => return Err(e),
        };
        let relayer_manager = match resolve_optional(&relayer_manager_address) {
            Ok(a) => a,
            Err(e) => return Err(e),
        };
        Ok(ProtocolContracts { socket, vault, authority, relayer_manager })
    }
}

/// Text with the digits of only 19 bytes, or with a character that is neither
/// a hex digit nor a blank, is no address: a contract set configured with it
/// is not built.
pub proof fn lemma_malformed_address_rejected(s: Seq<char>)
    requires
        hex_digits(s).len() == 38 || exists|i: int|
            0 <= i < strip_0x(s).len() && !is_hex_digit(#[trigger] strip_0x(s)[i]) && !is_hex_blank(
                strip_0x(s)[i],
            ),
    ensures
        !is_address_text(s),
{
}

} // verus!

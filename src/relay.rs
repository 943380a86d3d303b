//! Relay transactions packaged for the sending pipeline.
use vstd::prelude::*;
use ethers::types::TransactionRequest;

verus! {

/// ethers' transaction request body, carried through unread.
#[verifier::external_type_specification]
#[verifier::external_body]
pub struct ExTransactionRequest(TransactionRequest);

/// The built relay transaction request.
#[derive(Debug)]
pub struct BuiltRelayTransaction {
    /// The raw transaction request body.
    pub tx_request: TransactionRequest,
    /// Whether the destination is an external chain.
    pub is_external: bool,
}

impl BuiltRelayTransaction {
    pub fn new(tx_request: TransactionRequest, is_external: bool) -> (r: Self)
        ensures
            r.tx_request == tx_request,
            r.is_external == is_external,
    {
        Self { tx_request, is_external }
    }
}

} // verus!

use vstd::prelude::*;

verus! {

/// Why an outbound call to another contract did not yield a value.
#[verifier::external_type_specification]
#[verifier::external_body]
pub struct ExPromiseError(near_sdk::PromiseError);

/// The metadata descriptor of a fungible token contract.
#[verifier::external_type_specification]
#[verifier::external_body]
pub struct ExFungibleTokenMetadata(near_contract_standards::fungible_token::metadata::FungibleTokenMetadata);

/// The one failure of a proxied call: the token contract could not be reached,
/// failed, or answered with something unreadable. The invocation is aborted.
#[derive(Debug, PartialEq, Eq, Structural)]
pub enum RemoteCallFailure {
    TokenContractUnreachable,
}

/// The method called on the token contract, with its arguments.
#[derive(Debug, PartialEq, Eq)]
pub enum FtRequest {
    Metadata,
    BalanceOf { account_id: String },
    Transfer { receiver_id: String, amount: String },
}

/// The method of this contract that the host runs once the outbound call settles.
#[derive(Debug, PartialEq, Eq, Structural)]
pub enum Continuation {
    MetadataCallback,
    BalanceOfCallback,
    TransferCallback,
}

/// An outbound call to the token contract together with the continuation that
/// receives its result: what the host is asked to schedule.
#[derive(Debug)]
pub struct OutboundCall {
    pub token_account: near_sdk::AccountId,
    pub request: FtRequest,
    /// Deposit attached to the call, in yoctoNEAR.
    pub attached_deposit: u128,
    pub continuation: Continuation,
}

/// The deposit that a transfer on the token contract asks for, in yoctoNEAR.
pub const TRANSFER_DEPOSIT: u128 = 1;

/// Forwards the result of a settled outbound call, or reports the failure
/// that aborts the invocation.
pub fn settle<T>(call_result: Result<T, near_sdk::PromiseError>) -> (r: Result<T, RemoteCallFailure>)
    ensures
        call_result is Ok ==> r == Ok::<T, RemoteCallFailure>(call_result->Ok_0),
        call_result is Err ==> r == Err::<T, RemoteCallFailure>(RemoteCallFailure::TokenContractUnreachable),
{
    match call_result {
        Ok(v) => Ok(v),
        Err(_) => Err(RemoteCallFailure::TokenContractUnreachable),
    }
}

} // verus!

use vstd::prelude::*;
use crate::account::{parse_account_id, valid_account_id};
use crate::proxy::{
    settle, Continuation, FtRequest, OutboundCall, RemoteCallFailure, TRANSFER_DEPOSIT,
};
use near_contract_standards::fungible_token::metadata::FungibleTokenMetadata;
use near_sdk::{AccountId, PromiseError};

verus! {

/// The greeting of a freshly deployed contract.
pub const DEFAULT_MESSAGE: &'static str = "Hello";

/// The token contract that a freshly deployed contract forwards to.
pub const DEFAULT_TOKEN_ACCOUNT: &'static str = "dev-1661607508862-21282125247023";

/// The persisted state: the token contract calls are forwarded to, and the greeting.
pub struct Contract {
    pub my_ft_account: AccountId,
    pub message: String,
}

/// What a contract state holds, as mathematical values.
pub struct ContractModel {
    pub token_account: AccountId,
    pub message: Seq<char>,
}

impl ContractModel {
    /// The greeting that a reader observes.
    pub open spec fn greeting(self) -> Seq<char> {
        self.message
    }

    /// The state after the greeting is replaced by `m`.
    pub open spec fn set_greeting(self, m: Seq<char>) -> ContractModel {
        ContractModel { token_account: self.token_account, message: m }
    }
}

impl View for Contract {
    type V = ContractModel;

    open spec fn view(&self) -> ContractModel {
        ContractModel { token_account: self.my_ft_account, message: self.message@ }
    }
}

impl Default for Contract {
    fn default() -> (r: Contract)
        ensures
            r@.greeting() == DEFAULT_MESSAGE@,
    {
        proof {
            reveal_strlit("dev-1661607508862-21282125247023");
        }
        assert(valid_account_id(DEFAULT_TOKEN_ACCOUNT@));
        let account = parse_account_id(DEFAULT_TOKEN_ACCOUNT);
        match account {
            Ok(a) => Contract { my_ft_account: a, message: DEFAULT_MESSAGE.to_owned() },
            Err(_) => unreached(),
        }
    }
}

impl Contract {
    /// The stored greeting.
    pub fn get_greeting(&self) -> (r: String)
        ensures
            r@ == self@.greeting(),
    {
        self.message.clone()
    }

    /// Replaces the greeting; the token account stays as it was.
    pub fn set_greeting(&mut self, message: String)
        ensures
            final(self)@ == old(self)@.set_greeting(message@),
    {
        self.message = message;
    }

    /// Asks the token contract for its metadata, to be received by
    /// `get_metadata_callback`.
    pub fn get_metadata(&self) -> (r: OutboundCall)
        ensures
            r.token_account == self.my_ft_account,
            r.request == FtRequest::Metadata,
            r.attached_deposit == 0,
            r.continuation == Continuation::MetadataCallback,
    {
        OutboundCall {
            token_account: self.my_ft_account.clone(),
            request: FtRequest::Metadata,
            attached_deposit: 0,
            continuation: Continuation::MetadataCallback,
        }
    }

    /// Returns the metadata that the token contract answered with, or the
    /// failure that aborts the invocation.
    pub fn get_metadata_callback(
        &self,
        call_result: Result<FungibleTokenMetadata, PromiseError>,
    ) -> (r: Result<FungibleTokenMetadata, RemoteCallFailure>)
        ensures
            call_result is Ok ==> r == Ok::<FungibleTokenMetadata, RemoteCallFailure>(
                call_result->Ok_0,
            ),
            call_result is Err ==> r == Err::<FungibleTokenMetadata, RemoteCallFailure>(
                RemoteCallFailure::TokenContractUnreachable,
            ),
    {
        settle(call_result)
    }

    /// Asks the token contract for the balance of `account_id`, to be received
    /// by `get_balance_of_callback`.
    pub fn get_balance_of(&self, account_id: String) -> (r: OutboundCall)
        ensures
            r.token_account == self.my_ft_account,
            r.request == (FtRequest::BalanceOf { account_id }),
            r.attached_deposit == 0,
            r.continuation == Continuation::BalanceOfCallback,
    {
        OutboundCall {
            token_account: self.my_ft_account.clone(),
            request: FtRequest::BalanceOf { account_id },
            attached_deposit: 0,
            continuation: Continuation::BalanceOfCallback,
        }
    }

    /// Returns the balance string that the token contract answered with,
    /// unchanged, or the failure that aborts the invocation.
    pub fn get_balance_of_callback(&self, call_result: Result<String, PromiseError>) -> (r: Result<
        String,
        RemoteCallFailure,
    >)
        ensures
            call_result is Ok ==> r == Ok::<String, RemoteCallFailure>(call_result->Ok_0),
            call_result is Err ==> r == Err::<String, RemoteCallFailure>(
                RemoteCallFailure::TokenContractUnreachable,
            ),
    {
        settle(call_result)
    }

    /// Asks the token contract to move `amount` to `receiver_id`, with the
    /// deposit that a transfer asks for, to be received by `transfer_callback`.
    /// The state is left as it was.
    pub fn transfer(&mut self, receiver_id: String, amount: String) -> (r: OutboundCall)
        ensures
            *final(self) == *old(self),
            r.token_account == old(self).my_ft_account,
            r.request == (FtRequest::Transfer { receiver_id, amount }),
            r.attached_deposit == TRANSFER_DEPOSIT,
            r.continuation == Continuation::TransferCallback,
    {
        OutboundCall {
            token_account: self.my_ft_account.clone(),
            request: FtRequest::Transfer { receiver_id, amount },
            attached_deposit: TRANSFER_DEPOSIT,
            continuation: Continuation::TransferCallback,
        }
    }

    /// Reports a settled transfer: `true` when the token contract accepted it,
    /// else the failure that aborts the invocation. The state is left as it
    /// was, and `false` is never returned.
    pub fn transfer_callback(&mut self, call_result: Result<(), PromiseError>) -> (r: Result<
        bool,
        RemoteCallFailure,
    >)
        ensures
            *final(self) == *old(self),
            call_result is Ok ==> r == Ok::<bool, RemoteCallFailure>(true),
            call_result is Err ==> r == Err::<bool, RemoteCallFailure>(
                RemoteCallFailure::TokenContractUnreachable,
            ),
            r != Ok::<bool, RemoteCallFailure>(false),
    {
        match settle(call_result) {
            Ok(()) => Ok(true),
            Err(e) => Err(e),
        }
    }
}

/// Reading the greeting right after setting it to `x` gives `x`, whatever
/// `x` is, the empty string included.
pub proof fn lemma_set_then_get(c: ContractModel, x: Seq<char>)
    ensures
        c.set_greeting(x).greeting() == x,
{
}

/// Setting the greeting twice leaves the state that the second setting alone
/// would have left: only the last value can be observed.
pub proof fn lemma_last_set_wins(c: ContractModel, x: Seq<char>, y: Seq<char>)
    ensures
        c.set_greeting(x).set_greeting(y) == c.set_greeting(y),
        c.set_greeting(x).set_greeting(y).greeting() == y,
{
}

/// Setting the greeting never changes the token account.
pub proof fn lemma_set_keeps_token_account(c: ContractModel, x: Seq<char>)
    ensures
        c.set_greeting(x).token_account == c.token_account,
{
}

} // verus!

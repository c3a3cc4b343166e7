use greeter::contract::{Contract, DEFAULT_MESSAGE, DEFAULT_TOKEN_ACCOUNT};
use greeter::proxy::{settle, Continuation, FtRequest, RemoteCallFailure, TRANSFER_DEPOSIT};
use near_contract_standards::fungible_token::metadata::FungibleTokenMetadata;
use near_sdk::PromiseError;

fn sample_metadata() -> FungibleTokenMetadata {
    FungibleTokenMetadata {
        spec: "ft-1.0.0".to_string(),
        name: "Example".to_string(),
        symbol: "EXM".to_string(),
        icon: None,
        reference: None,
        reference_hash: None,
        decimals: 24,
    }
}

#[test]
fn get_default_greeting() {
    let contract = Contract::default();
    assert_eq!(contract.get_greeting(), "Hello".to_string());
}

#[test]
fn set_then_get_greeting() {
    let mut contract = Contract::default();
    contract.set_greeting("howdy".to_string());
    assert_eq!(contract.get_greeting(), "howdy".to_string());
}

#[test]
fn default_token_account_is_parsed_literal() {
    let contract = Contract::default();
    assert_eq!(contract.my_ft_account.as_str(), "dev-1661607508862-21282125247023");
    assert_eq!(contract.my_ft_account.as_str(), DEFAULT_TOKEN_ACCOUNT);
    assert_eq!(DEFAULT_MESSAGE, "Hello");
}

#[test]
fn set_empty_greeting() {
    let mut contract = Contract::default();
    contract.set_greeting(String::new());
    assert_eq!(contract.get_greeting(), "");
}

#[test]
fn set_greeting_with_control_characters() {
    let mut contract = Contract::default();
    contract.set_greeting("a\nb\t\u{0}c".to_string());
    assert_eq!(contract.get_greeting(), "a\nb\t\u{0}c");
}

#[test]
fn last_set_greeting_wins() {
    let mut contract = Contract::default();
    contract.set_greeting("first".to_string());
    contract.set_greeting("second".to_string());
    assert_eq!(contract.get_greeting(), "second");
    assert_eq!(contract.my_ft_account.as_str(), DEFAULT_TOKEN_ACCOUNT);
}

#[test]
fn metadata_call_targets_token_account() {
    let contract = Contract::default();
    let call = contract.get_metadata();
    assert_eq!(call.token_account, contract.my_ft_account);
    assert_eq!(call.request, FtRequest::Metadata);
    assert_eq!(call.attached_deposit, 0);
    assert_eq!(call.continuation, Continuation::MetadataCallback);
}

#[test]
fn metadata_callback_forwards_success() {
    let contract = Contract::default();
    let r = contract.get_metadata_callback(Ok(sample_metadata()));
    match r {
        Ok(m) => {
            assert_eq!(m.symbol, "EXM");
            assert_eq!(m.decimals, 24);
        }
        Err(_) => panic!("expected the metadata"),
    }
}

#[test]
fn metadata_callback_aborts_on_error() {
    let contract = Contract::default();
    let r = contract.get_metadata_callback(Err(PromiseError::Failed));
    assert!(matches!(r, Err(RemoteCallFailure::TokenContractUnreachable)));
    assert_eq!(contract.get_greeting(), "Hello");
}

#[test]
fn balance_call_carries_account() {
    let contract = Contract::default();
    let call = contract.get_balance_of("alice.near".to_string());
    assert_eq!(call.token_account, contract.my_ft_account);
    assert_eq!(call.request, FtRequest::BalanceOf { account_id: "alice.near".to_string() });
    assert_eq!(call.attached_deposit, 0);
    assert_eq!(call.continuation, Continuation::BalanceOfCallback);
}

#[test]
fn balance_callback_returns_string_unchanged() {
    let contract = Contract::default();
    let r = contract.get_balance_of_callback(Ok("0012x".to_string()));
    assert_eq!(r, Ok("0012x".to_string()));
}

#[test]
fn balance_callback_aborts_on_error() {
    let contract = Contract::default();
    let r = contract.get_balance_of_callback(Err(PromiseError::Failed));
    assert_eq!(r, Err(RemoteCallFailure::TokenContractUnreachable));
    let r = contract.get_balance_of_callback(Err(PromiseError::TooLong(1 << 20)));
    assert_eq!(r, Err(RemoteCallFailure::TokenContractUnreachable));
}

#[test]
fn transfer_call_attaches_deposit() {
    let mut contract = Contract::default();
    let call = contract.transfer("bob.near".to_string(), "100".to_string());
    assert_eq!(call.token_account, contract.my_ft_account);
    assert_eq!(
        call.request,
        FtRequest::Transfer { receiver_id: "bob.near".to_string(), amount: "100".to_string() }
    );
    assert_eq!(call.attached_deposit, 1);
    assert_eq!(call.attached_deposit, TRANSFER_DEPOSIT);
    assert_eq!(call.continuation, Continuation::TransferCallback);
    assert_eq!(contract.get_greeting(), "Hello");
}

#[test]
fn transfer_callback_success_is_true() {
    let mut contract = Contract::default();
    assert_eq!(contract.transfer_callback(Ok(())), Ok(true));
    assert_eq!(contract.get_greeting(), "Hello");
}

#[test]
fn transfer_callback_aborts_on_error_without_mutation() {
    let mut contract = Contract::default();
    contract.set_greeting("kept".to_string());
    let r = contract.transfer_callback(Err(PromiseError::Failed));
    assert_eq!(r, Err(RemoteCallFailure::TokenContractUnreachable));
    assert_eq!(contract.get_greeting(), "kept");
    assert_eq!(contract.my_ft_account.as_str(), DEFAULT_TOKEN_ACCOUNT);
}

#[test]
fn settle_forwards_value_or_failure() {
    assert_eq!(settle::<u32>(Ok(7)), Ok(7));
    assert_eq!(settle::<u32>(Err(PromiseError::Failed)), Err(RemoteCallFailure::TokenContractUnreachable));
}

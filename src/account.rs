use vstd::prelude::*;

verus! {

/// A NEAR account identifier, validated on construction.
#[verifier::external_type_specification]
#[verifier::external_body]
pub struct ExAccountId(near_sdk::AccountId);

/// The error that parsing an account identifier reports.
#[verifier::external_type_specification]
#[verifier::external_body]
pub struct ExParseAccountError(near_sdk::account_id::ParseAccountError);

/// Shortest valid account identifier.
pub const MIN_ACCOUNT_LEN: usize = 2;

/// Longest valid account identifier.
pub const MAX_ACCOUNT_LEN: usize = 64;

/// Characters that stand for themselves in an account name.
pub open spec fn is_account_alnum(c: char) -> bool {
    ('a' <= c && c <= 'z') || ('0' <= c && c <= '9')
}

/// Characters that separate the parts of an account name.
pub open spec fn is_account_separator(c: char) -> bool {
    c == '-' || c == '_' || c == '.'
}

/// The syntax of an account identifier: 2 to 64 characters, each a lower case
/// letter, a digit or a separator, with no separator at either end and no two
/// separators side by side.
pub open spec fn valid_account_id(s: Seq<char>) -> bool {
    &&& MIN_ACCOUNT_LEN <= s.len() <= MAX_ACCOUNT_LEN
    &&& forall|i: int| 0 <= i < s.len() ==> is_account_alnum(#[trigger] s[i]) || is_account_separator(s[i])
    &&& !is_account_separator(s[0])
    &&& !is_account_separator(s[s.len() - 1])
    &&& forall|i: int| 0 <= i < s.len() - 1 ==> !(is_account_separator(#[trigger] s[i]) && is_account_separator(s[i + 1]))
}

/// Relies on `AccountId::from_str` of near-account-id (re-exported by near-sdk):
/// it accepts exactly the identifiers of the syntax above, and keeps no other.
#[verifier::external_body]
pub(crate) fn parse_account_id(s: &str) -> (r: Result<near_sdk::AccountId, near_sdk::account_id::ParseAccountError>)
    ensures
        r is Ok <==> valid_account_id(s@),
{
    <near_sdk::AccountId as std::str::FromStr>::from_str(s)
}

/// Relies on the derived `Clone` of `AccountId`, a copy of the identifier it holds.
pub assume_specification[ <near_sdk::AccountId as Clone>::clone ](a: &near_sdk::AccountId) -> (r: near_sdk::AccountId)
    ensures
        r == *a,
;

} // verus!

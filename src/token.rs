use vstd::prelude::*;

verus! {

/// `A`..=`Z` or `0`..=`9`.
pub open spec fn is_upper_or_digit(b: u8) -> bool {
    (65 <= b && b <= 90) || (48 <= b && b <= 57)
}

/// `a`..=`z` or `0`..=`9`.
pub open spec fn is_lower_or_digit(b: u8) -> bool {
    (97 <= b && b <= 122) || (48 <= b && b <= 57)
}

/// The dash between ticker and random part.
pub open spec fn dash() -> u8 {
    45
}

/// A well-formed ESDT token identifier: a ticker of 3 to 10 upper-case
/// letters or digits, a dash, and 6 lower-case letters or digits.
pub open spec fn valid_token_identifier(id: Seq<u8>) -> bool {
    let ticker_len = id.len() - 7;
    10 <= id.len() <= 17
        && (forall|i: int| 0 <= i < ticker_len ==> is_upper_or_digit(#[trigger] id[i]))
        && id[ticker_len] == dash()
        && (forall|i: int| ticker_len < i < id.len() ==> is_lower_or_digit(#[trigger] id[i]))
}

/// Relies on multiversx_chain_core::token_identifier_util::validate_token_identifier:
/// true exactly for a ticker of 3 to 10 upper-case letters or digits, a dash
/// and 6 lower-case letters or digits.
#[verifier::external_body]
pub(crate) fn validate_token_identifier(id: &Vec<u8>) -> (r: bool)
    ensures
        r == valid_token_identifier(id@),
{
    multiversx_sc::chain_core::token_identifier_util::validate_token_identifier(id.as_slice())
}

} // verus!

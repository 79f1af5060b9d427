//! Decisions of the user search, balance and ledger read use cases.

use vstd::prelude::*;
use crate::errors::{validation, validation_error, DomainError};
use crate::text::{chars_of, trim_bounds, trim_seq};

verus! {

/// Whether a search query is acceptable: not blank once trimmed, and at
/// most 32 characters as given.
pub open spec fn search_query_ok(query: Seq<char>) -> bool {
    trim_seq(query).len() > 0 && query.len() <= 32
}

/// Validates a username search query: a blank query, or one longer than 32
/// characters, is `Validation("query must be 1-32 characters")`.
pub fn validate_search_query(query: &str) -> (r: Result<(), DomainError>)
    ensures
        search_query_ok(query@) ==> r is Ok,
        !search_query_ok(query@) ==> (r matches Err(e) && validation(
            e,
            "query must be 1-32 characters"@,
        )),
{
    let cs = chars_of(query);
    let (a, b) = trim_bounds(&cs);
    if a == b || cs.len() > 32 {
        return Err(validation_error("query must be 1-32 characters"));
    }
    Ok(())
}

/// The account a balance or ledger read goes on with; a user without an
/// account is `AccountNotFound`.
pub fn require_account(found: Option<u128>) -> (r: Result<u128, DomainError>)
    ensures
        match found {
            Some(id) => r == Ok::<u128, DomainError>(id),
            None => r == Err::<u128, DomainError>(DomainError::AccountNotFound),
        },
{
    match found {
        Some(id) => Ok(id),
        None => Err(DomainError::AccountNotFound),
    }
}

} // verus!

//! The rules that a write must pass before anything changes: what is
//! validated, and who is authorised.
//!
//! Each rule reads a few plain values (a record, a holder, an approval)
//! and gives a verdict. The operations consult them before their first
//! write, so a refused call changes nothing.

use vstd::prelude::*;
use crate::record::{PassportRecord, PassportView};
use crate::types::{Address, Error, PassportStatus};

verus! {

/// A rule's verdict, for the error that it found or did not find.
pub open spec fn verdict(error: Option<Error>) -> Result<(), Error> {
    match error {
        Some(e) => Err(e),
        None => Ok(()),
    }
}

/// Why content with these strings is refused, if it is: the dataset
/// reference and the content type must not be empty.
pub open spec fn content_error(dataset_uri: Seq<char>, dataset_type: Seq<char>) -> Option<Error> {
    if dataset_uri.len() == 0 || dataset_type.len() == 0 {
        Some(Error::InvalidInput)
    } else {
        None
    }
}

/// Why `caller` cannot update the record found for a token, if it cannot.
pub open spec fn update_error(
    record: Option<PassportView>,
    caller: Address,
    dataset_uri: Seq<char>,
    dataset_type: Seq<char>,
) -> Option<Error> {
    match record {
        None => Some(Error::TokenNotFound),
        Some(record) => if record.issuer != caller {
            Some(Error::Unauthorized)
        } else if record.status == PassportStatus::Revoked {
            Some(Error::PassportRevoked)
        } else {
            content_error(dataset_uri, dataset_type)
        },
    }
}

/// Why `caller` cannot revoke the record found for a token, if it cannot.
pub open spec fn revoke_error(record: Option<PassportView>, caller: Address) -> Option<Error> {
    match record {
        None => Some(Error::TokenNotFound),
        Some(record) => if record.issuer != caller {
            Some(Error::Unauthorized)
        } else if record.status == PassportStatus::Revoked {
            Some(Error::AlreadyRevoked)
        } else {
            None
        },
    }
}

/// Why `caller` cannot approve `to` for a token with this holder, if it
/// cannot. `caller_is_operator` says whether the holder gave `caller` a
/// blanket approval.
pub open spec fn approve_error(
    owner: Option<Address>,
    caller: Address,
    to: Address,
    caller_is_operator: bool,
) -> Option<Error> {
    match owner {
        None => Some(Error::TokenNotFound),
        Some(owner) => if to == owner {
            Some(Error::NotAllowed)
        } else if caller != owner && !caller_is_operator {
            Some(Error::NotApproved)
        } else {
            None
        },
    }
}

/// Why `caller` cannot change its blanket approval for `operator`, if it
/// cannot: nobody names itself.
pub open spec fn operator_error(caller: Address, operator: Address) -> Option<Error> {
    if operator == caller {
        Some(Error::NotAllowed)
    } else {
        None
    }
}

/// Whether `caller` may move a token of `owner`: as the holder, as the
/// token's approved account, or as an operator of the holder.
pub open spec fn may_transfer(
    caller: Address,
    owner: Address,
    approved: Option<Address>,
    caller_is_operator: bool,
) -> bool {
    caller == owner || approved == Some(caller) || caller_is_operator
}

/// Why `caller` cannot transfer a token from `from`, if it cannot, given
/// the token's record, holder and approval.
pub open spec fn transfer_error(
    record: Option<PassportView>,
    owner: Option<Address>,
    from: Address,
    caller: Address,
    approved: Option<Address>,
    caller_is_operator: bool,
) -> Option<Error> {
    match record {
        None => Some(Error::TokenNotFound),
        Some(record) => if record.status == PassportStatus::Revoked {
            Some(Error::PassportRevoked)
        } else {
            match owner {
                None => Some(Error::TokenNotFound),
                Some(owner) => if owner != from {
                    Some(Error::NotOwner)
                } else if !may_transfer(caller, owner, approved, caller_is_operator) {
                    Some(Error::NotApproved)
                } else {
                    None
                },
            }
        },
    }
}

/// Validates the content of a registration or an update.
pub fn check_content(dataset_uri: &str, dataset_type: &str) -> (checked: Result<(), Error>)
    ensures
        checked == verdict(content_error(dataset_uri@, dataset_type@)),
{
    if dataset_uri.is_empty() || dataset_type.is_empty() {
        return Err(Error::InvalidInput);
    }
    Ok(())
}

/// Decides whether `caller` may update the record found for a token with
/// this content.
pub fn check_update(
    record: Option<&PassportRecord>,
    caller: Address,
    dataset_uri: &str,
    dataset_type: &str,
) -> (checked: Result<(), Error>)
    ensures
        checked == verdict(
            update_error(
                match record {
                    Some(r) => Some(r@),
                    None => None,
                },
                caller,
                dataset_uri@,
                dataset_type@,
            ),
        ),
{
    let record = match record {
        Some(record) => record,
        None => {
            return Err(Error::TokenNotFound);
        },
    };
    if record.issuer != caller {
        return Err(Error::Unauthorized);
    }
    // Cannot update revoked passports

    if record.status == PassportStatus::Revoked {
        return Err(Error::PassportRevoked);
    }
    check_content(dataset_uri, dataset_type)
}

/// Decides whether `caller` may revoke the record found for a token.
pub fn check_revoke(record: Option<&PassportRecord>, caller: Address) -> (checked: Result<
    (),
    Error,
>)
    ensures
        checked == verdict(
            revoke_error(
                match record {
                    Some(r) => Some(r@),
                    None => None,
                },
                caller,
            ),
        ),
{
    let record = match record {
        Some(record) => record,
        None => {
            return Err(Error::TokenNotFound);
        },
    };
    // Authorization: only the issuer
    if record.issuer != caller {
        return Err(Error::Unauthorized);
    }
    // Cannot revoke already revoked passports

    if record.status == PassportStatus::Revoked {
        return Err(Error::AlreadyRevoked);
    }
    Ok(())
}

/// Decides whether `caller` may approve `to` for a token with this holder.
pub fn check_approve(owner: Option<Address>, caller: Address, to: Address, caller_is_operator: bool) -> (checked:
    Result<(), Error>)
    ensures
        checked == verdict(approve_error(owner, caller, to, caller_is_operator)),
{
    let owner = match owner {
        Some(owner) => owner,
        None => {
            return Err(Error::TokenNotFound);
        },
    };
    if to == owner {
        return Err(Error::NotAllowed);
    }
    if caller != owner && !caller_is_operator {
        return Err(Error::NotApproved);
    }
    Ok(())
}

/// Decides whether `caller` may change its blanket approval for `operator`.
pub fn check_operator(caller: Address, operator: Address) -> (checked: Result<(), Error>)
    ensures
        checked == verdict(operator_error(caller, operator)),
{
    if operator == caller {
        return Err(Error::NotAllowed);
    }
    Ok(())
}

/// Whether `caller` may move a token of `owner`.
pub fn approved_or_owner(
    caller: Address,
    owner: Address,
    approved: Option<Address>,
    caller_is_operator: bool,
) -> (allowed: bool)
    ensures
        allowed == may_transfer(caller, owner, approved, caller_is_operator),
{
    if caller == owner {
        return true;
    }
    let is_approved = match approved {
        Some(approved) => approved == caller,
        None => false,
    };
    is_approved || caller_is_operator
}

/// Decides whether `caller` may transfer a token from `from`.
pub fn check_transfer(
    record: Option<&PassportRecord>,
    owner: Option<Address>,
    from: Address,
    caller: Address,
    approved: Option<Address>,
    caller_is_operator: bool,
) -> (checked: Result<(), Error>)
    ensures
        checked == verdict(
            transfer_error(
                match record {
                    Some(r) => Some(r@),
                    None => None,
                },
                owner,
                from,
                caller,
                approved,
                caller_is_operator,
            ),
        ),
{
    // Require an existing passport record (same lifecycle rules)
    let record = match record {
        Some(record) => record,
        None => {
            return Err(Error::TokenNotFound);
        },
    };
    if record.status == PassportStatus::Revoked {
        return Err(Error::PassportRevoked);
    }
    let owner = match owner {
        Some(owner) => owner,
        None => {
            return Err(Error::TokenNotFound);
        },
    };
    if owner != from {
        return Err(Error::NotOwner);
    }
    if !approved_or_owner(caller, owner, approved, caller_is_operator) {
        return Err(Error::NotApproved);
    }
    Ok(())
}

/// The count of a holder that gains a token: `InvalidInput` where it would
/// leave its range.
pub fn count_after_gain(count: u128) -> (counted: Result<u128, Error>)
    ensures
        counted == (if count < u128::MAX {
            Ok::<u128, Error>((count + 1) as u128)
        } else {
            Err::<u128, Error>(Error::InvalidInput)
        }),
{
    match count.checked_add(1) {
        Some(count) => Ok(count),
        None => Err(Error::InvalidInput),
    }
}

/// The count of a holder that loses a token: `InvalidInput` where it
/// counts none.
pub fn count_after_loss(count: u128) -> (counted: Result<u128, Error>)
    ensures
        counted == (if count > 0 {
            Ok::<u128, Error>((count - 1) as u128)
        } else {
            Err::<u128, Error>(Error::InvalidInput)
        }),
{
    match count.checked_sub(1) {
        Some(count) => Ok(count),
        None => Err(Error::InvalidInput),
    }
}

} // verus!

//! The access controller: a pure comparison of the calling identity
//! against the configured administrator.

use vstd::prelude::*;

use crate::account::AccountId;
use crate::property::Error;

verus! {

/// What authorization returns: success exactly when the caller is the
/// administrator, `Unauthorized` otherwise.
pub open spec fn authorize_spec(caller: Seq<u8>, admin: Seq<u8>) -> Result<(), Error> {
    if caller == admin {
        Ok(())
    } else {
        Err(Error::Unauthorized)
    }
}

/// Pure comparison, no side effects: fails with `Unauthorized` exactly when
/// `caller` is not `admin`.
pub fn authorize(caller: &AccountId, admin: &AccountId) -> (r: Result<(), Error>)
    ensures
        r == authorize_spec(caller@, admin@),
{
    if *caller == *admin {
        Ok(())
    } else {
        Err(Error::Unauthorized)
    }
}

} // verus!

use vstd::prelude::*;
use crate::error::Error;
use crate::identity::Identity;

verus! {

/// Self-authorization: the proven caller has to be the subject of the
/// operation.
pub open spec fn self_authorized(caller: Seq<char>, subject: Seq<char>) -> Result<(), Error> {
    if caller == subject {
        Ok(())
    } else {
        Err(Error::Unauthorized)
    }
}

/// Role-authorization: the proven caller has to be the stored administrative
/// principal. With no principal stored there is nothing to check against.
pub open spec fn role_authorized(caller: Seq<char>, principal: Option<Seq<char>>) -> Result<
    (),
    Error,
> {
    match principal {
        None => Err(Error::InvalidAdmin),
        Some(admin) => if caller == admin {
            Ok(())
        } else {
            Err(Error::Unauthorized)
        },
    }
}

/// Checks self-authorization. It reads and changes no state.
pub fn check_self(caller: &Identity, subject: &Identity) -> (verdict: Result<(), Error>)
    ensures
        verdict == self_authorized(caller@, subject@),
{
    if *caller == *subject {
        Ok(())
    } else {
        Err(Error::Unauthorized)
    }
}

/// Checks role-authorization against the stored principal, if there is one.
pub fn check_role(caller: &Identity, principal: Option<&Identity>) -> (verdict: Result<(), Error>)
    ensures
        verdict == role_authorized(
            caller@,
            match principal {
                Some(admin) => Some(admin@),
                None => None,
            },
        ),
{
    match principal {
        None => Err(Error::InvalidAdmin),
        Some(admin) => {
            if *caller == *admin {
                Ok(())
            } else {
                Err(Error::Unauthorized)
            }
        },
    }
}

} // verus!

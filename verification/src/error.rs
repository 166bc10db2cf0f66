use vstd::prelude::*;

verus! {

/// Why an operation was refused. The first violated precondition decides; a
/// refused operation leaves the registry as it was.
#[derive(Clone, Copy, Debug, PartialEq, Eq, Structural)]
pub enum Error {
    /// The entity, its configuration or the grantee is not there.
    NotFound,
    /// An entity of this kind is already registered for the identity, or the
    /// administrative principal is already named.
    AlreadyExists,
    /// The grantee already holds access.
    AlreadyAuthorized,
    /// The caller is not the identity that the operation asks for, or lacks
    /// the role or grant that it asks for.
    Unauthorized,
    /// A role check was asked for, but no administrative principal is stored
    /// to check against.
    InvalidAdmin,
}

} // verus!

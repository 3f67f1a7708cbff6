//! What the registry tells the outside world, and how it refuses a call.

use vstd::prelude::*;
use crate::ident::{NameKey, OwnerId};

verus! {

/// Recorded whenever a name is claimed.
#[derive(Clone, Copy, Debug, PartialEq, Eq)]
pub struct Register {
    pub name: NameKey,
    pub from: OwnerId,
}

/// Recorded whenever a name is moved to another key.
#[derive(Clone, Copy, Debug, PartialEq, Eq)]
pub struct EditUsername {
    pub old_name: NameKey,
    pub new_name: NameKey,
    pub from: OwnerId,
}

/// A notification, in the order in which the registry recorded it.
#[derive(Clone, Copy, Debug, PartialEq, Eq)]
pub enum Event {
    Register(Register),
    EditUsername(EditUsername),
}

/// Why the registry refused a call. Both are for the caller to correct;
/// neither changes what is stored.
#[derive(Clone, Copy, Debug, PartialEq, Eq, Structural)]
pub enum Error {
    /// The name is taken already.
    UsernameAlreadyExists,
    /// The caller does not own the name it wants to move.
    CallerIsNotOwner,
}

} // verus!

//! The registry as mathematics: its state, the two calls that change it, and
//! what each call does. The contracts of the executable registry are stated
//! over this.

use vstd::prelude::*;
use crate::event::{EditUsername, Error, Event, Register};
use crate::ident::{NameKey, OwnerId};

verus! {

/// Everything the registry holds.
pub struct RegistryState {
    /// Who owns which name. A key outside the domain is unclaimed.
    pub names: Map<NameKey, OwnerId>,
    /// The owner reported for unclaimed names.
    pub default_owner: OwnerId,
    /// The notifications recorded so far and not yet handed out, oldest first.
    pub events: Seq<Event>,
}

/// A call that may change the registry, with the identity of whoever makes it.
pub enum Call {
    Register { caller: OwnerId, name: NameKey },
    Rename { caller: OwnerId, old_name: NameKey, new_name: NameKey },
}

/// The state of a registry just made: no names, no notifications, and the
/// all-zero identity for unclaimed names.
pub open spec fn fresh() -> RegistryState {
    RegistryState { names: Map::empty(), default_owner: OwnerId::zero(), events: Seq::empty() }
}

/// The owner of `name`: the stored one, or the default owner for an
/// unclaimed name.
pub open spec fn resolve(s: RegistryState, name: NameKey) -> OwnerId {
    if s.names.contains_key(name) {
        s.names[name]
    } else {
        s.default_owner
    }
}

/// What the registry answers to `call` in state `s`.
///
/// A registration is refused when the name is taken. A rename is refused
/// when the caller is not the owner that `resolve` reports for the old key,
/// and always when the caller is the default owner: the default owner stands
/// for "nobody" and owns nothing that it could move.
pub open spec fn outcome(s: RegistryState, call: Call) -> Result<(), Error> {
    match call {
        Call::Register { caller, name } => if s.names.contains_key(name) {
            Err(Error::UsernameAlreadyExists)
        } else {
            Ok(())
        },
        Call::Rename { caller, old_name, new_name } => if caller == s.default_owner || resolve(
            s,
            old_name,
        ) != caller {
            Err(Error::CallerIsNotOwner)
        } else {
            Ok(())
        },
    }
}

/// The notification that `call` leaves behind when it succeeds.
pub open spec fn notice(call: Call) -> Event {
    match call {
        Call::Register { caller, name } => Event::Register(Register { name, from: caller }),
        Call::Rename { caller, old_name, new_name } => Event::EditUsername(
            EditUsername { old_name, new_name, from: caller },
        ),
    }
}

/// The names after `call` has succeeded. A rename drops the old key first and
/// then stores the new one, so a rename onto a taken key replaces its owner,
/// and a rename of a key onto itself keeps it.
pub open spec fn names_after(names: Map<NameKey, OwnerId>, call: Call) -> Map<NameKey, OwnerId> {
    match call {
        Call::Register { caller, name } => names.insert(name, caller),
        Call::Rename { caller, old_name, new_name } => names.remove(old_name).insert(
            new_name,
            caller,
        ),
    }
}

/// The state after `call`: a refused call leaves it as it was; an accepted
/// one updates the names and records one notification.
pub open spec fn step(s: RegistryState, call: Call) -> RegistryState {
    if outcome(s, call) is Ok {
        RegistryState {
            names: names_after(s.names, call),
            default_owner: s.default_owner,
            events: s.events.push(notice(call)),
        }
    } else {
        s
    }
}

/// The state after a series of calls, made one after the other.
pub open spec fn run(s: RegistryState, calls: Seq<Call>) -> RegistryState
    decreases calls.len(),
{
    if calls.len() == 0 {
        s
    } else {
        run(step(s, calls.first()), calls.drop_first())
    }
}

} // verus!

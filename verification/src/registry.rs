//! The registry itself: an owned state object, changed only through
//! `register` and `edit_username` and read through `get_address`.
//!
//! The identity of the caller is an argument of each changing call, and the
//! notifications of successful calls are kept in the registry until
//! `take_events` hands them out.
//!
//! `edit_username` does not ask whether the new key is taken: moving a name
//! onto a key that someone else holds makes the caller its owner. It always
//! refuses the default owner as a caller, so that an unclaimed key cannot be
//! moved and the default owner is not stored by a rename.

use vstd::prelude::*;
use crate::event::{EditUsername, Error, Event, Register};
use crate::ident::{NameKey, OwnerId};
use crate::model::{outcome, resolve, step, Call, RegistryState};
use crate::table::NameTable;

verus! {

/// A registry of names: which identity owns which name key.
pub struct UkeHumanDns {
    /// Who owns which name.
    username_to_id: NameTable,
    /// The owner reported for unclaimed names.
    default_address: OwnerId,
    /// Notifications of successful calls that were not handed out yet.
    events: Vec<Event>,
}

impl View for UkeHumanDns {
    type V = RegistryState;

    closed spec fn view(&self) -> RegistryState {
        RegistryState {
            names: self.username_to_id@,
            default_owner: self.default_address,
            events: self.events@,
        }
    }
}

impl UkeHumanDns {
    /// A registry without names, whose default owner is the all-zero identity.
    pub fn new() -> (registry: UkeHumanDns)
        ensures
            registry@ == crate::model::fresh(),
    {
        UkeHumanDns {
            username_to_id: NameTable::new(),
            default_address: OwnerId::default(),
            events: Vec::new(),
        }
    }

    /// The owner reported for unclaimed names.
    pub fn default_address(&self) -> (owner: OwnerId)
        ensures
            owner == self@.default_owner,
    {
        self.default_address
    }

    /// The owner of `name`, or the default owner where nobody holds it.
    pub fn get_address(&self, name: NameKey) -> (owner: OwnerId)
        ensures
            owner == resolve(self@, name),
    {
        self.get_address_or_default(name)
    }

    /// Claims `name` for `caller`.
    ///
    /// Refused with `UsernameAlreadyExists` exactly when the name is taken;
    /// the registry is then unchanged. Otherwise `caller` owns the name from
    /// now on and one `Register` notification is recorded.
    pub fn register(&mut self, caller: OwnerId, name: NameKey) -> (result: Result<(), Error>)
        ensures
            result == outcome(old(self)@, Call::Register { caller, name }),
            result == (if old(self)@.names.contains_key(name) {
                Err::<(), Error>(Error::UsernameAlreadyExists)
            } else {
                Ok::<(), Error>(())
            }),
            final(self)@ == step(old(self)@, Call::Register { caller, name }),
            result is Err ==> final(self)@ == old(self)@,
            result is Ok ==> final(self)@ == (RegistryState {
                names: old(self)@.names.insert(name, caller),
                default_owner: old(self)@.default_owner,
                events: old(self)@.events.push(Event::Register(Register { name, from: caller })),
            }),
    {
        if self.username_to_id.contains(&name) {
            return Err(Error::UsernameAlreadyExists);
        }
        self.username_to_id.insert(name, caller);
        self.events.push(Event::Register(Register { name, from: caller }));
        Ok(())
    }

    /// Moves the name under `old_name` to `new_name`, on behalf of `caller`.
    ///
    /// Refused with `CallerIsNotOwner` exactly when `caller` is the default
    /// owner or is not the owner that `get_address` reports for `old_name`;
    /// the registry is then unchanged. So an unclaimed key is never moved,
    /// and the default owner is never stored by a rename. Otherwise
    /// `old_name` is dropped, `new_name` belongs to `caller` whoever held it
    /// before, and one `EditUsername` notification is recorded.
    pub fn edit_username(&mut self, caller: OwnerId, old_name: NameKey, new_name: NameKey) -> (result:
        Result<(), Error>)
        ensures
            result == outcome(old(self)@, Call::Rename { caller, old_name, new_name }),
            result == (if caller == old(self)@.default_owner || resolve(old(self)@, old_name)
                != caller {
                Err::<(), Error>(Error::CallerIsNotOwner)
            } else {
                Ok::<(), Error>(())
            }),
            final(self)@ == step(old(self)@, Call::Rename { caller, old_name, new_name }),
            result is Err ==> final(self)@ == old(self)@,
            result is Ok ==> final(self)@ == (RegistryState {
                names: old(self)@.names.remove(old_name).insert(new_name, caller),
                default_owner: old(self)@.default_owner,
                events: old(self)@.events.push(
                    Event::EditUsername(EditUsername { old_name, new_name, from: caller }),
                ),
            }),
    {
        if caller == self.default_address || self.get_address_or_default(old_name) != caller {
            return Err(Error::CallerIsNotOwner);
        }
        self.username_to_id.remove(&old_name);
        self.username_to_id.insert(new_name, caller);
        self.events.push(Event::EditUsername(EditUsername { old_name, new_name, from: caller }));
        Ok(())
    }

    /// Hands out the notifications recorded since the last call of this
    /// function, oldest first, and forgets them. The names stay as they are.
    pub fn take_events(&mut self) -> (events: Vec<Event>)
        ensures
            events@ == old(self)@.events,
            final(self)@ == (RegistryState {
                names: old(self)@.names,
                default_owner: old(self)@.default_owner,
                events: Seq::empty(),
            }),
    {
        let mut events: Vec<Event> = Vec::new();
        core::mem::swap(&mut self.events, &mut events);
        events
    }

    /// The stored owner of `name`, or the default owner.
    fn get_address_or_default(&self, name: NameKey) -> (owner: OwnerId)
        ensures
            owner == resolve(self@, name),
    {
        match self.username_to_id.get(&name) {
            Some(owner) => owner,
            None => self.default_address,
        }
    }
}

} // verus!

//! What holds of the registry whatever calls are made, proved of the model
//! that the contracts of the executable registry are stated over.

use vstd::prelude::*;
use crate::event::Error;
use crate::ident::{NameKey, OwnerId};
use crate::model::{fresh, notice, outcome, resolve, run, step, Call, RegistryState};

verus! {

/// `call` is a registration of `key`.
pub open spec fn registers(call: Call, key: NameKey) -> bool {
    match call {
        Call::Register { caller, name } => name == key,
        Call::Rename { caller, old_name, new_name } => false,
    }
}

/// `call` is a rename that has `key` as its target.
pub open spec fn renames_onto(call: Call, key: NameKey) -> bool {
    match call {
        Call::Register { caller, name } => false,
        Call::Rename { caller, old_name, new_name } => new_name == key,
    }
}

/// `call` is a rename that takes `key` to another key.
pub open spec fn moves_away(call: Call, key: NameKey) -> bool {
    match call {
        Call::Register { caller, name } => false,
        Call::Rename { caller, old_name, new_name } => old_name == key && new_name != key,
    }
}

/// `call` is a rename that has `key` as its target and is made by someone
/// other than `owner`.
pub open spec fn takes_over(call: Call, key: NameKey, owner: OwnerId) -> bool {
    match call {
        Call::Register { caller, name } => false,
        Call::Rename { caller, old_name, new_name } => new_name == key && caller != owner,
    }
}

/// Some accepted call of the series, made from state `s` on, registers `key`.
pub open spec fn claimed(s: RegistryState, calls: Seq<Call>, key: NameKey) -> bool
    decreases calls.len(),
{
    calls.len() > 0 && ((outcome(s, calls.first()) is Ok && registers(calls.first(), key))
        || claimed(step(s, calls.first()), calls.drop_first(), key))
}

/// Some accepted call of the series, made from state `s` on, is a rename
/// onto `key`.
pub open spec fn renamed_onto(s: RegistryState, calls: Seq<Call>, key: NameKey) -> bool
    decreases calls.len(),
{
    calls.len() > 0 && ((outcome(s, calls.first()) is Ok && renames_onto(calls.first(), key))
        || renamed_onto(step(s, calls.first()), calls.drop_first(), key))
}

/// Some accepted call of the series, made from state `s` on, is a rename
/// that takes `key` to another key.
pub open spec fn moved_away(s: RegistryState, calls: Seq<Call>, key: NameKey) -> bool
    decreases calls.len(),
{
    calls.len() > 0 && ((outcome(s, calls.first()) is Ok && moves_away(calls.first(), key))
        || moved_away(step(s, calls.first()), calls.drop_first(), key))
}

/// Some accepted call of the series, made from state `s` on, is a rename
/// onto `key` by someone other than `owner`.
pub open spec fn taken_over(
    s: RegistryState,
    calls: Seq<Call>,
    key: NameKey,
    owner: OwnerId,
) -> bool
    decreases calls.len(),
{
    calls.len() > 0 && ((outcome(s, calls.first()) is Ok && takes_over(calls.first(), key, owner))
        || taken_over(step(s, calls.first()), calls.drop_first(), key, owner))
}

/// No stored owner is the default owner.
pub open spec fn default_owner_unused(s: RegistryState) -> bool {
    forall|k: NameKey| s.names.contains_key(k) ==> #[trigger] s.names[k] != s.default_owner
}

/// A refused call changes nothing: not the owner of any name, not the default
/// owner, not the recorded notifications.
pub proof fn law_refused_call_changes_nothing(s: RegistryState, call: Call)
    requires
        outcome(s, call) is Err,
    ensures
        step(s, call) == s,
{
}

/// An accepted call records exactly one notification, which carries the
/// call's own arguments; a refused one records none.
pub proof fn law_one_notice_per_accepted_call(s: RegistryState, call: Call)
    ensures
        outcome(s, call) is Ok ==> step(s, call).events == s.events.push(notice(call)),
        outcome(s, call) is Err ==> step(s, call).events == s.events,
        step(s, call).default_owner == s.default_owner,
{
}

/// A call changes the owner of no name but those it names.
pub proof fn law_other_names_untouched(s: RegistryState, call: Call, key: NameKey)
    requires
        match call {
            Call::Register { caller, name } => key != name,
            Call::Rename { caller, old_name, new_name } => key != old_name && key != new_name,
        },
    ensures
        step(s, call).names.contains_key(key) == s.names.contains_key(key),
        resolve(step(s, call), key) == resolve(s, key),
{
}

/// Once a name is registered, a second registration of it is refused with
/// `UsernameAlreadyExists`, whoever asks, and the first owner keeps it.
pub proof fn law_second_registration_refused(
    s: RegistryState,
    first: OwnerId,
    second: OwnerId,
    name: NameKey,
)
    requires
        outcome(s, Call::Register { caller: first, name }) is Ok,
    ensures
        ({
            let held = step(s, Call::Register { caller: first, name });
            let again = Call::Register { caller: second, name };
            &&& outcome(held, again) == Err::<(), Error>(Error::UsernameAlreadyExists)
            &&& step(held, again) == held
            &&& resolve(step(held, again), name) == first
        }),
{
}

/// A registered name stays registered through any series of calls in which
/// no accepted rename takes it to another key.
pub proof fn law_registered_name_stays_taken(s: RegistryState, calls: Seq<Call>, name: NameKey)
    requires
        s.names.contains_key(name),
        !moved_away(s, calls, name),
    ensures
        run(s, calls).names.contains_key(name),
    decreases calls.len(),
{
    if calls.len() > 0 {
        law_registered_name_stays_taken(step(s, calls.first()), calls.drop_first(), name);
    }
}

/// A registered name stays with its owner through any series of calls in
/// which no accepted rename takes it to another key and nobody else renames
/// onto it. What the owner itself does, a rename onto the name included,
/// leaves it the owner.
pub proof fn law_registered_name_keeps_owner(s: RegistryState, calls: Seq<Call>, name: NameKey)
    requires
        s.names.contains_key(name),
        !moved_away(s, calls, name),
        !taken_over(s, calls, name, s.names[name]),
    ensures
        run(s, calls).names.contains_key(name),
        run(s, calls).names[name] == s.names[name],
    decreases calls.len(),
{
    if calls.len() > 0 {
        law_registered_name_keeps_owner(step(s, calls.first()), calls.drop_first(), name);
    }
}

/// Uniqueness over time: after `first` has registered `name`, and after any
/// series of calls in which no accepted rename takes the name to another key,
/// a registration of `name` is refused with `UsernameAlreadyExists` and
/// changes nothing. Where, besides, nobody else has renamed onto the name, it
/// still belongs to `first`.
pub proof fn law_name_registered_once(
    s: RegistryState,
    first: OwnerId,
    calls: Seq<Call>,
    second: OwnerId,
    name: NameKey,
)
    requires
        outcome(s, Call::Register { caller: first, name }) is Ok,
        !moved_away(step(s, Call::Register { caller: first, name }), calls, name),
    ensures
        ({
            let held = step(s, Call::Register { caller: first, name });
            let later = run(held, calls);
            let again = Call::Register { caller: second, name };
            &&& outcome(later, again) == Err::<(), Error>(Error::UsernameAlreadyExists)
            &&& step(later, again) == later
            &&& !taken_over(held, calls, name, first) ==> resolve(later, name) == first
                && resolve(step(later, again), name) == first
        }),
{
    let held = step(s, Call::Register { caller: first, name });
    law_registered_name_stays_taken(held, calls, name);
    if !taken_over(held, calls, name, first) {
        law_registered_name_keeps_owner(held, calls, name);
    }
}

/// Only the owner moves a name: when `owner` has registered `name`, a rename
/// of it by anyone else is refused with `CallerIsNotOwner` and changes
/// nothing, neither under `name` nor under the key it was to move to.
pub proof fn law_rename_needs_owner(
    s: RegistryState,
    owner: OwnerId,
    other: OwnerId,
    name: NameKey,
    target: NameKey,
)
    requires
        owner != other,
        outcome(s, Call::Register { caller: owner, name }) is Ok,
    ensures
        ({
            let held = step(s, Call::Register { caller: owner, name });
            let attempt = Call::Rename { caller: other, old_name: name, new_name: target };
            &&& outcome(held, attempt) == Err::<(), Error>(Error::CallerIsNotOwner)
            &&& step(held, attempt) == held
            &&& resolve(step(held, attempt), name) == owner
            &&& resolve(step(held, attempt), target) == resolve(held, target)
        }),
{
}

/// The same over time: as long as no accepted rename takes the name to
/// another key and nobody else renames onto it, a name that `owner`
/// registered cannot be moved by anyone else.
pub proof fn law_rename_needs_owner_later(
    s: RegistryState,
    owner: OwnerId,
    calls: Seq<Call>,
    other: OwnerId,
    name: NameKey,
    target: NameKey,
)
    requires
        owner != other,
        outcome(s, Call::Register { caller: owner, name }) is Ok,
        !moved_away(step(s, Call::Register { caller: owner, name }), calls, name),
        !taken_over(step(s, Call::Register { caller: owner, name }), calls, name, owner),
    ensures
        ({
            let later = run(step(s, Call::Register { caller: owner, name }), calls);
            let attempt = Call::Rename { caller: other, old_name: name, new_name: target };
            &&& outcome(later, attempt) == Err::<(), Error>(Error::CallerIsNotOwner)
            &&& step(later, attempt) == later
        }),
{
    law_registered_name_keeps_owner(step(s, Call::Register { caller: owner, name }), calls, name);
}

/// A rename is accepted exactly when the old key is registered, the caller
/// is its stored owner, and the caller is not the default owner. So an
/// unclaimed key is never moved, and the default owner never moves anything.
pub proof fn law_rename_accepted_iff_owner(
    s: RegistryState,
    caller: OwnerId,
    old_name: NameKey,
    new_name: NameKey,
)
    ensures
        outcome(s, Call::Rename { caller, old_name, new_name }) is Ok <==> (s.names.contains_key(
            old_name,
        ) && s.names[old_name] == caller && caller != s.default_owner),
        !s.names.contains_key(old_name) ==> outcome(s, Call::Rename { caller, old_name, new_name })
            == Err::<(), Error>(Error::CallerIsNotOwner),
        caller == s.default_owner ==> outcome(s, Call::Rename { caller, old_name, new_name })
            == Err::<(), Error>(Error::CallerIsNotOwner),
{
}

/// After an accepted rename the new key belongs to the caller, who held the
/// old key before, and the old key, where it is another key, is unclaimed. A
/// rename of a key onto itself is accepted too and leaves the names as they
/// were.
pub proof fn law_rename_moves_name(
    s: RegistryState,
    caller: OwnerId,
    old_name: NameKey,
    new_name: NameKey,
)
    requires
        outcome(s, Call::Rename { caller, old_name, new_name }) is Ok,
    ensures
        ({
            let after = step(s, Call::Rename { caller, old_name, new_name });
            &&& after.names.contains_key(new_name)
            &&& resolve(after, new_name) == caller
            &&& after.names[new_name] == s.names[old_name]
            &&& old_name != new_name ==> !after.names.contains_key(old_name) && resolve(
                after,
                old_name,
            ) == after.default_owner
            &&& old_name == new_name ==> after.names == s.names
        }),
{
    let after = step(s, Call::Rename { caller, old_name, new_name });
    if old_name == new_name {
        assert(after.names =~= s.names);
    }
}

/// A key stays unclaimed through any series of calls of which no accepted
/// one registers it or renames onto it.
pub proof fn law_unnamed_key_stays_unclaimed(s: RegistryState, calls: Seq<Call>, key: NameKey)
    requires
        !s.names.contains_key(key),
        !claimed(s, calls, key),
        !renamed_onto(s, calls, key),
    ensures
        !run(s, calls).names.contains_key(key),
        resolve(run(s, calls), key) == s.default_owner,
    decreases calls.len(),
{
    if calls.len() > 0 {
        law_unnamed_key_stays_unclaimed(step(s, calls.first()), calls.drop_first(), key);
    }
}

/// Default resolution: in a registry that started empty, a key that no
/// accepted call has registered or renamed onto resolves to the default
/// owner.
pub proof fn law_default_resolution(calls: Seq<Call>, key: NameKey)
    requires
        !claimed(fresh(), calls, key),
        !renamed_onto(fresh(), calls, key),
    ensures
        resolve(run(fresh(), calls), key) == fresh().default_owner,
        resolve(run(fresh(), calls), key) == OwnerId::zero(),
{
    law_unnamed_key_stays_unclaimed(fresh(), calls, key);
}

/// Every stored owner got there by a call of its own: after a call, the
/// owner of a name is the owner it had before, or the caller.
pub proof fn law_owner_is_old_or_caller(s: RegistryState, call: Call, key: NameKey)
    requires
        step(s, call).names.contains_key(key),
    ensures
        ({
            let caller = match call {
                Call::Register { caller, name } => caller,
                Call::Rename { caller, old_name, new_name } => caller,
            };
            (s.names.contains_key(key) && step(s, call).names[key] == s.names[key]) || step(
                s,
                call,
            ).names[key] == caller
        }),
{
}

/// The registry never stores the default owner, as long as the default owner
/// registers nothing. A rename cannot store it: one by the default owner is
/// refused.
pub proof fn law_default_owner_never_stored(s: RegistryState, call: Call)
    requires
        default_owner_unused(s),
        match call {
            Call::Register { caller, name } => caller != s.default_owner,
            Call::Rename { caller, old_name, new_name } => true,
        },
    ensures
        default_owner_unused(step(s, call)),
{
    let after = step(s, call);
    assert forall|k: NameKey| after.names.contains_key(k) implies #[trigger] after.names[k]
        != after.default_owner by {
        if s.names.contains_key(k) {
            assert(s.names[k] != s.default_owner);
        }
    }
}

/// A rename never makes the default owner the owner of a key, whatever the
/// registry held before.
pub proof fn law_rename_never_stores_default_owner(
    s: RegistryState,
    caller: OwnerId,
    old_name: NameKey,
    new_name: NameKey,
    key: NameKey,
)
    requires
        step(s, Call::Rename { caller, old_name, new_name }).names.contains_key(key),
        step(s, Call::Rename { caller, old_name, new_name }).names[key] == s.default_owner,
    ensures
        s.names.contains_key(key),
        s.names[key] == s.default_owner,
{
}

/// The default owner is fixed when the registry is made: no series of calls
/// changes it.
pub proof fn law_default_owner_fixed(s: RegistryState, calls: Seq<Call>)
    ensures
        run(s, calls).default_owner == s.default_owner,
    decreases calls.len(),
{
    if calls.len() > 0 {
        law_default_owner_fixed(step(s, calls.first()), calls.drop_first());
    }
}

} // verus!

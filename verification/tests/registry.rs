use ink_env::test::default_accounts;
use ink_env::{AccountId, DefaultEnvironment};
use uke_human_dns::{EditUsername, Error, Event, NameKey, OwnerId, Register, UkeHumanDns};

fn owner(account: AccountId) -> OwnerId {
    let bytes: &[u8; 32] = account.as_ref();
    OwnerId::from(*bytes)
}

fn alice() -> OwnerId {
    owner(default_accounts::<DefaultEnvironment>().alice)
}

fn bob() -> OwnerId {
    owner(default_accounts::<DefaultEnvironment>().bob)
}

fn key(byte: u8) -> NameKey {
    NameKey::from([byte; 32])
}

#[test]
fn default_works() {
    let uke_human_dns = UkeHumanDns::new();
    assert_eq!(uke_human_dns.default_address(), Default::default());
}

#[test]
fn register_works() {
    let name = NameKey::from([0x01; 32]);

    let mut contract = UkeHumanDns::new();

    assert_eq!(contract.register(alice(), name), Ok(()));
    assert_eq!(
        contract.register(alice(), name),
        Err(Error::UsernameAlreadyExists)
    );
}

#[test]
fn edit_works() {
    let old_name = NameKey::from([0x01; 32]);
    let new_name = NameKey::from([0x02; 32]);

    let mut contract = UkeHumanDns::new();
    contract.register(alice(), old_name).unwrap();

    assert_eq!(contract.edit_username(alice(), old_name, new_name), Ok(()));
    assert_eq!(contract.get_address(new_name), alice());
}

#[test]
fn get_address_works() {
    let name = NameKey::from([0x01; 32]);

    let mut contract = UkeHumanDns::new();

    assert_eq!(contract.register(alice(), name), Ok(()));
    assert_eq!(contract.get_address(name), alice());
}

#[test]
fn default_owner_is_the_all_zero_identity() {
    let registry = UkeHumanDns::new();
    assert_eq!(registry.default_address(), OwnerId::new([0u8; 32]));
    assert_eq!(registry.default_address(), owner(AccountId::default()));
    assert_eq!(OwnerId::default().as_bytes(), &[0u8; 32]);
    assert_ne!(registry.default_address(), alice());
}

#[test]
fn fresh_registry_resolves_to_default() {
    let registry = UkeHumanDns::new();
    assert_eq!(registry.get_address(key(1)), OwnerId::default());
    assert_eq!(registry.get_address(key(0)), OwnerId::default());
    assert_eq!(registry.get_address(key(255)), OwnerId::default());
}

#[test]
fn registered_name_resolves_to_its_caller() {
    let mut registry = UkeHumanDns::new();
    assert_eq!(registry.register(alice(), key(1)), Ok(()));
    assert_eq!(registry.get_address(key(1)), alice());
    assert_eq!(registry.get_address(key(2)), OwnerId::default());
}

#[test]
fn second_registration_fails_and_keeps_first_owner() {
    let mut registry = UkeHumanDns::new();
    assert_eq!(registry.register(alice(), key(1)), Ok(()));
    assert_eq!(
        registry.register(bob(), key(1)),
        Err(Error::UsernameAlreadyExists)
    );
    assert_eq!(registry.get_address(key(1)), alice());
}

#[test]
fn rename_moves_the_name() {
    let mut registry = UkeHumanDns::new();
    registry.register(alice(), key(1)).unwrap();
    assert_eq!(registry.edit_username(alice(), key(1), key(2)), Ok(()));
    assert_eq!(registry.get_address(key(1)), OwnerId::default());
    assert_eq!(registry.get_address(key(2)), alice());
}

#[test]
fn rename_of_unregistered_name_fails() {
    let mut registry = UkeHumanDns::new();
    registry.register(alice(), key(1)).unwrap();
    registry.edit_username(alice(), key(1), key(2)).unwrap();
    assert_eq!(
        registry.edit_username(bob(), key(1), key(3)),
        Err(Error::CallerIsNotOwner)
    );
    assert_eq!(registry.get_address(key(1)), OwnerId::default());
    assert_eq!(registry.get_address(key(3)), OwnerId::default());
}

#[test]
fn rename_onto_own_name_succeeds() {
    let mut registry = UkeHumanDns::new();
    registry.register(alice(), key(1)).unwrap();
    registry.edit_username(alice(), key(1), key(2)).unwrap();
    assert_eq!(registry.register(alice(), key(4)), Ok(()));
    assert_eq!(registry.edit_username(alice(), key(2), key(4)), Ok(()));
    assert_eq!(registry.get_address(key(4)), alice());
    assert_eq!(registry.get_address(key(2)), OwnerId::default());
}

#[test]
fn rename_onto_a_name_of_another_owner_takes_it_over() {
    let mut registry = UkeHumanDns::new();
    registry.register(alice(), key(1)).unwrap();
    registry.register(bob(), key(2)).unwrap();
    assert_eq!(registry.edit_username(alice(), key(1), key(2)), Ok(()));
    assert_eq!(registry.get_address(key(2)), alice());
    assert_eq!(registry.get_address(key(1)), OwnerId::default());
    assert_eq!(
        registry.edit_username(bob(), key(2), key(3)),
        Err(Error::CallerIsNotOwner)
    );
}

#[test]
fn rename_by_another_caller_fails_and_changes_nothing() {
    let mut registry = UkeHumanDns::new();
    registry.register(alice(), key(1)).unwrap();
    registry.register(alice(), key(7)).unwrap();
    registry.take_events();
    assert_eq!(
        registry.edit_username(bob(), key(1), key(2)),
        Err(Error::CallerIsNotOwner)
    );
    assert_eq!(
        registry.edit_username(bob(), key(1), key(7)),
        Err(Error::CallerIsNotOwner)
    );
    assert_eq!(registry.get_address(key(1)), alice());
    assert_eq!(registry.get_address(key(2)), OwnerId::default());
    assert_eq!(registry.get_address(key(7)), alice());
    assert_eq!(registry.take_events(), vec![]);
}

#[test]
fn rename_onto_the_same_key_keeps_the_name() {
    let mut registry = UkeHumanDns::new();
    registry.register(alice(), key(1)).unwrap();
    registry.take_events();
    assert_eq!(registry.edit_username(alice(), key(1), key(1)), Ok(()));
    assert_eq!(registry.get_address(key(1)), alice());
    assert_eq!(
        registry.take_events(),
        vec![Event::EditUsername(EditUsername {
            old_name: key(1),
            new_name: key(1),
            from: alice(),
        })]
    );
}

#[test]
fn released_name_can_be_registered_again() {
    let mut registry = UkeHumanDns::new();
    registry.register(alice(), key(1)).unwrap();
    registry.edit_username(alice(), key(1), key(2)).unwrap();
    assert_eq!(registry.register(bob(), key(1)), Ok(()));
    assert_eq!(registry.get_address(key(1)), bob());
    assert_eq!(registry.get_address(key(2)), alice());
}

#[test]
fn default_owner_as_caller_cannot_rename_an_unclaimed_key() {
    let mut registry = UkeHumanDns::new();
    let nobody = owner(AccountId::default());
    let old_name = NameKey::from([0x01; 32]);
    let new_name = NameKey::from([0x02; 32]);
    assert_eq!(nobody, registry.default_address());
    assert_eq!(
        registry.edit_username(nobody, old_name, new_name),
        Err(Error::CallerIsNotOwner)
    );
    assert_eq!(registry.get_address(old_name), OwnerId::default());
    assert_eq!(registry.get_address(new_name), OwnerId::default());
    assert_eq!(registry.take_events(), vec![]);
    assert_eq!(registry.register(alice(), new_name), Ok(()));
    assert_eq!(registry.get_address(new_name), alice());
}

#[test]
fn default_owner_as_caller_cannot_take_over_a_name() {
    let mut registry = UkeHumanDns::new();
    let nobody = registry.default_address();
    registry.register(alice(), key(2)).unwrap();
    registry.take_events();
    assert_eq!(
        registry.edit_username(nobody, key(1), key(2)),
        Err(Error::CallerIsNotOwner)
    );
    assert_eq!(registry.get_address(key(2)), alice());
    assert_eq!(registry.get_address(key(1)), OwnerId::default());
    assert_eq!(registry.take_events(), vec![]);
    assert_eq!(
        registry.register(alice(), key(2)),
        Err(Error::UsernameAlreadyExists)
    );
}

#[test]
fn default_owner_as_caller_cannot_rename_even_what_it_registered() {
    let mut registry = UkeHumanDns::new();
    let nobody = registry.default_address();
    assert_eq!(registry.register(nobody, key(1)), Ok(()));
    registry.take_events();
    assert_eq!(
        registry.edit_username(nobody, key(1), key(2)),
        Err(Error::CallerIsNotOwner)
    );
    assert_eq!(
        registry.edit_username(nobody, key(1), key(1)),
        Err(Error::CallerIsNotOwner)
    );
    assert_eq!(registry.get_address(key(2)), OwnerId::default());
    assert_eq!(registry.take_events(), vec![]);
    assert_eq!(
        registry.register(alice(), key(1)),
        Err(Error::UsernameAlreadyExists)
    );
    assert_eq!(registry.register(alice(), key(2)), Ok(()));
}

#[test]
fn owner_renaming_onto_its_own_name_keeps_it_taken() {
    let mut registry = UkeHumanDns::new();
    registry.register(alice(), key(1)).unwrap();
    registry.register(alice(), key(2)).unwrap();
    assert_eq!(registry.edit_username(alice(), key(2), key(1)), Ok(()));
    assert_eq!(registry.edit_username(alice(), key(1), key(1)), Ok(()));
    assert_eq!(
        registry.register(bob(), key(1)),
        Err(Error::UsernameAlreadyExists)
    );
    assert_eq!(registry.get_address(key(1)), alice());
    assert_eq!(
        registry.edit_username(bob(), key(1), key(3)),
        Err(Error::CallerIsNotOwner)
    );
}

#[test]
fn failed_calls_leave_every_key_as_it_was() {
    let mut registry = UkeHumanDns::new();
    registry.register(alice(), key(1)).unwrap();
    registry.register(bob(), key(2)).unwrap();
    let before: Vec<OwnerId> = (0..=255u8).map(|b| registry.get_address(key(b))).collect();
    assert_eq!(
        registry.register(bob(), key(1)),
        Err(Error::UsernameAlreadyExists)
    );
    assert_eq!(
        registry.edit_username(bob(), key(1), key(9)),
        Err(Error::CallerIsNotOwner)
    );
    assert_eq!(
        registry.edit_username(alice(), key(5), key(2)),
        Err(Error::CallerIsNotOwner)
    );
    let after: Vec<OwnerId> = (0..=255u8).map(|b| registry.get_address(key(b))).collect();
    assert_eq!(before, after);
}

#[test]
fn events_follow_successful_calls_only() {
    let mut registry = UkeHumanDns::new();
    assert_eq!(registry.take_events(), vec![]);
    registry.register(alice(), key(1)).unwrap();
    assert_eq!(
        registry.register(bob(), key(1)),
        Err(Error::UsernameAlreadyExists)
    );
    registry.edit_username(alice(), key(1), key(2)).unwrap();
    assert_eq!(
        registry.edit_username(bob(), key(2), key(3)),
        Err(Error::CallerIsNotOwner)
    );
    assert_eq!(
        registry.take_events(),
        vec![
            Event::Register(Register {
                name: key(1),
                from: alice(),
            }),
            Event::EditUsername(EditUsername {
                old_name: key(1),
                new_name: key(2),
                from: alice(),
            }),
        ]
    );
    assert_eq!(registry.take_events(), vec![]);
    assert_eq!(registry.get_address(key(2)), alice());
}

#[test]
fn keys_that_share_their_first_bytes_are_kept_apart() {
    let mut first = [0x11u8; 32];
    let mut second = [0x11u8; 32];
    let mut third = [0x11u8; 32];
    first[31] = 1;
    second[31] = 2;
    third[8] = 3;
    let (k1, k2, k3) = (NameKey::new(first), NameKey::new(second), NameKey::new(third));

    let mut registry = UkeHumanDns::new();
    assert_eq!(registry.register(alice(), k1), Ok(()));
    assert_eq!(registry.register(bob(), k2), Ok(()));
    assert_eq!(registry.get_address(k1), alice());
    assert_eq!(registry.get_address(k2), bob());
    assert_eq!(registry.get_address(k3), OwnerId::default());
    assert_eq!(registry.register(bob(), k1), Err(Error::UsernameAlreadyExists));

    assert_eq!(registry.edit_username(alice(), k1, k3), Ok(()));
    assert_eq!(registry.get_address(k1), OwnerId::default());
    assert_eq!(registry.get_address(k2), bob());
    assert_eq!(registry.get_address(k3), alice());

    assert_eq!(registry.edit_username(bob(), k2, k1), Ok(()));
    assert_eq!(registry.edit_username(alice(), k3, k2), Ok(()));
    assert_eq!(registry.get_address(k1), bob());
    assert_eq!(registry.get_address(k2), alice());
    assert_eq!(registry.get_address(k3), OwnerId::default());
}

#[test]
fn many_names_are_all_found_again() {
    let mut registry = UkeHumanDns::new();
    for b in 1..=200u8 {
        let who = if b % 2 == 0 { alice() } else { bob() };
        assert_eq!(registry.register(who, key(b)), Ok(()));
    }
    for b in 1..=200u8 {
        let who = if b % 2 == 0 { alice() } else { bob() };
        assert_eq!(registry.get_address(key(b)), who);
    }
    for b in 201..=255u8 {
        assert_eq!(registry.get_address(key(b)), OwnerId::default());
    }
    for b in 1..=100u8 {
        let who = if b % 2 == 0 { alice() } else { bob() };
        assert_eq!(registry.edit_username(who, key(b), key(b)), Ok(()));
        assert_eq!(registry.edit_username(who, key(b), key(0)), Ok(()));
        assert_eq!(registry.get_address(key(b)), OwnerId::default());
        assert_eq!(registry.get_address(key(0)), who);
    }
    for b in 101..=200u8 {
        let who = if b % 2 == 0 { alice() } else { bob() };
        assert_eq!(registry.get_address(key(b)), who);
    }
    assert_eq!(registry.take_events().len(), 400);
}

#[test]
fn keys_and_owners_compare_byte_by_byte() {
    let mut bytes = [7u8; 32];
    assert_eq!(NameKey::new(bytes), NameKey::from([7u8; 32]));
    assert_eq!(OwnerId::new(bytes), OwnerId::from([7u8; 32]));
    assert_eq!(NameKey::new(bytes).as_bytes(), &[7u8; 32]);
    bytes[31] = 8;
    assert_ne!(NameKey::new(bytes), NameKey::from([7u8; 32]));
    assert_ne!(OwnerId::new(bytes), OwnerId::from([7u8; 32]));
    bytes[31] = 7;
    bytes[0] = 0;
    assert_ne!(NameKey::new(bytes), NameKey::from([7u8; 32]));
    assert_ne!(OwnerId::new(bytes), OwnerId::from([7u8; 32]));
}

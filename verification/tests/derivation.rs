use anchor_lang::prelude::Pubkey;
use dead_mans_switch::address::{
    derive_escrow, derive_switch, rederive_escrow, rederive_switch,
};
use dead_mans_switch::identity::Identity;

fn id(byte: u8) -> Identity {
    Identity::new([byte; 32])
}

fn key(i: &Identity) -> Pubkey {
    Pubkey::new_from_array(i.bytes)
}

#[test]
fn identity_equality_is_by_bytes() {
    let mut bytes = [9u8; 32];
    assert_eq!(Identity::new(bytes), id(9));
    bytes[31] = 8;
    assert_ne!(Identity::new(bytes), id(9));
    bytes[31] = 9;
    bytes[0] = 0;
    assert_ne!(Identity::new(bytes), id(9));
}

#[test]
fn identity_to_vec_gives_the_bytes_in_order() {
    let mut bytes = [0u8; 32];
    for (i, b) in bytes.iter_mut().enumerate() {
        *b = i as u8;
    }
    let v = Identity::new(bytes).to_vec();
    assert_eq!(v.len(), 32);
    assert_eq!(v, bytes.to_vec());
}

#[test]
fn derive_agrees_with_the_host_search() {
    let owner = id(1);
    let program = id(7);
    let expected =
        Pubkey::find_program_address(&[b"switch", &owner.bytes[..], b"s1"], &key(&program));
    let (address, bump) = derive_switch(&owner, "s1", &program).expect("an address");
    assert_eq!(address.bytes, expected.0.to_bytes());
    assert_eq!(bump, expected.1);
    assert_ne!(address, owner);
    assert_ne!(address, program);
}

#[test]
fn derive_escrow_agrees_with_the_host_search() {
    let owner = id(1);
    let program = id(7);
    let (switch, _) = derive_switch(&owner, "s1", &program).expect("an address");
    let expected = Pubkey::find_program_address(&[b"escrow", &switch.bytes[..]], &key(&program));
    let (address, bump) = derive_escrow(&switch, &program).expect("an address");
    assert_eq!(address.bytes, expected.0.to_bytes());
    assert_eq!(bump, expected.1);
    assert_ne!(address, switch);
}

#[test]
fn derive_twice_gives_the_same_address_and_bump() {
    let owner = id(3);
    let program = id(7);
    let first = derive_switch(&owner, "vault", &program);
    let second = derive_switch(&owner, "vault", &program);
    assert!(first.is_some());
    assert_eq!(first, second);
    let e1 = derive_escrow(&first.unwrap().0, &program);
    let e2 = derive_escrow(&second.unwrap().0, &program);
    assert!(e1.is_some());
    assert_eq!(e1, e2);
}

#[test]
fn derive_with_another_seed_owner_or_program_gives_another_address() {
    let program = id(7);
    let a = derive_switch(&id(3), "vault", &program).unwrap().0;
    let b = derive_switch(&id(3), "vault2", &program).unwrap().0;
    let c = derive_switch(&id(4), "vault", &program).unwrap().0;
    let d = derive_switch(&id(3), "vault", &id(8)).unwrap().0;
    assert_ne!(a, b);
    assert_ne!(a, c);
    assert_ne!(a, d);
}

#[test]
fn derive_takes_an_empty_seed_and_one_of_32_bytes() {
    let program = id(7);
    let long = "a".repeat(32);
    let expected = Pubkey::find_program_address(
        &[b"switch", &id(3).bytes[..], long.as_bytes()],
        &key(&program),
    );
    let got = derive_switch(&id(3), &long, &program).expect("an address");
    assert_eq!(got.0.bytes, expected.0.to_bytes());
    assert_eq!(got.1, expected.1);
    let expected = Pubkey::find_program_address(&[b"switch", &id(3).bytes[..], b""], &key(&program));
    let got = derive_switch(&id(3), "", &program).expect("an address");
    assert_eq!(got.0.bytes, expected.0.to_bytes());
}

#[test]
fn derive_gives_none_for_a_seed_over_32_bytes() {
    let program = id(7);
    assert_eq!(derive_switch(&id(3), &"a".repeat(33), &program), None);
    // eleven characters of three bytes each
    assert_eq!(derive_switch(&id(3), &"\u{20ac}".repeat(11), &program), None);
    assert!(derive_switch(&id(3), &"\u{20ac}".repeat(10), &program).is_some());
}

#[test]
fn derive_uses_the_bytes_of_the_seed_as_utf8() {
    let program = id(7);
    let seed = "se\u{e9}d";
    let expected = Pubkey::find_program_address(
        &[b"switch", &id(3).bytes[..], &[0x73, 0x65, 0xc3, 0xa9, 0x64]],
        &key(&program),
    );
    let got = derive_switch(&id(3), seed, &program).expect("an address");
    assert_eq!(got.0.bytes, expected.0.to_bytes());
    assert_eq!(got.1, expected.1);
}

#[test]
fn rederive_with_the_stored_bump_gives_the_derived_address() {
    let owner = id(5);
    let program = id(7);
    let (address, bump) = derive_switch(&owner, "s1", &program).unwrap();
    assert_eq!(rederive_switch(&owner, "s1", bump, &program), Some(address));
    let (escrow, escrow_bump) = derive_escrow(&address, &program).unwrap();
    assert_eq!(rederive_escrow(&address, escrow_bump, &program), Some(escrow));
}

#[test]
fn rederive_agrees_with_the_host_at_every_bump() {
    let owner = id(5);
    let program = id(7);
    let mut some = 0;
    let mut none = 0;
    for bump in 0..=255u8 {
        let expected = Pubkey::create_program_address(
            &[b"switch", &owner.bytes[..], b"s1", &[bump]],
            &key(&program),
        )
        .ok()
        .map(|k| Identity::new(k.to_bytes()));
        assert_eq!(rederive_switch(&owner, "s1", bump, &program), expected);
        let expected =
            Pubkey::create_program_address(&[b"escrow", &owner.bytes[..], &[bump]], &key(&program))
                .ok()
                .map(|k| Identity::new(k.to_bytes()));
        assert_eq!(rederive_escrow(&owner, bump, &program), expected);
        if expected.is_some() {
            some += 1;
        } else {
            none += 1;
        }
    }
    assert!(some > 0);
    assert!(none > 0);
}

#[test]
fn rederive_with_another_bump_does_not_give_the_address() {
    let owner = id(5);
    let program = id(7);
    let (address, bump) = derive_switch(&owner, "s1", &program).unwrap();
    for other in 0..=255u8 {
        if other != bump {
            assert_ne!(rederive_switch(&owner, "s1", other, &program), Some(address));
        }
    }
}

#[test]
fn rederive_gives_none_for_a_seed_over_32_bytes() {
    let program = id(7);
    for bump in [0u8, 1, 254, 255] {
        assert_eq!(rederive_switch(&id(3), &"a".repeat(33), bump, &program), None);
    }
}

#[test]
fn derive_finds_the_highest_bump_that_gives_an_address() {
    let program = id(7);
    for n in 0..20u8 {
        let owner = id(n);
        let (address, bump) = derive_switch(&owner, "s", &program).unwrap();
        assert!(bump >= 1);
        assert_eq!(rederive_switch(&owner, "s", bump, &program), Some(address));
        let mut higher = bump;
        while higher < 255 {
            higher += 1;
            assert_eq!(rederive_switch(&owner, "s", higher, &program), None);
        }
    }
}

use clever_todo::address::{
    program_id, todo_address, todo_tag, user_profile_address, user_tag, Address,
};

fn owner(byte: u8) -> Address {
    Address { bytes: [byte; 32] }
}

#[test]
fn tags_are_the_ascii_names() {
    assert_eq!(user_tag(), b"USER_STATE".to_vec());
    assert_eq!(todo_tag(), b"TODO_STATE".to_vec());
}

#[test]
fn program_id_has_its_bytes() {
    let id = program_id();
    assert_eq!(
        id.bytes,
        [
            26, 208, 159, 67, 20, 220, 56, 143, 36, 224, 161, 19, 102, 61, 196, 109, 7, 235, 231,
            247, 40, 167, 86, 145, 33, 144, 205, 58, 79, 97, 136, 248
        ]
    );
}

#[test]
fn same_compares_every_byte() {
    let a = owner(1);
    let mut b = owner(1);
    assert!(a.same(&b));
    b.bytes[31] = 2;
    assert!(!a.same(&b));
    b.bytes[31] = 1;
    b.bytes[0] = 0;
    assert!(!a.same(&b));
}

#[test]
fn to_seed_gives_the_32_bytes() {
    let mut a = owner(7);
    a.bytes[3] = 9;
    let seed = a.to_seed();
    assert_eq!(seed.len(), 32);
    assert_eq!(seed, a.bytes.to_vec());
}

#[test]
fn profile_address_of_a_known_owner() {
    let derived = user_profile_address(&owner(1));
    let expected = Address {
        bytes: [
            162, 83, 7, 172, 28, 35, 63, 15, 119, 54, 212, 20, 82, 33, 156, 211, 187, 15, 89, 75,
            237, 113, 139, 103, 51, 115, 140, 37, 45, 29, 78, 120,
        ],
    };
    assert_eq!(derived, Some((expected, 254)));
}

#[test]
fn profile_address_of_another_known_owner() {
    let derived = user_profile_address(&owner(2));
    let expected = Address {
        bytes: [
            80, 203, 170, 151, 39, 120, 223, 246, 227, 82, 161, 40, 191, 16, 38, 90, 134, 235,
            185, 39, 249, 56, 112, 175, 101, 201, 28, 163, 49, 255, 75, 47,
        ],
    };
    assert_eq!(derived, Some((expected, 253)));
}

#[test]
fn todo_addresses_of_a_known_owner() {
    let first = Address {
        bytes: [
            153, 228, 11, 19, 103, 12, 176, 156, 90, 78, 212, 218, 95, 161, 56, 241, 205, 137,
            235, 194, 163, 165, 43, 240, 233, 128, 118, 101, 64, 193, 212, 41,
        ],
    };
    let second = Address {
        bytes: [
            38, 156, 165, 84, 103, 241, 42, 169, 185, 151, 109, 45, 191, 150, 30, 147, 69, 125,
            108, 234, 66, 23, 208, 198, 253, 200, 159, 197, 219, 115, 171, 91,
        ],
    };
    assert_eq!(todo_address(&owner(1), 0), Some((first, 254)));
    assert_eq!(todo_address(&owner(1), 1), Some((second, 255)));
}

#[test]
fn derivation_is_a_function_of_its_inputs() {
    for idx in [0u8, 1, 17, 255] {
        assert_eq!(todo_address(&owner(5), idx), todo_address(&owner(5), idx));
    }
    assert_eq!(user_profile_address(&owner(5)), user_profile_address(&owner(5)));
}

#[test]
fn different_inputs_give_different_addresses() {
    let a = owner(1);
    let b = owner(2);
    let profile_a = user_profile_address(&a).unwrap().0;
    let profile_b = user_profile_address(&b).unwrap().0;
    assert_ne!(profile_a, profile_b);
    assert_ne!(profile_a, a);
    let mut seen = vec![profile_a, profile_b];
    for idx in 0u8..=255 {
        let at = todo_address(&a, idx).unwrap().0;
        assert!(!seen.contains(&at));
        seen.push(at);
    }
    assert_ne!(todo_address(&a, 0).unwrap().0, todo_address(&b, 0).unwrap().0);
}

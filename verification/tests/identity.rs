use cattle_herd::identity::{load_or_create, IdentityError};

#[test]
fn load_is_idempotent_on_valid_file() {
    let file: Vec<u8> = (0u8..16).collect();
    let first = load_or_create(Some(file.clone())).expect("valid file must load");
    let second = load_or_create(Some(file.clone())).expect("valid file must load");
    assert_eq!(first.identity.id, file);
    assert_eq!(second.identity.id, file);
    assert_eq!(first.identity.id, second.identity.id);
    assert!(first.persist.is_none());
    assert!(second.persist.is_none());
}

#[test]
fn short_file_is_corrupt_and_not_overwritten() {
    let r = load_or_create(Some(vec![1, 2, 3, 4, 5]));
    match r {
        Err(IdentityError::IdentityCorrupt) => {}
        _ => panic!("a short identity file must be IdentityCorrupt"),
    }
}

#[test]
fn long_file_is_corrupt_and_not_overwritten() {
    let r = load_or_create(Some(vec![0u8; 17]));
    match r {
        Err(IdentityError::IdentityCorrupt) => {}
        _ => panic!("a long identity file must be IdentityCorrupt"),
    }
}

#[test]
fn empty_file_is_corrupt() {
    let r = load_or_create(Some(Vec::new()));
    match r {
        Err(IdentityError::IdentityCorrupt) => {}
        _ => panic!("an empty identity file must be IdentityCorrupt"),
    }
}

#[test]
fn first_run_creates_and_persists() {
    let o = load_or_create(None).expect("first run must create an identity");
    assert_eq!(o.identity.id.len(), 16);
    assert_eq!(o.persist.as_deref(), Some(o.identity.id.as_slice()));
    // P-384 keys: uncompressed SEC1 point and raw scalar.
    assert_eq!(o.identity.public_key.len(), 97);
    assert_eq!(o.identity.public_key[0], 0x04);
    assert_eq!(o.identity.private_key.len(), 48);
}

#[test]
fn fresh_identities_differ() {
    let a = load_or_create(None).expect("create");
    let b = load_or_create(None).expect("create");
    // Two freshly generated UUIDs colliding is beyond negligible.
    assert_ne!(a.identity.id, b.identity.id);
}

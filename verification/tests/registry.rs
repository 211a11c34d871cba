use secure_share::envelope::Envelope;
use secure_share::password::compare;
use secure_share::registry::{
    CreateError, LinkState, ShareLink, ShareRegistry, StoredEnvelope,
};
use secure_share::time::Timestamp;

fn envelope(tag: u8) -> Envelope {
    Envelope { wrapped_key: vec![tag; 4], ciphertext: vec![tag; 16], iv: vec![tag; 16] }
}

fn link(share_id: u128, file_id: u128, recipient_id: u128, expires: i64) -> ShareLink {
    ShareLink {
        share_id,
        file_id,
        recipient_id,
        access_password_hash: "hash".to_string(),
        expiration_date: Timestamp::new(expires),
        created_at: Timestamp::new(0),
    }
}

fn stored(file_id: u128, recipient_id: u128) -> StoredEnvelope {
    StoredEnvelope {
        file_id,
        owner_id: 1,
        recipient_id,
        file_name: "a.txt".to_string(),
        file_size: 3,
        envelope: envelope(file_id as u8),
        created_at: Timestamp::new(0),
    }
}

fn registry_with_three() -> ShareRegistry {
    let mut registry = ShareRegistry::new();
    assert_eq!(registry.insert(link(10, 100, 7, 50), stored(100, 7)), Ok(()));
    assert_eq!(registry.insert(link(11, 101, 8, 60), stored(101, 8)), Ok(()));
    assert_eq!(registry.insert(link(12, 102, 7, 70), stored(102, 7)), Ok(()));
    registry
}

#[test]
fn a_new_registry_is_empty() {
    let mut registry = ShareRegistry::new();
    assert_eq!(registry.len(), 0);
    assert!(registry.lookup(1, 1).is_none());
    assert_eq!(registry.state(1, Timestamp::new(0)), LinkState::Purged);
    assert_eq!(registry.sweep(Timestamp::new(0)), 0);
}

#[test]
fn lookup_returns_the_link_only_to_its_recipient() {
    let registry = registry_with_three();
    let found = registry.lookup(10, 7).unwrap();
    assert_eq!(found.share_id, 10);
    assert_eq!(found.file_id, 100);
    assert_eq!(found.expiration_date, Timestamp::new(50));
    // Neither the owner nor anyone else.
    assert!(registry.lookup(10, 1).is_none());
    assert!(registry.lookup(10, 8).is_none());
    assert!(registry.lookup(99, 7).is_none());
    assert_eq!(registry.envelope(100).unwrap().envelope.iv, vec![100u8; 16]);
    assert!(registry.envelope(99).is_none());
}

#[test]
fn insert_refuses_taken_identifiers_and_unpaired_links() {
    let mut registry = registry_with_three();
    assert_eq!(registry.insert(link(10, 200, 7, 50), stored(200, 7)), Err(CreateError::Storage));
    assert_eq!(registry.insert(link(20, 100, 7, 50), stored(100, 7)), Err(CreateError::Storage));
    assert_eq!(registry.insert(link(20, 200, 7, 50), stored(201, 7)), Err(CreateError::Storage));
    assert_eq!(registry.insert(link(20, 200, 7, 50), stored(200, 8)), Err(CreateError::Storage));
    assert_eq!(registry.len(), 3);
    assert_eq!(registry.insert(link(20, 200, 7, 50), stored(200, 7)), Ok(()));
    assert_eq!(registry.len(), 4);
}

#[test]
fn sweep_purges_what_has_expired_and_a_second_sweep_purges_nothing() {
    let mut registry = registry_with_three();
    assert_eq!(registry.sweep(Timestamp::new(49)), 0);
    assert_eq!(registry.len(), 3);
    // The expiration instant itself counts as passed.
    assert_eq!(registry.sweep(Timestamp::new(60)), 2);
    assert_eq!(registry.sweep(Timestamp::new(60)), 0);
    assert_eq!(registry.len(), 1);
    assert!(registry.lookup(10, 7).is_none());
    assert!(registry.lookup(11, 8).is_none());
    assert!(registry.envelope(100).is_none());
    assert!(registry.envelope(101).is_none());
    assert_eq!(registry.lookup(12, 7).unwrap().share_id, 12);
    assert_eq!(registry.envelope(102).unwrap().file_id, 102);
    // An earlier sweep after a later one finds nothing either.
    assert_eq!(registry.sweep(Timestamp::new(10)), 0);
    assert_eq!(registry.sweep(Timestamp::new(70)), 1);
    assert_eq!(registry.sweep(Timestamp::new(70)), 0);
    assert_eq!(registry.len(), 0);
}

#[test]
fn a_link_is_active_then_expired_then_purged() {
    let mut registry = registry_with_three();
    assert_eq!(registry.state(10, Timestamp::new(0)), LinkState::Active);
    assert_eq!(registry.state(10, Timestamp::new(49)), LinkState::Active);
    assert_eq!(registry.state(10, Timestamp::new(50)), LinkState::Expired);
    assert_eq!(registry.state(10, Timestamp::new(51)), LinkState::Expired);
    assert_eq!(registry.sweep(Timestamp::new(51)), 1);
    assert_eq!(registry.state(10, Timestamp::new(51)), LinkState::Purged);
    assert_eq!(registry.state(10, Timestamp::new(0)), LinkState::Purged);
    assert_eq!(registry.state(11, Timestamp::new(51)), LinkState::Active);
    let l = link(1, 2, 3, 50);
    assert!(l.is_expired(Timestamp::new(50)));
    assert!(!l.is_expired(Timestamp::new(49)));
    assert!(l.is_made_for(3));
    assert!(!l.is_made_for(4));
}

#[test]
fn create_stores_the_pair_with_a_hashed_password() {
    let mut registry = ShareRegistry::new();
    let share_id = registry
        .create(
            1,
            7,
            "report.pdf".to_string(),
            1234,
            envelope(9),
            "open sesame",
            Timestamp::new(500),
            Timestamp::new(100),
        )
        .unwrap();
    assert_eq!(registry.len(), 1);
    let found = registry.lookup(share_id, 7).unwrap();
    assert_eq!(found.recipient_id, 7);
    assert_eq!(found.expiration_date, Timestamp::new(500));
    assert_eq!(found.created_at, Timestamp::new(100));
    assert_ne!(found.access_password_hash, "open sesame");
    assert_eq!(compare("open sesame", &found.access_password_hash), Ok(true));
    assert_eq!(compare("open sesamf", &found.access_password_hash), Ok(false));
    let file_id = found.file_id;
    let file = registry.envelope(file_id).unwrap();
    assert_eq!(file.owner_id, 1);
    assert_eq!(file.recipient_id, 7);
    assert_eq!(file.file_name, "report.pdf");
    assert_eq!(file.file_size, 1234);
    assert_eq!(file.envelope.ciphertext, vec![9u8; 16]);
    assert!(registry.lookup(share_id, 1).is_none());

    let second = registry
        .create(
            1,
            7,
            "other.pdf".to_string(),
            1,
            envelope(8),
            "open sesame",
            Timestamp::new(600),
            Timestamp::new(100),
        )
        .unwrap();
    assert_ne!(second, share_id);
    assert_eq!(registry.len(), 2);
    assert_eq!(registry.sweep(Timestamp::new(500)), 1);
    assert!(registry.lookup(share_id, 7).is_none());
    assert!(registry.lookup(second, 7).is_some());
}

#[test]
fn create_with_stores_under_the_drawn_identifiers_or_refuses() {
    let mut registry = ShareRegistry::new();
    let at = |micros: i64| Timestamp::new(micros);
    let made = registry.create_with(
        1,
        7,
        "a.txt".to_string(),
        3,
        envelope(1),
        Some("hash-a".to_string()),
        at(500),
        at(100),
        40,
        50,
    );
    assert_eq!(made, Ok(50));
    assert_eq!(registry.len(), 1);
    let link = registry.lookup(50, 7).unwrap();
    assert_eq!((link.share_id, link.file_id, link.recipient_id), (50, 40, 7));
    assert_eq!(link.access_password_hash, "hash-a");
    assert_eq!((link.expiration_date, link.created_at), (at(500), at(100)));
    let stored = registry.envelope(40).unwrap();
    assert_eq!((stored.file_id, stored.owner_id, stored.recipient_id), (40, 1, 7));
    assert_eq!((stored.file_name.as_str(), stored.file_size), ("a.txt", 3));
    assert_eq!(stored.created_at, at(100));

    // Without a hash nothing is stored.
    let unhashed =
        registry.create_with(1, 7, "b.txt".to_string(), 3, envelope(2), None, at(500), at(100), 41, 51);
    assert_eq!(unhashed, Err(CreateError::Hashing));
    // A taken share identifier, then a taken file identifier.
    let hash = || Some("hash-b".to_string());
    let taken_share =
        registry.create_with(1, 7, "b.txt".to_string(), 3, envelope(2), hash(), at(500), at(100), 41, 50);
    assert_eq!(taken_share, Err(CreateError::Storage));
    let taken_file =
        registry.create_with(1, 7, "b.txt".to_string(), 3, envelope(2), hash(), at(500), at(100), 40, 51);
    assert_eq!(taken_file, Err(CreateError::Storage));
    assert_eq!(registry.len(), 1);
    // The two kinds of identifier do not collide with each other.
    let crossed =
        registry.create_with(1, 7, "b.txt".to_string(), 3, envelope(2), hash(), at(500), at(100), 50, 40);
    assert_eq!(crossed, Ok(40));
    assert_eq!(registry.len(), 2);
}

#[test]
fn create_on_an_empty_registry_is_never_refused_by_the_store() {
    for _ in 0..3 {
        let mut registry = ShareRegistry::new();
        let made = registry.create(
            1,
            7,
            "a.txt".to_string(),
            3,
            envelope(1),
            "pw",
            Timestamp::new(500),
            Timestamp::new(100),
        );
        assert_ne!(made, Err(CreateError::Storage));
        assert_eq!(made.is_ok(), registry.len() == 1);
    }
}

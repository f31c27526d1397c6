use scholar_contracts::scholar_nft::{NftEvent, ScholarNFT, ScholarNFTError};
use scholar_contracts::AccountId;

const ADMIN: AccountId = 1;

fn setup() -> (AccountId, ScholarNFT) {
    let mut client = ScholarNFT::new();
    client.initialize(ADMIN).unwrap();
    (ADMIN, client)
}

fn cid(value: &str) -> String {
    value.to_string()
}

#[test]
fn mint_returns_sequential_token_ids() {
    let (admin, mut client) = setup();
    let scholar_a = 10;
    let scholar_b = 11;

    assert_eq!(client.mint(admin, scholar_a, cid("ipfs://cid-1")), Ok(1));
    assert_eq!(client.mint(admin, scholar_b, cid("ipfs://cid-2")), Ok(2));
}

#[test]
fn owner_of_returns_minted_owner() {
    let (admin, mut client) = setup();
    let scholar = 10;

    let token_id = client.mint(admin, scholar, cid("ipfs://owner-check")).unwrap();

    assert_eq!(client.owner_of(token_id), Ok(scholar));
}

#[test]
fn token_uri_returns_metadata_uri() {
    let (admin, mut client) = setup();
    let scholar = 10;
    let metadata_uri = cid("ipfs://bafybeigdyrzt");

    let token_id = client.mint(admin, scholar, metadata_uri.clone()).unwrap();

    assert_eq!(client.token_uri(token_id), Ok(metadata_uri));
}

#[test]
fn revoke_flow_marks_token_revoked() {
    let (admin, mut client) = setup();
    let scholar = 10;
    let reason = cid("Plagiarism");

    let token_id = client.mint(admin, scholar, cid("ipfs://revoke")).unwrap();
    assert!(client.has_credential(token_id));

    client.revoke(admin, token_id, reason.clone()).unwrap();

    assert!(!client.has_credential(token_id));
    assert_eq!(client.get_revocation_reason(token_id), Some(reason));
}

#[test]
fn owner_of_revoked_panics() {
    let (admin, mut client) = setup();
    let scholar = 10;
    let reason = cid("Plagiarism");

    let token_id = client.mint(admin, scholar, cid("ipfs://revoked")).unwrap();
    client.revoke(admin, token_id, reason).unwrap();

    assert_eq!(client.owner_of(token_id), Err(ScholarNFTError::TokenRevoked));
}

#[test]
fn revoke_non_existent_token_panics() {
    let (admin, mut client) = setup();
    let reason = cid("Testing");

    assert_eq!(client.revoke(admin, 999_u64, reason), Err(ScholarNFTError::TokenNotFound));
}

#[test]
fn initialize_emits_event() {
    let admin = ADMIN;
    let mut client = ScholarNFT::new();

    client.initialize(admin).unwrap();

    let found = client.events().iter().any(|e| *e == NftEvent::Initialized { admin });
    assert!(found, "initialized event not found");
}

#[test]
fn mint_emits_event() {
    let (admin, mut client) = setup();
    let scholar = 10;
    let uri = cid("ipfs://mint-event-test");

    let token_id = client.mint(admin, scholar, uri).unwrap();

    let found = client
        .events()
        .iter()
        .any(|e| matches!(e, NftEvent::Minted { token_id: t, .. } if *t == token_id));
    assert!(found, "mint event not found");
}

#[test]
fn transfer_panics_with_soulbound_error() {
    let (_, mut client) = setup();
    let from = 10;
    let to = 11;
    let token_id = 1_u64;

    let result = client.transfer(from, to, token_id);

    assert_eq!(result.err(), Some(ScholarNFTError::Soulbound));
}

#[test]
fn mint_before_initialize_is_refused() {
    let mut client = ScholarNFT::new();
    assert_eq!(client.mint(ADMIN, 10, cid("ipfs://x")), Err(ScholarNFTError::NotInitialized));
    assert_eq!(client.total_supply(), 0);
}

#[test]
fn initialize_twice_is_refused() {
    let (_, mut client) = setup();
    assert_eq!(client.initialize(2), Err(ScholarNFTError::AlreadyInitialized));
    assert_eq!(client.events().len(), 1);
}

#[test]
fn non_admin_cannot_mint_or_revoke() {
    let (admin, mut client) = setup();
    let intruder = 99;
    assert_eq!(client.mint(intruder, 10, cid("ipfs://x")), Err(ScholarNFTError::Unauthorized));
    let token_id = client.mint(admin, 10, cid("ipfs://y")).unwrap();
    assert_eq!(
        client.revoke(intruder, token_id, cid("no")),
        Err(ScholarNFTError::Unauthorized)
    );
    assert!(client.has_credential(token_id));
}

#[test]
fn revoking_twice_is_refused_and_reason_kept() {
    let (admin, mut client) = setup();
    let token_id = client.mint(admin, 10, cid("ipfs://z")).unwrap();
    client.revoke(admin, token_id, cid("first")).unwrap();
    assert_eq!(
        client.revoke(admin, token_id, cid("second")),
        Err(ScholarNFTError::TokenRevoked)
    );
    assert_eq!(client.get_revocation_reason(token_id), Some(cid("first")));
    assert_eq!(client.token_uri(token_id), Ok(cid("ipfs://z")));
    assert_eq!(
        client.events().last(),
        Some(&NftEvent::Revoked { token_id })
    );
}

#[test]
fn unknown_tokens_are_reported_missing() {
    let (_, client) = setup();
    assert_eq!(client.owner_of(0), Err(ScholarNFTError::TokenNotFound));
    assert_eq!(client.owner_of(1), Err(ScholarNFTError::TokenNotFound));
    assert_eq!(client.token_uri(3), Err(ScholarNFTError::TokenNotFound));
    assert!(!client.has_credential(1));
    assert_eq!(client.get_revocation_reason(1), None);
}

#[test]
fn transfer_of_minted_token_keeps_owner() {
    let (admin, mut client) = setup();
    let token_id = client.mint(admin, 10, cid("ipfs://keep")).unwrap();
    assert_eq!(client.transfer(10, 11, token_id), Err(ScholarNFTError::Soulbound));
    assert_eq!(client.owner_of(token_id), Ok(10));
    assert_eq!(client.total_supply(), 1);
}

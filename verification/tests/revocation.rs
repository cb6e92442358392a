use bindentity::account::Account;
use bindentity::action::Action;
use bindentity::address::Address;
use bindentity::error::CustomError;
use bindentity::flags::{ProviderFlags, ValidatorFlags};
use bindentity::instructions::{
    void_bindie_handler, void_bindie_proof_guard, void_identity_handler,
    void_identity_proof_guard, VoidBindie, VoidBindieParams, VoidIdentity, VoidIdentityParams,
};
use bindentity::ledger::DedupLedger;
use bindentity::state::{Bindie, Global, Identity, Link, Provider, Validator};

const EMAIL_A_HASH: &str = "3XMz7AZMKG2MjcHFNpNLbzznhimambrtWY6XHboVyLza";
const EMAIL_A_DIGEST: [u8; 32] = [
    37, 126, 134, 133, 183, 174, 149, 198, 40, 89, 228, 212, 95, 203, 49, 232, 245, 17, 103, 100,
    214, 91, 254, 206, 101, 63, 12, 39, 142, 55, 0, 119,
];

fn k(n: u8) -> Address {
    Address::new([n; 32])
}

fn provider_email() -> Account<Provider> {
    Account {
        key: k(20),
        data: Provider {
            flags: ProviderFlags { has_validator: true, ..ProviderFlags::fresh() },
            authority: k(3),
            treasury: k(4),
            registration_fee: 1000,
            validator_count: 1,
            selling_price: 0,
            name: String::from("email"),
            uri: String::new(),
        },
    }
}

fn ledger_with(identifier: &[u8], identity: Address) -> DedupLedger {
    let mut ledger = DedupLedger::new();
    ledger.insert_if_absent(k(20), identifier.to_vec(), Link { identity }).unwrap();
    ledger
}

fn void_bindie(stored: &str, encryption_count: u8, validator_bits: u8, signer: u8) -> VoidBindie {
    VoidBindie {
        bindie: Account {
            key: k(40),
            data: Bindie {
                owner: k(6),
                provider: k(20),
                timestamp: 1,
                encryption_count,
                data: String::from(stored),
            },
        },
        link: b"a@x.com".to_vec(),
        signer: k(signer),
        validator_signer: k(5),
        validator: Account {
            key: k(22),
            data: Validator {
                flags: ValidatorFlags::from_bits(validator_bits),
                provider: k(20),
                signer: k(5),
            },
        },
        provider: provider_email(),
        treasury: k(2),
        global: Global { authority: k(1), treasury: k(2), service_fee: 10, provider_creation_fee: 500 },
    }
}

fn void_identity(validator_bits: u8, signer: u8) -> VoidIdentity {
    let b = void_bindie("", 0, validator_bits, signer);
    VoidIdentity {
        identity: Account {
            key: k(41),
            data: Identity { id: EMAIL_A_DIGEST, owner: k(6), provider: k(20), timestamp: 1 },
        },
        link: b.link,
        signer: b.signer,
        validator_signer: b.validator_signer,
        validator: b.validator,
        provider: b.provider,
        treasury: b.treasury,
        global: b.global,
    }
}

fn settled(signer: u8) -> Vec<Action> {
    vec![Action::Transfer { from: k(signer), to: k(2), amount: 10 }, Action::Refund { to: k(signer) }]
}

#[test]
fn the_owner_voids_without_proof() {
    let mut ledger = ledger_with(b"a@x.com", k(40));
    let ctx = void_bindie(EMAIL_A_HASH, 1, 0, 6);
    assert_eq!(void_bindie_handler(&mut ledger, &ctx, VoidBindieParams { data: None }), Ok(settled(6)));
    assert!(!ledger.contains(&k(20), b"a@x.com"));
}

#[test]
fn a_stranger_does_not_void_without_proof() {
    let mut ledger = ledger_with(b"a@x.com", k(40));
    let ctx = void_bindie(EMAIL_A_HASH, 1, 7, 7);
    assert_eq!(
        void_bindie_handler(&mut ledger, &ctx, VoidBindieParams { data: None }),
        Err(CustomError::VoidUnauthorized)
    );
    assert_eq!(ledger.get(&k(20), b"a@x.com"), Some(Link { identity: k(40) }));
}

#[test]
fn a_validator_voids_with_the_data_of_a_hashed_bindie() {
    let mut ledger = ledger_with(b"a@x.com", k(40));
    let ctx = void_bindie(EMAIL_A_HASH, 1, 4, 7);
    let proof = VoidBindieParams { data: Some(String::from("a@x.com")) };
    assert_eq!(void_bindie_handler(&mut ledger, &ctx, proof), Ok(settled(7)));
    assert!(!ledger.contains(&k(20), b"a@x.com"));
}

#[test]
fn data_that_does_not_hash_to_the_stored_hash_is_no_proof() {
    let mut ledger = ledger_with(b"a@x.com", k(40));
    let ctx = void_bindie(EMAIL_A_HASH, 1, 4, 7);
    let proof = VoidBindieParams { data: Some(String::from("b@x.com")) };
    assert_eq!(void_bindie_handler(&mut ledger, &ctx, proof), Err(CustomError::InvalidDataHash));
    let unsalted = VoidBindieParams { data: Some(String::from(EMAIL_A_HASH)) };
    assert_eq!(void_bindie_handler(&mut ledger, &ctx, unsalted), Err(CustomError::InvalidDataHash));
    assert!(ledger.contains(&k(20), b"a@x.com"));
}

#[test]
fn the_hash_is_salted_with_the_name_of_the_provider() {
    let mut ledger = ledger_with(b"a@x.com", k(40));
    let mut ctx = void_bindie(EMAIL_A_HASH, 1, 4, 7);
    ctx.provider.data.name = String::from("phone");
    let proof = VoidBindieParams { data: Some(String::from("a@x.com")) };
    assert_eq!(
        void_bindie_handler(&mut ledger, &ctx, proof.clone()),
        Err(CustomError::InvalidDataHash)
    );
    ctx.bindie.data.data = String::from("aHHRcVRPg5tcywPuqwiDHkeWeawf3g8EVpzWGBXCoEi");
    assert_eq!(void_bindie_handler(&mut ledger, &ctx, proof), Ok(settled(7)));
}

#[test]
fn a_bindie_stored_in_the_clear_needs_no_matching_data() {
    let mut ledger = ledger_with(b"a@x.com", k(40));
    let ctx = void_bindie("a@x.com", 0, 4, 7);
    let proof = VoidBindieParams { data: Some(String::from("anything")) };
    assert_eq!(void_bindie_handler(&mut ledger, &ctx, proof), Ok(settled(7)));
}

#[test]
fn a_validator_without_the_permission_does_not_void() {
    let mut ledger = ledger_with(b"a@x.com", k(40));
    let ctx = void_bindie(EMAIL_A_HASH, 1, 3, 6);
    let proof = VoidBindieParams { data: Some(String::from("a@x.com")) };
    assert_eq!(void_bindie_handler(&mut ledger, &ctx, proof), Err(CustomError::ValidatorDisabled));
    assert!(ledger.contains(&k(20), b"a@x.com"));
}

#[test]
fn a_closed_link_is_not_closed_again() {
    let mut ledger = ledger_with(b"a@x.com", k(40));
    let ctx = void_bindie(EMAIL_A_HASH, 1, 4, 6);
    assert_eq!(void_bindie_handler(&mut ledger, &ctx, VoidBindieParams { data: None }), Ok(settled(6)));
    assert_eq!(
        void_bindie_handler(&mut ledger, &ctx, VoidBindieParams { data: None }),
        Err(CustomError::ConstraintViolation)
    );
    let proof = VoidBindieParams { data: Some(String::from("a@x.com")) };
    assert_eq!(void_bindie_handler(&mut ledger, &ctx, proof), Err(CustomError::ConstraintViolation));
}

#[test]
fn voiding_guards_the_accounts_presented() {
    let mut ledger = ledger_with(b"a@x.com", k(40));
    let none = VoidBindieParams { data: None };

    let mut other_link = void_bindie(EMAIL_A_HASH, 1, 4, 6);
    other_link.link = b"b@x.com".to_vec();
    assert_eq!(
        void_bindie_handler(&mut ledger, &other_link, none.clone()),
        Err(CustomError::ConstraintViolation)
    );

    let mut other_bindie = void_bindie(EMAIL_A_HASH, 1, 4, 6);
    other_bindie.bindie.key = k(49);
    assert_eq!(
        void_bindie_handler(&mut ledger, &other_bindie, none.clone()),
        Err(CustomError::ConstraintViolation)
    );

    let mut other_provider = void_bindie(EMAIL_A_HASH, 1, 4, 6);
    other_provider.bindie.data.provider = k(21);
    assert_eq!(
        void_bindie_handler(&mut ledger, &other_provider, none.clone()),
        Err(CustomError::ConstraintViolation)
    );

    let mut wrong_signer = void_bindie(EMAIL_A_HASH, 1, 4, 6);
    wrong_signer.validator_signer = k(9);
    assert_eq!(
        void_bindie_handler(&mut ledger, &wrong_signer, none.clone()),
        Err(CustomError::ConstraintViolation)
    );

    let mut foreign_validator = void_bindie(EMAIL_A_HASH, 1, 4, 6);
    foreign_validator.validator.data.provider = k(21);
    assert_eq!(
        void_bindie_handler(&mut ledger, &foreign_validator, none.clone()),
        Err(CustomError::ConstraintViolation)
    );

    let mut wrong_treasury = void_bindie(EMAIL_A_HASH, 1, 4, 6);
    wrong_treasury.treasury = k(9);
    assert_eq!(
        void_bindie_handler(&mut ledger, &wrong_treasury, none),
        Err(CustomError::ConstraintViolation)
    );
    assert_eq!(ledger.get(&k(20), b"a@x.com"), Some(Link { identity: k(40) }));
}

#[test]
fn an_identity_is_voided_by_its_owner() {
    let mut ledger = ledger_with(b"a@x.com", k(41));
    let ctx = void_identity(0, 6);
    assert_eq!(void_identity_handler(&mut ledger, &ctx, VoidIdentityParams { id: None }), Ok(settled(6)));
    assert!(!ledger.contains(&k(20), b"a@x.com"));
    assert_eq!(
        void_identity_handler(&mut ledger, &ctx, VoidIdentityParams { id: None }),
        Err(CustomError::ConstraintViolation)
    );
}

#[test]
fn an_identity_is_voided_with_its_identifier() {
    let mut ledger = ledger_with(b"a@x.com", k(41));
    let ctx = void_identity(4, 7);
    let wrong = VoidIdentityParams { id: Some(b"b@x.com".to_vec()) };
    assert_eq!(void_identity_handler(&mut ledger, &ctx, wrong), Err(CustomError::InvalidIdHash));
    assert!(ledger.contains(&k(20), b"a@x.com"));
    let proof = VoidIdentityParams { id: Some(b"a@x.com".to_vec()) };
    assert_eq!(void_identity_handler(&mut ledger, &ctx, proof), Ok(settled(7)));
    assert!(!ledger.contains(&k(20), b"a@x.com"));
}

#[test]
fn an_identity_is_not_voided_by_others() {
    let mut ledger = ledger_with(b"a@x.com", k(41));
    let stranger = void_identity(7, 7);
    assert_eq!(
        void_identity_handler(&mut ledger, &stranger, VoidIdentityParams { id: None }),
        Err(CustomError::VoidUnauthorized)
    );
    let unpermitted = void_identity(3, 7);
    let proof = VoidIdentityParams { id: Some(b"a@x.com".to_vec()) };
    assert_eq!(
        void_identity_handler(&mut ledger, &unpermitted, proof),
        Err(CustomError::ValidatorDisabled)
    );
    assert!(ledger.contains(&k(20), b"a@x.com"));
}

#[test]
fn a_presented_hash_is_held_against_the_stored_one() {
    let hashed = void_bindie(EMAIL_A_HASH, 2, 4, 7);
    assert_eq!(void_bindie_proof_guard(&hashed, &Some(String::from(EMAIL_A_HASH))), None);
    assert_eq!(
        void_bindie_proof_guard(&hashed, &Some(String::from("a@x.com"))),
        Some(CustomError::InvalidDataHash)
    );
    assert_eq!(void_bindie_proof_guard(&hashed, &None), Some(CustomError::VoidUnauthorized));

    let clear = void_bindie("a@x.com", 0, 4, 7);
    assert_eq!(void_bindie_proof_guard(&clear, &Some(String::from("whatever"))), None);

    let unpermitted = void_bindie(EMAIL_A_HASH, 1, 3, 6);
    assert_eq!(
        void_bindie_proof_guard(&unpermitted, &Some(String::from(EMAIL_A_HASH))),
        Some(CustomError::ValidatorDisabled)
    );
    assert_eq!(void_bindie_proof_guard(&unpermitted, &None), None);

    let identity = void_identity(4, 7);
    assert_eq!(void_identity_proof_guard(&identity, &Some(EMAIL_A_DIGEST)), None);
    let mut other = EMAIL_A_DIGEST;
    other[31] ^= 1;
    assert_eq!(
        void_identity_proof_guard(&identity, &Some(other)),
        Some(CustomError::InvalidIdHash)
    );
    assert_eq!(void_identity_proof_guard(&identity, &None), Some(CustomError::VoidUnauthorized));
    assert_eq!(
        void_identity_proof_guard(&void_identity(3, 7), &Some(EMAIL_A_DIGEST)),
        Some(CustomError::ValidatorDisabled)
    );
}

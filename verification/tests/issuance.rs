use bindentity::account::Account;
use bindentity::action::Action;
use bindentity::address::Address;
use bindentity::error::CustomError;
use bindentity::flags::{ProviderFlags, ValidatorFlags};
use bindentity::instructions::{
    create_bindie_handler, create_identity_handler, CreateBindie, CreateBindieParams,
    CreateIdentity, CreateIdentityParams,
};
use bindentity::ledger::DedupLedger;
use bindentity::state::{Bindie, Global, Identity, Link, Provider, Validator};

const EMAIL_A_HASH: &str = "3XMz7AZMKG2MjcHFNpNLbzznhimambrtWY6XHboVyLza";
const EMAIL_A_DIGEST: [u8; 32] = [
    37, 126, 134, 133, 183, 174, 149, 198, 40, 89, 228, 212, 95, 203, 49, 232, 245, 17, 103, 100,
    214, 91, 254, 206, 101, 63, 12, 39, 142, 55, 0, 119,
];

fn at(n: u8) -> Address {
    Address::new([n; 32])
}

fn email() -> Account<Provider> {
    Account {
        key: at(20),
        data: Provider {
            flags: ProviderFlags {
                enabled: true,
                published: true,
                verified: false,
                for_sale: false,
                has_validator: true,
                has_metadata: false,
            },
            authority: at(3),
            treasury: at(4),
            registration_fee: 1000,
            validator_count: 1,
            selling_price: 0,
            name: String::from("email"),
            uri: String::new(),
        },
    }
}

fn bindie_request(bits: u8) -> CreateBindie {
    CreateBindie {
        bindie: Account { key: at(40), data: None },
        owner: at(6),
        signer: at(5),
        validator: Account {
            key: at(22),
            data: Validator { flags: ValidatorFlags::from_bits(bits), provider: at(20), signer: at(5) },
        },
        provider_treasury: at(4),
        provider: email(),
        treasury: at(2),
        global: Global {
            authority: at(1),
            treasury: at(2),
            service_fee: 10,
            provider_creation_fee: 500,
        },
    }
}

fn identity_request(bits: u8) -> CreateIdentity {
    let b = bindie_request(bits);
    CreateIdentity {
        identity: Account { key: at(41), data: None },
        owner: b.owner,
        signer: b.signer,
        validator: b.validator,
        provider_treasury: b.provider_treasury,
        provider: b.provider,
        treasury: b.treasury,
        global: b.global,
    }
}

fn raw(data: &str, fee: Option<u64>) -> CreateBindieParams {
    CreateBindieParams {
        data: String::from(data),
        timestamp: 1_700_000_000,
        encryption_count: 0,
        registration_fee: fee,
    }
}

#[test]
fn a_bindie_is_issued_with_its_link_and_fees() {
    let mut ledger = DedupLedger::new();
    let mut ctx = bindie_request(1);
    let actions = create_bindie_handler(&mut ledger, &mut ctx, raw("a@x.com", None)).unwrap();
    assert_eq!(
        actions,
        vec![
            Action::Transfer { from: at(6), to: at(2), amount: 10 },
            Action::Transfer { from: at(6), to: at(4), amount: 1000 },
        ]
    );
    assert_eq!(
        ctx.bindie.data,
        Some(Bindie {
            owner: at(6),
            provider: at(20),
            timestamp: 1_700_000_000,
            encryption_count: 0,
            data: String::from("a@x.com"),
        })
    );
    assert_eq!(ledger.get(&at(20), b"a@x.com"), Some(Link { identity: at(40) }));
    assert!(!ledger.contains(&at(20), b"b@x.com"));
    assert!(!ledger.contains(&at(21), b"a@x.com"));
}

#[test]
fn hashed_data_is_stored_as_its_salted_hash() {
    let mut ledger = DedupLedger::new();
    let mut ctx = bindie_request(1);
    let params = CreateBindieParams { encryption_count: 1, ..raw("a@x.com", None) };
    create_bindie_handler(&mut ledger, &mut ctx, params).unwrap();
    let b = ctx.bindie.data.unwrap();
    assert_eq!(b.data, EMAIL_A_HASH);
    assert_eq!(b.encryption_count, 1);

    let mut twice = bindie_request(1);
    twice.bindie.key = at(42);
    let params = CreateBindieParams { encryption_count: 2, ..raw("b@x.com", None) };
    create_bindie_handler(&mut ledger, &mut twice, params).unwrap();
    let b = twice.bindie.data.unwrap();
    assert_eq!(b.data, "99JtMFwCLR486LprKZqXUePWheohWueYSNTTwzKrWXLC");
    assert_eq!(b.encryption_count, 2);
}

#[test]
fn a_second_bindie_for_the_same_data_is_rejected_first() {
    let mut ledger = DedupLedger::new();
    let mut first = bindie_request(1);
    create_bindie_handler(&mut ledger, &mut first, raw("a@x.com", None)).unwrap();

    let mut second = bindie_request(0);
    second.bindie.key = at(43);
    second.owner = at(7);
    second.treasury = at(99);
    let before = second.clone();
    let later = CreateBindieParams { timestamp: 1_800_000_000, ..raw("a@x.com", None) };
    assert_eq!(
        create_bindie_handler(&mut ledger, &mut second, later),
        Err(CustomError::AlreadyExists)
    );
    assert_eq!(second, before);
    assert_eq!(ledger.get(&at(20), b"a@x.com"), Some(Link { identity: at(40) }));
}

#[test]
fn the_same_data_under_another_provider_is_another_link() {
    let mut ledger = DedupLedger::new();
    let mut first = bindie_request(1);
    create_bindie_handler(&mut ledger, &mut first, raw("a@x.com", None)).unwrap();

    let mut other = bindie_request(1);
    other.bindie.key = at(44);
    other.provider.key = at(21);
    other.validator.data.provider = at(21);
    create_bindie_handler(&mut ledger, &mut other, raw("a@x.com", None)).unwrap();
    assert_eq!(ledger.get(&at(20), b"a@x.com"), Some(Link { identity: at(40) }));
    assert_eq!(ledger.get(&at(21), b"a@x.com"), Some(Link { identity: at(44) }));
}

#[test]
fn a_record_in_use_is_not_overwritten() {
    let mut ledger = DedupLedger::new();
    let mut ctx = bindie_request(1);
    create_bindie_handler(&mut ledger, &mut ctx, raw("a@x.com", None)).unwrap();
    let held = ctx.bindie.clone();
    assert_eq!(
        create_bindie_handler(&mut ledger, &mut ctx, raw("b@x.com", None)),
        Err(CustomError::AlreadyExists)
    );
    assert_eq!(ctx.bindie, held);
    assert!(!ledger.contains(&at(20), b"b@x.com"));
}

#[test]
fn the_fee_named_counts_only_for_a_validator_that_may_set_it() {
    let mut ledger = DedupLedger::new();
    let mut may = bindie_request(3);
    let actions = create_bindie_handler(&mut ledger, &mut may, raw("a", Some(250))).unwrap();
    assert_eq!(actions[0], Action::Transfer { from: at(6), to: at(2), amount: 10 });
    assert_eq!(actions[1], Action::Transfer { from: at(6), to: at(4), amount: 250 });

    let mut may_not = bindie_request(1);
    let actions = create_bindie_handler(&mut ledger, &mut may_not, raw("b", Some(250))).unwrap();
    assert_eq!(actions[1], Action::Transfer { from: at(6), to: at(4), amount: 1000 });

    let mut unnamed = bindie_request(3);
    let actions = create_bindie_handler(&mut ledger, &mut unnamed, raw("c", None)).unwrap();
    assert_eq!(actions[1], Action::Transfer { from: at(6), to: at(4), amount: 1000 });
}

#[test]
fn issuance_needs_a_validator_that_may_attest_it() {
    let mut ledger = DedupLedger::new();
    let mut ctx = bindie_request(6);
    let before = ctx.clone();
    assert_eq!(
        create_bindie_handler(&mut ledger, &mut ctx, raw("a@x.com", None)),
        Err(CustomError::ValidatorDisabled)
    );
    assert_eq!(ctx, before);
    assert!(!ledger.contains(&at(20), b"a@x.com"));
}

#[test]
fn issuance_needs_an_enabled_provider() {
    let mut ledger = DedupLedger::new();
    let mut ctx = bindie_request(1);
    ctx.provider.data.flags.enabled = false;
    assert_eq!(
        create_bindie_handler(&mut ledger, &mut ctx, raw("a@x.com", None)),
        Err(CustomError::ProviderDisabled)
    );
    assert_eq!(ctx.bindie.data, None);
    assert!(!ledger.contains(&at(20), b"a@x.com"));
}

#[test]
fn issuance_needs_a_published_provider() {
    let mut ledger = DedupLedger::new();
    let mut ctx = bindie_request(1);
    ctx.provider.data.flags.published = false;
    assert_eq!(
        create_bindie_handler(&mut ledger, &mut ctx, raw("a@x.com", None)),
        Err(CustomError::ProviderUnpublished)
    );
    assert_eq!(ctx.bindie.data, None);
    assert!(!ledger.contains(&at(20), b"a@x.com"));
}

#[test]
fn issuance_guards_signer_provider_and_treasuries() {
    let mut ledger = DedupLedger::new();

    let mut wrong_signer = bindie_request(1);
    wrong_signer.signer = at(9);
    assert_eq!(
        create_bindie_handler(&mut ledger, &mut wrong_signer, raw("a", None)),
        Err(CustomError::ConstraintViolation)
    );

    let mut foreign_validator = bindie_request(1);
    foreign_validator.validator.data.provider = at(21);
    assert_eq!(
        create_bindie_handler(&mut ledger, &mut foreign_validator, raw("a", None)),
        Err(CustomError::ConstraintViolation)
    );

    let mut wrong_provider_treasury = bindie_request(1);
    wrong_provider_treasury.provider_treasury = at(9);
    assert_eq!(
        create_bindie_handler(&mut ledger, &mut wrong_provider_treasury, raw("a", None)),
        Err(CustomError::ConstraintViolation)
    );

    let mut wrong_treasury = bindie_request(1);
    wrong_treasury.treasury = at(9);
    assert_eq!(
        create_bindie_handler(&mut ledger, &mut wrong_treasury, raw("a", None)),
        Err(CustomError::ConstraintViolation)
    );
    assert!(!ledger.contains(&at(20), b"a"));
}

#[test]
fn a_foreign_validator_is_reported_before_a_missing_permission() {
    let mut ledger = DedupLedger::new();
    let mut ctx = bindie_request(0);
    ctx.validator.data.provider = at(21);
    ctx.provider.data.flags.enabled = false;
    assert_eq!(
        create_bindie_handler(&mut ledger, &mut ctx, raw("a", None)),
        Err(CustomError::ConstraintViolation)
    );
    ctx.validator.data.provider = at(20);
    assert_eq!(
        create_bindie_handler(&mut ledger, &mut ctx, raw("a", None)),
        Err(CustomError::ValidatorDisabled)
    );
}

#[test]
fn an_identity_keeps_the_salted_hash_of_its_identifier() {
    let mut ledger = DedupLedger::new();
    let mut ctx = identity_request(1);
    let params = CreateIdentityParams {
        id: b"a@x.com".to_vec(),
        timestamp: 1_700_000_001,
        registration_fee: None,
    };
    let actions = create_identity_handler(&mut ledger, &mut ctx, params).unwrap();
    assert_eq!(
        actions,
        vec![
            Action::Transfer { from: at(6), to: at(2), amount: 10 },
            Action::Transfer { from: at(6), to: at(4), amount: 1000 },
        ]
    );
    assert_eq!(
        ctx.identity.data,
        Some(Identity {
            id: EMAIL_A_DIGEST,
            owner: at(6),
            provider: at(20),
            timestamp: 1_700_000_001,
        })
    );
    assert_eq!(ledger.get(&at(20), b"a@x.com"), Some(Link { identity: at(41) }));
}

#[test]
fn a_second_identity_for_the_same_identifier_is_rejected() {
    let mut ledger = DedupLedger::new();
    let mut first = identity_request(1);
    let params =
        CreateIdentityParams { id: vec![1, 2, 3], timestamp: 5, registration_fee: None };
    create_identity_handler(&mut ledger, &mut first, params.clone()).unwrap();

    let mut second = identity_request(3);
    second.identity.key = at(45);
    let before = second.clone();
    let later = CreateIdentityParams { timestamp: 6, registration_fee: Some(1), ..params };
    assert_eq!(
        create_identity_handler(&mut ledger, &mut second, later),
        Err(CustomError::AlreadyExists)
    );
    assert_eq!(second, before);

    let other = CreateIdentityParams { id: vec![1, 2], timestamp: 6, registration_fee: Some(1) };
    let actions = create_identity_handler(&mut ledger, &mut second, other).unwrap();
    assert_eq!(actions[1], Action::Transfer { from: at(6), to: at(4), amount: 1 });
}

#[test]
fn identity_issuance_reports_each_guard() {
    let mut ledger = DedupLedger::new();
    let params = CreateIdentityParams { id: vec![9], timestamp: 5, registration_fee: None };

    let mut disabled = identity_request(1);
    disabled.provider.data.flags.enabled = false;
    assert_eq!(
        create_identity_handler(&mut ledger, &mut disabled, params.clone()),
        Err(CustomError::ProviderDisabled)
    );

    let mut unpublished = identity_request(1);
    unpublished.provider.data.flags.published = false;
    assert_eq!(
        create_identity_handler(&mut ledger, &mut unpublished, params.clone()),
        Err(CustomError::ProviderUnpublished)
    );

    let mut unpermitted = identity_request(4);
    assert_eq!(
        create_identity_handler(&mut ledger, &mut unpermitted, params.clone()),
        Err(CustomError::ValidatorDisabled)
    );

    let mut unsigned = identity_request(1);
    unsigned.signer = at(6);
    assert_eq!(
        create_identity_handler(&mut ledger, &mut unsigned, params),
        Err(CustomError::ConstraintViolation)
    );
    assert!(!ledger.contains(&at(20), &[9]));
}

use bindentity::account::Account;
use bindentity::address::Address;
use bindentity::error::CustomError;
use bindentity::flags::{ProviderFlags, ValidatorFlags};
use bindentity::instructions::{verify_provider_handler, VerifyProvider, VerifyProviderParams};
use bindentity::ledger::DedupLedger;
use bindentity::state::{Bindie, Link, Provider, Validator};

fn a(n: u8) -> Address {
    Address::new([n; 32])
}

fn named(name: &str, key: u8, authority: u8) -> Account<Provider> {
    Account {
        key: a(key),
        data: Provider {
            flags: ProviderFlags {
                published: true,
                has_validator: true,
                has_metadata: true,
                ..ProviderFlags::fresh()
            },
            authority: a(authority),
            treasury: a(4),
            registration_fee: 1000,
            validator_count: 1,
            selling_price: 0,
            name: String::from(name),
            uri: String::new(),
        },
    }
}

fn request() -> VerifyProvider {
    VerifyProvider {
        verifier_provider: named("provider", 10, 1),
        validator: Account {
            key: a(12),
            data: Validator { flags: ValidatorFlags::from_bits(0), provider: a(10), signer: a(5) },
        },
        signer: a(5),
        owner_bindie: Account {
            key: a(40),
            data: Bindie {
                owner: a(3),
                provider: a(10),
                timestamp: 7,
                encryption_count: 1,
                data: String::from("DSrRiGode9Px2qYrUaHeUAzmXyyDgaSdxeUritPhxnQQ"),
            },
        },
        target_provider: named("email", 20, 3),
        owner: a(3),
    }
}

fn live() -> DedupLedger {
    let mut ledger = DedupLedger::new();
    ledger.insert_if_absent(a(10), b"owner-data".to_vec(), Link { identity: a(40) }).unwrap();
    ledger
}

fn data() -> VerifyProviderParams {
    VerifyProviderParams { data: String::from("owner-data") }
}

#[test]
fn a_provider_is_verified_through_the_root_provider() {
    let ledger = live();
    let mut ctx = request();
    assert_eq!(verify_provider_handler(&ledger, &mut ctx, data()), Ok(()));
    assert!(ctx.target_provider.data.flags.verified);
    assert_eq!(ctx.target_provider.data.flags.bits(), 1 + 2 + 4 + 16 + 32);
    assert_eq!(ctx.verifier_provider, request().verifier_provider);
    assert!(ledger.contains(&a(10), b"owner-data"));

    assert_eq!(verify_provider_handler(&ledger, &mut ctx, data()), Ok(()));
    assert_eq!(ctx.target_provider.data.flags.bits(), 55);
}

#[test]
fn only_the_root_provider_verifies() {
    let ledger = live();
    let mut ctx = request();
    ctx.verifier_provider.data.name = String::from("providers");
    let before = ctx.clone();
    assert_eq!(
        verify_provider_handler(&ledger, &mut ctx, data()),
        Err(CustomError::ConstraintViolation)
    );
    assert_eq!(ctx, before);
}

#[test]
fn a_voided_bindie_verifies_nothing() {
    let mut ledger = live();
    ledger.close(&a(10), b"owner-data");
    let mut ctx = request();
    assert_eq!(
        verify_provider_handler(&ledger, &mut ctx, data()),
        Err(CustomError::ConstraintViolation)
    );
    assert!(!ctx.target_provider.data.flags.verified);
}

#[test]
fn verification_guards_each_account() {
    let ledger = live();

    let mut foreign_validator = request();
    foreign_validator.validator.data.provider = a(20);
    assert_eq!(
        verify_provider_handler(&ledger, &mut foreign_validator, data()),
        Err(CustomError::ConstraintViolation)
    );

    let mut wrong_signer = request();
    wrong_signer.signer = a(3);
    assert_eq!(
        verify_provider_handler(&ledger, &mut wrong_signer, data()),
        Err(CustomError::ConstraintViolation)
    );

    let mut not_the_owners = request();
    not_the_owners.owner_bindie.data.owner = a(6);
    assert_eq!(
        verify_provider_handler(&ledger, &mut not_the_owners, data()),
        Err(CustomError::ConstraintViolation)
    );

    let mut issued_elsewhere = request();
    issued_elsewhere.owner_bindie.data.provider = a(20);
    assert_eq!(
        verify_provider_handler(&ledger, &mut issued_elsewhere, data()),
        Err(CustomError::ConstraintViolation)
    );

    let mut another_bindie = request();
    another_bindie.owner_bindie.key = a(41);
    assert_eq!(
        verify_provider_handler(&ledger, &mut another_bindie, data()),
        Err(CustomError::ConstraintViolation)
    );

    let mut other_data = request();
    assert_eq!(
        verify_provider_handler(
            &ledger,
            &mut other_data,
            VerifyProviderParams { data: String::from("other-data") }
        ),
        Err(CustomError::ConstraintViolation)
    );

    let mut not_the_authority = request();
    not_the_authority.target_provider.data.authority = a(6);
    assert_eq!(
        verify_provider_handler(&ledger, &mut not_the_authority, data()),
        Err(CustomError::ConstraintViolation)
    );
    assert!(!not_the_authority.target_provider.data.flags.verified);
}

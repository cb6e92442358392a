use bindentity::account::Account;
use bindentity::address::Address;
use bindentity::error::CustomError;
use bindentity::flags::{ProviderFlags, ValidatorFlags};
use bindentity::instructions::{
    initialize_handler, update_config_handler, Initialize, InitializeParams, UpdateConfig,
    UpdateConfigParams,
};
use bindentity::state::{
    Bindie, Global, Identity, Link, Provider, ProviderMetadata, Validator,
};

fn w(n: u8) -> Address {
    Address::new([n; 32])
}

#[test]
fn records_have_their_sizes() {
    assert_eq!(Global::len(), 217);
    assert_eq!(Validator::len(), 74);
    assert_eq!(Link::len(), 41);
    assert_eq!(Identity::len(), 113);
    assert_eq!(Provider::len(&String::from("email"), &String::from("http://x")), 127 + 9 + 12);
    assert_eq!(Provider::len(&String::new(), &String::new()), 135);
    assert_eq!(ProviderMetadata::len(&String::from("abc")), 16);
    assert_eq!(Bindie::len(String::from("a@x.com")), 93);
    assert_eq!(Bindie::len(String::from("é")), 88);
}

#[test]
fn data_hash_is_salted_sha256_in_base58() {
    let email = String::from("email");
    let phone = String::from("phone");
    let a = String::from("a@x.com");
    let b = String::from("b@x.com");
    assert_eq!(Bindie::data_hash(&email, &a), "3XMz7AZMKG2MjcHFNpNLbzznhimambrtWY6XHboVyLza");
    assert_eq!(Bindie::data_hash(&email, &a), Bindie::data_hash(&email, &a));
    assert_eq!(Bindie::data_hash(&email, &b), "99JtMFwCLR486LprKZqXUePWheohWueYSNTTwzKrWXLC");
    assert_eq!(Bindie::data_hash(&phone, &a), "aHHRcVRPg5tcywPuqwiDHkeWeawf3g8EVpzWGBXCoEi");
    assert_ne!(Bindie::data_hash(&email, &a), Bindie::data_hash(&email, &b));
    assert_ne!(Bindie::data_hash(&email, &a), Bindie::data_hash(&phone, &a));
    assert_ne!(Bindie::data_hash(&email, &a), a);
}

#[test]
fn id_hash_is_salted_sha256() {
    let email = String::from("email");
    assert_eq!(
        Identity::id_hash(&email, b"a@x.com"),
        [
            37, 126, 134, 133, 183, 174, 149, 198, 40, 89, 228, 212, 95, 203, 49, 232, 245, 17,
            103, 100, 214, 91, 254, 206, 101, 63, 12, 39, 142, 55, 0, 119
        ]
    );
    assert_eq!(
        Identity::id_hash(&email, b"b@x.com"),
        [
            120, 254, 93, 105, 160, 171, 33, 109, 247, 69, 71, 130, 202, 24, 55, 72, 12, 176, 65,
            22, 65, 235, 154, 181, 42, 74, 158, 183, 47, 5, 239, 169
        ]
    );
    assert_ne!(Identity::id_hash(&String::from("phone"), b"a@x.com"), Identity::id_hash(&email, b"a@x.com"));
}

#[test]
fn crop_keeps_at_most_thirty_two_bytes() {
    assert_eq!(Bindie::crop(&String::from("short")), "short");
    assert_eq!(Bindie::crop(&String::new()), "");
    let exact = String::from("0123456789abcdef0123456789abcdef");
    assert_eq!(Bindie::crop(&exact), exact);
    let long = String::from("3XMz7AZMKG2MjcHFNpNLbzznhimambrtWY6XHboVyLza");
    assert_eq!(Bindie::crop(&long), "3XMz7AZMKG2MjcHFNpNLbzznhimambrt");
    assert_eq!(Bindie::crop(&long).len(), 32);
}

#[test]
fn provider_flags_have_their_bits() {
    let all = ProviderFlags::from_bits(63);
    assert!(
        all.enabled
            && all.published
            && all.verified
            && all.for_sale
            && all.has_validator
            && all.has_metadata
    );
    assert_eq!(all.bits(), 63);
    assert_eq!(ProviderFlags::fresh().bits(), 1);
    assert_eq!(ProviderFlags::from_bits(1), ProviderFlags::fresh());
    assert_eq!(ProviderFlags::from_bits(0).bits(), 0);
    assert!(ProviderFlags::from_bits(2).published);
    assert!(ProviderFlags::from_bits(4).verified);
    assert!(ProviderFlags::from_bits(8).for_sale);
    assert!(ProviderFlags::from_bits(16).has_validator);
    assert!(ProviderFlags::from_bits(32).has_metadata);
    assert_eq!(ProviderFlags::from_bits(65535).bits(), 63);
    assert_eq!(ProviderFlags::from_bits(64 + 8 + 1).bits(), 9);
    for bits in 0u16..64 {
        assert_eq!(ProviderFlags::from_bits(bits).bits(), bits);
    }
}

#[test]
fn validator_flags_have_their_bits() {
    assert_eq!(
        ValidatorFlags::from_bits(1),
        ValidatorFlags { issue: true, custom_fee: false, revoke: false }
    );
    assert_eq!(
        ValidatorFlags::from_bits(2),
        ValidatorFlags { issue: false, custom_fee: true, revoke: false }
    );
    assert_eq!(
        ValidatorFlags::from_bits(4),
        ValidatorFlags { issue: false, custom_fee: false, revoke: true }
    );
    assert_eq!(ValidatorFlags::from_bits(255).bits(), 7);
    for bits in 0u8..8 {
        assert_eq!(ValidatorFlags::from_bits(bits).bits(), bits);
    }
}

#[test]
fn errors_have_their_messages() {
    assert_eq!(CustomError::ProviderDisabled.message(), "Provider is disabled");
    assert_eq!(CustomError::ProviderUnpublished.message(), "Provider is unpublished");
    assert_eq!(CustomError::InvalidDataHash.message(), "Hash of the data does not match");
    assert_eq!(CustomError::InvalidIdHash.message(), "Hash of the ID does not match");
    assert_eq!(CustomError::VoidUnauthorized.message(), "Signers are not authorized to void");
    assert_eq!(
        CustomError::SellingNotAllowed.message(),
        "Cannot sell a disabled / published / provider with validators"
    );
    assert_ne!(CustomError::AlreadyExists.message(), CustomError::ConstraintViolation.message());
    assert_ne!(CustomError::ValidatorDisabled.message(), "");
}

#[test]
fn the_registry_is_set_up_once_by_its_deployer() {
    let params = InitializeParams { treasury: w(2), service_fee: 10, provider_creation_fee: 500 };
    let mut ctx = Initialize {
        global: Account { key: w(100), data: None },
        authority: w(1),
        upgrade_authority: Some(w(1)),
    };
    assert_eq!(initialize_handler(&mut ctx, params), Ok(()));
    let global =
        Global { authority: w(1), treasury: w(2), service_fee: 10, provider_creation_fee: 500 };
    assert_eq!(ctx.global.data, Some(global));

    let again = InitializeParams { treasury: w(3), service_fee: 0, provider_creation_fee: 0 };
    assert_eq!(initialize_handler(&mut ctx, again), Err(CustomError::AlreadyExists));
    assert_eq!(ctx.global.data, Some(global));

    let mut stranger = Initialize {
        global: Account { key: w(100), data: None },
        authority: w(7),
        upgrade_authority: Some(w(1)),
    };
    assert_eq!(initialize_handler(&mut stranger, params), Err(CustomError::ConstraintViolation));
    assert_eq!(stranger.global.data, None);

    let mut frozen = Initialize {
        global: Account { key: w(100), data: None },
        authority: w(1),
        upgrade_authority: None,
    };
    assert_eq!(initialize_handler(&mut frozen, params), Err(CustomError::ConstraintViolation));
}

#[test]
fn the_configuration_changes_where_asked() {
    let global =
        Global { authority: w(1), treasury: w(2), service_fee: 10, provider_creation_fee: 500 };
    let mut ctx = UpdateConfig { global, authority: w(1) };
    let fees = UpdateConfigParams {
        authority: None,
        treasury: None,
        service_fee: Some(11),
        provider_creation_fee: Some(501),
    };
    assert_eq!(update_config_handler(&mut ctx, fees), Ok(()));
    assert_eq!(
        ctx.global,
        Global { authority: w(1), treasury: w(2), service_fee: 11, provider_creation_fee: 501 }
    );
    let hands = UpdateConfigParams {
        authority: Some(w(8)),
        treasury: Some(w(9)),
        service_fee: None,
        provider_creation_fee: None,
    };
    assert_eq!(update_config_handler(&mut ctx, hands), Ok(()));
    assert_eq!(
        ctx.global,
        Global { authority: w(8), treasury: w(9), service_fee: 11, provider_creation_fee: 501 }
    );
    assert_eq!(ctx.authority, w(1));
    assert_eq!(update_config_handler(&mut ctx, fees), Err(CustomError::ConstraintViolation));
    assert_eq!(ctx.global.service_fee, 11);
}

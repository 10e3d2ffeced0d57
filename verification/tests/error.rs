use gacha_marketplace::error::GachaError;

fn all() -> Vec<GachaError> {
    vec![
        GachaError::InvalidPrice,
        GachaError::CashbackMax,
        GachaError::InvalidPayment,
        GachaError::InvalidStateAccount,
        GachaError::AlreadyInitialized,
        GachaError::AccountAlreadyHasEntry,
        GachaError::NoSuchItem,
        GachaError::InvalidDrawSize,
        GachaError::MissingRequiredSignature,
        GachaError::TransferError,
        GachaError::RegistryFull,
        GachaError::NotEnoughAccountKeys,
        GachaError::AccountMismatch,
        GachaError::InvalidInstructionData,
    ]
}

#[test]
fn codes_follow_the_order_of_the_variants() {
    let errors = all();
    for (i, e) in errors.iter().enumerate() {
        assert_eq!(e.code(), i as u32);
    }
    assert_eq!(GachaError::InvalidPrice.code(), 0);
    assert_eq!(GachaError::CashbackMax.code(), 1);
    assert_eq!(GachaError::InvalidPayment.code(), 2);
    assert_eq!(GachaError::InvalidStateAccount.code(), 3);
}

#[test]
fn from_code_is_the_inverse_of_code() {
    for e in all() {
        assert_eq!(GachaError::from_code(e.code()), Some(e));
    }
    assert_eq!(GachaError::from_code(14), None);
    assert_eq!(GachaError::from_code(u32::MAX), None);
}

#[test]
fn messages_are_as_documented() {
    assert_eq!(GachaError::InvalidPrice.message(), "Price must be at least 1 lamports");
    assert_eq!(GachaError::CashbackMax.message(), "Cash back should lower than 1");
    assert_eq!(
        GachaError::InvalidPayment.message(),
        "Please submit the asking price in order to complete the purchase"
    );
    assert_eq!(GachaError::InvalidStateAccount.message(), "Invalid account");
    assert_eq!(GachaError::AccountAlreadyHasEntry.message(), "Account already has entry in Map");
}

#[test]
fn every_error_has_its_own_message() {
    let errors = all();
    for i in 0..errors.len() {
        assert!(!errors[i].message().is_empty());
        for j in 0..i {
            assert_ne!(errors[i].message(), errors[j].message());
        }
    }
}

#[test]
fn print_prefixes_the_message() {
    assert_eq!(GachaError::InvalidPrice.print(), "Error: Price must be at least 1 lamports");
    assert_eq!(GachaError::CashbackMax.print(), "Error: Cash back should lower than 1");
    assert_eq!(
        GachaError::InvalidPayment.print(),
        "Error: Please submit the asking price in order to complete the purchase"
    );
    assert_eq!(GachaError::InvalidStateAccount.print(), "Error: Invalid account");
    assert_eq!(
        GachaError::AccountAlreadyHasEntry.print(),
        "Error: Account already has entry in Map"
    );
    for e in all() {
        assert_eq!(e.print(), format!("Error: {}", e.message()));
    }
}

#[test]
fn type_of_names_the_family() {
    assert_eq!(GachaError::type_of(), "Marketplace Error");
}

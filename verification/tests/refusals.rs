use gacha_marketplace::address::Address;
use gacha_marketplace::derive::find_state_slot;
use gacha_marketplace::effect::{Account, Effect};
use gacha_marketplace::error::GachaError;
use gacha_marketplace::processor::Processor;
use gacha_marketplace::state::{MarketItem, State};
use std::collections::BTreeMap;

fn key(b: u8) -> Address {
    Address::new([b; 32])
}

fn deployment() -> Address {
    Address::new([77; 32])
}

fn signing(key: Address) -> Account {
    Account { key, is_signer: true, is_writable: true, data_is_empty: true }
}

fn silent(key: Address) -> Account {
    Account { key, is_signer: false, is_writable: true, data_is_empty: false }
}

fn fresh(key: Address) -> Account {
    Account { key, is_signer: false, is_writable: true, data_is_empty: true }
}

fn slot() -> Address {
    find_state_slot(&deployment()).unwrap().0
}

const ADMIN: u8 = 1;
const SELLER: u8 = 2;
const BUYER: u8 = 3;
const CALLER: u8 = 4;
const CUSTODY: u8 = 5;
const TOKEN: u8 = 6;

fn registry(listing_price: u128) -> State {
    let mut state = State::new();
    let accounts = [signing(key(ADMIN)), fresh(slot()), silent(key(0))];
    Processor::init_state(&accounts, &deployment(), listing_price, &mut state).unwrap();
    state
}

fn listing_accounts() -> [Account; 3] {
    [signing(key(SELLER)), silent(slot()), silent(key(0))]
}

fn offer(
    state: &mut State,
    accounts: &[Account],
    price: u128,
    cash_back: u8,
) -> Result<Vec<Effect>, GachaError> {
    Processor::create_market_item(
        accounts,
        &deployment(),
        key(TOKEN),
        key(20),
        price,
        String::from("name"),
        String::from("text"),
        cash_back,
        state,
    )
}

fn buying_accounts() -> [Account; 5] {
    [
        signing(key(BUYER)),
        silent(slot()),
        silent(key(SELLER)),
        silent(key(ADMIN)),
        silent(key(CUSTODY)),
    ]
}

fn drawing_accounts() -> [Account; 4] {
    [signing(key(CALLER)), silent(slot()), silent(key(SELLER)), silent(key(CUSTODY))]
}

fn pooling_accounts() -> [Account; 4] {
    [signing(key(CALLER)), silent(slot()), silent(key(ADMIN)), silent(key(CUSTODY))]
}

fn copy_of(state: &State) -> (BTreeMap<u128, MarketItem>, u128, u128, Address, u128, bool) {
    (
        state.map.clone(),
        state.item_ids,
        state.item_sold,
        state.owner,
        state.listing_price,
        state.initialized,
    )
}

/// A registry with two items at price 5, the first of them bought.
fn stocked() -> State {
    let mut state = registry(1);
    offer(&mut state, &listing_accounts(), 5, 10).unwrap();
    offer(&mut state, &listing_accounts(), 5, 10).unwrap();
    Processor::purchase_sale(&buying_accounts(), &deployment(), key(TOKEN), 5, 1, &mut state)
        .unwrap();
    state
}

// Bootstrap

#[test]
fn second_bootstrap_is_refused_and_changes_nothing() {
    let mut state = registry(1);
    offer(&mut state, &listing_accounts(), 5, 10).unwrap();
    let before = copy_of(&state);
    let accounts = [signing(key(9)), fresh(slot()), silent(key(0))];
    let result = Processor::init_state(&accounts, &deployment(), 100, &mut state);
    assert_eq!(result, Err(GachaError::AlreadyInitialized));
    assert_eq!(copy_of(&state), before);
}

#[test]
fn second_bootstrap_is_refused_whatever_the_accounts() {
    let mut state = registry(1);
    let before = copy_of(&state);
    assert_eq!(
        Processor::init_state(&[], &deployment(), 100, &mut state),
        Err(GachaError::AlreadyInitialized)
    );
    let accounts = [silent(key(9)), silent(key(8)), silent(key(0))];
    assert_eq!(
        Processor::init_state(&accounts, &deployment(), 100, &mut state),
        Err(GachaError::AlreadyInitialized)
    );
    assert_eq!(copy_of(&state), before);
}

#[test]
fn bootstrap_needs_three_accounts() {
    let mut state = State::new();
    let accounts = [signing(key(ADMIN)), fresh(slot())];
    assert_eq!(
        Processor::init_state(&accounts, &deployment(), 1, &mut state),
        Err(GachaError::NotEnoughAccountKeys)
    );
    assert!(!state.initialized);
}

#[test]
fn bootstrap_needs_a_signature() {
    let mut state = State::new();
    let accounts = [silent(key(ADMIN)), fresh(slot()), silent(key(0))];
    assert_eq!(
        Processor::init_state(&accounts, &deployment(), 1, &mut state),
        Err(GachaError::MissingRequiredSignature)
    );
    assert!(!state.initialized);
}

#[test]
fn bootstrap_refuses_another_slot() {
    let mut state = State::new();
    let accounts = [signing(key(ADMIN)), fresh(key(50)), silent(key(0))];
    assert_eq!(
        Processor::init_state(&accounts, &deployment(), 1, &mut state),
        Err(GachaError::InvalidStateAccount)
    );
    assert!(!state.initialized);
}

#[test]
fn bootstrap_refuses_a_slot_that_cannot_be_written() {
    let mut state = State::new();
    let mut target = fresh(slot());
    target.is_writable = false;
    let accounts = [signing(key(ADMIN)), target, silent(key(0))];
    assert_eq!(
        Processor::init_state(&accounts, &deployment(), 1, &mut state),
        Err(GachaError::InvalidStateAccount)
    );
}

#[test]
fn bootstrap_refuses_a_slot_that_holds_data() {
    let mut state = State::new();
    let accounts = [signing(key(ADMIN)), silent(slot()), silent(key(0))];
    assert_eq!(
        Processor::init_state(&accounts, &deployment(), 1, &mut state),
        Err(GachaError::InvalidStateAccount)
    );
    assert_eq!(copy_of(&state), copy_of(&State::new()));
}

#[test]
fn bootstrap_with_a_given_address_checks_the_slot_against_it() {
    let accounts = [signing(key(ADMIN)), fresh(key(50)), silent(key(0))];
    let mut state = State::new();
    let effects =
        Processor::init_state_with(&accounts, &deployment(), 3, Some((key(50), 200)), &mut state)
            .unwrap();
    assert_eq!(
        effects,
        vec![Effect::Allocate {
            payer: key(ADMIN),
            slot: key(50),
            space: 645,
            owner: deployment(),
            bump: 200,
        }]
    );
    assert_eq!(state.listing_price, 3);
    let mut state = State::new();
    assert_eq!(
        Processor::init_state_with(&accounts, &deployment(), 3, Some((key(51), 200)), &mut state),
        Err(GachaError::InvalidStateAccount)
    );
    assert_eq!(
        Processor::init_state_with(&accounts, &deployment(), 3, None, &mut state),
        Err(GachaError::InvalidStateAccount)
    );
}

// Listing

#[test]
fn cash_back_of_100_or_more_is_refused_and_changes_nothing() {
    let mut state = registry(1);
    offer(&mut state, &listing_accounts(), 5, 99).unwrap();
    let before = copy_of(&state);
    for cash_back in [100u8, 101, 200, 255] {
        assert_eq!(
            offer(&mut state, &listing_accounts(), 5, cash_back),
            Err(GachaError::CashbackMax)
        );
        assert_eq!(copy_of(&state), before);
    }
}

#[test]
fn cash_back_is_checked_before_everything_else() {
    let mut state = State::new();
    assert_eq!(offer(&mut state, &[], 0, 100), Err(GachaError::CashbackMax));
}

#[test]
fn cash_back_up_to_99_is_accepted() {
    let mut state = registry(1);
    for cash_back in [0u8, 1, 50, 99] {
        offer(&mut state, &listing_accounts(), 5, cash_back).unwrap();
        assert_eq!(state.map[&state.item_ids].cash_back, cash_back);
    }
    for item in state.map.values() {
        assert!(item.cash_back <= 99);
    }
}

#[test]
fn price_zero_is_refused() {
    let mut state = registry(1);
    let before = copy_of(&state);
    assert_eq!(offer(&mut state, &listing_accounts(), 0, 10), Err(GachaError::InvalidPrice));
    assert_eq!(copy_of(&state), before);
}

#[test]
fn listing_needs_three_accounts() {
    let mut state = registry(1);
    let accounts = [signing(key(SELLER)), silent(slot())];
    assert_eq!(offer(&mut state, &accounts, 5, 10), Err(GachaError::NotEnoughAccountKeys));
    assert_eq!(state.item_ids, 0);
}

#[test]
fn listing_needs_a_signature() {
    let mut state = registry(1);
    let accounts = [silent(key(SELLER)), silent(slot()), silent(key(0))];
    assert_eq!(offer(&mut state, &accounts, 5, 10), Err(GachaError::MissingRequiredSignature));
    assert_eq!(state.item_ids, 0);
}

#[test]
fn listing_needs_a_registry_that_is_set_up() {
    let mut state = State::new();
    assert_eq!(
        offer(&mut state, &listing_accounts(), 5, 10),
        Err(GachaError::InvalidStateAccount)
    );
    assert_eq!(copy_of(&state), copy_of(&State::new()));
}

#[test]
fn listing_without_custody_fails_as_a_transfer() {
    let mut state = registry(1);
    let result = Processor::create_market_item_with(
        &listing_accounts(),
        key(TOKEN),
        key(20),
        5,
        String::new(),
        String::new(),
        10,
        None,
        &mut state,
    );
    assert_eq!(result, Err(GachaError::TransferError));
    assert_eq!(state.item_ids, 0);
}

#[test]
fn listing_with_given_custody_moves_the_asset_there() {
    let mut state = registry(1);
    let effects = Processor::create_market_item_with(
        &listing_accounts(),
        key(TOKEN),
        key(20),
        5,
        String::from("n"),
        String::from("d"),
        10,
        Some(key(CUSTODY)),
        &mut state,
    )
    .unwrap();
    assert_eq!(
        effects,
        vec![Effect::TransferAsset {
            program_ref: key(TOKEN),
            asset_id: key(20),
            from: key(SELLER),
            to: key(CUSTODY),
            authority: key(SELLER),
        }]
    );
    assert_eq!(state.item_ids, 1);
}

// Purchase

#[test]
fn purchase_at_another_price_is_refused_and_changes_nothing() {
    let mut state = registry(1);
    offer(&mut state, &listing_accounts(), 5, 10).unwrap();
    let before = copy_of(&state);
    for price in [0u128, 4, 6, u128::MAX] {
        assert_eq!(
            Processor::purchase_sale(
                &buying_accounts(),
                &deployment(),
                key(TOKEN),
                price,
                1,
                &mut state
            ),
            Err(GachaError::InvalidPayment)
        );
        assert_eq!(state.map[&1].owner, None);
        assert!(!state.map[&1].sold);
        assert_eq!(copy_of(&state), before);
    }
}

#[test]
fn wrong_price_is_reported_before_the_accounts_are_looked_at() {
    let mut state = stocked();
    assert_eq!(
        Processor::purchase_sale(&[], &deployment(), key(TOKEN), 6, 2, &mut state),
        Err(GachaError::InvalidPayment)
    );
    // Also for an item that is sold already.
    assert_eq!(
        Processor::purchase_sale(&buying_accounts(), &deployment(), key(TOKEN), 6, 1, &mut state),
        Err(GachaError::InvalidPayment)
    );
}

#[test]
fn purchase_of_an_unknown_item_is_refused() {
    let mut state = stocked();
    let before = copy_of(&state);
    for id in [0u128, 3, 4, u128::MAX] {
        assert_eq!(
            Processor::purchase_sale(
                &buying_accounts(),
                &deployment(),
                key(TOKEN),
                5,
                id,
                &mut state
            ),
            Err(GachaError::NoSuchItem)
        );
    }
    assert_eq!(copy_of(&state), before);
}

#[test]
fn purchase_from_a_registry_that_is_not_set_up_finds_no_item() {
    let mut state = State::new();
    assert_eq!(
        Processor::purchase_sale(&buying_accounts(), &deployment(), key(TOKEN), 5, 1, &mut state),
        Err(GachaError::NoSuchItem)
    );
}

#[test]
fn purchase_needs_five_accounts() {
    let mut state = stocked();
    let accounts = buying_accounts();
    assert_eq!(
        Processor::purchase_sale(&accounts[..4], &deployment(), key(TOKEN), 5, 2, &mut state),
        Err(GachaError::NotEnoughAccountKeys)
    );
    assert_eq!(state.map[&2].owner, None);
}

#[test]
fn purchase_needs_a_signature() {
    let mut state = stocked();
    let mut accounts = buying_accounts();
    accounts[0].is_signer = false;
    assert_eq!(
        Processor::purchase_sale(&accounts, &deployment(), key(TOKEN), 5, 2, &mut state),
        Err(GachaError::MissingRequiredSignature)
    );
    assert_eq!(state.map[&2].owner, None);
}

#[test]
fn purchase_refuses_another_seller_account() {
    let mut state = stocked();
    let mut accounts = buying_accounts();
    accounts[2].key = key(99);
    assert_eq!(
        Processor::purchase_sale(&accounts, &deployment(), key(TOKEN), 5, 2, &mut state),
        Err(GachaError::AccountMismatch)
    );
    assert_eq!(state.map[&2].owner, None);
}

#[test]
fn purchase_refuses_another_administrator_account() {
    let mut state = stocked();
    let mut accounts = buying_accounts();
    accounts[3].key = key(99);
    assert_eq!(
        Processor::purchase_sale(&accounts, &deployment(), key(TOKEN), 5, 2, &mut state),
        Err(GachaError::AccountMismatch)
    );
    assert_eq!(state.map[&2].owner, None);
}

#[test]
fn an_item_is_bought_at_most_once() {
    let mut state = stocked();
    let before = copy_of(&state);
    let mut accounts = buying_accounts();
    accounts[0].key = key(CALLER);
    assert_eq!(
        Processor::purchase_sale(&accounts, &deployment(), key(TOKEN), 5, 1, &mut state),
        Err(GachaError::AccountAlreadyHasEntry)
    );
    assert_eq!(state.map[&1].owner, Some(key(BUYER)));
    assert_eq!(copy_of(&state), before);
}

#[test]
fn purchase_is_refused_when_the_count_of_hand_overs_is_full() {
    let mut state = stocked();
    state.item_sold = u128::MAX;
    assert_eq!(
        Processor::purchase_sale(&buying_accounts(), &deployment(), key(TOKEN), 5, 2, &mut state),
        Err(GachaError::RegistryFull)
    );
    assert_eq!(state.map[&2].owner, None);
    assert_eq!(state.item_sold, u128::MAX);
}

// Draw

#[test]
fn draw_from_a_registry_that_is_not_set_up_is_refused() {
    let mut state = State::new();
    assert_eq!(
        Processor::gacha(&drawing_accounts(), &deployment(), key(TOKEN), 0, 5, 1, &mut state),
        Err(GachaError::InvalidDrawSize)
    );
}

#[test]
fn draw_from_a_registry_without_items_is_refused() {
    let mut state = registry(1);
    let before = copy_of(&state);
    assert_eq!(
        Processor::gacha(&drawing_accounts(), &deployment(), key(TOKEN), 0, 5, 1, &mut state),
        Err(GachaError::InvalidDrawSize)
    );
    assert_eq!(copy_of(&state), before);
}

#[test]
fn draw_of_one_from_an_empty_pool_is_refused() {
    // Items that nobody owns, and items at another price, are not in the pool.
    let mut state = stocked();
    let before = copy_of(&state);
    assert_eq!(
        Processor::gacha(&drawing_accounts(), &deployment(), key(TOKEN), 1, 6, 1, &mut state),
        Err(GachaError::InvalidDrawSize)
    );
    let mut unowned = registry(1);
    offer(&mut unowned, &listing_accounts(), 5, 10).unwrap();
    assert_eq!(
        Processor::gacha(&drawing_accounts(), &deployment(), key(TOKEN), 1, 5, 1, &mut unowned),
        Err(GachaError::InvalidDrawSize)
    );
    assert_eq!(copy_of(&state), before);
}

#[test]
fn draw_of_nothing_from_an_empty_pool_is_accepted() {
    // One listed item that nobody owns: the pool is empty.
    let mut state = registry(1);
    offer(&mut state, &listing_accounts(), 5, 10).unwrap();
    let before = copy_of(&state);
    let effects =
        Processor::gacha(&drawing_accounts(), &deployment(), key(TOKEN), 0, 5, 7, &mut state)
            .unwrap();
    // No asset moves; the fee goes to the third account, and one hand-over is counted.
    assert_eq!(
        effects,
        vec![Effect::TransferValue { from: key(CALLER), to: key(SELLER), amount: 7 }]
    );
    assert_eq!(state.map, before.0);
    assert_eq!(state.item_ids, before.1);
    assert_eq!(state.item_sold, before.2 + 1);
    assert!(state.is_well_formed());
}

#[test]
fn draw_of_nothing_at_a_price_that_no_item_has_is_accepted() {
    let mut state = stocked();
    let before = copy_of(&state);
    // Nobody is named by the registry, so the third account is taken as it is supplied.
    let mut accounts = drawing_accounts();
    accounts[2].key = key(99);
    let effects =
        Processor::gacha(&accounts, &deployment(), key(TOKEN), 0, 6, 3, &mut state).unwrap();
    assert_eq!(
        effects,
        vec![Effect::TransferValue { from: key(CALLER), to: key(99), amount: 3 }]
    );
    assert_eq!(state.map, before.0);
    assert_eq!(state.item_sold, before.2 + 1);
}

#[test]
fn draw_of_nothing_from_an_empty_pool_still_looks_at_the_accounts() {
    let mut state = stocked();
    let accounts = drawing_accounts();
    assert_eq!(
        Processor::gacha(&accounts[..3], &deployment(), key(TOKEN), 0, 6, 3, &mut state),
        Err(GachaError::NotEnoughAccountKeys)
    );
    let mut silent_caller = drawing_accounts();
    silent_caller[0].is_signer = false;
    assert_eq!(
        Processor::gacha(&silent_caller, &deployment(), key(TOKEN), 0, 6, 3, &mut state),
        Err(GachaError::MissingRequiredSignature)
    );
    state.item_sold = u128::MAX;
    assert_eq!(
        Processor::gacha(&drawing_accounts(), &deployment(), key(TOKEN), 0, 6, 3, &mut state),
        Err(GachaError::RegistryFull)
    );
}

#[test]
fn draw_of_more_than_the_pool_is_refused() {
    let mut state = stocked();
    let before = copy_of(&state);
    assert_eq!(
        Processor::gacha(&drawing_accounts(), &deployment(), key(TOKEN), 2, 5, 1, &mut state),
        Err(GachaError::InvalidDrawSize)
    );
    assert_eq!(
        Processor::gacha(&[], &deployment(), key(TOKEN), 255, 5, 1, &mut state),
        Err(GachaError::InvalidDrawSize)
    );
    assert_eq!(copy_of(&state), before);
}

#[test]
fn draw_needs_four_accounts() {
    let mut state = stocked();
    let accounts = drawing_accounts();
    assert_eq!(
        Processor::gacha(&accounts[..3], &deployment(), key(TOKEN), 1, 5, 1, &mut state),
        Err(GachaError::NotEnoughAccountKeys)
    );
}

#[test]
fn draw_needs_a_signature() {
    let mut state = stocked();
    let mut accounts = drawing_accounts();
    accounts[0].is_signer = false;
    assert_eq!(
        Processor::gacha(&accounts, &deployment(), key(TOKEN), 1, 5, 1, &mut state),
        Err(GachaError::MissingRequiredSignature)
    );
}

#[test]
fn draw_refuses_another_account_for_the_fee() {
    let mut state = stocked();
    let before = copy_of(&state);
    let mut accounts = drawing_accounts();
    accounts[2].key = key(99);
    assert_eq!(
        Processor::gacha(&accounts, &deployment(), key(TOKEN), 1, 5, 1, &mut state),
        Err(GachaError::AccountMismatch)
    );
    assert_eq!(copy_of(&state), before);
}

#[test]
fn draw_is_refused_when_the_count_of_hand_overs_is_full() {
    let mut state = stocked();
    state.item_sold = u128::MAX;
    assert_eq!(
        Processor::gacha(&drawing_accounts(), &deployment(), key(TOKEN), 1, 5, 1, &mut state),
        Err(GachaError::RegistryFull)
    );
    assert_eq!(state.map[&1].owner, Some(key(BUYER)));
    assert!(!state.map[&1].gacha);
}

// Pool creation

#[test]
fn pool_creation_on_a_registry_that_is_not_set_up_is_refused() {
    let mut state = State::new();
    assert_eq!(
        Processor::create_gacha(&pooling_accounts(), &deployment(), key(TOKEN), 0, &mut state),
        Err(GachaError::InvalidDrawSize)
    );
}

#[test]
fn pool_creation_on_an_empty_registry_is_refused() {
    let mut state = registry(1);
    assert_eq!(
        Processor::create_gacha(&pooling_accounts(), &deployment(), key(TOKEN), 0, &mut state),
        Err(GachaError::InvalidDrawSize)
    );
}

#[test]
fn pool_creation_of_more_than_the_pool_is_refused() {
    let mut state = stocked();
    let before = copy_of(&state);
    assert_eq!(
        Processor::create_gacha(&pooling_accounts(), &deployment(), key(TOKEN), 2, &mut state),
        Err(GachaError::InvalidDrawSize)
    );
    assert_eq!(copy_of(&state), before);
}

#[test]
fn pool_creation_needs_four_accounts() {
    let mut state = stocked();
    let accounts = pooling_accounts();
    assert_eq!(
        Processor::create_gacha(&accounts[..3], &deployment(), key(TOKEN), 1, &mut state),
        Err(GachaError::NotEnoughAccountKeys)
    );
}

#[test]
fn pool_creation_needs_a_signature() {
    let mut state = stocked();
    let mut accounts = pooling_accounts();
    accounts[0].is_signer = false;
    assert_eq!(
        Processor::create_gacha(&accounts, &deployment(), key(TOKEN), 1, &mut state),
        Err(GachaError::MissingRequiredSignature)
    );
}

#[test]
fn pool_creation_refuses_another_administrator_account() {
    let mut state = stocked();
    let mut accounts = pooling_accounts();
    accounts[2].key = key(99);
    assert_eq!(
        Processor::create_gacha(&accounts, &deployment(), key(TOKEN), 1, &mut state),
        Err(GachaError::AccountMismatch)
    );
    assert_eq!(state.map[&1].owner, Some(key(BUYER)));
}

#[test]
fn pool_creation_is_refused_when_the_count_of_hand_overs_would_overflow() {
    let mut state = stocked();
    state.item_sold = u128::MAX;
    assert_eq!(
        Processor::create_gacha(&pooling_accounts(), &deployment(), key(TOKEN), 1, &mut state),
        Err(GachaError::RegistryFull)
    );
    // Taking nothing adds nothing, so it still fits.
    assert_eq!(
        Processor::create_gacha(&pooling_accounts(), &deployment(), key(TOKEN), 0, &mut state),
        Ok(vec![])
    );
}

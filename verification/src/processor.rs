use crate::address::{optional_view, Address};
use crate::derive::{
    bump_of, custody_address, derived_view, find_custody, find_state_slot, state_slot,
};
use crate::draw::{
    draw_effects, draw_seed, drawn_ids, eligible, eligible_ids, hand_over, hand_over_drawn,
    lemma_eligible_members, release, seed_of,
};
use crate::effect::{accounts_view, effects_view, Account, AccountView, Effect, EffectView};
use crate::error::GachaError;
use crate::instruction::{unpack_spec, GachaMarketplaceInstruction, InstructionView};
use crate::sampling::{
    lemma_positions_without_replacement, next_words, pick_positions, positions, random_words,
};
use crate::state::{id_range, ItemView, MarketItem, State, StateView, MAX_CASH_BACK};
use std::collections::BTreeMap;
use vstd::prelude::*;

verus! {

broadcast use {vstd::std_specs::btree::group_btree_axioms, vstd::laws_cmp::group_laws_cmp};

/// What an instruction that is accepted brings about: the registry after
/// it, and the transfers that the host has to carry out, in order.
pub struct Outcome {
    pub state: StateView,
    pub effects: Seq<EffectView>,
}

/// Tells whether a handler answered as `outcome` says: where the
/// instruction is accepted, the registry and the transfers are those of
/// the outcome; where it is refused, the error is that of the outcome and
/// the registry is as it was.
pub open spec fn answers(
    result: Result<Vec<Effect>, GachaError>,
    before: State,
    after: State,
    outcome: Result<Outcome, GachaError>,
) -> bool {
    match result {
        Ok(effects) => outcome == Ok::<Outcome, GachaError>(
            Outcome { state: after@, effects: effects_view(effects@) },
        ),
        Err(e) => outcome == Err::<Outcome, GachaError>(e) && after == before,
    }
}

/// The handlers of the marketplace's instructions.
///
/// Every handler takes the accounts that came with the instruction, in
/// the order that the instruction fixes, and the registry. It first holds
/// what the instruction says against the registry, then looks at the
/// accounts. Where it refuses, the registry is left as it was. Where it
/// accepts, it changes the registry and returns the transfers that the
/// host has to carry out, in order, before it persists the registry.
pub struct Processor;

/// What refuses to set the registry up, if anything does. `derived` is the
/// address of the storage slot under this deployment, with its bump. A
/// registry that is set up already is reported as such whatever else is
/// wrong; otherwise the slot has to be the derived one, writable and
/// empty.
pub open spec fn init_state_error(
    pre: StateView,
    accounts: Seq<AccountView>,
    derived: Option<(Seq<u8>, u8)>,
) -> Option<GachaError> {
    if pre.initialized {
        Some(GachaError::AlreadyInitialized)
    } else if accounts.len() < 3 {
        Some(GachaError::NotEnoughAccountKeys)
    } else if !accounts[0].is_signer {
        Some(GachaError::MissingRequiredSignature)
    } else if !(derived matches Some((slot, _)) && slot == accounts[1].key)
        || !accounts[1].is_writable || !accounts[1].data_is_empty {
        Some(GachaError::InvalidStateAccount)
    } else {
        None
    }
}

/// The registry as it is set up for `owner`.
pub open spec fn init_state_post(owner: Seq<u8>, listing_price: u128) -> StateView {
    StateView {
        items: Map::empty(),
        item_ids: 0,
        item_sold: 0,
        owner,
        listing_price,
        initialized: true,
    }
}

/// What refuses a listing, if anything does. `custody` is the account
/// that takes the asset in. The cash-back is looked at first, so that a
/// cash-back of 100 percent or more is reported as such whatever else is
/// wrong.
pub open spec fn create_market_item_error(
    pre: StateView,
    accounts: Seq<AccountView>,
    price: u128,
    cash_back: u8,
    custody: Option<Seq<u8>>,
) -> Option<GachaError> {
    if cash_back > MAX_CASH_BACK {
        Some(GachaError::CashbackMax)
    } else if price == 0 {
        Some(GachaError::InvalidPrice)
    } else if accounts.len() < 3 {
        Some(GachaError::NotEnoughAccountKeys)
    } else if !accounts[0].is_signer {
        Some(GachaError::MissingRequiredSignature)
    } else if !pre.initialized {
        Some(GachaError::InvalidStateAccount)
    } else if pre.item_ids == u128::MAX {
        Some(GachaError::RegistryFull)
    } else if custody is None {
        Some(GachaError::TransferError)
    } else {
        None
    }
}

/// The account that takes the asset of a listing in: the caller's
/// associated account for the asset under this deployment.
pub open spec fn listing_custody(
    accounts: Seq<AccountView>,
    program_id: Seq<u8>,
    mint_address: Seq<u8>,
) -> Option<Seq<u8>> {
    if accounts.len() > 0 {
        custody_address(accounts[0].key, program_id, mint_address)
    } else {
        None
    }
}

/// The item that a listing adds under the id `id`.
pub open spec fn listed_item(
    id: u128,
    seller: Seq<u8>,
    token_program_id: Seq<u8>,
    mint_address: Seq<u8>,
    price: u128,
    file_name: Seq<char>,
    description: Seq<char>,
    cash_back: u8,
) -> ItemView {
    ItemView {
        item_id: id,
        token_program_id,
        mint_address,
        seller,
        owner: None,
        price,
        file_name,
        description,
        cash_back,
        sold: false,
        gacha: false,
    }
}

/// The registry after `item` was listed under the next id.
pub open spec fn create_market_item_post(pre: StateView, item: ItemView) -> StateView {
    StateView {
        items: pre.items.insert((pre.item_ids + 1) as u128, item),
        item_ids: (pre.item_ids + 1) as u128,
        ..pre
    }
}

/// What refuses a purchase, if anything does. The item has to exist and
/// to cost what the instruction says, the accounts of the seller and of
/// the registry's owner have to be those that the registry names, and the
/// item must not have an owner yet: an item is bought at most once.
pub open spec fn purchase_sale_error(
    pre: StateView,
    accounts: Seq<AccountView>,
    price: u128,
    item_id: u128,
) -> Option<GachaError> {
    if !pre.items.contains_key(item_id) {
        Some(GachaError::NoSuchItem)
    } else if pre.items[item_id].price != price {
        Some(GachaError::InvalidPayment)
    } else if accounts.len() < 5 {
        Some(GachaError::NotEnoughAccountKeys)
    } else if !accounts[0].is_signer {
        Some(GachaError::MissingRequiredSignature)
    } else if accounts[2].key != pre.items[item_id].seller || accounts[3].key != pre.owner {
        Some(GachaError::AccountMismatch)
    } else if pre.items[item_id].owner is Some {
        Some(GachaError::AccountAlreadyHasEntry)
    } else if pre.item_sold == u128::MAX {
        Some(GachaError::RegistryFull)
    } else {
        None
    }
}

/// The registry after `buyer` bought the item `item_id`.
pub open spec fn purchase_sale_post(pre: StateView, item_id: u128, buyer: Seq<u8>) -> StateView {
    StateView {
        items: pre.items.insert(item_id, pre.items[item_id].bought_by(buyer)),
        item_sold: (pre.item_sold + 1) as u128,
        ..pre
    }
}

/// The transfers of a purchase: the price goes to the seller, the asset
/// leaves custody for the buyer, and the listing fee goes to the
/// registry's owner.
pub open spec fn purchase_sale_effects(
    pre: StateView,
    item_id: u128,
    buyer: Seq<u8>,
    custody: Seq<u8>,
) -> Seq<EffectView> {
    seq![
        EffectView::TransferValue {
            from: buyer,
            to: pre.items[item_id].seller,
            amount: pre.items[item_id].price,
        },
        release(pre.items[item_id], custody, buyer),
        EffectView::TransferValue { from: buyer, to: pre.owner, amount: pre.listing_price },
    ]
}

/// The items that a draw at the price `price` can take.
pub open spec fn gacha_pool(pre: StateView, price: u128) -> Seq<u128> {
    eligible(pre.items, pre.item_ids, Some(price))
}

/// What refuses a draw, if anything does. A draw needs a registry that is
/// set up and has items, and it cannot take more than the pool holds; to
/// take nothing from a pool that is empty is no error. The third account
/// takes the fee: where the pool has a first item, it has to be the
/// account of that item's seller; where the pool is empty, the registry
/// names nobody, and the account is taken as it is supplied.
pub open spec fn gacha_error(
    pre: StateView,
    accounts: Seq<AccountView>,
    qty: u8,
    price: u128,
) -> Option<GachaError> {
    let pool = gacha_pool(pre, price);
    if !pre.initialized || pre.item_ids == 0 || qty > pool.len() {
        Some(GachaError::InvalidDrawSize)
    } else if accounts.len() < 4 {
        Some(GachaError::NotEnoughAccountKeys)
    } else if !accounts[0].is_signer {
        Some(GachaError::MissingRequiredSignature)
    } else if pool.len() > 0 && accounts[2].key != pre.items[pool[0]].seller {
        Some(GachaError::AccountMismatch)
    } else if pre.item_sold == u128::MAX {
        Some(GachaError::RegistryFull)
    } else {
        None
    }
}

/// The ids of the items that the draws take from `pool`, one draw for each
/// random word.
pub open spec fn drawn_from_pool(pool: Seq<u128>, words: Seq<u64>) -> Seq<u128> {
    drawn_ids(pool, positions(pool.len(), words))
}

/// The random words of a draw of `qty` items: those that the registry's
/// counters give as a seed.
pub open spec fn draw_words(pre: StateView, qty: u8) -> Seq<u64> {
    random_words(draw_seed(pre.item_ids, pre.item_sold), qty as nat)
}

/// The registry after a draw at the price `price` for `winner`: the drawn
/// items are the winner's, and one more hand-over is counted, however many
/// items were drawn.
pub open spec fn gacha_post(
    pre: StateView,
    price: u128,
    winner: Seq<u8>,
    words: Seq<u64>,
) -> StateView {
    StateView {
        items: hand_over(pre.items, drawn_from_pool(gacha_pool(pre, price), words), winner),
        item_sold: (pre.item_sold + 1) as u128,
        ..pre
    }
}

/// The transfers of a draw: each drawn item's asset leaves custody for the
/// winner, in the order drawn, and then the fee goes to `payee`. In a draw
/// that is accepted the payee is the third account, which is the seller of
/// the first item of the pool where the pool has one. The fee is paid also
/// where nothing is drawn.
pub open spec fn gacha_effects(
    pre: StateView,
    price: u128,
    fee: u128,
    winner: Seq<u8>,
    payee: Seq<u8>,
    custody: Seq<u8>,
    words: Seq<u64>,
) -> Seq<EffectView> {
    let pool = gacha_pool(pre, price);
    draw_effects(pre.items, drawn_from_pool(pool, words), custody, winner, None).push(
        EffectView::TransferValue { from: winner, to: payee, amount: fee },
    )
}

/// The items that the registry's owner can take into a pool.
pub open spec fn create_gacha_pool(pre: StateView) -> Seq<u128> {
    eligible(pre.items, pre.item_ids, None)
}

/// What refuses to take items into the owner's pool, if anything does. It
/// needs a registry that is set up and has items, and it cannot take more
/// than the pool holds; to take nothing from a pool that is empty is no
/// error.
pub open spec fn create_gacha_error(pre: StateView, accounts: Seq<AccountView>, qty: u8) -> Option<
    GachaError,
> {
    let pool = create_gacha_pool(pre);
    if !pre.initialized || pre.item_ids == 0 || qty > pool.len() {
        Some(GachaError::InvalidDrawSize)
    } else if accounts.len() < 4 {
        Some(GachaError::NotEnoughAccountKeys)
    } else if !accounts[0].is_signer {
        Some(GachaError::MissingRequiredSignature)
    } else if accounts[2].key != pre.owner {
        Some(GachaError::AccountMismatch)
    } else if pre.item_sold + qty > u128::MAX {
        Some(GachaError::RegistryFull)
    } else {
        None
    }
}

/// The registry after items were taken into the owner's pool: the drawn
/// items are the owner's, and one hand-over is counted for each.
pub open spec fn create_gacha_post(pre: StateView, words: Seq<u64>) -> StateView {
    StateView {
        items: hand_over(pre.items, drawn_from_pool(create_gacha_pool(pre), words), pre.owner),
        item_sold: (pre.item_sold + words.len()) as u128,
        ..pre
    }
}

/// The transfers of taking items into the owner's pool: for each drawn
/// item, in the order drawn, its asset leaves custody for the owner and
/// the caller pays the listing fee to the owner.
pub open spec fn create_gacha_effects(
    pre: StateView,
    caller: Seq<u8>,
    custody: Seq<u8>,
    words: Seq<u64>,
) -> Seq<EffectView> {
    draw_effects(
        pre.items,
        drawn_from_pool(create_gacha_pool(pre), words),
        custody,
        pre.owner,
        Some(EffectView::TransferValue { from: caller, to: pre.owner, amount: pre.listing_price }),
    )
}

/// What setting the registry up comes to.
pub open spec fn init_state_outcome(
    pre: StateView,
    accounts: Seq<AccountView>,
    program_id: Seq<u8>,
    listing_price: u128,
    derived: Option<(Seq<u8>, u8)>,
) -> Result<Outcome, GachaError> {
    match init_state_error(pre, accounts, derived) {
        Some(e) => Err(e),
        None => Ok(
            Outcome {
                state: init_state_post(accounts[0].key, listing_price),
                effects: seq![
                    EffectView::Allocate {
                        payer: accounts[0].key,
                        slot: accounts[1].key,
                        space: State::LEN as u64,
                        owner: program_id,
                        bump: bump_of(derived),
                    },
                ],
            },
        ),
    }
}

/// What a listing comes to: the new item takes the next id, and its asset
/// goes from the seller into custody, on the seller's authority.
pub open spec fn create_market_item_outcome(
    pre: StateView,
    accounts: Seq<AccountView>,
    token_program_id: Seq<u8>,
    mint_address: Seq<u8>,
    price: u128,
    file_name: Seq<char>,
    description: Seq<char>,
    cash_back: u8,
    custody: Option<Seq<u8>>,
) -> Result<Outcome, GachaError> {
    match create_market_item_error(pre, accounts, price, cash_back, custody) {
        Some(e) => Err(e),
        None => Ok(
            Outcome {
                state: create_market_item_post(
                    pre,
                    listed_item(
                        (pre.item_ids + 1) as u128,
                        accounts[0].key,
                        token_program_id,
                        mint_address,
                        price,
                        file_name,
                        description,
                        cash_back,
                    ),
                ),
                effects: seq![
                    EffectView::TransferAsset {
                        program_ref: token_program_id,
                        asset_id: mint_address,
                        from: accounts[0].key,
                        to: custody->0,
                        authority: accounts[0].key,
                    },
                ],
            },
        ),
    }
}

/// What a purchase comes to.
pub open spec fn purchase_sale_outcome(
    pre: StateView,
    accounts: Seq<AccountView>,
    price: u128,
    item_id: u128,
) -> Result<Outcome, GachaError> {
    match purchase_sale_error(pre, accounts, price, item_id) {
        Some(e) => Err(e),
        None => Ok(
            Outcome {
                state: purchase_sale_post(pre, item_id, accounts[0].key),
                effects: purchase_sale_effects(pre, item_id, accounts[0].key, accounts[4].key),
            },
        ),
    }
}

/// What a draw comes to, one item for each of the random words.
pub open spec fn gacha_outcome(
    pre: StateView,
    accounts: Seq<AccountView>,
    qty: u8,
    price: u128,
    fee: u128,
    words: Seq<u64>,
) -> Result<Outcome, GachaError> {
    match gacha_error(pre, accounts, qty, price) {
        Some(e) => Err(e),
        None => Ok(
            Outcome {
                state: gacha_post(pre, price, accounts[0].key, words),
                effects: gacha_effects(
                    pre,
                    price,
                    fee,
                    accounts[0].key,
                    accounts[2].key,
                    accounts[3].key,
                    words,
                ),
            },
        ),
    }
}

/// What taking items into the owner's pool comes to, one item for each of
/// the random words.
pub open spec fn create_gacha_outcome(
    pre: StateView,
    accounts: Seq<AccountView>,
    qty: u8,
    words: Seq<u64>,
) -> Result<Outcome, GachaError> {
    match create_gacha_error(pre, accounts, qty) {
        Some(e) => Err(e),
        None => Ok(
            Outcome {
                state: create_gacha_post(pre, words),
                effects: create_gacha_effects(pre, accounts[0].key, accounts[3].key, words),
            },
        ),
    }
}

/// What an instruction comes to on a well-formed registry.
pub open spec fn instruction_outcome(
    pre: StateView,
    accounts: Seq<AccountView>,
    program_id: Seq<u8>,
    instruction: InstructionView,
) -> Result<Outcome, GachaError> {
    match instruction {
        InstructionView::CreateMarketItem {
            token_program_id,
            mint_address,
            price,
            file_name,
            description,
            cash_back,
        } => create_market_item_outcome(
            pre,
            accounts,
            token_program_id,
            mint_address,
            price,
            file_name,
            description,
            cash_back,
            listing_custody(accounts, program_id, mint_address),
        ),
        InstructionView::PurchaseSale { token_program_id, price, item_id } => purchase_sale_outcome(
            pre,
            accounts,
            price,
            item_id,
        ),
        InstructionView::Gacha { token_program_id, qty, price, fee } => gacha_outcome(
            pre,
            accounts,
            qty,
            price,
            fee,
            draw_words(pre, qty),
        ),
        InstructionView::CreateGacha { token_program_id, qty } => create_gacha_outcome(
            pre,
            accounts,
            qty,
            draw_words(pre, qty),
        ),
        InstructionView::InitState { listing_price } => init_state_outcome(
            pre,
            accounts,
            program_id,
            listing_price,
            state_slot(program_id),
        ),
    }
}

/// What the bytes of an instruction come to: bytes that spell no
/// instruction are refused, then a registry that is not well formed, and
/// then the instruction is handled.
pub open spec fn process_outcome(
    pre: StateView,
    accounts: Seq<AccountView>,
    program_id: Seq<u8>,
    instruction_data: Seq<u8>,
) -> Result<Outcome, GachaError> {
    match unpack_spec(instruction_data) {
        None => Err(GachaError::InvalidInstructionData),
        Some(instruction) => if !pre.wf() {
            Err(GachaError::InvalidStateAccount)
        } else {
            instruction_outcome(pre, accounts, program_id, instruction)
        },
    }
}

impl Processor {
    /// Handles one instruction: decodes it, and hands it to its handler.
    pub fn process(
        program_id: &Address,
        accounts: &[Account],
        instruction_data: &[u8],
        state: &mut State,
    ) -> (result: Result<Vec<Effect>, GachaError>)
        ensures
            answers(
                result,
                *old(state),
                *final(state),
                process_outcome(
                    old(state)@,
                    accounts_view(accounts@),
                    program_id@,
                    instruction_data@,
                ),
            ),
            result is Ok ==> final(state)@.wf(),
    {
        let instruction = match GachaMarketplaceInstruction::unpack(instruction_data) {
            Ok(instruction) => instruction,
            Err(e) => {
                return Err(e);
            },
        };
        if !state.is_well_formed() {
            return Err(GachaError::InvalidStateAccount);
        }
        match instruction {
            GachaMarketplaceInstruction::CreateMarketItem {
                token_program_id,
                mint_address,
                price,
                file_name,
                description,
                cash_back,
            } => Self::create_market_item(
                accounts,
                program_id,
                token_program_id,
                mint_address,
                price,
                file_name,
                description,
                cash_back,
                state,
            ),
            GachaMarketplaceInstruction::PurchaseSale {
                token_program_id,
                price,
                item_id,
            } => Self::purchase_sale(accounts, program_id, token_program_id, price, item_id, state),
            GachaMarketplaceInstruction::CreateGacha {
                token_program_id,
                qty,
            } => Self::create_gacha(accounts, program_id, token_program_id, qty, state),
            GachaMarketplaceInstruction::Gacha {
                token_program_id,
                qty,
                price,
                fee,
            } => Self::gacha(accounts, program_id, token_program_id, qty, price, fee, state),
            GachaMarketplaceInstruction::InitState { listing_price } => Self::init_state(
                accounts,
                program_id,
                listing_price,
                state,
            ),
        }
    }

    /// Sets the registry up, given the address that the deployment derives
    /// for its storage slot.
    ///
    /// The accounts are the caller, who becomes the registry's owner, the
    /// storage slot, and the system program.
    pub fn init_state_with(
        accounts: &[Account],
        program_id: &Address,
        listing_price: u128,
        derived: Option<(Address, u8)>,
        state: &mut State,
    ) -> (result: Result<Vec<Effect>, GachaError>)
        ensures
            answers(
                result,
                *old(state),
                *final(state),
                init_state_outcome(
                    old(state)@,
                    accounts_view(accounts@),
                    program_id@,
                    listing_price,
                    derived_view(derived),
                ),
            ),
            result is Ok ==> final(state)@.wf(),
    {
        if state.initialized {
            return Err(GachaError::AlreadyInitialized);
        }
        if accounts.len() < 3 {
            return Err(GachaError::NotEnoughAccountKeys);
        }
        let authority = &accounts[0];
        let slot = &accounts[1];
        assert(accounts_view(accounts@)[0] == authority@);
        assert(accounts_view(accounts@)[1] == slot@);
        if !authority.is_signer {
            return Err(GachaError::MissingRequiredSignature);
        }
        let bump = match derived {
            Some((address, bump)) => {
                if !address.same_as(&slot.key) {
                    return Err(GachaError::InvalidStateAccount);
                }
                bump
            },
            None => {
                return Err(GachaError::InvalidStateAccount);
            },
        };
        if !slot.is_writable || !slot.data_is_empty {
            return Err(GachaError::InvalidStateAccount);
        }
        state.map = BTreeMap::new();
        state.item_ids = 0;
        state.item_sold = 0;
        state.owner = authority.key;
        state.listing_price = listing_price;
        state.initialized = true;
        let mut effects: Vec<Effect> = Vec::new();
        effects.push(
            Effect::Allocate {
                payer: authority.key,
                slot: slot.key,
                space: State::LEN as u64,
                owner: *program_id,
                bump,
            },
        );
        proof {
            assert(state@.items =~= Map::<u128, ItemView>::empty());
            assert(state@.items.dom() =~= id_range(0));
            assert(effects_view(effects@) =~= seq![
                EffectView::Allocate {
                    payer: accounts[0].key@,
                    slot: accounts[1].key@,
                    space: State::LEN as u64,
                    owner: program_id@,
                    bump: bump_of(derived_view(derived)),
                },
            ]);
        }
        Ok(effects)
    }

    /// Sets the registry up: derives the address of the storage slot and
    /// goes on as `init_state_with` does.
    pub fn init_state(
        accounts: &[Account],
        program_id: &Address,
        listing_price: u128,
        state: &mut State,
    ) -> (result: Result<Vec<Effect>, GachaError>)
        ensures
            answers(
                result,
                *old(state),
                *final(state),
                init_state_outcome(
                    old(state)@,
                    accounts_view(accounts@),
                    program_id@,
                    listing_price,
                    state_slot(program_id@),
                ),
            ),
            result is Ok ==> final(state)@.wf(),
    {
        let derived = find_state_slot(program_id);
        Self::init_state_with(accounts, program_id, listing_price, derived, state)
    }

    /// Lists an item, given the account that takes its asset in.
    ///
    /// The accounts are the caller, who is the seller, the storage slot,
    /// and the system program.
    pub fn create_market_item_with(
        accounts: &[Account],
        token_program_id: Address,
        mint_address: Address,
        price: u128,
        file_name: String,
        description: String,
        cash_back: u8,
        custody: Option<Address>,
        state: &mut State,
    ) -> (result: Result<Vec<Effect>, GachaError>)
        requires
            old(state)@.wf(),
        ensures
            final(state)@.wf(),
            answers(
                result,
                *old(state),
                *final(state),
                create_market_item_outcome(
                    old(state)@,
                    accounts_view(accounts@),
                    token_program_id@,
                    mint_address@,
                    price,
                    file_name@,
                    description@,
                    cash_back,
                    optional_view(custody),
                ),
            ),
    {
        if cash_back > MAX_CASH_BACK {
            return Err(GachaError::CashbackMax);
        }
        if price == 0 {
            return Err(GachaError::InvalidPrice);
        }
        if accounts.len() < 3 {
            return Err(GachaError::NotEnoughAccountKeys);
        }
        let authority = &accounts[0];
        assert(accounts_view(accounts@)[0] == authority@);
        if !authority.is_signer {
            return Err(GachaError::MissingRequiredSignature);
        }
        if !state.initialized {
            return Err(GachaError::InvalidStateAccount);
        }
        if state.item_ids == u128::MAX {
            return Err(GachaError::RegistryFull);
        }
        let to = match custody {
            Some(address) => address,
            None => {
                return Err(GachaError::TransferError);
            },
        };
        let id = state.item_ids + 1;
        let item = MarketItem {
            item_id: id,
            token_program_id,
            mint_address,
            seller: authority.key,
            owner: None,
            price,
            file_name,
            description,
            cash_back,
            sold: false,
            gacha: false,
        };
        let ghost listed = item@;
        state.item_ids = id;
        state.map.insert(id, item);
        let mut effects: Vec<Effect> = Vec::new();
        effects.push(
            Effect::TransferAsset {
                program_ref: token_program_id,
                asset_id: mint_address,
                from: authority.key,
                to,
                authority: authority.key,
            },
        );
        proof {
            assert(state@.items =~= old(state)@.items.insert(id, listed));
            assert(state@.items.dom() =~= id_range(id)) by {
                assert(id_range(id) =~= id_range(old(state).item_ids).insert(id));
            }
            assert(effects_view(effects@) =~= seq![
                EffectView::TransferAsset {
                    program_ref: token_program_id@,
                    asset_id: mint_address@,
                    from: accounts[0].key@,
                    to: to@,
                    authority: accounts[0].key@,
                },
            ]);
        }
        Ok(effects)
    }

    /// Lists an item: derives the account that takes the asset in, which
    /// is the caller's associated account for the asset under this
    /// deployment, and goes on as `create_market_item_with` does.
    pub fn create_market_item(
        accounts: &[Account],
        program_id: &Address,
        token_program_id: Address,
        mint_address: Address,
        price: u128,
        file_name: String,
        description: String,
        cash_back: u8,
        state: &mut State,
    ) -> (result: Result<Vec<Effect>, GachaError>)
        requires
            old(state)@.wf(),
        ensures
            final(state)@.wf(),
            answers(
                result,
                *old(state),
                *final(state),
                create_market_item_outcome(
                    old(state)@,
                    accounts_view(accounts@),
                    token_program_id@,
                    mint_address@,
                    price,
                    file_name@,
                    description@,
                    cash_back,
                    listing_custody(accounts_view(accounts@), program_id@, mint_address@),
                ),
            ),
    {
        let custody = if accounts.len() > 0 {
            assert(accounts_view(accounts@)[0] == accounts[0]@);
            find_custody(&accounts[0].key, program_id, &mint_address)
        } else {
            None
        };
        Self::create_market_item_with(
            accounts,
            token_program_id,
            mint_address,
            price,
            file_name,
            description,
            cash_back,
            custody,
            state,
        )
    }

    /// Settles a purchase.
    ///
    /// The accounts are the caller, who is the buyer, the storage slot,
    /// the item's seller, the registry's owner, and the account that holds
    /// the asset in custody. The program that the instruction names is not
    /// consulted: the item carries the program it was listed with.
    pub fn purchase_sale(
        accounts: &[Account],
        program_id: &Address,
        token_program_id: Address,
        price: u128,
        item_id: u128,
        state: &mut State,
    ) -> (result: Result<Vec<Effect>, GachaError>)
        requires
            old(state)@.wf(),
        ensures
            final(state)@.wf(),
            answers(
                result,
                *old(state),
                *final(state),
                purchase_sale_outcome(old(state)@, accounts_view(accounts@), price, item_id),
            ),
    {
        let mut item = match state.item(item_id) {
            Some(found) => found.clone(),
            None => {
                return Err(GachaError::NoSuchItem);
            },
        };
        if item.price != price {
            return Err(GachaError::InvalidPayment);
        }
        if accounts.len() < 5 {
            return Err(GachaError::NotEnoughAccountKeys);
        }
        let authority = &accounts[0];
        let item_seller = &accounts[2];
        let owner_account = &accounts[3];
        let custody = &accounts[4];
        assert(accounts_view(accounts@)[0] == authority@);
        assert(accounts_view(accounts@)[2] == item_seller@);
        assert(accounts_view(accounts@)[3] == owner_account@);
        assert(accounts_view(accounts@)[4] == custody@);
        if !authority.is_signer {
            return Err(GachaError::MissingRequiredSignature);
        }
        if !item_seller.key.same_as(&item.seller) || !owner_account.key.same_as(&state.owner) {
            return Err(GachaError::AccountMismatch);
        }
        if item.owner.is_some() {
            return Err(GachaError::AccountAlreadyHasEntry);
        }
        if state.item_sold == u128::MAX {
            return Err(GachaError::RegistryFull);
        }
        let mut effects: Vec<Effect> = Vec::new();
        effects.push(Effect::TransferValue { from: authority.key, to: item.seller, amount: price });
        effects.push(
            Effect::TransferAsset {
                program_ref: item.token_program_id,
                asset_id: item.mint_address,
                from: custody.key,
                to: authority.key,
                authority: custody.key,
            },
        );
        effects.push(
            Effect::TransferValue {
                from: authority.key,
                to: state.owner,
                amount: state.listing_price,
            },
        );
        item.owner = Some(authority.key);
        item.sold = true;
        let ghost bought = item@;
        state.map.insert(item_id, item);
        state.item_sold = state.item_sold + 1;
        proof {
            assert(bought == old(state)@.items[item_id].bought_by(authority.key@));
            assert(state@.items =~= old(state)@.items.insert(item_id, bought));
            assert(state@.items.dom() =~= old(state)@.items.dom());
            assert(effects_view(effects@) =~= purchase_sale_effects(
                old(state)@,
                item_id,
                authority.key@,
                custody.key@,
            ));
        }
        Ok(effects)
    }

    /// Draws items for the caller, given the random words of the draws.
    ///
    /// The accounts are the caller, the storage slot, the account that
    /// takes the fee, which is the seller of the first item that can be
    /// drawn where there is one, and the account that holds the assets in
    /// custody.
    pub fn gacha_with(
        accounts: &[Account],
        qty: u8,
        price: u128,
        fee: u128,
        words: &Vec<u64>,
        state: &mut State,
    ) -> (result: Result<Vec<Effect>, GachaError>)
        requires
            old(state)@.wf(),
            words.len() == qty,
        ensures
            final(state)@.wf(),
            answers(
                result,
                *old(state),
                *final(state),
                gacha_outcome(old(state)@, accounts_view(accounts@), qty, price, fee, words@),
            ),
    {
        if !state.initialized || state.item_ids == 0 {
            return Err(GachaError::InvalidDrawSize);
        }
        let pool = eligible_ids(state, Some(price));
        if qty as usize > pool.len() {
            return Err(GachaError::InvalidDrawSize);
        }
        if accounts.len() < 4 {
            return Err(GachaError::NotEnoughAccountKeys);
        }
        let authority = &accounts[0];
        let payee = &accounts[2];
        let custody = &accounts[3];
        assert(accounts_view(accounts@)[0] == authority@);
        assert(accounts_view(accounts@)[2] == payee@);
        assert(accounts_view(accounts@)[3] == custody@);
        if !authority.is_signer {
            return Err(GachaError::MissingRequiredSignature);
        }
        proof {
            lemma_eligible_members(state@.items, state.item_ids, Some(price));
            lemma_positions_without_replacement(pool@.len(), words@);
        }
        if pool.len() > 0 {
            assert(state@.items.dom().contains(pool[0]));
            let seller = state.item(pool[0]).unwrap().seller;
            if !payee.key.same_as(&seller) {
                return Err(GachaError::AccountMismatch);
            }
        }
        if state.item_sold == u128::MAX {
            return Err(GachaError::RegistryFull);
        }
        let drawn = pick_positions(pool.len(), words).unwrap();
        let mut effects = hand_over_drawn(state, &pool, &drawn, &custody.key, &authority.key, None);
        effects.push(Effect::TransferValue { from: authority.key, to: payee.key, amount: fee });
        state.item_sold = state.item_sold + 1;
        proof {
            assert(effects_view(effects@) =~= gacha_effects(
                old(state)@,
                price,
                fee,
                authority.key@,
                payee.key@,
                custody.key@,
                words@,
            ));
        }
        Ok(effects)
    }

    /// Draws items for the caller: takes the random words that the
    /// registry's counters give as a seed, and goes on as `gacha_with`
    /// does. The program that the instruction names is not consulted:
    /// every item carries the program it was listed with.
    pub fn gacha(
        accounts: &[Account],
        program_id: &Address,
        token_program_id: Address,
        qty: u8,
        price: u128,
        fee: u128,
        state: &mut State,
    ) -> (result: Result<Vec<Effect>, GachaError>)
        requires
            old(state)@.wf(),
        ensures
            final(state)@.wf(),
            answers(
                result,
                *old(state),
                *final(state),
                gacha_outcome(
                    old(state)@,
                    accounts_view(accounts@),
                    qty,
                    price,
                    fee,
                    draw_words(old(state)@, qty),
                ),
            ),
    {
        let seed = seed_of(state.item_ids, state.item_sold);
        let words = next_words(&seed, qty as usize);
        Self::gacha_with(accounts, qty, price, fee, &words, state)
    }

    /// Takes items into the owner's pool, given the random words of the
    /// draws.
    ///
    /// The accounts are the caller, the storage slot, the registry's
    /// owner, and the account that holds the assets in custody.
    pub fn create_gacha_with(
        accounts: &[Account],
        qty: u8,
        words: &Vec<u64>,
        state: &mut State,
    ) -> (result: Result<Vec<Effect>, GachaError>)
        requires
            old(state)@.wf(),
            words.len() == qty,
        ensures
            final(state)@.wf(),
            answers(
                result,
                *old(state),
                *final(state),
                create_gacha_outcome(old(state)@, accounts_view(accounts@), qty, words@),
            ),
    {
        if !state.initialized || state.item_ids == 0 {
            return Err(GachaError::InvalidDrawSize);
        }
        let pool = eligible_ids(state, None);
        if qty as usize > pool.len() {
            return Err(GachaError::InvalidDrawSize);
        }
        if accounts.len() < 4 {
            return Err(GachaError::NotEnoughAccountKeys);
        }
        let authority = &accounts[0];
        let owner_account = &accounts[2];
        let custody = &accounts[3];
        assert(accounts_view(accounts@)[0] == authority@);
        assert(accounts_view(accounts@)[2] == owner_account@);
        assert(accounts_view(accounts@)[3] == custody@);
        if !authority.is_signer {
            return Err(GachaError::MissingRequiredSignature);
        }
        if !owner_account.key.same_as(&state.owner) {
            return Err(GachaError::AccountMismatch);
        }
        if state.item_sold > u128::MAX - (qty as u128) {
            return Err(GachaError::RegistryFull);
        }
        proof {
            lemma_eligible_members(state@.items, state.item_ids, None);
            lemma_positions_without_replacement(pool@.len(), words@);
        }
        let drawn = pick_positions(pool.len(), words).unwrap();
        let admin = state.owner;
        let fee = Effect::TransferValue {
            from: authority.key,
            to: admin,
            amount: state.listing_price,
        };
        let effects = hand_over_drawn(state, &pool, &drawn, &custody.key, &admin, Some(fee));
        state.item_sold = state.item_sold + (qty as u128);
        Ok(effects)
    }

    /// Takes items into the owner's pool: takes the random words that the
    /// registry's counters give as a seed, and goes on as
    /// `create_gacha_with` does. The program that the instruction names is
    /// not consulted: every item carries the program it was listed with.
    pub fn create_gacha(
        accounts: &[Account],
        program_id: &Address,
        token_program_id: Address,
        qty: u8,
        state: &mut State,
    ) -> (result: Result<Vec<Effect>, GachaError>)
        requires
            old(state)@.wf(),
        ensures
            final(state)@.wf(),
            answers(
                result,
                *old(state),
                *final(state),
                create_gacha_outcome(
                    old(state)@,
                    accounts_view(accounts@),
                    qty,
                    draw_words(old(state)@, qty),
                ),
            ),
    {
        let seed = seed_of(state.item_ids, state.item_sold);
        let words = next_words(&seed, qty as usize);
        Self::create_gacha_with(accounts, qty, &words, state)
    }
}

} // verus!

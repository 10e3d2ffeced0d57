use crate::draw::{draw_effects, drawn_ids, eligible, lemma_eligible_members};
use crate::effect::{effects_view, AccountView, Effect, EffectView};
use crate::error::GachaError;
use crate::processor::{
    answers, create_gacha_outcome, create_market_item_outcome, gacha_outcome, gacha_pool,
    init_state_outcome, purchase_sale_outcome, Outcome,
};
use crate::sampling::{lemma_positions_without_replacement, positions};
use crate::state::{id_range, lemma_id_range_len, ItemView, State, StateView};
use vstd::prelude::*;
use vstd::std_specs::btree::spec_btree_map_len;

verus! {

broadcast use {vstd::std_specs::btree::group_btree_axioms, vstd::laws_cmp::group_laws_cmp};

/// A listing that is accepted raises the count of items by exactly one,
/// and the new item is stored under the new count and carries it as its
/// id.
pub proof fn law_listing_takes_next_id(
    result: Result<Vec<Effect>, GachaError>,
    before: State,
    after: State,
    accounts: Seq<AccountView>,
    token_program_id: Seq<u8>,
    mint_address: Seq<u8>,
    price: u128,
    file_name: Seq<char>,
    description: Seq<char>,
    cash_back: u8,
    custody: Option<Seq<u8>>,
)
    requires
        result is Ok,
        answers(
            result,
            before,
            after,
            create_market_item_outcome(
                before@,
                accounts,
                token_program_id,
                mint_address,
                price,
                file_name,
                description,
                cash_back,
                custody,
            ),
        ),
    ensures
        after@.item_ids == before@.item_ids + 1,
        after@.items.contains_key(after@.item_ids),
        after@.items[after@.item_ids].item_id == after@.item_ids,
{
}

/// In a well-formed registry every item has a cash-back from 0 to 99.
pub proof fn law_cash_back_is_bounded(state: StateView, id: u128)
    requires
        state.wf(),
        state.items.contains_key(id),
    ensures
        0 <= state.items[id].cash_back <= 99,
{
}

/// A listing with a cash-back of 100 or more is refused with
/// `CashbackMax`, whatever else it says, and leaves the registry as it
/// was.
pub proof fn law_cash_back_of_100_is_refused(
    result: Result<Vec<Effect>, GachaError>,
    before: State,
    after: State,
    accounts: Seq<AccountView>,
    token_program_id: Seq<u8>,
    mint_address: Seq<u8>,
    price: u128,
    file_name: Seq<char>,
    description: Seq<char>,
    cash_back: u8,
    custody: Option<Seq<u8>>,
)
    requires
        cash_back >= 100,
        answers(
            result,
            before,
            after,
            create_market_item_outcome(
                before@,
                accounts,
                token_program_id,
                mint_address,
                price,
                file_name,
                description,
                cash_back,
                custody,
            ),
        ),
    ensures
        result == Err::<Vec<Effect>, GachaError>(GachaError::CashbackMax),
        after == before,
{
}

/// A purchase that names another price than the one the item is stored
/// with is refused with `InvalidPayment`, and the item keeps its owner
/// and its `sold` flag, as the whole registry stays as it was.
pub proof fn law_wrong_price_is_refused(
    result: Result<Vec<Effect>, GachaError>,
    before: State,
    after: State,
    accounts: Seq<AccountView>,
    price: u128,
    item_id: u128,
)
    requires
        before@.items.contains_key(item_id),
        price != before@.items[item_id].price,
        answers(result, before, after, purchase_sale_outcome(before@, accounts, price, item_id)),
    ensures
        result == Err::<Vec<Effect>, GachaError>(GachaError::InvalidPayment),
        after == before,
        after@.items[item_id].owner == before@.items[item_id].owner,
        after@.items[item_id].sold == before@.items[item_id].sold,
{
}

/// Setting up a registry that is set up already is refused with
/// `AlreadyInitialized`, and any refusal to set a registry up leaves it
/// as it was.
pub proof fn law_second_init_changes_nothing(
    result: Result<Vec<Effect>, GachaError>,
    before: State,
    after: State,
    accounts: Seq<AccountView>,
    program_id: Seq<u8>,
    listing_price: u128,
    derived: Option<(Seq<u8>, u8)>,
)
    requires
        answers(
            result,
            before,
            after,
            init_state_outcome(before@, accounts, program_id, listing_price, derived),
        ),
    ensures
        before@.initialized ==> result == Err::<Vec<Effect>, GachaError>(
            GachaError::AlreadyInitialized,
        ),
        result is Err ==> after == before,
{
}

/// The ids that a draw takes from a pool that fits in memory are as many
/// as there are random words, are ids of the pool, and are no two the
/// same.
pub proof fn law_draw_takes_distinct_items(
    items: Map<u128, ItemView>,
    upto: u128,
    price: Option<u128>,
    words: Seq<u64>,
)
    requires
        words.len() <= eligible(items, upto, price).len() <= usize::MAX,
    ensures
        ({
            let pool = eligible(items, upto, price);
            let drawn = drawn_ids(pool, positions(pool.len(), words));
            &&& drawn.len() == words.len()
            &&& forall|j: int| 0 <= j < drawn.len() ==> pool.contains(#[trigger] drawn[j])
            &&& forall|i: int, j: int| 0 <= i < j < drawn.len() ==> drawn[i] != drawn[j]
        }),
{
    let pool = eligible(items, upto, price);
    let picked = positions(pool.len(), words);
    let drawn = drawn_ids(pool, picked);
    lemma_eligible_members(items, upto, price);
    lemma_positions_without_replacement(pool.len(), words);
    lemma_eligible_ascending(items, upto, price);
    assert forall|j: int| 0 <= j < drawn.len() implies pool.contains(#[trigger] drawn[j]) by {
        assert(pool[picked[j] as int] == drawn[j]);
    }
    assert forall|i: int, j: int| 0 <= i < j < drawn.len() implies drawn[i] != drawn[j] by {
        assert(picked[i] != picked[j]);
        if picked[i] < picked[j] {
            assert(pool[picked[i] as int] < pool[picked[j] as int]);
        } else {
            assert(pool[picked[j] as int] < pool[picked[i] as int]);
        }
    }
}

/// The ids that can be drawn stand in ascending order.
pub proof fn lemma_eligible_ascending(
    items: Map<u128, ItemView>,
    upto: u128,
    price: Option<u128>,
)
    ensures
        forall|i: int, j: int|
            0 <= i < j < eligible(items, upto, price).len() ==> eligible(items, upto, price)[i]
                < eligible(items, upto, price)[j],
    decreases upto,
{
    if upto > 0 {
        lemma_eligible_ascending(items, (upto - 1) as u128, price);
        lemma_eligible_members(items, (upto - 1) as u128, price);
    }
}

/// A draw that is accepted hands exactly the drawn items over: each of
/// them is the winner's and marked as drawn, and every other item is as
/// it was.
pub proof fn law_draw_changes_drawn_items_only(
    result: Result<Vec<Effect>, GachaError>,
    before: State,
    after: State,
    accounts: Seq<AccountView>,
    qty: u8,
    price: u128,
    fee: u128,
    words: Seq<u64>,
    id: u128,
)
    requires
        result is Ok,
        before@.items.contains_key(id),
        answers(result, before, after, gacha_outcome(before@, accounts, qty, price, fee, words)),
    ensures
        ({
            let pool = gacha_pool(before@, price);
            let drawn = drawn_ids(pool, positions(pool.len(), words));
            &&& after@.items.contains_key(id)
            &&& drawn.contains(id) ==> after@.items[id] == before@.items[id].drawn_by(
                accounts[0].key,
            )
            &&& !drawn.contains(id) ==> after@.items[id] == before@.items[id]
            &&& after@.item_sold == before@.item_sold + 1
        }),
{
}

/// Taking items into the owner's pool counts one hand-over for each item
/// drawn, where a draw for a caller counts one for the whole draw.
pub proof fn law_pool_counts_each_item(
    result: Result<Vec<Effect>, GachaError>,
    before: State,
    after: State,
    accounts: Seq<AccountView>,
    qty: u8,
    words: Seq<u64>,
)
    requires
        result is Ok,
        words.len() == qty,
        answers(result, before, after, create_gacha_outcome(before@, accounts, qty, words)),
    ensures
        after@.item_sold == before@.item_sold + qty,
        after@.item_ids == before@.item_ids,
        after@.owner == before@.owner,
{
}

/// Tells whether the registry `post` carries the registry `pre` on: no
/// counter went back, every item is still there under its id with its
/// seller, price and cash-back, an item that had an owner has one, and an
/// item that was sold or drawn still is.
pub open spec fn carries_on(pre: StateView, post: StateView) -> bool {
    &&& post.item_ids >= pre.item_ids
    &&& post.item_sold >= pre.item_sold
    &&& post.initialized
    &&& forall|id: u128| #[trigger]
        pre.items.contains_key(id) ==> {
            &&& post.items.contains_key(id)
            &&& post.items[id].item_id == pre.items[id].item_id
            &&& post.items[id].seller == pre.items[id].seller
            &&& post.items[id].price == pre.items[id].price
            &&& post.items[id].cash_back == pre.items[id].cash_back
            &&& pre.items[id].owner is Some ==> post.items[id].owner is Some
            &&& pre.items[id].sold ==> post.items[id].sold
            &&& pre.items[id].gacha ==> post.items[id].gacha
        }
}

/// Setting a registry up gives a well-formed registry.
pub proof fn law_init_state_keeps_well_formed(
    pre: StateView,
    accounts: Seq<AccountView>,
    program_id: Seq<u8>,
    listing_price: u128,
    derived: Option<(Seq<u8>, u8)>,
)
    requires
        pre.wf(),
    ensures
        init_state_outcome(pre, accounts, program_id, listing_price, derived) matches Ok(o)
            ==> o.state.wf() && carries_on(pre, o.state),
{
    if let Ok(o) = init_state_outcome(pre, accounts, program_id, listing_price, derived) {
        assert(o.state.items.dom() =~= id_range(0));
        assert(pre.items.dom() =~= id_range(0));
    }
}

/// A listing that is accepted leaves the registry well formed and
/// changes no item that was there.
pub proof fn law_listing_keeps_well_formed(
    pre: StateView,
    accounts: Seq<AccountView>,
    token_program_id: Seq<u8>,
    mint_address: Seq<u8>,
    price: u128,
    file_name: Seq<char>,
    description: Seq<char>,
    cash_back: u8,
    custody: Option<Seq<u8>>,
)
    requires
        pre.wf(),
    ensures
        create_market_item_outcome(
            pre,
            accounts,
            token_program_id,
            mint_address,
            price,
            file_name,
            description,
            cash_back,
            custody,
        ) matches Ok(o) ==> o.state.wf() && carries_on(pre, o.state),
{
    if let Ok(o) = create_market_item_outcome(
        pre,
        accounts,
        token_program_id,
        mint_address,
        price,
        file_name,
        description,
        cash_back,
        custody,
    ) {
        let id = (pre.item_ids + 1) as u128;
        assert(id_range(id) =~= id_range(pre.item_ids).insert(id));
        assert(o.state.items.dom() =~= id_range(id));
        assert(!pre.items.dom().contains(id));
    }
}

/// A purchase that is accepted leaves the registry well formed and
/// changes no item but the one bought.
pub proof fn law_purchase_keeps_well_formed(
    pre: StateView,
    accounts: Seq<AccountView>,
    price: u128,
    item_id: u128,
)
    requires
        pre.wf(),
    ensures
        purchase_sale_outcome(pre, accounts, price, item_id) matches Ok(o) ==> {
            &&& o.state.wf()
            &&& carries_on(pre, o.state)
            &&& forall|id: u128|
                pre.items.contains_key(id) && id != item_id ==> #[trigger] o.state.items[id]
                    == pre.items[id]
        },
{
    if let Ok(o) = purchase_sale_outcome(pre, accounts, price, item_id) {
        assert(o.state.items.dom() =~= pre.items.dom());
    }
}

/// A draw that is accepted leaves the registry well formed, whatever the
/// random words are.
pub proof fn law_draw_keeps_well_formed(
    pre: StateView,
    accounts: Seq<AccountView>,
    qty: u8,
    price: u128,
    fee: u128,
    words: Seq<u64>,
)
    requires
        pre.wf(),
    ensures
        gacha_outcome(pre, accounts, qty, price, fee, words) matches Ok(o) ==> o.state.wf()
            && carries_on(pre, o.state),
{
    if let Ok(o) = gacha_outcome(pre, accounts, qty, price, fee, words) {
        assert(o.state.items.dom() =~= pre.items.dom());
    }
}

/// Taking items into the owner's pool leaves the registry well formed,
/// whatever the random words are.
pub proof fn law_pool_keeps_well_formed(
    pre: StateView,
    accounts: Seq<AccountView>,
    qty: u8,
    words: Seq<u64>,
)
    requires
        pre.wf(),
        words.len() == qty,
    ensures
        create_gacha_outcome(pre, accounts, qty, words) matches Ok(o) ==> o.state.wf()
            && carries_on(pre, o.state),
{
    if let Ok(o) = create_gacha_outcome(pre, accounts, qty, words) {
        assert(o.state.items.dom() =~= pre.items.dom());
    }
}

/// A listing is accepted, and raises the count of items by one, whenever
/// the registry is set up, the three accounts are there, the caller
/// signed, the price is positive, the cash-back is below 100 percent and
/// there is an account to take the asset in. A registry that is held in
/// memory never runs out of ids.
pub proof fn law_valid_listing_is_accepted(
    result: Result<Vec<Effect>, GachaError>,
    before: State,
    after: State,
    accounts: Seq<AccountView>,
    token_program_id: Seq<u8>,
    mint_address: Seq<u8>,
    price: u128,
    file_name: Seq<char>,
    description: Seq<char>,
    cash_back: u8,
    custody: Option<Seq<u8>>,
)
    requires
        before@.wf(),
        before@.initialized,
        accounts.len() >= 3,
        accounts[0].is_signer,
        price > 0,
        cash_back < 100,
        custody is Some,
        answers(
            result,
            before,
            after,
            create_market_item_outcome(
                before@,
                accounts,
                token_program_id,
                mint_address,
                price,
                file_name,
                description,
                cash_back,
                custody,
            ),
        ),
    ensures
        result is Ok,
        after@.item_ids == before@.item_ids + 1,
{
    lemma_id_range_len(before.item_ids);
    assert(before.map@.dom() =~= before@.items.dom());
    assert(before.map@.len() == spec_btree_map_len(&before.map));
}

/// Among the accounts and the counters being in order, the size of a draw
/// decides alone: a draw on a registry that is set up and has items is
/// accepted where it asks for no more than the pool holds, also for
/// nothing from an empty pool, and is refused with `InvalidDrawSize` where
/// it asks for more.
pub proof fn law_draw_is_refused_only_for_its_size(
    pre: StateView,
    accounts: Seq<AccountView>,
    qty: u8,
    price: u128,
    fee: u128,
    words: Seq<u64>,
)
    requires
        pre.initialized,
        pre.item_ids > 0,
        accounts.len() >= 4,
        accounts[0].is_signer,
        gacha_pool(pre, price).len() > 0 ==> accounts[2].key == pre.items[gacha_pool(
            pre,
            price,
        )[0]].seller,
        pre.item_sold < u128::MAX,
    ensures
        qty <= gacha_pool(pre, price).len() ==> gacha_outcome(
            pre,
            accounts,
            qty,
            price,
            fee,
            words,
        ) is Ok,
        qty > gacha_pool(pre, price).len() ==> gacha_outcome(pre, accounts, qty, price, fee, words)
            == Err::<Outcome, GachaError>(GachaError::InvalidDrawSize),
{
}

/// A draw is refused with `InvalidDrawSize` exactly where the registry is
/// not set up, has no items, or holds fewer items in the pool than the
/// draw asks for.
pub proof fn law_invalid_draw_size(
    pre: StateView,
    accounts: Seq<AccountView>,
    qty: u8,
    price: u128,
    fee: u128,
    words: Seq<u64>,
)
    ensures
        gacha_outcome(pre, accounts, qty, price, fee, words) == Err::<Outcome, GachaError>(
            GachaError::InvalidDrawSize,
        ) <==> (!pre.initialized || pre.item_ids == 0 || qty > gacha_pool(pre, price).len()),
{
}

/// A draw of nothing that is accepted changes no item and moves no asset:
/// it pays the fee, counts one hand-over, and that is all.
pub proof fn law_draw_of_nothing_changes_no_item(
    result: Result<Vec<Effect>, GachaError>,
    before: State,
    after: State,
    accounts: Seq<AccountView>,
    price: u128,
    fee: u128,
    words: Seq<u64>,
)
    requires
        result is Ok,
        words.len() == 0,
        answers(result, before, after, gacha_outcome(before@, accounts, 0, price, fee, words)),
    ensures
        after@.items == before@.items,
        after@.item_ids == before@.item_ids,
        after@.item_sold == before@.item_sold + 1,
        effects_view(result->Ok_0@) == seq![
            EffectView::TransferValue { from: accounts[0].key, to: accounts[2].key, amount: fee },
        ],
{
    let pool = gacha_pool(before@, price);
    let drawn = drawn_ids(pool, positions(pool.len(), words));
    assert(drawn.len() == 0);
    assert(after@.items =~= before@.items);
    assert(draw_effects(before@.items, drawn, accounts[3].key, accounts[0].key, None)
        =~= Seq::<EffectView>::empty());
}

} // verus!

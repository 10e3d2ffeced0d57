use crate::address::Address;
use crate::effect::{effects_view, Effect, EffectView};
use crate::state::{ItemView, State, StateView};
use vstd::bytes::{spec_u128_to_le_bytes, u128_to_le_bytes};
use vstd::prelude::*;

verus! {

broadcast use {vstd::std_specs::btree::group_btree_axioms, vstd::laws_cmp::group_laws_cmp};

/// Tells whether an item can be drawn: it has an owner and, where a price
/// is asked for, that price.
pub open spec fn qualifies(item: ItemView, price: Option<u128>) -> bool {
    &&& item.owner is Some
    &&& price matches Some(p) ==> item.price == p
}

/// The ids from 1 to `upto` of the items that can be drawn, in ascending
/// order. A drawn position is a position in this list, counted from 0; the
/// id that stands there is what names the item in the registry.
pub open spec fn eligible(items: Map<u128, ItemView>, upto: u128, price: Option<u128>) -> Seq<
    u128,
>
    decreases upto,
{
    if upto == 0 {
        Seq::empty()
    } else {
        let before = eligible(items, (upto - 1) as u128, price);
        if qualifies(items[upto], price) {
            before.push(upto)
        } else {
            before
        }
    }
}

/// Every eligible id is an id in range whose item qualifies.
pub proof fn lemma_eligible_members(items: Map<u128, ItemView>, upto: u128, price: Option<u128>)
    ensures
        eligible(items, upto, price).len() <= upto,
        forall|i: int|
            0 <= i < eligible(items, upto, price).len() ==> {
                let id = #[trigger] eligible(items, upto, price)[i];
                1 <= id <= upto && qualifies(items[id], price)
            },
    decreases upto,
{
    if upto > 0 {
        lemma_eligible_members(items, (upto - 1) as u128, price);
    }
}

/// The seed of a draw: the two counters of the registry, sixteen bytes
/// each, lowest byte first. The seed is derived afresh for every
/// instruction from the registry alone, and no generator state is
/// persisted. A draw that succeeds moves `item_sold` on, so the next draw
/// has another seed.
pub open spec fn draw_seed(item_ids: u128, item_sold: u128) -> Seq<u8> {
    spec_u128_to_le_bytes(item_ids) + spec_u128_to_le_bytes(item_sold)
}

/// The ids that stand at the drawn positions of the pool.
pub open spec fn drawn_ids(pool: Seq<u128>, positions: Seq<usize>) -> Seq<u128> {
    Seq::new(positions.len(), |j: int| pool[positions[j] as int])
}

/// The listings after the items `drawn` went to `winner`.
pub open spec fn hand_over(items: Map<u128, ItemView>, drawn: Seq<u128>, winner: Seq<u8>) -> Map<
    u128,
    ItemView,
> {
    Map::new(
        |id: u128| items.contains_key(id),
        |id: u128|
            if drawn.contains(id) {
                items[id].drawn_by(winner)
            } else {
                items[id]
            },
    )
}

/// The transfer that takes an item's asset out of custody.
pub open spec fn release(item: ItemView, custody: Seq<u8>, to: Seq<u8>) -> EffectView {
    EffectView::TransferAsset {
        program_ref: item.token_program_id,
        asset_id: item.mint_address,
        from: custody,
        to,
        authority: custody,
    }
}

/// The transfers that a draw asks for, item by item in the order drawn:
/// the item's asset leaves custody, and then, where a fee is due on each
/// item, the fee is paid.
pub open spec fn draw_effects(
    items: Map<u128, ItemView>,
    drawn: Seq<u128>,
    custody: Seq<u8>,
    winner: Seq<u8>,
    fee_each: Option<EffectView>,
) -> Seq<EffectView>
    decreases drawn.len(),
{
    if drawn.len() == 0 {
        Seq::empty()
    } else {
        let before = draw_effects(items, drawn.drop_last(), custody, winner, fee_each);
        let asset = release(items[drawn.last()], custody, winner);
        match fee_each {
            Some(fee) => before.push(asset).push(fee),
            None => before.push(asset),
        }
    }
}

/// Lists the ids of the items that can be drawn.
pub fn eligible_ids(state: &State, price: Option<u128>) -> (pool: Vec<u128>)
    requires
        state@.wf(),
    ensures
        pool@ == eligible(state@.items, state.item_ids, price),
{
    let mut pool: Vec<u128> = Vec::new();
    let mut id: u128 = 0;
    while id < state.item_ids
        invariant
            id <= state.item_ids,
            state@.wf(),
            pool@ == eligible(state@.items, id, price),
        decreases state.item_ids - id,
    {
        id += 1;
        assert(state@.items.dom().contains(id));
        match state.item(id) {
            Some(item) => {
                let price_fits = match price {
                    Some(p) => item.price == p,
                    None => true,
                };
                if item.owner.is_some() && price_fits {
                    pool.push(id);
                }
            },
            None => {},
        }
    }
    pool
}

/// Computes the seed of a draw from the two counters of the registry.
pub fn seed_of(item_ids: u128, item_sold: u128) -> (seed: [u8; 32])
    ensures
        seed@ == draw_seed(item_ids, item_sold),
{
    let a = u128_to_le_bytes(item_ids);
    let b = u128_to_le_bytes(item_sold);
    let seed: [u8; 32] = [
        a[0],
        a[1],
        a[2],
        a[3],
        a[4],
        a[5],
        a[6],
        a[7],
        a[8],
        a[9],
        a[10],
        a[11],
        a[12],
        a[13],
        a[14],
        a[15],
        b[0],
        b[1],
        b[2],
        b[3],
        b[4],
        b[5],
        b[6],
        b[7],
        b[8],
        b[9],
        b[10],
        b[11],
        b[12],
        b[13],
        b[14],
        b[15],
    ];
    assert(seed@ =~= a@ + b@);
    seed
}

/// Hands the items at the drawn positions of the pool to `winner` and
/// lists the transfers that this asks for.
pub fn hand_over_drawn(
    state: &mut State,
    pool: &Vec<u128>,
    positions: &Vec<usize>,
    custody: &Address,
    winner: &Address,
    fee_each: Option<Effect>,
) -> (effects: Vec<Effect>)
    requires
        old(state)@.wf(),
        forall|j: int| 0 <= j < positions.len() ==> #[trigger] positions[j] < pool.len(),
        forall|i: int| 0 <= i < pool.len() ==> 1 <= #[trigger] pool[i] <= old(state).item_ids,
    ensures
        final(state)@.wf(),
        final(state)@ == (StateView {
            items: hand_over(old(state)@.items, drawn_ids(pool@, positions@), winner@),
            ..old(state)@
        }),
        effects_view(effects@) == draw_effects(
            old(state)@.items,
            drawn_ids(pool@, positions@),
            custody@,
            winner@,
            match fee_each {
                Some(fee) => Some(fee@),
                None => None,
            },
        ),
{
    let ghost items = state@.items;
    let ghost drawn = drawn_ids(pool@, positions@);
    let ghost fee_view = match fee_each {
        Some(fee) => Some(fee@),
        None => None,
    };
    let mut effects: Vec<Effect> = Vec::new();
    let mut j: usize = 0;
    assert(state@.items =~= hand_over(items, drawn.take(0), winner@));
    assert(effects_view(effects@) =~= draw_effects(
        items,
        drawn.take(0),
        custody@,
        winner@,
        fee_view,
    ));
    while j < positions.len()
        invariant
            j <= positions.len(),
            drawn == drawn_ids(pool@, positions@),
            items == old(state)@.items,
            old(state)@.wf(),
            fee_view == match fee_each {
                Some(fee) => Some(fee@),
                None => None,
            },
            forall|j: int| 0 <= j < positions.len() ==> #[trigger] positions[j] < pool.len(),
            forall|i: int| 0 <= i < pool.len() ==> 1 <= #[trigger] pool[i] <= old(state).item_ids,
            state@.wf(),
            state@ == (StateView { items: hand_over(items, drawn.take(j as int), winner@), ..old(
                state,
            )@ }),
            effects_view(effects@) == draw_effects(
                items,
                drawn.take(j as int),
                custody@,
                winner@,
                fee_view,
            ),
        decreases positions.len() - j,
    {
        let id = pool[positions[j]];
        assert(id == drawn[j as int]);
        assert(items.dom().contains(id));
        assert(state@.items.contains_key(id));
        let ghost before = state@;
        let ghost effects_before = effects_view(effects@);
        let mut item = state.map.get(&id).unwrap().clone();
        let asset = Effect::TransferAsset {
            program_ref: item.token_program_id,
            asset_id: item.mint_address,
            from: *custody,
            to: *winner,
            authority: *custody,
        };
        assert(asset@ == release(items[id], custody@, winner@));
        effects.push(asset);
        if let Some(fee) = fee_each {
            effects.push(fee);
        }
        item.owner = Some(*winner);
        item.gacha = true;
        assert(item@ == items[id].drawn_by(winner@));
        state.map.insert(id, item);
        j += 1;
        proof {
            let now = drawn.take(j as int);
            let earlier = drawn.take(j - 1);
            assert(now.drop_last() =~= earlier);
            assert(now.last() == id);
            assert forall|x: u128| now.contains(x) <==> (earlier.contains(x) || x == id) by {
                if now.contains(x) {
                    let p = choose|p: int| 0 <= p < now.len() && now[p] == x;
                    if p < j - 1 {
                        assert(earlier[p] == x);
                    }
                }
                if earlier.contains(x) {
                    let p = choose|p: int| 0 <= p < earlier.len() && earlier[p] == x;
                    assert(now[p] == x);
                }
                if x == id {
                    assert(now[j - 1] == x);
                }
            }
            assert(state@.items =~= hand_over(items, now, winner@));
            assert(effects_view(effects@) =~= draw_effects(
                items,
                now,
                custody@,
                winner@,
                fee_view,
            )) by {
                let next = release(items[id], custody@, winner@);
                match fee_view {
                    Some(fee) => {
                        assert(effects_view(effects@) =~= effects_before.push(next).push(fee));
                    },
                    None => {
                        assert(effects_view(effects@) =~= effects_before.push(next));
                    },
                }
            }
            assert(state@.items.dom() =~= before.items.dom());
        }
    }
    assert(drawn.take(positions.len() as int) =~= drawn);
    effects
}

} // verus!

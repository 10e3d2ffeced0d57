use crate::address::{optional_view, Address};
use std::collections::BTreeMap;
use vstd::prelude::*;
use vstd::set_lib::lemma_subset_equality;

verus! {

broadcast use {vstd::std_specs::btree::group_btree_axioms, vstd::laws_cmp::group_laws_cmp};

/// The highest cash-back percentage that a listing may promise.
pub const MAX_CASH_BACK: u8 = 99;

/// One listed asset.
#[derive(Debug, PartialEq, Eq)]
pub struct MarketItem {
    /// The id of the item: ids are given out from 1 upwards.
    pub item_id: u128,
    /// The program that moves the asset.
    pub token_program_id: Address,
    /// The asset.
    pub mint_address: Address,
    /// Who listed the item and is paid for it.
    pub seller: Address,
    /// Who acquired the item, once somebody has.
    pub owner: Option<Address>,
    /// What the item costs, in the smallest unit.
    pub price: u128,
    pub file_name: String,
    pub description: String,
    /// The cash-back in percent, below 100.
    pub cash_back: u8,
    /// Set when the item is bought.
    pub sold: bool,
    /// Set when the item is acquired through a draw.
    pub gacha: bool,
}

/// What a `MarketItem` holds, as plain values.
pub struct ItemView {
    pub item_id: u128,
    pub token_program_id: Seq<u8>,
    pub mint_address: Seq<u8>,
    pub seller: Seq<u8>,
    pub owner: Option<Seq<u8>>,
    pub price: u128,
    pub file_name: Seq<char>,
    pub description: Seq<char>,
    pub cash_back: u8,
    pub sold: bool,
    pub gacha: bool,
}

impl View for MarketItem {
    type V = ItemView;

    open spec fn view(&self) -> ItemView {
        ItemView {
            item_id: self.item_id,
            token_program_id: self.token_program_id@,
            mint_address: self.mint_address@,
            seller: self.seller@,
            owner: optional_view(self.owner),
            price: self.price,
            file_name: self.file_name@,
            description: self.description@,
            cash_back: self.cash_back,
            sold: self.sold,
            gacha: self.gacha,
        }
    }
}

impl ItemView {
    /// What holds of the item that is stored under `id`: it carries that
    /// id, a positive price and a cash-back below 100 percent, and it has an
    /// owner once it is sold or drawn.
    pub open spec fn wf(self, id: u128) -> bool {
        &&& self.item_id == id
        &&& self.price > 0
        &&& self.cash_back <= MAX_CASH_BACK
        &&& (self.sold || self.gacha) ==> self.owner is Some
    }

    /// The item after `buyer` has bought it.
    pub open spec fn bought_by(self, buyer: Seq<u8>) -> ItemView {
        ItemView { owner: Some(buyer), sold: true, ..self }
    }

    /// The item after a draw has handed it to `winner`.
    pub open spec fn drawn_by(self, winner: Seq<u8>) -> ItemView {
        ItemView { owner: Some(winner), gacha: true, ..self }
    }
}

impl Clone for MarketItem {
    fn clone(&self) -> (copy: MarketItem)
        ensures
            copy == *self,
    {
        MarketItem {
            item_id: self.item_id,
            token_program_id: self.token_program_id,
            mint_address: self.mint_address,
            seller: self.seller,
            owner: self.owner,
            price: self.price,
            file_name: self.file_name.clone(),
            description: self.description.clone(),
            cash_back: self.cash_back,
            sold: self.sold,
            gacha: self.gacha,
        }
    }
}

impl MarketItem {
    /// Tells whether the item may be stored under `id`.
    pub fn is_well_formed(&self, id: u128) -> (ok: bool)
        ensures
            ok == self@.wf(id),
    {
        self.item_id == id && self.price > 0 && self.cash_back <= MAX_CASH_BACK && (!(self.sold
            || self.gacha) || self.owner.is_some())
    }
}

/// The registry: every listing, two counters, and who collects the
/// listing fee.
///
/// The record grows with its listings: what is persisted is resized to
/// fit, and `LEN` is only the size at which it is first allocated. So there
/// is no cap on the number of listings short of the counters' range.
#[derive(Debug, PartialEq, Eq)]
pub struct State {
    /// The listings by id.
    pub map: BTreeMap<u128, MarketItem>,
    /// How many items were listed: the highest id given out.
    pub item_ids: u128,
    /// How often an item was handed over.
    pub item_sold: u128,
    /// Who collects the listing fee.
    pub owner: Address,
    /// The fee that is charged for each acquisition.
    pub listing_price: u128,
    /// Set once the registry is set up.
    pub initialized: bool,
}

/// What a `State` holds, as plain values.
pub struct StateView {
    pub items: Map<u128, ItemView>,
    pub item_ids: u128,
    pub item_sold: u128,
    pub owner: Seq<u8>,
    pub listing_price: u128,
    pub initialized: bool,
}

impl View for State {
    type V = StateView;

    open spec fn view(&self) -> StateView {
        StateView {
            items: Map::new(
                |id: u128| self.map@.contains_key(id),
                |id: u128| self.map@[id]@,
            ),
            item_ids: self.item_ids,
            item_sold: self.item_sold,
            owner: self.owner@,
            listing_price: self.listing_price,
            initialized: self.initialized,
        }
    }
}

/// The ids from 1 to `n`.
pub open spec fn id_range(n: u128) -> Set<u128> {
    Set::new(|id: u128| 1 <= id <= n)
}

/// There are `n` ids from 1 to `n`.
pub proof fn lemma_id_range_len(n: u128)
    ensures
        id_range(n).finite(),
        id_range(n).len() == n,
    decreases n,
{
    if n == 0 {
        assert(id_range(n) =~= Set::<u128>::empty());
    } else {
        lemma_id_range_len((n - 1) as u128);
        assert(id_range(n) =~= id_range((n - 1) as u128).insert(n));
    }
}

impl StateView {
    /// What holds of every registry: the ids in use are those from 1 to
    /// `item_ids`, each item is well formed under its id, and nothing is
    /// listed or handed over before the registry is set up.
    ///
    /// It does not say that `item_sold` stays within `item_ids`. That
    /// cannot be kept: a draw takes items that have an owner already and
    /// counts a hand-over again, one for a whole draw and one for each item
    /// that goes into the owner's pool. So after three items were bought,
    /// one draw among them makes it four hand-overs of three items.
    pub open spec fn wf(self) -> bool {
        &&& self.items.dom() == id_range(self.item_ids)
        &&& forall|id: u128| #[trigger]
            self.items.contains_key(id) ==> self.items[id].wf(id)
        &&& !self.initialized ==> self.item_ids == 0 && self.item_sold == 0
    }

    /// The registry before it is set up.
    pub open spec fn blank(owner: Seq<u8>) -> StateView {
        StateView {
            items: Map::empty(),
            item_ids: 0,
            item_sold: 0,
            owner,
            listing_price: 0,
            initialized: false,
        }
    }
}

impl State {
    /// The size in bytes at which the persisted record is first allocated.
    pub const LEN: usize = 645;

    /// A registry that is not set up yet.
    pub fn new() -> (state: State)
        ensures
            state@ == StateView::blank(seq![0u8; 32]),
            state@.wf(),
    {
        let state = State {
            map: BTreeMap::new(),
            item_ids: 0,
            item_sold: 0,
            owner: Address::new([0u8; 32]),
            listing_price: 0,
            initialized: false,
        };
        assert(state@.items =~= Map::<u128, ItemView>::empty());
        assert(state@.owner =~= seq![0u8; 32]);
        assert(state@.items.dom() =~= id_range(0));
        state
    }

    /// The item with the given id, if there is one.
    pub fn item(&self, id: u128) -> (found: Option<&MarketItem>)
        ensures
            match found {
                Some(item) => self@.items.contains_key(id) && self@.items[id] == item@
                    && self.map@.contains_key(id) && self.map@[id] == *item,
                None => !self@.items.contains_key(id),
            },
    {
        self.map.get(&id)
    }

    /// Tells whether the registry is well formed.
    pub fn is_well_formed(&self) -> (ok: bool)
        ensures
            ok == self@.wf(),
    {
        if !self.initialized && (self.item_ids != 0 || self.item_sold != 0) {
            return false;
        }
        let len = self.map.len();
        if len as u128 != self.item_ids {
            proof {
                if self@.wf() {
                    lemma_id_range_len(self.item_ids);
                    assert(self.map@.dom() =~= self@.items.dom());
                }
            }
            return false;
        }
        let mut id: u128 = 0;
        while id < self.item_ids
            invariant
                id <= self.item_ids,
                forall|j: u128|
                    1 <= j <= id ==> #[trigger] self@.items.contains_key(j) && self@.items[j].wf(
                        j,
                    ),
            decreases self.item_ids - id,
        {
            id += 1;
            match self.map.get(&id) {
                Some(item) => {
                    if !item.is_well_formed(id) {
                        assert(self@.items.contains_key(id) && self@.items[id] == item@);
                        return false;
                    }
                },
                None => {
                    proof {
                        if self@.wf() {
                            assert(id_range(self.item_ids).contains(id));
                        }
                    }
                    return false;
                },
            }
        }
        proof {
            lemma_id_range_len(self.item_ids);
            assert(self.map@.dom() =~= self@.items.dom());
            assert(id_range(self.item_ids).subset_of(self@.items.dom())) by {
                assert forall|j: u128| id_range(self.item_ids).contains(j) implies self@.items.dom().contains(
                    j,
                ) by {
                    assert(self@.items.contains_key(j));
                }
            }
            lemma_subset_equality(id_range(self.item_ids), self@.items.dom());
        }
        true
    }
}

} // verus!

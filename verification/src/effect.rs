use crate::address::Address;
use vstd::prelude::*;

verus! {

/// One of the accounts that come with an instruction, as far as the
/// marketplace reads it.
#[derive(Clone, Copy, Debug, PartialEq, Eq)]
pub struct Account {
    /// The identifier of the account.
    pub key: Address,
    /// Whether the account signed the instruction.
    pub is_signer: bool,
    /// Whether the instruction may write to the account.
    pub is_writable: bool,
    /// Whether the account holds no data yet.
    pub data_is_empty: bool,
}

/// What an `Account` holds, as plain values.
pub struct AccountView {
    pub key: Seq<u8>,
    pub is_signer: bool,
    pub is_writable: bool,
    pub data_is_empty: bool,
}

impl View for Account {
    type V = AccountView;

    open spec fn view(&self) -> AccountView {
        AccountView {
            key: self.key@,
            is_signer: self.is_signer,
            is_writable: self.is_writable,
            data_is_empty: self.data_is_empty,
        }
    }
}

/// The views of a list of accounts, in order.
pub open spec fn accounts_view(accounts: Seq<Account>) -> Seq<AccountView> {
    Seq::new(accounts.len(), |i: int| accounts[i]@)
}

/// Something that the host has to carry out for an instruction to take
/// effect. The marketplace decides what has to move and between whom; it
/// moves nothing itself.
#[derive(Clone, Copy, Debug, PartialEq, Eq)]
pub enum Effect {
    /// Allocate the storage slot of the registry.
    Allocate { payer: Address, slot: Address, space: u64, owner: Address, bump: u8 },
    /// Pay `amount` from one account to another.
    TransferValue { from: Address, to: Address, amount: u128 },
    /// Hand one unit of an asset from one account to another.
    TransferAsset {
        program_ref: Address,
        asset_id: Address,
        from: Address,
        to: Address,
        authority: Address,
    },
}

/// What an `Effect` holds, as plain values.
pub enum EffectView {
    Allocate { payer: Seq<u8>, slot: Seq<u8>, space: u64, owner: Seq<u8>, bump: u8 },
    TransferValue { from: Seq<u8>, to: Seq<u8>, amount: u128 },
    TransferAsset {
        program_ref: Seq<u8>,
        asset_id: Seq<u8>,
        from: Seq<u8>,
        to: Seq<u8>,
        authority: Seq<u8>,
    },
}

impl View for Effect {
    type V = EffectView;

    open spec fn view(&self) -> EffectView {
        match *self {
            Effect::Allocate { payer, slot, space, owner, bump } => EffectView::Allocate {
                payer: payer@,
                slot: slot@,
                space,
                owner: owner@,
                bump,
            },
            Effect::TransferValue { from, to, amount } => EffectView::TransferValue {
                from: from@,
                to: to@,
                amount,
            },
            Effect::TransferAsset {
                program_ref,
                asset_id,
                from,
                to,
                authority,
            } => EffectView::TransferAsset {
                program_ref: program_ref@,
                asset_id: asset_id@,
                from: from@,
                to: to@,
                authority: authority@,
            },
        }
    }
}

/// The views of a list of effects, in order.
pub open spec fn effects_view(effects: Seq<Effect>) -> Seq<EffectView> {
    Seq::new(effects.len(), |i: int| effects[i]@)
}

} // verus!

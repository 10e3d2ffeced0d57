use crate::address::Address;
use crate::effect::{Effect, EffectView};
use crate::error::GachaError;
use solana_program::pubkey::Pubkey;
use solana_program::system_instruction;
use spl_token::instruction::transfer_checked;
use vstd::bytes::spec_u64_to_le_bytes;
use vstd::prelude::*;

verus! {

/// One account of a call to another program.
#[derive(Clone, Copy, Debug, PartialEq, Eq)]
pub struct CallAccount {
    pub key: Address,
    pub is_signer: bool,
    pub is_writable: bool,
}

/// What a `CallAccount` holds, as plain values.
pub struct CallAccountView {
    pub key: Seq<u8>,
    pub is_signer: bool,
    pub is_writable: bool,
}

impl View for CallAccount {
    type V = CallAccountView;

    open spec fn view(&self) -> CallAccountView {
        CallAccountView { key: self.key@, is_signer: self.is_signer, is_writable: self.is_writable }
    }
}

/// A call to another program: the program, the accounts that it is handed,
/// and the bytes that tell it what to do.
#[derive(Debug, PartialEq, Eq)]
pub struct Call {
    pub program_id: Address,
    pub accounts: Vec<CallAccount>,
    pub data: Vec<u8>,
}

/// What a `Call` holds, as plain values.
pub struct CallView {
    pub program_id: Seq<u8>,
    pub accounts: Seq<CallAccountView>,
    pub data: Seq<u8>,
}

impl View for Call {
    type V = CallView;

    open spec fn view(&self) -> CallView {
        CallView {
            program_id: self.program_id@,
            accounts: Seq::new(self.accounts@.len(), |i: int| self.accounts@[i]@),
            data: self.data@,
        }
    }
}

/// The identifier of the system program: 32 zero bytes.
pub open spec fn system_program_id() -> Seq<u8> {
    Seq::new(32, |i: int| 0u8)
}

/// The identifier of the token program.
pub open spec fn token_program_id() -> Seq<u8> {
    seq![
        6u8, 221, 246, 225, 215, 101, 161, 147, 217, 203, 225, 70, 206, 235, 121, 172, 28, 180,
        133, 237, 95, 91, 55, 145, 58, 140, 245, 133, 126, 255, 0, 169,
    ]
}

/// An account that a call may write to.
pub open spec fn writable(key: Seq<u8>, is_signer: bool) -> CallAccountView {
    CallAccountView { key, is_signer, is_writable: true }
}

/// An account that a call may only read.
pub open spec fn readonly(key: Seq<u8>, is_signer: bool) -> CallAccountView {
    CallAccountView { key, is_signer, is_writable: false }
}

/// The call that pays `lamports` from one account to another: the system
/// program's instruction number 2, as four bytes, and the amount, as eight
/// bytes, both lowest byte first. The payer signs.
pub open spec fn payment_call(from: Seq<u8>, to: Seq<u8>, lamports: u64) -> CallView {
    CallView {
        program_id: system_program_id(),
        accounts: seq![writable(from, true), writable(to, false)],
        data: seq![2u8, 0, 0, 0] + spec_u64_to_le_bytes(lamports),
    }
}

/// The call that creates an account of `space` bytes for the program
/// `owner`, funded with `lamports`: the system program's instruction number
/// 0, as four bytes, the amount and the space, as eight bytes each, all
/// lowest byte first, and the owner. Both accounts sign.
pub open spec fn allocation_call(
    from: Seq<u8>,
    to: Seq<u8>,
    lamports: u64,
    space: u64,
    owner: Seq<u8>,
) -> CallView {
    CallView {
        program_id: system_program_id(),
        accounts: seq![writable(from, true), writable(to, true)],
        data: seq![0u8, 0, 0, 0] + spec_u64_to_le_bytes(lamports) + spec_u64_to_le_bytes(space)
            + owner,
    }
}

/// The call that moves `amount` units of an asset on the authority's
/// signature: the token program's instruction number 12, the amount, as
/// eight bytes, lowest byte first, and the number of decimals. The
/// authority is listed twice, once as the authority and once as the
/// signer. There is no such call to any program but the token program.
pub open spec fn asset_call(
    token_program: Seq<u8>,
    source: Seq<u8>,
    mint: Seq<u8>,
    destination: Seq<u8>,
    authority: Seq<u8>,
    amount: u64,
    decimals: u8,
) -> Option<CallView> {
    if token_program == token_program_id() {
        Some(
            CallView {
                program_id: token_program,
                accounts: seq![
                    writable(source, false),
                    readonly(mint, false),
                    writable(destination, false),
                    readonly(authority, false),
                    readonly(authority, true),
                ],
                data: seq![12u8] + spec_u64_to_le_bytes(amount) + seq![decimals],
            },
        )
    } else {
        None
    }
}

/// A call as its parts: the program, the accounts, each with its key and
/// whether it signs and whether it may be written to, and the data.
pub struct Parts {
    pub program_id: [u8; 32],
    pub accounts: Vec<([u8; 32], bool, bool)>,
    pub data: Vec<u8>,
}

impl View for Parts {
    type V = CallView;

    open spec fn view(&self) -> CallView {
        CallView {
            program_id: self.program_id@,
            accounts: Seq::new(
                self.accounts@.len(),
                |i: int|
                    {
                        let (key, is_signer, is_writable) = self.accounts@[i];
                        CallAccountView { key: key@, is_signer, is_writable }
                    },
            ),
            data: self.data@,
        }
    }
}

/// The view of the parts of a call that may be absent.
pub open spec fn parts_view(parts: Option<Parts>) -> Option<CallView> {
    match parts {
        Some(parts) => Some(parts@),
        None => None,
    }
}

/// `solana_program::system_instruction::transfer` builds the system
/// program's transfer instruction: the payer, writable and signing, the
/// payee, writable, and the instruction in bincode, which is
/// `payment_call`.
#[verifier::external_body]
fn system_transfer(from: &Address, to: &Address, lamports: u64) -> (parts: Parts)
    ensures
        parts@ == payment_call(from@, to@, lamports),
{
    let from = Pubkey::new_from_array(from.bytes);
    let to = Pubkey::new_from_array(to.bytes);
    let built = system_instruction::transfer(&from, &to, lamports);
    let accounts = built.accounts.iter();
    Parts {
        program_id: built.program_id.to_bytes(),
        accounts: accounts.map(|a| (a.pubkey.to_bytes(), a.is_signer, a.is_writable)).collect(),
        data: built.data,
    }
}

/// `solana_program::system_instruction::create_account` builds the system
/// program's instruction that creates an account: payer and new account,
/// both writable and signing, and the instruction in bincode, which is
/// `allocation_call`.
#[verifier::external_body]
fn system_create_account(
    from: &Address,
    to: &Address,
    lamports: u64,
    space: u64,
    owner: &Address,
) -> (parts: Parts)
    ensures
        parts@ == allocation_call(from@, to@, lamports, space, owner@),
{
    let from = Pubkey::new_from_array(from.bytes);
    let to = Pubkey::new_from_array(to.bytes);
    let owner = Pubkey::new_from_array(owner.bytes);
    let built = system_instruction::create_account(&from, &to, lamports, space, &owner);
    let accounts = built.accounts.iter();
    Parts {
        program_id: built.program_id.to_bytes(),
        accounts: accounts.map(|a| (a.pubkey.to_bytes(), a.is_signer, a.is_writable)).collect(),
        data: built.data,
    }
}

/// `spl_token::instruction::transfer_checked`, with the authority as the
/// one signer, builds the token program's checked transfer, which is
/// `asset_call`. It refuses every program but the token program.
#[verifier::external_body]
fn token_transfer_checked(
    token_program: &Address,
    source: &Address,
    mint: &Address,
    destination: &Address,
    authority: &Address,
    amount: u64,
    decimals: u8,
) -> (parts: Option<Parts>)
    ensures
        parts_view(parts) == asset_call(
            token_program@,
            source@,
            mint@,
            destination@,
            authority@,
            amount,
            decimals,
        ),
{
    let keys = [token_program, source, mint, destination, authority];
    let k = keys.map(|a| Pubkey::new_from_array(a.bytes));
    let signers = [&k[4]];
    let built = transfer_checked(&k[0], &k[1], &k[2], &k[3], &k[4], &signers, amount, decimals);
    let built = built.ok()?;
    let accounts = built.accounts.iter();
    Some(Parts {
        program_id: built.program_id.to_bytes(),
        accounts: accounts.map(|a| (a.pubkey.to_bytes(), a.is_signer, a.is_writable)).collect(),
        data: built.data,
    })
}

impl Call {
    /// Puts a call together from its parts.
    pub fn assemble(parts: Parts) -> (call: Call)
        ensures
            call@ == parts@,
    {
        let mut accounts: Vec<CallAccount> = Vec::new();
        let mut i: usize = 0;
        while i < parts.accounts.len()
            invariant
                i <= parts.accounts.len(),
                accounts@.len() == i,
                forall|j: int| 0 <= j < i ==> #[trigger] accounts@[j]@ == parts@.accounts[j],
            decreases parts.accounts.len() - i,
        {
            let (key, is_signer, is_writable) = parts.accounts[i];
            accounts.push(CallAccount { key: Address::new(key), is_signer, is_writable });
            i += 1;
        }
        let call = Call { program_id: Address::new(parts.program_id), accounts, data: parts.data };
        assert(call@.accounts =~= parts@.accounts);
        call
    }
}

/// The call that carries an effect out, if there is one. An allocation is
/// funded with `rent`. An amount that does not fit in 64 bits cannot be
/// paid, and no asset moves under any program but the token program.
pub open spec fn call_of(effect: EffectView, rent: u64) -> Option<CallView> {
    match effect {
        EffectView::Allocate { payer, slot, space, owner, bump } => Some(
            allocation_call(payer, slot, rent, space, owner),
        ),
        EffectView::TransferValue { from, to, amount } => if amount <= u64::MAX {
            Some(payment_call(from, to, amount as u64))
        } else {
            None
        },
        EffectView::TransferAsset { program_ref, asset_id, from, to, authority } => asset_call(
            program_ref,
            from,
            asset_id,
            to,
            authority,
            1,
            0,
        ),
    }
}

impl Effect {
    /// Builds the call that carries the effect out. An allocation is
    /// funded with `rent`. Where there is no such call, the transfer
    /// fails.
    pub fn call(&self, rent: u64) -> (result: Result<Call, GachaError>)
        ensures
            match result {
                Ok(call) => call_of(self@, rent) == Some(call@),
                Err(e) => e == GachaError::TransferError && call_of(self@, rent) is None,
            },
    {
        match self {
            Effect::Allocate { payer, slot, space, owner, bump } => Ok(
                Call::assemble(system_create_account(payer, slot, rent, *space, owner)),
            ),
            Effect::TransferValue { from, to, amount } => {
                if *amount > u64::MAX as u128 {
                    Err(GachaError::TransferError)
                } else {
                    Ok(Call::assemble(system_transfer(from, to, *amount as u64)))
                }
            },
            Effect::TransferAsset { program_ref, asset_id, from, to, authority } => {
                match token_transfer_checked(program_ref, from, asset_id, to, authority, 1, 0) {
                    Some(parts) => Ok(Call::assemble(parts)),
                    None => Err(GachaError::TransferError),
                }
            },
        }
    }
}

} // verus!

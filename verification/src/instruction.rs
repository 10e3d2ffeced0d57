use crate::address::Address;
use crate::error::GachaError;
use borsh::BorshDeserialize;
use vstd::bytes::{spec_u128_from_le_bytes, spec_u32_from_le_bytes};
use vstd::prelude::*;
use vstd::slice::slice_subrange;
use vstd::utf8::{decode_utf8, valid_utf8};

verus! {

/// What the marketplace can be asked to do.
#[derive(Debug, PartialEq, Eq)]
pub enum GachaMarketplaceInstruction {
    /// List an asset for sale.
    CreateMarketItem {
        token_program_id: Address,
        mint_address: Address,
        price: u128,
        file_name: String,
        description: String,
        cash_back: u8,
    },
    /// Buy a listed item at its price.
    PurchaseSale { token_program_id: Address, price: u128, item_id: u128 },
    /// Draw `qty` items at the price `price` for the caller.
    Gacha { token_program_id: Address, qty: u8, price: u128, fee: u128 },
    /// Take `qty` items into the owner's pool.
    CreateGacha { token_program_id: Address, qty: u8 },
    /// Set the registry up.
    InitState { listing_price: u128 },
}

/// What a `GachaMarketplaceInstruction` holds, as plain values.
pub enum InstructionView {
    CreateMarketItem {
        token_program_id: Seq<u8>,
        mint_address: Seq<u8>,
        price: u128,
        file_name: Seq<char>,
        description: Seq<char>,
        cash_back: u8,
    },
    PurchaseSale { token_program_id: Seq<u8>, price: u128, item_id: u128 },
    Gacha { token_program_id: Seq<u8>, qty: u8, price: u128, fee: u128 },
    CreateGacha { token_program_id: Seq<u8>, qty: u8 },
    InitState { listing_price: u128 },
}

impl View for GachaMarketplaceInstruction {
    type V = InstructionView;

    open spec fn view(&self) -> InstructionView {
        match self {
            GachaMarketplaceInstruction::CreateMarketItem {
                token_program_id,
                mint_address,
                price,
                file_name,
                description,
                cash_back,
            } => InstructionView::CreateMarketItem {
                token_program_id: token_program_id@,
                mint_address: mint_address@,
                price: *price,
                file_name: file_name@,
                description: description@,
                cash_back: *cash_back,
            },
            GachaMarketplaceInstruction::PurchaseSale {
                token_program_id,
                price,
                item_id,
            } => InstructionView::PurchaseSale {
                token_program_id: token_program_id@,
                price: *price,
                item_id: *item_id,
            },
            GachaMarketplaceInstruction::Gacha {
                token_program_id,
                qty,
                price,
                fee,
            } => InstructionView::Gacha {
                token_program_id: token_program_id@,
                qty: *qty,
                price: *price,
                fee: *fee,
            },
            GachaMarketplaceInstruction::CreateGacha {
                token_program_id,
                qty,
            } => InstructionView::CreateGacha { token_program_id: token_program_id@, qty: *qty },
            GachaMarketplaceInstruction::InitState {
                listing_price,
            } => InstructionView::InitState { listing_price: *listing_price },
        }
    }
}

/// The record that every instruction is sent as: all the fields that any
/// instruction takes, and the tag that says which instruction is meant.
pub struct Payload {
    pub token_program_id: Seq<u8>,
    pub mint_address: Seq<u8>,
    pub price: u128,
    pub file_name: Seq<char>,
    pub description: Seq<char>,
    pub cash_back: u8,
    pub qty: u8,
    pub fee: u128,
    pub item_id: u128,
    pub listing_price: u128,
    pub variant: u8,
}

/// The number of bytes before the first text of a payload: two account
/// identifiers and the price.
pub const HEAD_LEN: usize = 80;

/// The number of bytes after the second text of a payload: the cash-back,
/// the quantity, three amounts and the tag.
pub const TAIL_LEN: usize = 51;

/// The length of the text whose length prefix starts at `at`.
pub open spec fn text_len(input: Seq<u8>, at: int) -> int {
    spec_u32_from_le_bytes(input.subrange(at, at + 4)) as int
}

/// The amount that is written at `at`, sixteen bytes, lowest byte first.
pub open spec fn amount_at(input: Seq<u8>, at: int) -> u128 {
    spec_u128_from_le_bytes(input.subrange(at, at + 16))
}

/// The record that the bytes `input` spell, if they spell one.
///
/// The fields follow each other without padding. An account identifier is
/// 32 bytes; an amount is 16 bytes, lowest byte first; a text is its
/// length in bytes, as 4 bytes, lowest byte first, and then its bytes in
/// UTF-8. No byte may be left over.
pub open spec fn payload_of(input: Seq<u8>) -> Option<Payload> {
    if input.len() < HEAD_LEN + 4 {
        None
    } else {
        let name_at = HEAD_LEN + 4;
        let name_len = text_len(input, HEAD_LEN as int);
        if input.len() < name_at + name_len + 4 {
            None
        } else {
            let text_at = name_at + name_len + 4;
            let text_len = text_len(input, name_at + name_len);
            let tail = text_at + text_len;
            if input.len() != tail + TAIL_LEN {
                None
            } else if !valid_utf8(input.subrange(name_at, name_at + name_len)) || !valid_utf8(
                input.subrange(text_at, tail),
            ) {
                None
            } else {
                Some(
                    Payload {
                        token_program_id: input.subrange(0, 32),
                        mint_address: input.subrange(32, 64),
                        price: amount_at(input, 64),
                        file_name: decode_utf8(input.subrange(name_at, name_at + name_len)),
                        description: decode_utf8(input.subrange(text_at, tail)),
                        cash_back: input[tail],
                        qty: input[tail + 1],
                        fee: amount_at(input, tail + 2),
                        item_id: amount_at(input, tail + 18),
                        listing_price: amount_at(input, tail + 34),
                        variant: input[tail + 50],
                    },
                )
            }
        }
    }
}

/// The instruction that a record stands for: the tag picks the
/// instruction, and the instruction takes its fields from the record.
pub open spec fn instruction_of(payload: Payload) -> Option<InstructionView> {
    if payload.variant == 0 {
        Some(
            InstructionView::CreateMarketItem {
                token_program_id: payload.token_program_id,
                mint_address: payload.mint_address,
                price: payload.price,
                file_name: payload.file_name,
                description: payload.description,
                cash_back: payload.cash_back,
            },
        )
    } else if payload.variant == 1 {
        Some(
            InstructionView::PurchaseSale {
                token_program_id: payload.token_program_id,
                price: payload.price,
                item_id: payload.item_id,
            },
        )
    } else if payload.variant == 2 {
        Some(
            InstructionView::CreateGacha {
                token_program_id: payload.token_program_id,
                qty: payload.qty,
            },
        )
    } else if payload.variant == 3 {
        Some(
            InstructionView::Gacha {
                token_program_id: payload.token_program_id,
                qty: payload.qty,
                price: payload.price,
                fee: payload.fee,
            },
        )
    } else if payload.variant == 4 {
        Some(InstructionView::InitState { listing_price: payload.listing_price })
    } else {
        None
    }
}

/// The instruction that the bytes `input` spell, if they spell one.
pub open spec fn unpack_spec(input: Seq<u8>) -> Option<InstructionView> {
    match payload_of(input) {
        Some(payload) => instruction_of(payload),
        None => None,
    }
}

/// `borsh::BorshDeserialize::try_from_slice` for `u32` reads exactly four
/// bytes as a number, lowest byte first, and refuses any other length.
#[verifier::external_body]
fn decode_u32(bytes: &[u8]) -> (value: Option<u32>)
    ensures
        value == (if bytes@.len() == 4 {
            Some(spec_u32_from_le_bytes(bytes@))
        } else {
            None
        }),
{
    u32::try_from_slice(bytes).ok()
}

/// `borsh::BorshDeserialize::try_from_slice` for `u128` reads exactly
/// sixteen bytes as a number, lowest byte first, and refuses any other
/// length.
#[verifier::external_body]
fn decode_u128(bytes: &[u8]) -> (value: Option<u128>)
    ensures
        value == (if bytes@.len() == 16 {
            Some(spec_u128_from_le_bytes(bytes@))
        } else {
            None
        }),
{
    u128::try_from_slice(bytes).ok()
}

/// `borsh::BorshDeserialize::try_from_slice` for `[u8; 32]` copies exactly
/// 32 bytes and refuses any other length.
#[verifier::external_body]
fn decode_address(bytes: &[u8]) -> (value: Option<Address>)
    ensures
        match value {
            Some(address) => bytes@.len() == 32 && address@ == bytes@,
            None => bytes@.len() != 32,
        },
{
    match <[u8; 32]>::try_from_slice(bytes) {
        Ok(bytes) => Some(Address { bytes }),
        Err(_) => None,
    }
}

/// Tells whether `bytes` are a text with its length in front.
pub open spec fn is_text(bytes: Seq<u8>) -> bool {
    &&& bytes.len() >= 4
    &&& bytes.len() == 4 + text_len(bytes, 0)
    &&& valid_utf8(bytes.skip(4))
}

/// `borsh::BorshDeserialize::try_from_slice` for `String` reads a length
/// of four bytes, lowest byte first, and then exactly that many bytes,
/// which have to be UTF-8. It refuses anything else.
#[verifier::external_body]
fn decode_text(bytes: &[u8]) -> (value: Option<String>)
    ensures
        match value {
            Some(text) => is_text(bytes@) && text@ == decode_utf8(bytes@.skip(4)),
            None => !is_text(bytes@),
        },
{
    String::try_from_slice(bytes).ok()
}

impl GachaMarketplaceInstruction {
    /// Decodes an instruction.
    ///
    /// Bytes that do not spell a record, and a record with a tag that no
    /// instruction has, are refused.
    pub fn unpack(input: &[u8]) -> (result: Result<GachaMarketplaceInstruction, GachaError>)
        ensures
            match result {
                Ok(instruction) => unpack_spec(input@) == Some(instruction@),
                Err(e) => e == GachaError::InvalidInstructionData && unpack_spec(input@) is None,
            },
    {
        let len = input.len();
        if len < HEAD_LEN + 4 {
            return Err(GachaError::InvalidInstructionData);
        }
        let name_at: usize = HEAD_LEN + 4;
        let name_len = decode_u32(slice_subrange(input, HEAD_LEN, name_at)).unwrap() as usize;
        if len - name_at < name_len || len - name_at - name_len < 4 {
            return Err(GachaError::InvalidInstructionData);
        }
        let text_at: usize = name_at + name_len + 4;
        let text_len = decode_u32(
            slice_subrange(input, name_at + name_len, text_at),
        ).unwrap() as usize;
        if len - text_at < text_len || len - text_at - text_len != TAIL_LEN {
            return Err(GachaError::InvalidInstructionData);
        }
        let tail: usize = text_at + text_len;
        let ghost name_bytes = input@.subrange(HEAD_LEN as int, name_at + name_len);
        let ghost text_bytes = input@.subrange(name_at + name_len, tail as int);
        proof {
            assert(name_bytes.subrange(0, 4) =~= input@.subrange(HEAD_LEN as int, name_at as int));
            assert(name_bytes.skip(4) =~= input@.subrange(name_at as int, name_at + name_len));
            assert(text_bytes.subrange(0, 4) =~= input@.subrange(
                name_at + name_len,
                text_at as int,
            ));
            assert(text_bytes.skip(4) =~= input@.subrange(text_at as int, tail as int));
        }
        let file_name = match decode_text(slice_subrange(input, HEAD_LEN, name_at + name_len)) {
            Some(text) => text,
            None => {
                return Err(GachaError::InvalidInstructionData);
            },
        };
        let description = match decode_text(slice_subrange(input, name_at + name_len, tail)) {
            Some(text) => text,
            None => {
                return Err(GachaError::InvalidInstructionData);
            },
        };
        let token_program_id = decode_address(slice_subrange(input, 0, 32)).unwrap();
        let mint_address = decode_address(slice_subrange(input, 32, 64)).unwrap();
        let price = decode_u128(slice_subrange(input, 64, 80)).unwrap();
        let cash_back = input[tail];
        let qty = input[tail + 1];
        let fee = decode_u128(slice_subrange(input, tail + 2, tail + 18)).unwrap();
        let item_id = decode_u128(slice_subrange(input, tail + 18, tail + 34)).unwrap();
        let listing_price = decode_u128(slice_subrange(input, tail + 34, tail + 50)).unwrap();
        let variant = input[tail + 50];
        assert(payload_of(input@) is Some);
        if variant == 0 {
            Ok(
                GachaMarketplaceInstruction::CreateMarketItem {
                    token_program_id,
                    mint_address,
                    price,
                    file_name,
                    description,
                    cash_back,
                },
            )
        } else if variant == 1 {
            Ok(GachaMarketplaceInstruction::PurchaseSale { token_program_id, price, item_id })
        } else if variant == 2 {
            Ok(GachaMarketplaceInstruction::CreateGacha { token_program_id, qty })
        } else if variant == 3 {
            Ok(GachaMarketplaceInstruction::Gacha { token_program_id, qty, price, fee })
        } else if variant == 4 {
            Ok(GachaMarketplaceInstruction::InitState { listing_price })
        } else {
            Err(GachaError::InvalidInstructionData)
        }
    }
}

} // verus!

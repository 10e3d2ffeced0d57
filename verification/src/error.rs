use vstd::prelude::*;
use vstd::string::StringExecFns;

verus! {

/// Everything that can make the marketplace reject an instruction.
///
/// The order of the variants is fixed: `code` numbers them from zero in
/// the order in which they are written here.
#[derive(Clone, Copy, Debug, PartialEq, Eq, Structural)]
pub enum GachaError {
    /// A listing was offered at price zero.
    InvalidPrice,
    /// A listing asked for a cash-back of 100 percent or more.
    CashbackMax,
    /// The price sent with a purchase is not the price of the item.
    InvalidPayment,
    /// The storage slot is not the registry this program expects.
    InvalidStateAccount,
    /// The registry has been set up before.
    AlreadyInitialized,
    /// The item already has an owner.
    AccountAlreadyHasEntry,
    /// No item has the id that was asked for.
    NoSuchItem,
    /// More items were asked for than can be drawn.
    InvalidDrawSize,
    /// The caller did not sign the instruction.
    MissingRequiredSignature,
    /// A transfer could not be issued.
    TransferError,
    /// A counter of the registry has no room left.
    RegistryFull,
    /// Fewer accounts were supplied than the instruction takes.
    NotEnoughAccountKeys,
    /// A supplied account is not the one the registry names.
    AccountMismatch,
    /// The instruction bytes do not decode.
    InvalidInstructionData,
}

impl GachaError {
    /// The number that stands for this error on the wire.
    pub open spec fn spec_code(self) -> u32 {
        match self {
            GachaError::InvalidPrice => 0,
            GachaError::CashbackMax => 1,
            GachaError::InvalidPayment => 2,
            GachaError::InvalidStateAccount => 3,
            GachaError::AlreadyInitialized => 4,
            GachaError::AccountAlreadyHasEntry => 5,
            GachaError::NoSuchItem => 6,
            GachaError::InvalidDrawSize => 7,
            GachaError::MissingRequiredSignature => 8,
            GachaError::TransferError => 9,
            GachaError::RegistryFull => 10,
            GachaError::NotEnoughAccountKeys => 11,
            GachaError::AccountMismatch => 12,
            GachaError::InvalidInstructionData => 13,
        }
    }

    /// The text that describes this error.
    pub open spec fn spec_message(self) -> Seq<char> {
        match self {
            GachaError::InvalidPrice => "Price must be at least 1 lamports"@,
            GachaError::CashbackMax => "Cash back should lower than 1"@,
            GachaError::InvalidPayment =>
                "Please submit the asking price in order to complete the purchase"@,
            GachaError::InvalidStateAccount => "Invalid account"@,
            GachaError::AlreadyInitialized => "State is already initialized"@,
            GachaError::AccountAlreadyHasEntry => "Account already has entry in Map"@,
            GachaError::NoSuchItem => "No item with this id"@,
            GachaError::InvalidDrawSize => "Not enough items to draw from"@,
            GachaError::MissingRequiredSignature => "Missing required signature"@,
            GachaError::TransferError => "Transfer failed"@,
            GachaError::RegistryFull => "Registry is full"@,
            GachaError::NotEnoughAccountKeys => "Not enough account keys"@,
            GachaError::AccountMismatch => "Account does not match the registry"@,
            GachaError::InvalidInstructionData => "Invalid instruction data"@,
        }
    }

    /// The number that stands for this error on the wire.
    pub fn code(&self) -> (code: u32)
        ensures
            code == self.spec_code(),
    {
        match self {
            GachaError::InvalidPrice => 0,
            GachaError::CashbackMax => 1,
            GachaError::InvalidPayment => 2,
            GachaError::InvalidStateAccount => 3,
            GachaError::AlreadyInitialized => 4,
            GachaError::AccountAlreadyHasEntry => 5,
            GachaError::NoSuchItem => 6,
            GachaError::InvalidDrawSize => 7,
            GachaError::MissingRequiredSignature => 8,
            GachaError::TransferError => 9,
            GachaError::RegistryFull => 10,
            GachaError::NotEnoughAccountKeys => 11,
            GachaError::AccountMismatch => 12,
            GachaError::InvalidInstructionData => 13,
        }
    }

    /// The error that a wire number stands for, if any.
    pub fn from_code(code: u32) -> (error: Option<GachaError>)
        ensures
            match error {
                Some(e) => e.spec_code() == code,
                None => forall|e: GachaError| e.spec_code() != code,
            },
    {
        match code {
            0 => Some(GachaError::InvalidPrice),
            1 => Some(GachaError::CashbackMax),
            2 => Some(GachaError::InvalidPayment),
            3 => Some(GachaError::InvalidStateAccount),
            4 => Some(GachaError::AlreadyInitialized),
            5 => Some(GachaError::AccountAlreadyHasEntry),
            6 => Some(GachaError::NoSuchItem),
            7 => Some(GachaError::InvalidDrawSize),
            8 => Some(GachaError::MissingRequiredSignature),
            9 => Some(GachaError::TransferError),
            10 => Some(GachaError::RegistryFull),
            11 => Some(GachaError::NotEnoughAccountKeys),
            12 => Some(GachaError::AccountMismatch),
            13 => Some(GachaError::InvalidInstructionData),
            _ => None,
        }
    }

    /// The name of this family of errors.
    pub fn type_of() -> (name: &'static str)
        ensures
            name@ == "Marketplace Error"@,
    {
        "Marketplace Error"
    }

    /// The text that describes this error.
    pub fn message(&self) -> (text: &'static str)
        ensures
            text@ == self.spec_message(),
    {
        match self {
            GachaError::InvalidPrice => "Price must be at least 1 lamports",
            GachaError::CashbackMax => "Cash back should lower than 1",
            GachaError::InvalidPayment =>
                "Please submit the asking price in order to complete the purchase",
            GachaError::InvalidStateAccount => "Invalid account",
            GachaError::AlreadyInitialized => "State is already initialized",
            GachaError::AccountAlreadyHasEntry => "Account already has entry in Map",
            GachaError::NoSuchItem => "No item with this id",
            GachaError::InvalidDrawSize => "Not enough items to draw from",
            GachaError::MissingRequiredSignature => "Missing required signature",
            GachaError::TransferError => "Transfer failed",
            GachaError::RegistryFull => "Registry is full",
            GachaError::NotEnoughAccountKeys => "Not enough account keys",
            GachaError::AccountMismatch => "Account does not match the registry",
            GachaError::InvalidInstructionData => "Invalid instruction data",
        }
    }

    /// The line that is logged for this error: the word `Error`, a colon
    /// and the text of `message`.
    pub fn print(&self) -> (line: String)
        ensures
            line@ == "Error: "@ + self.spec_message(),
    {
        String::from_str("Error: ").concat(self.message())
    }
}

} // verus!

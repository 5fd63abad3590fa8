use vstd::prelude::*;

verus! {

/// Every failure this crate can report, one variant per violated
/// precondition. Several variants are reserved for sibling instructions of
/// the wider program and are never produced by the fee-payment path itself.
#[derive(Clone, Copy, Debug, PartialEq, Eq, Structural)]
pub enum FarmError {
    /// The farm's allowed flag is already set: the fee was paid before.
    AlreadyInUse,
    /// The asserted authority does not match the derived program address,
    /// or the derivation itself failed.
    InvalidProgramAddress,
    /// The asserted owner account does not match the farm's stored owner.
    WrongManager,
    /// Reserved: a required signature is missing.
    SignatureMissing,
    /// Reserved: an invalid manager fee account was supplied.
    InvalidFeeAccount,
    /// Reserved: the supplied pool mint account is wrong.
    WrongPoolMint,
    /// The instruction tag names an operation this core does not perform.
    NotAllowed,
    /// The claimed amount differs from the fixed farm fee.
    InvalidFarmFee,
    /// Reserved: this creator may not create the farm.
    WrongCreator,
    /// The instruction buffer or the farm record slot failed to decode.
    MalformedInstruction,
}

impl FarmError {
    /// The stable numeric code of each error kind.
    pub open spec fn spec_code(self) -> u32 {
        match self {
            FarmError::AlreadyInUse => 0,
            FarmError::InvalidProgramAddress => 1,
            FarmError::WrongManager => 2,
            FarmError::SignatureMissing => 3,
            FarmError::InvalidFeeAccount => 4,
            FarmError::WrongPoolMint => 5,
            FarmError::NotAllowed => 6,
            FarmError::InvalidFarmFee => 7,
            FarmError::WrongCreator => 8,
            FarmError::MalformedInstruction => 9,
        }
    }

    /// The fixed diagnostic message of each error kind.
    pub open spec fn spec_message(self) -> Seq<char> {
        match self {
            FarmError::AlreadyInUse => "Error: The account cannot be initialized because it is already being used"@,
            FarmError::InvalidProgramAddress => "Error: The program address provided doesn't match the value generated by the program"@,
            FarmError::WrongManager => "Error: Wrong pool manager account"@,
            FarmError::SignatureMissing => "Error: Required signature is missing"@,
            FarmError::InvalidFeeAccount => "Error: Invalid manager fee account"@,
            FarmError::WrongPoolMint => "Error: Specified pool mint account is wrong"@,
            FarmError::NotAllowed => "Error: This farm is not allowed yet. The farm creator has to pay additional fee"@,
            FarmError::InvalidFarmFee => "Error: Wrong Farm Fee. Farm fee has to be 5000"@,
            FarmError::WrongCreator => "Error: Not allowed to create the farm by this creator"@,
            FarmError::MalformedInstruction => "Error: The instruction data could not be decoded"@,
        }
    }

    /// The stable discriminant under which the surrounding runtime reports
    /// this error.
    pub fn code(&self) -> (c: u32)
        ensures
            c == self.spec_code(),
    {
        match self {
            FarmError::AlreadyInUse => 0,
            FarmError::InvalidProgramAddress => 1,
            FarmError::WrongManager => 2,
            FarmError::SignatureMissing => 3,
            FarmError::InvalidFeeAccount => 4,
            FarmError::WrongPoolMint => 5,
            FarmError::NotAllowed => 6,
            FarmError::InvalidFarmFee => 7,
            FarmError::WrongCreator => 8,
            FarmError::MalformedInstruction => 9,
        }
    }

    /// The human-readable diagnostic for this error, a pure mapping with no
    /// effect on control flow.
    pub fn message(&self) -> (m: &'static str)
        ensures
            m@ == self.spec_message(),
    {
        match self {
            FarmError::AlreadyInUse => "Error: The account cannot be initialized because it is already being used",
            FarmError::InvalidProgramAddress => "Error: The program address provided doesn't match the value generated by the program",
            FarmError::WrongManager => "Error: Wrong pool manager account",
            FarmError::SignatureMissing => "Error: Required signature is missing",
            FarmError::InvalidFeeAccount => "Error: Invalid manager fee account",
            FarmError::WrongPoolMint => "Error: Specified pool mint account is wrong",
            FarmError::NotAllowed => "Error: This farm is not allowed yet. The farm creator has to pay additional fee",
            FarmError::InvalidFarmFee => "Error: Wrong Farm Fee. Farm fee has to be 5000",
            FarmError::WrongCreator => "Error: Not allowed to create the farm by this creator",
            FarmError::MalformedInstruction => "Error: The instruction data could not be decoded",
        }
    }
}

} // verus!

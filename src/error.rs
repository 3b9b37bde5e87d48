use vstd::prelude::*;

verus! {

/// Failures of the record codec.
#[derive(Clone, Copy, Debug, PartialEq, Eq, Structural)]
pub enum CodecError {
    /// Fewer bytes are present than a declared length asks for.
    Truncated,
    /// A length prefix points past the end of its content, or a value is not well formed.
    Malformed,
    /// An encoded record does not fit into the capacity reserved for its slot.
    TooLarge,
}

/// Every way in which an instruction can be refused.
#[derive(Clone, Copy, Debug, PartialEq, Eq, Structural)]
pub enum RegistryError {
    NotYetInitialized,
    AlreadyInitialized,
    InvalidNumberOfAccounts,
    InvalidUserAccount,
    InvalidSystemAccount,
    PreviouslyRegisteredMint,
    NotYetRegisteredMint,
    InvalidProgramDerivedAccount,
    InvalidRegistryNodeFirst,
    InvalidMint,
    UninitializedMint,
    InvalidAssociatedTokenAccount,
    UninitializedAssociatedTokenAccount,
    InvalidSystemProgram,
    InvalidTokenProgram,
    InvalidATAProgram,
    InvalidSysvarRentProgram,
    InvalidTokenUpdateAuthority,
    InvalidFeeUpdateAuthority,
    InvalidFeeDestination,
    InvalidInstructionData,
    PreviouslyDeletedMint,
    Codec(CodecError),
}

impl RegistryError {
    /// The stable number under which the error is reported to the submitter.
    pub open spec fn spec_code(self) -> u32 {
        match self {
            RegistryError::NotYetInitialized => 0,
            RegistryError::AlreadyInitialized => 1,
            RegistryError::InvalidNumberOfAccounts => 2,
            RegistryError::InvalidUserAccount => 3,
            RegistryError::InvalidSystemAccount => 4,
            RegistryError::PreviouslyRegisteredMint => 5,
            RegistryError::NotYetRegisteredMint => 6,
            RegistryError::InvalidProgramDerivedAccount => 7,
            RegistryError::InvalidRegistryNodeFirst => 8,
            RegistryError::InvalidMint => 9,
            RegistryError::UninitializedMint => 10,
            RegistryError::InvalidAssociatedTokenAccount => 11,
            RegistryError::UninitializedAssociatedTokenAccount => 12,
            RegistryError::InvalidSystemProgram => 13,
            RegistryError::InvalidTokenProgram => 14,
            RegistryError::InvalidATAProgram => 15,
            RegistryError::InvalidSysvarRentProgram => 16,
            RegistryError::InvalidTokenUpdateAuthority => 17,
            RegistryError::InvalidFeeUpdateAuthority => 18,
            RegistryError::InvalidFeeDestination => 19,
            RegistryError::InvalidInstructionData => 20,
            RegistryError::PreviouslyDeletedMint => 21,
            RegistryError::Codec(CodecError::Truncated) => 22,
            RegistryError::Codec(CodecError::Malformed) => 23,
            RegistryError::Codec(CodecError::TooLarge) => 24,
        }
    }

    pub fn code(&self) -> (r: u32)
        ensures
            r == self.spec_code(),
    {
        match self {
            RegistryError::NotYetInitialized => 0,
            RegistryError::AlreadyInitialized => 1,
            RegistryError::InvalidNumberOfAccounts => 2,
            RegistryError::InvalidUserAccount => 3,
            RegistryError::InvalidSystemAccount => 4,
            RegistryError::PreviouslyRegisteredMint => 5,
            RegistryError::NotYetRegisteredMint => 6,
            RegistryError::InvalidProgramDerivedAccount => 7,
            RegistryError::InvalidRegistryNodeFirst => 8,
            RegistryError::InvalidMint => 9,
            RegistryError::UninitializedMint => 10,
            RegistryError::InvalidAssociatedTokenAccount => 11,
            RegistryError::UninitializedAssociatedTokenAccount => 12,
            RegistryError::InvalidSystemProgram => 13,
            RegistryError::InvalidTokenProgram => 14,
            RegistryError::InvalidATAProgram => 15,
            RegistryError::InvalidSysvarRentProgram => 16,
            RegistryError::InvalidTokenUpdateAuthority => 17,
            RegistryError::InvalidFeeUpdateAuthority => 18,
            RegistryError::InvalidFeeDestination => 19,
            RegistryError::InvalidInstructionData => 20,
            RegistryError::PreviouslyDeletedMint => 21,
            RegistryError::Codec(CodecError::Truncated) => 22,
            RegistryError::Codec(CodecError::Malformed) => 23,
            RegistryError::Codec(CodecError::TooLarge) => 24,
        }
    }
}

/// Distinct errors are reported under distinct numbers.
pub proof fn lemma_codes_distinct(a: RegistryError, b: RegistryError)
    requires
        a != b,
    ensures
        a.spec_code() != b.spec_code(),
{
}

impl RegistryError {
    /// The line that reports the error: its name and what went wrong.
    pub open spec fn spec_message(self) -> &'static str {
        match self {
            RegistryError::NotYetInitialized => "RegistryError::NotYetInitialized - The registry has not yet been initialized.",
            RegistryError::AlreadyInitialized => "RegistryError::AlreadyInitialized - The registry has already been initialized.",
            RegistryError::InvalidNumberOfAccounts => "RegistryError::InvalidNumberOfAccounts - Passed an invalid number of accounts.",
            RegistryError::InvalidUserAccount => "RegistryError::InvalidUserAccount - The provided user account is not a signer.",
            RegistryError::InvalidSystemAccount => "RegistryError::InvalidSystemAccount - The provided system account is not owned by the system program.",
            RegistryError::PreviouslyRegisteredMint => "RegistryError::PreviouslyRegisteredMint - The provided mint is already in the registry.",
            RegistryError::NotYetRegisteredMint => "RegistryError::NotYetRegisteredMint - The provided mint has not been registered yet.",
            RegistryError::InvalidProgramDerivedAccount => "RegistryError::InvalidProgramDerivedAccount - A provided program derived account is not correct.",
            RegistryError::InvalidRegistryNodeFirst => "RegistryError::InvalidRegistryNodeFirst - The provided first Registry Node is not correct.",
            RegistryError::InvalidMint => "RegistryError::InvalidMint - The provided mint is not owned by the token program.",
            RegistryError::UninitializedMint => "RegistryError::UninitializedMint - The provided mint has not yet been initialized.",
            RegistryError::InvalidAssociatedTokenAccount => "RegistryError::InvalidAssociatedTokenAccount - The provided account is not a valid Associated Token Account.",
            RegistryError::UninitializedAssociatedTokenAccount => "RegistryError::UninitializedAssociatedTokenAccount - The provided Associated Token Account has no data.",
            RegistryError::InvalidSystemProgram => "RegistryError::InvalidSystemProgram - The provided system program is not the real system program.",
            RegistryError::InvalidTokenProgram => "RegistryError::InvalidTokenProgram - The provided token program is not the real token program.",
            RegistryError::InvalidATAProgram => "RegistryError::InvalidATAProgram - The provided ATA program is not the real ATA program.",
            RegistryError::InvalidSysvarRentProgram => "RegistryError::InvalidSysvarRentProgram - The provided sysvar rent program is not the real sysvar rent program.",
            RegistryError::InvalidTokenUpdateAuthority => "RegistryError::InvalidTokenUpdateAuthority - Attempted to update a token without having update authority.",
            RegistryError::InvalidFeeUpdateAuthority => "RegistryError::InvalidFeeUpdateAuthority - Attempted to update the fees without having update authority.",
            RegistryError::InvalidFeeDestination => "RegistryError::InvalidFeeDestination - The provided fee destination is not owned by the system program.",
            RegistryError::InvalidInstructionData => "RegistryError::InvalidInstructionData - The provided instruction data cannot be parsed.",
            RegistryError::PreviouslyDeletedMint => "RegistryError::PreviouslyDeletedMint - The provided mint has already been deleted.",
            RegistryError::Codec(CodecError::Truncated) => "CodecError::Truncated - A record slot holds fewer bytes than its declared length.",
            RegistryError::Codec(CodecError::Malformed) => "CodecError::Malformed - A record's encoding is not well formed.",
            RegistryError::Codec(CodecError::TooLarge) => "CodecError::TooLarge - A record does not fit into the capacity reserved for its slot.",
        }
    }

    pub fn message(&self) -> (r: &'static str)
        ensures
            r@ == self.spec_message()@,
    {
        match self {
            RegistryError::NotYetInitialized => "RegistryError::NotYetInitialized - The registry has not yet been initialized.",
            RegistryError::AlreadyInitialized => "RegistryError::AlreadyInitialized - The registry has already been initialized.",
            RegistryError::InvalidNumberOfAccounts => "RegistryError::InvalidNumberOfAccounts - Passed an invalid number of accounts.",
            RegistryError::InvalidUserAccount => "RegistryError::InvalidUserAccount - The provided user account is not a signer.",
            RegistryError::InvalidSystemAccount => "RegistryError::InvalidSystemAccount - The provided system account is not owned by the system program.",
            RegistryError::PreviouslyRegisteredMint => "RegistryError::PreviouslyRegisteredMint - The provided mint is already in the registry.",
            RegistryError::NotYetRegisteredMint => "RegistryError::NotYetRegisteredMint - The provided mint has not been registered yet.",
            RegistryError::InvalidProgramDerivedAccount => "RegistryError::InvalidProgramDerivedAccount - A provided program derived account is not correct.",
            RegistryError::InvalidRegistryNodeFirst => "RegistryError::InvalidRegistryNodeFirst - The provided first Registry Node is not correct.",
            RegistryError::InvalidMint => "RegistryError::InvalidMint - The provided mint is not owned by the token program.",
            RegistryError::UninitializedMint => "RegistryError::UninitializedMint - The provided mint has not yet been initialized.",
            RegistryError::InvalidAssociatedTokenAccount => "RegistryError::InvalidAssociatedTokenAccount - The provided account is not a valid Associated Token Account.",
            RegistryError::UninitializedAssociatedTokenAccount => "RegistryError::UninitializedAssociatedTokenAccount - The provided Associated Token Account has no data.",
            RegistryError::InvalidSystemProgram => "RegistryError::InvalidSystemProgram - The provided system program is not the real system program.",
            RegistryError::InvalidTokenProgram => "RegistryError::InvalidTokenProgram - The provided token program is not the real token program.",
            RegistryError::InvalidATAProgram => "RegistryError::InvalidATAProgram - The provided ATA program is not the real ATA program.",
            RegistryError::InvalidSysvarRentProgram => "RegistryError::InvalidSysvarRentProgram - The provided sysvar rent program is not the real sysvar rent program.",
            RegistryError::InvalidTokenUpdateAuthority => "RegistryError::InvalidTokenUpdateAuthority - Attempted to update a token without having update authority.",
            RegistryError::InvalidFeeUpdateAuthority => "RegistryError::InvalidFeeUpdateAuthority - Attempted to update the fees without having update authority.",
            RegistryError::InvalidFeeDestination => "RegistryError::InvalidFeeDestination - The provided fee destination is not owned by the system program.",
            RegistryError::InvalidInstructionData => "RegistryError::InvalidInstructionData - The provided instruction data cannot be parsed.",
            RegistryError::PreviouslyDeletedMint => "RegistryError::PreviouslyDeletedMint - The provided mint has already been deleted.",
            RegistryError::Codec(CodecError::Truncated) => "CodecError::Truncated - A record slot holds fewer bytes than its declared length.",
            RegistryError::Codec(CodecError::Malformed) => "CodecError::Malformed - A record's encoding is not well formed.",
            RegistryError::Codec(CodecError::TooLarge) => "CodecError::TooLarge - A record does not fit into the capacity reserved for its slot.",
        }
    }
}

} // verus!

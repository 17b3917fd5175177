//! The errors with which an instruction is refused.

use vstd::prelude::*;
use vstd::std_specs::convert::FromSpecImpl;

verus! {

/// The failures that belong to the echo program itself. A caller sees one as
/// `ProgramError::Custom` of its code.
#[derive(Clone, Copy, Debug, PartialEq, Eq, Structural)]
pub enum EchoError {
    /// The instruction is not implemented.
    NotImplemented,
    /// The buffer is empty or holds a byte that is not zero.
    NonZeroData,
    /// The authority did not sign.
    AuthorityNotSigner,
    /// The buffer is not at the address that its header and the authority give.
    InvalidAuthority,
    /// The buffer to create is not at the address derived for it.
    InvalidAuthorizedBuffer,
}

impl EchoError {
    /// The number under which the error is reported: its place in the list.
    pub open spec fn spec_code(self) -> u32 {
        match self {
            EchoError::NotImplemented => 0,
            EchoError::NonZeroData => 1,
            EchoError::AuthorityNotSigner => 2,
            EchoError::InvalidAuthority => 3,
            EchoError::InvalidAuthorizedBuffer => 4,
        }
    }

    /// The error reported under a number, if there is one.
    pub open spec fn spec_from_u32(code: u32) -> Option<EchoError> {
        if code == 0 {
            Some(EchoError::NotImplemented)
        } else if code == 1 {
            Some(EchoError::NonZeroData)
        } else if code == 2 {
            Some(EchoError::AuthorityNotSigner)
        } else if code == 3 {
            Some(EchoError::InvalidAuthority)
        } else if code == 4 {
            Some(EchoError::InvalidAuthorizedBuffer)
        } else {
            None
        }
    }

    #[verifier::when_used_as_spec(spec_code)]
    pub fn code(self) -> (r: u32)
        ensures
            r == self.spec_code(),
    {
        match self {
            EchoError::NotImplemented => 0,
            EchoError::NonZeroData => 1,
            EchoError::AuthorityNotSigner => 2,
            EchoError::InvalidAuthority => 3,
            EchoError::InvalidAuthorizedBuffer => 4,
        }
    }

    pub fn from_u32(code: u32) -> (r: Option<EchoError>)
        ensures
            r == EchoError::spec_from_u32(code),
    {
        if code == 0 {
            Some(EchoError::NotImplemented)
        } else if code == 1 {
            Some(EchoError::NonZeroData)
        } else if code == 2 {
            Some(EchoError::AuthorityNotSigner)
        } else if code == 3 {
            Some(EchoError::InvalidAuthority)
        } else if code == 4 {
            Some(EchoError::InvalidAuthorizedBuffer)
        } else {
            None
        }
    }

    /// The sentence that describes the error.
    pub fn message(&self) -> (r: &'static str)
        ensures
            r@ == match *self {
                EchoError::NotImplemented => "Instruction not implemented."@,
                EchoError::NonZeroData => "Echo_Buffer has non-zero data"@,
                EchoError::AuthorityNotSigner => "Authority must be signer"@,
                EchoError::InvalidAuthority => "Invalid Authority"@,
                EchoError::InvalidAuthorizedBuffer => "Invalid Authorized_buffer_key"@,
            },
    {
        match self {
            EchoError::NotImplemented => "Instruction not implemented.",
            EchoError::NonZeroData => "Echo_Buffer has non-zero data",
            EchoError::AuthorityNotSigner => "Authority must be signer",
            EchoError::InvalidAuthority => "Invalid Authority",
            EchoError::InvalidAuthorizedBuffer => "Invalid Authorized_buffer_key",
        }
    }

    /// Every error is found again under its own number, and under no other.
    pub proof fn lemma_code_round_trip(e: EchoError, code: u32)
        ensures
            EchoError::spec_from_u32(e.spec_code()) == Some(e),
            EchoError::spec_from_u32(code) == Some(e) <==> code == e.spec_code(),
    {
    }
}

/// Why an address could not be derived from seeds.
#[derive(Clone, Copy, Debug, PartialEq, Eq, Structural)]
pub enum PubkeyError {
    /// There are too many seeds, or one of them is too long.
    MaxSeedLengthExceeded,
    /// The seeds lead to an address that a key pair could hold.
    InvalidSeeds,
    /// The program is not allowed to own derived addresses.
    IllegalOwner,
}

impl PubkeyError {
    /// The failure of an instruction that the failed derivation leads to.
    pub open spec fn program_error(self) -> ProgramError {
        match self {
            PubkeyError::MaxSeedLengthExceeded => ProgramError::MaxSeedLengthExceeded,
            PubkeyError::InvalidSeeds => ProgramError::InvalidSeeds,
            PubkeyError::IllegalOwner => ProgramError::IllegalOwner,
        }
    }
}

/// Why bytes could not be read as a value, or a value not written as bytes.
#[derive(Clone, Copy, Debug, PartialEq, Eq, Structural)]
pub enum CodecError {
    /// The bytes are not the encoding of any value: too few, too many, or
    /// under a tag that names no instruction.
    Malformed,
    /// A byte field is longer than its four-byte count can say.
    Oversized,
}

/// The reasons for which an instruction fails as a whole.
#[derive(Clone, Copy, Debug, PartialEq, Eq, Structural)]
pub enum ProgramError {
    /// A failure of the program's own, by its code (see `EchoError`).
    Custom(u32),
    /// An account that must be writable is not, or a buffer size cannot hold
    /// the record that belongs in it.
    InvalidArgument,
    /// The instruction's bytes are not the encoding of an instruction.
    InvalidInstructionData,
    /// Fewer accounts were passed than the instruction reads.
    NotEnoughAccountKeys,
    /// The token program named is not the one that holds the tokens.
    IncorrectProgramId,
    /// There are too many seeds, or one of them is too long.
    MaxSeedLengthExceeded,
    /// No address can be derived from the seeds.
    InvalidSeeds,
    /// A buffer's bytes are not the encoding of its record.
    BorshIoError,
    /// The program is not allowed to own derived addresses.
    IllegalOwner,
}

impl From<EchoError> for ProgramError {
    fn from(e: EchoError) -> (r: ProgramError) {
        ProgramError::Custom(e.code())
    }
}

impl FromSpecImpl<EchoError> for ProgramError {
    open spec fn obeys_from_spec() -> bool {
        true
    }

    open spec fn from_spec(e: EchoError) -> ProgramError {
        ProgramError::Custom(e.spec_code())
    }
}

impl From<PubkeyError> for ProgramError {
    fn from(e: PubkeyError) -> (r: ProgramError) {
        match e {
            PubkeyError::MaxSeedLengthExceeded => ProgramError::MaxSeedLengthExceeded,
            PubkeyError::InvalidSeeds => ProgramError::InvalidSeeds,
            PubkeyError::IllegalOwner => ProgramError::IllegalOwner,
        }
    }
}

impl FromSpecImpl<PubkeyError> for ProgramError {
    open spec fn obeys_from_spec() -> bool {
        true
    }

    open spec fn from_spec(e: PubkeyError) -> ProgramError {
        e.program_error()
    }
}

} // verus!

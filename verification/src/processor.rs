//! The instruction processor: each instruction is one transition, decided
//! from the program's address, the accounts handed in and the instruction's
//! bytes.
//!
//! Nothing is written while an instruction is processed. What comes out is a
//! `Transition`: the call to another program that is owed first, if any, and
//! the bytes that the buffer holds afterwards. `Processor::commit` writes
//! them once the call has succeeded, and leaves the buffer alone when it has
//! failed.

use crate::account_info::{next_account_info, AccountInfo};
use crate::buffer::{all_zero, fill_left_aligned, is_zeroed, left_aligned, min_len, zeros};
use crate::codec::{u64_le_bytes, write_u64};
use crate::error::{EchoError, ProgramError, PubkeyError};
use crate::instruction::{EchoInstruction, EchoInstructionView};
use crate::program::{
    burn, burn_instruction, token_program_id, CreateAccount, CreateAccountView, Instruction,
    InstructionView, TOKEN_PROGRAM_ID,
};
use crate::pubkey::{
    derived_address, derived_view, found_address, found_view, lemma_found_is_derived, seeds_view,
    with_bump, Pubkey,
};
use crate::state::{
    reserved_len, AuthorizedBufferHeader, AuthorizedBufferHeaderView, VendingMachineBufferHeader,
    VendingMachineBufferHeaderView, AUTHORIZED_HEADER_BYTES, VENDING_MACHINE_HEADER_BYTES,
};
use vstd::prelude::*;
use vstd::slice::*;

verus! {

/// The first seed of an authorized buffer's address: the text `authority`.
pub const AUTHORITY_LABEL: [u8; 9] = [97, 117, 116, 104, 111, 114, 105, 116, 121];

/// The first seed of a vending-machine buffer's address: the text
/// `vending_machine`.
pub const VENDING_MACHINE_LABEL: [u8; 15] = [
    118, 101, 110, 100, 105, 110, 103, 95, 109, 97, 99, 104, 105, 110, 101,
];

/// The seeds of the buffer that belongs to `authority` and `buffer_seed`,
/// without the bump seed.
pub open spec fn authority_seeds(authority: Pubkey, buffer_seed: u64) -> Seq<Seq<u8>> {
    seq![AUTHORITY_LABEL@, authority@, u64_le_bytes(buffer_seed)]
}

/// The seeds of the buffer that belongs to `mint` and `price`, without the
/// bump seed.
pub open spec fn vending_machine_seeds(mint: Pubkey, price: u64) -> Seq<Seq<u8>> {
    seq![VENDING_MACHINE_LABEL@, mint@, u64_le_bytes(price)]
}

/// A call to another program that an instruction owes before its write.
#[derive(Clone, Debug, PartialEq, Eq)]
pub enum Invocation {
    /// The system program is to create the buffer's account.
    CreateAccount(CreateAccount),
    /// The token program is to carry out this instruction, which burns the
    /// price of the write.
    Burn(Instruction),
}

/// An `Invocation` as a mathematical value.
pub enum InvocationView {
    CreateAccount(CreateAccountView),
    Burn(InstructionView),
}

impl View for Invocation {
    type V = InvocationView;

    open spec fn view(&self) -> InvocationView {
        match *self {
            Invocation::CreateAccount(create) => InvocationView::CreateAccount(create@),
            Invocation::Burn(instruction) => InvocationView::Burn(instruction@),
        }
    }
}

/// The call owed, if one is.
pub open spec fn invocation_view(call: Option<Invocation>) -> Option<InvocationView> {
    match call {
        Some(call) => Some(call@),
        None => None,
    }
}

/// What an instruction that passed every check leads to: the call that must
/// succeed first, if one is owed, and then the bytes of the buffer, which is
/// the first account.
#[derive(Clone, Debug, PartialEq, Eq)]
pub struct Transition {
    pub call: Option<Invocation>,
    pub data: Vec<u8>,
}

/// A `Transition` as a mathematical value.
pub struct TransitionView {
    pub call: Option<InvocationView>,
    pub data: Seq<u8>,
}

impl View for Transition {
    type V = TransitionView;

    open spec fn view(&self) -> TransitionView {
        TransitionView { call: invocation_view(self.call), data: self.data@ }
    }
}

/// `r` is the result that `expected` states.
pub open spec fn yields(
    r: Result<Transition, ProgramError>,
    expected: Result<TransitionView, ProgramError>,
) -> bool {
    match expected {
        Ok(transition) => r matches Ok(made) && made@ == transition,
        Err(e) => r matches Err(f) && f == e,
    }
}

/// The failure of the program's own that `e` is reported as.
pub open spec fn custom(e: EchoError) -> ProgramError {
    ProgramError::Custom(e.spec_code())
}

/// Succeeds where `statement` holds, and fails with `err` where it does not.
/// `msg` says what was expected; to report it is the caller's business.
pub fn assert_with_msg(statement: bool, err: ProgramError, msg: &str) -> (r: Result<
    (),
    ProgramError,
>)
    ensures
        statement ==> r is Ok,
        !statement ==> (r matches Err(e) && e == err),
{
    if !statement {
        Err(err)
    } else {
        Ok(())
    }
}

/// Succeeds where the instruction may write to the account, and fails with
/// `InvalidArgument` where it may not.
pub fn assert_is_writable(account_info: &AccountInfo) -> (r: Result<(), ProgramError>)
    ensures
        account_info.is_writable ==> r is Ok,
        !account_info.is_writable ==> r matches Err(ProgramError::InvalidArgument),
{
    assert_with_msg(
        account_info.is_writable,
        ProgramError::InvalidArgument,
        "Account must be writable.",
    )
}

/// The seeds `label`, `key` and `value`, the last as eight bytes.
fn seeds_of(label: &[u8], key: &Pubkey, value: u64) -> (r: Vec<Vec<u8>>)
    ensures
        seeds_view(r@) == seq![label@, key@, u64_le_bytes(value)],
{
    let mut seeds: Vec<Vec<u8>> = Vec::new();
    seeds.push(slice_to_vec(label));
    seeds.push(key.to_vec());
    let mut last: Vec<u8> = Vec::new();
    write_u64(&mut last, value);
    seeds.push(last);
    assert(seeds_view(seeds@) =~= seq![label@, key@, u64_le_bytes(value)]);
    seeds
}

/// The seeds with the bump seed behind them.
fn push_bump(seeds: Vec<Vec<u8>>, bump: u8) -> (r: Vec<Vec<u8>>)
    ensures
        seeds_view(r@) == with_bump(seeds_view(seeds@), bump),
{
    let mut all = seeds;
    let mut last: Vec<u8> = Vec::new();
    last.push(bump);
    all.push(last);
    assert(seeds_view(all@) =~= with_bump(seeds_view(seeds@), bump));
    all
}

/// The processor of the echo program.
pub struct Processor {}

impl Processor {
    /// What `Echo` leads to. The buffer is the first account. It must hold
    /// bytes, and all of them zero: then it holds `data` from its first byte
    /// on, cut to the buffer's length, and zeros behind it.
    pub open spec fn echo_outcome(accounts: Seq<AccountInfo>, data: Seq<u8>) -> Result<
        TransitionView,
        ProgramError,
    > {
        if accounts.len() < 1 {
            Err(ProgramError::NotEnoughAccountKeys)
        } else if accounts[0].data@.len() == 0 || !is_zeroed(accounts[0].data@) {
            Err(custom(EchoError::NonZeroData))
        } else {
            Ok(
                TransitionView {
                    call: None,
                    data: left_aligned(data, accounts[0].data@.len()),
                },
            )
        }
    }

    /// What the creation of a buffer at `buffer` leads to, once the search
    /// for the address that `seeds` belong to has ended with `found`. The
    /// search must have found an address, and `buffer` must be it. Then the
    /// account is to be created, `buffer_size` bytes owned by the program and
    /// paid for by `payer`; it signs by the seeds and the bump seed found,
    /// and holds `record`. A size that leaves no `record` is refused.
    pub open spec fn create_buffer_outcome(
        found: Option<(Seq<u8>, u8)>,
        seeds: Seq<Seq<u8>>,
        program_id: Pubkey,
        buffer: Pubkey,
        payer: Pubkey,
        buffer_size: u64,
        record: Option<Seq<u8>>,
    ) -> Result<TransitionView, ProgramError> {
        match found {
            None => Err(ProgramError::InvalidSeeds),
            Some((address, bump)) => {
                if address != buffer@ {
                    Err(custom(EchoError::InvalidAuthorizedBuffer))
                } else {
                    match record {
                        None => Err(ProgramError::InvalidArgument),
                        Some(bytes) => Ok(
                            TransitionView {
                                call: Some(
                                    InvocationView::CreateAccount(
                                        CreateAccountView {
                                            payer,
                                            new_account: buffer,
                                            space: buffer_size,
                                            owner: program_id,
                                            signer_seeds: with_bump(seeds, bump),
                                        },
                                    ),
                                ),
                                data: bytes,
                            },
                        ),
                    }
                }
            },
        }
    }

    /// The bytes of a new authorized buffer of `buffer_size` bytes whose
    /// address was found with the bump seed of `found`.
    pub open spec fn new_authorized_record(
        found: Option<(Seq<u8>, u8)>,
        buffer_seed: u64,
        buffer_size: u64,
    ) -> Option<Seq<u8>> {
        match found {
            None => None,
            Some((_, bump)) => match AuthorizedBufferHeaderView::zeroed(
                bump,
                buffer_seed,
                buffer_size,
            ) {
                Some(header) => Some(header.encoding()),
                None => None,
            },
        }
    }

    /// The bytes of a new vending-machine buffer of `buffer_size` bytes whose
    /// address was found with the bump seed of `found`.
    pub open spec fn new_vending_machine_record(
        found: Option<(Seq<u8>, u8)>,
        price: u64,
        mint: Pubkey,
        buffer_size: u64,
    ) -> Option<Seq<u8>> {
        match found {
            None => None,
            Some((_, bump)) => match VendingMachineBufferHeaderView::zeroed(
                bump,
                price,
                mint@,
                buffer_size,
            ) {
                Some(header) => Some(header.encoding()),
                None => None,
            },
        }
    }

    /// What `InitializeAuthorizedEcho` leads to. The accounts are the buffer
    /// and the authority, who must have signed. The buffer must be at the
    /// address found for the authority and the buffer seed. Then the buffer's
    /// account is to be created, `buffer_size` bytes owned by the program and
    /// paid for by the authority, and holds a record with the bump seed
    /// found, the buffer seed, and zeros as far as the size goes.
    pub open spec fn initialize_authorized_echo_outcome(
        program_id: Pubkey,
        accounts: Seq<AccountInfo>,
        buffer_seed: u64,
        buffer_size: u64,
    ) -> Result<TransitionView, ProgramError> {
        if accounts.len() < 2 {
            Err(ProgramError::NotEnoughAccountKeys)
        } else if !accounts[1].is_signer {
            Err(custom(EchoError::AuthorityNotSigner))
        } else {
            let seeds = authority_seeds(accounts[1].key, buffer_seed);
            let found = found_address(seeds, program_id@);
            Self::create_buffer_outcome(
                found,
                seeds,
                program_id,
                accounts[0].key,
                accounts[1].key,
                buffer_size,
                Self::new_authorized_record(found, buffer_seed, buffer_size),
            )
        }
    }

    /// What `InitializeVendingMachineEcho` leads to. The accounts are the
    /// buffer, the mint, the payer and the system program. The payer must
    /// have signed and the buffer must be writable. The buffer must be at the
    /// address found for the mint and the price. Then the buffer's account is
    /// to be created, `buffer_size` bytes owned by the program and paid for
    /// by the payer, and holds a record with the bump seed found, the price,
    /// the mint, and zeros as far as the size goes.
    pub open spec fn initialize_vending_machine_echo_outcome(
        program_id: Pubkey,
        accounts: Seq<AccountInfo>,
        price: u64,
        buffer_size: u64,
    ) -> Result<TransitionView, ProgramError> {
        if accounts.len() < 4 {
            Err(ProgramError::NotEnoughAccountKeys)
        } else if !accounts[2].is_signer {
            Err(custom(EchoError::AuthorityNotSigner))
        } else if !accounts[0].is_writable {
            Err(ProgramError::InvalidArgument)
        } else {
            let seeds = vending_machine_seeds(accounts[1].key, price);
            let found = found_address(seeds, program_id@);
            Self::create_buffer_outcome(
                found,
                seeds,
                program_id,
                accounts[0].key,
                accounts[2].key,
                buffer_size,
                Self::new_vending_machine_record(found, price, accounts[1].key, buffer_size),
            )
        }
    }

    /// What a write into the record of the buffer at `buffer` leads to, once
    /// the address of the record's seeds has been derived again with the
    /// result `derived`. The derivation must have yielded an address, and
    /// `buffer` must be it. Then `call` is owed, if there is one, and the
    /// buffer holds `record`. A record that has no encoding is refused.
    pub open spec fn write_buffer_outcome(
        derived: Result<Seq<u8>, PubkeyError>,
        buffer: Pubkey,
        call: Option<InvocationView>,
        record: Option<Seq<u8>>,
    ) -> Result<TransitionView, ProgramError> {
        match derived {
            Err(e) => Err(e.program_error()),
            Ok(address) => {
                if address != buffer@ {
                    Err(custom(EchoError::InvalidAuthority))
                } else {
                    match record {
                        None => Err(ProgramError::BorshIoError),
                        Some(bytes) => Ok(TransitionView { call, data: bytes }),
                    }
                }
            },
        }
    }

    /// The bytes of an authorized buffer's record once `data` is written
    /// into it, if the record has an encoding.
    pub open spec fn echoed_authorized_record(
        header: AuthorizedBufferHeaderView,
        data: Seq<u8>,
    ) -> Option<Seq<u8>> {
        if header.encodable() {
            Some(header.echoed(data).encoding())
        } else {
            None
        }
    }

    /// The bytes of a vending-machine buffer's record once `data` is written
    /// into it, if the record has an encoding.
    pub open spec fn echoed_vending_machine_record(
        header: VendingMachineBufferHeaderView,
        data: Seq<u8>,
    ) -> Option<Seq<u8>> {
        if header.encodable() {
            Some(header.echoed(data).encoding())
        } else {
            None
        }
    }

    /// What `AuthorizedEcho` leads to. The accounts are the buffer and the
    /// authority, who must have signed. The buffer must hold a record, and be
    /// at the address that the authority, the record's buffer seed and its
    /// bump seed derive. Then `data` is written into the record's
    /// `echo_data`, and the buffer holds the record's new encoding.
    pub open spec fn authorized_echo_outcome(
        program_id: Pubkey,
        accounts: Seq<AccountInfo>,
        data: Seq<u8>,
    ) -> Result<TransitionView, ProgramError> {
        if accounts.len() < 2 {
            Err(ProgramError::NotEnoughAccountKeys)
        } else if !accounts[1].is_signer {
            Err(custom(EchoError::AuthorityNotSigner))
        } else {
            match AuthorizedBufferHeaderView::decode(accounts[0].data@) {
                None => Err(ProgramError::BorshIoError),
                Some(header) => Self::write_buffer_outcome(
                    derived_address(
                        with_bump(
                            authority_seeds(accounts[1].key, header.buffer_seed),
                            header.bump_seed,
                        ),
                        program_id@,
                    ),
                    accounts[0].key,
                    None,
                    Self::echoed_authorized_record(header, data),
                ),
            }
        }
    }

    /// What `VendingMachineEcho` leads to. The accounts are the buffer, the
    /// user, the user's token account, the mint and the token program. The
    /// user must have signed; the buffer, the token account and the mint must
    /// be writable. The buffer must hold a record, and be at the address that
    /// the mint, the record's price and its bump seed derive. Then the price
    /// is to be burned from the user's token account on the user's
    /// signature, `data` is written into the record's `echo_data`, and the
    /// buffer holds the record's new encoding.
    pub open spec fn vending_machine_echo_outcome(
        program_id: Pubkey,
        accounts: Seq<AccountInfo>,
        data: Seq<u8>,
    ) -> Result<TransitionView, ProgramError> {
        if accounts.len() < 5 {
            Err(ProgramError::NotEnoughAccountKeys)
        } else if !accounts[1].is_signer {
            Err(custom(EchoError::AuthorityNotSigner))
        } else if !accounts[0].is_writable || !accounts[2].is_writable || !accounts[3].is_writable {
            Err(ProgramError::InvalidArgument)
        } else {
            match VendingMachineBufferHeaderView::decode(accounts[0].data@) {
                None => Err(ProgramError::BorshIoError),
                Some(header) => Self::write_buffer_outcome(
                    derived_address(
                        with_bump(
                            vending_machine_seeds(accounts[3].key, header.price),
                            header.bump_seed,
                        ),
                        program_id@,
                    ),
                    accounts[0].key,
                    Some(
                        InvocationView::Burn(
                            burn_instruction(
                                Pubkey { bytes: TOKEN_PROGRAM_ID },
                                accounts[2].key,
                                accounts[3].key,
                                accounts[1].key,
                                header.price,
                            ),
                        ),
                    ),
                    Self::echoed_vending_machine_record(header, data),
                ),
            }
        }
    }

    /// What an instruction leads to: bytes that are no instruction fail with
    /// `InvalidInstructionData`, and an instruction leads to what its kind
    /// says.
    pub open spec fn outcome(
        program_id: Pubkey,
        accounts: Seq<AccountInfo>,
        instruction_data: Seq<u8>,
    ) -> Result<TransitionView, ProgramError> {
        match EchoInstructionView::decode(instruction_data) {
            None => Err(ProgramError::InvalidInstructionData),
            Some(EchoInstructionView::Echo { data }) => Self::echo_outcome(accounts, data),
            Some(EchoInstructionView::InitializeAuthorizedEcho { buffer_seed, buffer_size }) => {
                Self::initialize_authorized_echo_outcome(
                    program_id,
                    accounts,
                    buffer_seed,
                    buffer_size,
                )
            },
            Some(EchoInstructionView::AuthorizedEcho { data }) => Self::authorized_echo_outcome(
                program_id,
                accounts,
                data,
            ),
            Some(EchoInstructionView::InitializeVendingMachineEcho { price, buffer_size }) => {
                Self::initialize_vending_machine_echo_outcome(
                    program_id,
                    accounts,
                    price,
                    buffer_size,
                )
            },
            Some(EchoInstructionView::VendingMachineEcho { data }) => {
                Self::vending_machine_echo_outcome(program_id, accounts, data)
            },
        }
    }

    /// Processes one instruction: decodes it, checks the accounts, and says
    /// what it leads to. Nothing is written.
    pub fn process_instruction(
        program_id: &Pubkey,
        accounts: &[AccountInfo],
        instruction_data: &[u8],
    ) -> (r: Result<Transition, ProgramError>)
        ensures
            yields(r, Self::outcome(*program_id, accounts@, instruction_data@)),
    {
        let instruction = match EchoInstruction::try_from_slice(instruction_data) {
            Ok(instruction) => instruction,
            Err(_) => {
                return Err(ProgramError::InvalidInstructionData);
            },
        };
        match instruction {
            EchoInstruction::Echo { data } => Self::process_echo(accounts, data.as_slice()),
            EchoInstruction::InitializeAuthorizedEcho { buffer_seed, buffer_size } => {
                Self::process_initialize_authorized_echo(
                    program_id,
                    accounts,
                    buffer_seed,
                    buffer_size,
                )
            },
            EchoInstruction::AuthorizedEcho { data } => Self::process_authorized_echo(
                program_id,
                accounts,
                data.as_slice(),
            ),
            EchoInstruction::InitializeVendingMachineEcho { price, buffer_size } => {
                Self::process_initialize_vending_machine_echo(
                    program_id,
                    accounts,
                    price,
                    buffer_size,
                )
            },
            EchoInstruction::VendingMachineEcho { data } => Self::process_vending_machine_echo(
                program_id,
                accounts,
                data.as_slice(),
            ),
        }
    }

    /// Processes `Echo`.
    pub fn process_echo(accounts: &[AccountInfo], data: &[u8]) -> (r: Result<
        Transition,
        ProgramError,
    >)
        ensures
            yields(r, Self::echo_outcome(accounts@, data@)),
    {
        let mut position: usize = 0;
        let echo_buffer = next_account_info(accounts, &mut position)?;
        if echo_buffer.data_len() == 0 {
            return Err(ProgramError::from(EchoError::NonZeroData));
        }
        if !all_zero(echo_buffer.data.as_slice()) {
            return Err(ProgramError::from(EchoError::NonZeroData));
        }
        Ok(Transition { call: None, data: fill_left_aligned(data, echo_buffer.data_len()) })
    }

    /// Decides `InitializeAuthorizedEcho` from the result of the search for
    /// the buffer's address: `found` is what the search for the address of
    /// the authority and the buffer seed has come to.
    pub fn create_authorized_buffer(
        found: Option<(Pubkey, u8)>,
        program_id: &Pubkey,
        buffer: &Pubkey,
        authority: &Pubkey,
        buffer_seed: u64,
        buffer_size: u64,
    ) -> (r: Result<Transition, ProgramError>)
        ensures
            yields(
                r,
                Self::create_buffer_outcome(
                    found_view(found),
                    authority_seeds(*authority, buffer_seed),
                    *program_id,
                    *buffer,
                    *authority,
                    buffer_size,
                    Self::new_authorized_record(found_view(found), buffer_seed, buffer_size),
                ),
            ),
    {
        let (address, bump_seed) = match found {
            Some(found) => found,
            None => {
                return Err(ProgramError::InvalidSeeds);
            },
        };
        if !address.same_as(buffer) {
            return Err(ProgramError::from(EchoError::InvalidAuthorizedBuffer));
        }
        let header = match AuthorizedBufferHeader::zeroed(bump_seed, buffer_seed, buffer_size) {
            Some(header) => header,
            None => {
                return Err(ProgramError::InvalidArgument);
            },
        };
        let data = match header.try_to_vec() {
            Ok(data) => data,
            Err(_) => {
                return Err(ProgramError::InvalidArgument);
            },
        };
        let seeds = seeds_of(AUTHORITY_LABEL.as_slice(), authority, buffer_seed);
        let create = CreateAccount {
            payer: *authority,
            new_account: *buffer,
            space: buffer_size,
            owner: *program_id,
            signer_seeds: push_bump(seeds, bump_seed),
        };
        Ok(Transition { call: Some(Invocation::CreateAccount(create)), data })
    }

    /// Decides `InitializeVendingMachineEcho` from the result of the search
    /// for the buffer's address: `found` is what the search for the address
    /// of the mint and the price has come to.
    pub fn create_vending_machine_buffer(
        found: Option<(Pubkey, u8)>,
        program_id: &Pubkey,
        buffer: &Pubkey,
        mint: &Pubkey,
        payer: &Pubkey,
        price: u64,
        buffer_size: u64,
    ) -> (r: Result<Transition, ProgramError>)
        ensures
            yields(
                r,
                Self::create_buffer_outcome(
                    found_view(found),
                    vending_machine_seeds(*mint, price),
                    *program_id,
                    *buffer,
                    *payer,
                    buffer_size,
                    Self::new_vending_machine_record(found_view(found), price, *mint, buffer_size),
                ),
            ),
    {
        let (address, bump_seed) = match found {
            Some(found) => found,
            None => {
                return Err(ProgramError::InvalidSeeds);
            },
        };
        if !address.same_as(buffer) {
            return Err(ProgramError::from(EchoError::InvalidAuthorizedBuffer));
        }
        let header = match VendingMachineBufferHeader::zeroed(bump_seed, price, *mint, buffer_size) {
            Some(header) => header,
            None => {
                return Err(ProgramError::InvalidArgument);
            },
        };
        let data = match header.try_to_vec() {
            Ok(data) => data,
            Err(_) => {
                return Err(ProgramError::InvalidArgument);
            },
        };
        let seeds = seeds_of(VENDING_MACHINE_LABEL.as_slice(), mint, price);
        let create = CreateAccount {
            payer: *payer,
            new_account: *buffer,
            space: buffer_size,
            owner: *program_id,
            signer_seeds: push_bump(seeds, bump_seed),
        };
        Ok(Transition { call: Some(Invocation::CreateAccount(create)), data })
    }

    /// Decides `AuthorizedEcho` from the result of the derivation of the
    /// buffer's address: `derived` is what the derivation from the authority
    /// and the record's seeds has come to, and `header` the record that the
    /// buffer holds.
    pub fn write_authorized_buffer(
        derived: Result<Pubkey, PubkeyError>,
        buffer: &Pubkey,
        header: AuthorizedBufferHeader,
        data: &[u8],
    ) -> (r: Result<Transition, ProgramError>)
        ensures
            yields(
                r,
                Self::write_buffer_outcome(
                    derived_view(derived),
                    *buffer,
                    None,
                    Self::echoed_authorized_record(header@, data@),
                ),
            ),
    {
        let address = match derived {
            Ok(address) => address,
            Err(e) => {
                return Err(ProgramError::from(e));
            },
        };
        if !address.same_as(buffer) {
            return Err(ProgramError::from(EchoError::InvalidAuthority));
        }
        let mut header = header;
        header.echo(data);
        match header.try_to_vec() {
            Ok(data) => Ok(Transition { call: None, data }),
            Err(_) => Err(ProgramError::BorshIoError),
        }
    }

    /// Decides `VendingMachineEcho` from the result of the derivation of the
    /// buffer's address: `derived` is what the derivation from the mint and
    /// the record's price and bump seed has come to, and `header` the record
    /// that the buffer holds. The price is burned from `token_account` on the
    /// signature of `user`.
    pub fn write_vending_machine_buffer(
        derived: Result<Pubkey, PubkeyError>,
        buffer: &Pubkey,
        user: &Pubkey,
        token_account: &Pubkey,
        mint: &Pubkey,
        header: VendingMachineBufferHeader,
        data: &[u8],
    ) -> (r: Result<Transition, ProgramError>)
        ensures
            yields(
                r,
                Self::write_buffer_outcome(
                    derived_view(derived),
                    *buffer,
                    Some(
                        InvocationView::Burn(
                            burn_instruction(
                                Pubkey { bytes: TOKEN_PROGRAM_ID },
                                *token_account,
                                *mint,
                                *user,
                                header.price,
                            ),
                        ),
                    ),
                    Self::echoed_vending_machine_record(header@, data@),
                ),
            ),
    {
        let address = match derived {
            Ok(address) => address,
            Err(e) => {
                return Err(ProgramError::from(e));
            },
        };
        if !address.same_as(buffer) {
            return Err(ProgramError::from(EchoError::InvalidAuthority));
        }
        let token_program = token_program_id();
        let burn_price = burn(&token_program, token_account, mint, user, header.price)?;
        let mut header = header;
        header.echo(data);
        match header.try_to_vec() {
            Ok(data) => Ok(Transition { call: Some(Invocation::Burn(burn_price)), data }),
            Err(_) => Err(ProgramError::BorshIoError),
        }
    }

    /// Processes `InitializeAuthorizedEcho`.
    pub fn process_initialize_authorized_echo(
        program_id: &Pubkey,
        accounts: &[AccountInfo],
        buffer_seed: u64,
        buffer_size: u64,
    ) -> (r: Result<Transition, ProgramError>)
        ensures
            yields(
                r,
                Self::initialize_authorized_echo_outcome(
                    *program_id,
                    accounts@,
                    buffer_seed,
                    buffer_size,
                ),
            ),
    {
        let mut position: usize = 0;
        let authorized_buffer = next_account_info(accounts, &mut position)?;
        let authority = next_account_info(accounts, &mut position)?;
        if !authority.is_signer {
            return Err(ProgramError::from(EchoError::AuthorityNotSigner));
        }
        let seeds = seeds_of(AUTHORITY_LABEL.as_slice(), &authority.key, buffer_seed);
        let found = Pubkey::try_find_program_address(&seeds, program_id);
        Self::create_authorized_buffer(
            found,
            program_id,
            &authorized_buffer.key,
            &authority.key,
            buffer_seed,
            buffer_size,
        )
    }

    /// Processes `AuthorizedEcho`.
    pub fn process_authorized_echo(program_id: &Pubkey, accounts: &[AccountInfo], data: &[u8]) -> (r:
        Result<Transition, ProgramError>)
        ensures
            yields(r, Self::authorized_echo_outcome(*program_id, accounts@, data@)),
    {
        let mut position: usize = 0;
        let authorized_buffer = next_account_info(accounts, &mut position)?;
        let authority = next_account_info(accounts, &mut position)?;
        if !authority.is_signer {
            return Err(ProgramError::from(EchoError::AuthorityNotSigner));
        }
        let header = match AuthorizedBufferHeader::try_from_slice(
            authorized_buffer.data.as_slice(),
        ) {
            Ok(header) => header,
            Err(_) => {
                return Err(ProgramError::BorshIoError);
            },
        };
        let seeds = push_bump(
            seeds_of(AUTHORITY_LABEL.as_slice(), &authority.key, header.buffer_seed),
            header.bump_seed,
        );
        let derived = Pubkey::create_program_address(&seeds, program_id);
        Self::write_authorized_buffer(derived, &authorized_buffer.key, header, data)
    }

    /// Processes `InitializeVendingMachineEcho`.
    pub fn process_initialize_vending_machine_echo(
        program_id: &Pubkey,
        accounts: &[AccountInfo],
        price: u64,
        buffer_size: u64,
    ) -> (r: Result<Transition, ProgramError>)
        ensures
            yields(
                r,
                Self::initialize_vending_machine_echo_outcome(
                    *program_id,
                    accounts@,
                    price,
                    buffer_size,
                ),
            ),
    {
        let mut position: usize = 0;
        let vending_machine_buffer = next_account_info(accounts, &mut position)?;
        let vending_machine_mint = next_account_info(accounts, &mut position)?;
        let payer = next_account_info(accounts, &mut position)?;
        let _system_program = next_account_info(accounts, &mut position)?;
        if !payer.is_signer {
            return Err(ProgramError::from(EchoError::AuthorityNotSigner));
        }
        assert_is_writable(vending_machine_buffer)?;
        let seeds = seeds_of(VENDING_MACHINE_LABEL.as_slice(), &vending_machine_mint.key, price);
        let found = Pubkey::try_find_program_address(&seeds, program_id);
        Self::create_vending_machine_buffer(
            found,
            program_id,
            &vending_machine_buffer.key,
            &vending_machine_mint.key,
            &payer.key,
            price,
            buffer_size,
        )
    }

    /// Processes `VendingMachineEcho`.
    pub fn process_vending_machine_echo(
        program_id: &Pubkey,
        accounts: &[AccountInfo],
        data: &[u8],
    ) -> (r: Result<Transition, ProgramError>)
        ensures
            yields(r, Self::vending_machine_echo_outcome(*program_id, accounts@, data@)),
    {
        let mut position: usize = 0;
        let vending_machine_buffer = next_account_info(accounts, &mut position)?;
        let user = next_account_info(accounts, &mut position)?;
        let user_token_account = next_account_info(accounts, &mut position)?;
        let vending_machine_mint = next_account_info(accounts, &mut position)?;
        let _token_program = next_account_info(accounts, &mut position)?;
        if !user.is_signer {
            return Err(ProgramError::from(EchoError::AuthorityNotSigner));
        }
        assert_is_writable(vending_machine_buffer)?;
        assert_is_writable(user_token_account)?;
        assert_is_writable(vending_machine_mint)?;
        let header = match VendingMachineBufferHeader::try_from_slice(
            vending_machine_buffer.data.as_slice(),
        ) {
            Ok(header) => header,
            Err(_) => {
                return Err(ProgramError::BorshIoError);
            },
        };
        let seeds = push_bump(
            seeds_of(VENDING_MACHINE_LABEL.as_slice(), &vending_machine_mint.key, header.price),
            header.bump_seed,
        );
        let derived = Pubkey::create_program_address(&seeds, program_id);
        Self::write_vending_machine_buffer(
            derived,
            &vending_machine_buffer.key,
            &user.key,
            &user_token_account.key,
            &vending_machine_mint.key,
            header,
            data,
        )
    }

    /// Ends an instruction. `outcome` says how the call that the transition
    /// owed has ended, and is `Ok` where none was owed. After a call that
    /// succeeded the buffer holds the transition's bytes; after one that
    /// failed the buffer is as it was, and the failure is handed on as it is.
    pub fn commit<E>(buffer: &mut AccountInfo, transition: Transition, outcome: Result<(), E>) -> (r:
        Result<(), E>)
        ensures
            outcome is Ok ==> r is Ok,
            outcome matches Err(e) ==> (r matches Err(f) && f == e),
            outcome is Ok ==> final(buffer).data@ == transition.data@,
            outcome is Err ==> final(buffer).data == old(buffer).data,
            final(buffer).key == old(buffer).key,
            final(buffer).is_signer == old(buffer).is_signer,
            final(buffer).is_writable == old(buffer).is_writable,
    {
        match outcome {
            Ok(()) => {
                buffer.data = transition.data;
                Ok(())
            },
            Err(e) => Err(e),
        }
    }
}

/// `Echo` on a buffer that holds bytes, all of them zero, succeeds without a
/// call to another program. The buffer keeps its length; its first bytes are
/// the payload's, as many as both have, and the others stay zero.
pub proof fn lemma_echo_writes_untouched_buffer(accounts: Seq<AccountInfo>, data: Seq<u8>)
    requires
        accounts.len() >= 1,
        accounts[0].data@.len() > 0,
        is_zeroed(accounts[0].data@),
    ensures
        Processor::echo_outcome(accounts, data) matches Ok(transition) && {
            let copied = min_len(accounts[0].data@.len(), data.len()) as int;
            &&& transition.call is None
            &&& transition.data.len() == accounts[0].data@.len()
            &&& transition.data.take(copied) == data.take(copied)
            &&& forall|i: int| copied <= i < transition.data.len() ==> transition.data[i] == 0
        },
{
    let copied = min_len(accounts[0].data@.len(), data.len()) as int;
    let written = left_aligned(data, accounts[0].data@.len());
    assert(written.take(copied) =~= data.take(copied));
}

/// `Echo` on a buffer that holds a byte other than zero fails with
/// `NonZeroData`, whatever the payload; so does `Echo` on an empty buffer.
pub proof fn lemma_echo_refuses_touched_buffer(accounts: Seq<AccountInfo>, data: Seq<u8>)
    requires
        accounts.len() >= 1,
        accounts[0].data@.len() == 0 || !is_zeroed(accounts[0].data@),
    ensures
        Processor::echo_outcome(accounts, data) matches Err(e) && e == custom(
            EchoError::NonZeroData,
        ),
{
}

/// For an authority that signed and a size that can hold a record,
/// `InitializeAuthorizedEcho` succeeds if and only if the buffer handed in is
/// at the address found for the authority and the buffer seed. Where an
/// address is found and the buffer is at another, it fails with
/// `InvalidAuthorizedBuffer`.
pub proof fn lemma_initialize_authorized_echo_address(
    program_id: Pubkey,
    accounts: Seq<AccountInfo>,
    buffer_seed: u64,
    buffer_size: u64,
)
    requires
        accounts.len() >= 2,
        accounts[1].is_signer,
        reserved_len(buffer_size, AUTHORIZED_HEADER_BYTES) is Some,
    ensures
        Processor::initialize_authorized_echo_outcome(
            program_id,
            accounts,
            buffer_seed,
            buffer_size,
        ) is Ok <==> (found_address(authority_seeds(accounts[1].key, buffer_seed), program_id@)
            matches Some(found) && found.0 == accounts[0].key@),
        (found_address(authority_seeds(accounts[1].key, buffer_seed), program_id@) matches Some(
            found,
        ) && found.0 != accounts[0].key@) ==> (Processor::initialize_authorized_echo_outcome(
            program_id,
            accounts,
            buffer_seed,
            buffer_size,
        ) matches Err(e) && e == custom(EchoError::InvalidAuthorizedBuffer)),
{
}

/// For a payer that signed, a writable buffer and a size that can hold a
/// record, `InitializeVendingMachineEcho` succeeds if and only if the buffer
/// handed in is at the address found for the mint and the price.
pub proof fn lemma_initialize_vending_machine_echo_address(
    program_id: Pubkey,
    accounts: Seq<AccountInfo>,
    price: u64,
    buffer_size: u64,
)
    requires
        accounts.len() >= 4,
        accounts[2].is_signer,
        accounts[0].is_writable,
        reserved_len(buffer_size, VENDING_MACHINE_HEADER_BYTES) is Some,
    ensures
        Processor::initialize_vending_machine_echo_outcome(
            program_id,
            accounts,
            price,
            buffer_size,
        ) is Ok <==> (found_address(vending_machine_seeds(accounts[1].key, price), program_id@)
            matches Some(found) && found.0 == accounts[0].key@),
{
}

/// The bytes that an initialization leaves in a buffer fill the buffer's
/// account exactly, and decode to the record that was written.
pub proof fn lemma_initialized_buffer_holds_record(
    program_id: Pubkey,
    accounts: Seq<AccountInfo>,
    buffer_seed: u64,
    buffer_size: u64,
)
    requires
        Processor::initialize_authorized_echo_outcome(
            program_id,
            accounts,
            buffer_seed,
            buffer_size,
        ) is Ok,
    ensures
        ({
            let transition = Processor::initialize_authorized_echo_outcome(
                program_id,
                accounts,
                buffer_seed,
                buffer_size,
            )->Ok_0;
            &&& transition.data.len() == buffer_size
            &&& AuthorizedBufferHeaderView::decode(transition.data) matches Some(header)
            &&& header.buffer_seed == buffer_seed
            &&& header.echo_data == zeros((buffer_size - AUTHORIZED_HEADER_BYTES) as nat)
        }),
{
    let found = found_address(authority_seeds(accounts[1].key, buffer_seed), program_id@)->0;
    let header = AuthorizedBufferHeaderView::zeroed(found.1, buffer_seed, buffer_size)->0;
    header.lemma_decode_encoding();
}

/// A buffer that `InitializeAuthorizedEcho` has set up accepts
/// `AuthorizedEcho` from the same authority: once the buffer holds the bytes
/// that the initialization left, the echo succeeds, and the buffer then holds
/// the payload cut or filled up with zeros to the length that was reserved.
pub proof fn lemma_authorized_echo_after_initialize(
    program_id: Pubkey,
    before: Seq<AccountInfo>,
    after: Seq<AccountInfo>,
    buffer_seed: u64,
    buffer_size: u64,
    data: Seq<u8>,
)
    requires
        Processor::initialize_authorized_echo_outcome(
            program_id,
            before,
            buffer_seed,
            buffer_size,
        ) is Ok,
        after.len() >= 2,
        after[0].key == before[0].key,
        after[1].key == before[1].key,
        after[1].is_signer,
        after[0].data@ == Processor::initialize_authorized_echo_outcome(
            program_id,
            before,
            buffer_seed,
            buffer_size,
        )->Ok_0.data,
    ensures
        Processor::authorized_echo_outcome(program_id, after, data) matches Ok(transition) && {
            &&& transition.call is None
            &&& transition.data.len() == buffer_size
            &&& AuthorizedBufferHeaderView::decode(transition.data) matches Some(header)
            &&& header.echo_data == left_aligned(
                data,
                (buffer_size - AUTHORIZED_HEADER_BYTES) as nat,
            )
        },
{
    let seeds = authority_seeds(before[1].key, buffer_seed);
    let found = found_address(seeds, program_id@)->0;
    let header = AuthorizedBufferHeaderView::zeroed(found.1, buffer_seed, buffer_size)->0;
    header.lemma_decode_encoding();
    lemma_found_is_derived(seeds, program_id@);
    header.echoed(data).lemma_decode_encoding();
}

/// A buffer that `InitializeVendingMachineEcho` has set up accepts
/// `VendingMachineEcho` for the same mint: once the buffer holds the bytes
/// that the initialization left, the echo succeeds for a user who signed,
/// owes the burn of the price that the buffer was set up with, and leaves the
/// payload cut or filled up with zeros to the length that was reserved.
pub proof fn lemma_vending_machine_echo_after_initialize(
    program_id: Pubkey,
    before: Seq<AccountInfo>,
    after: Seq<AccountInfo>,
    price: u64,
    buffer_size: u64,
    data: Seq<u8>,
)
    requires
        Processor::initialize_vending_machine_echo_outcome(
            program_id,
            before,
            price,
            buffer_size,
        ) is Ok,
        after.len() >= 5,
        after[0].key == before[0].key,
        after[3].key == before[1].key,
        after[1].is_signer,
        after[0].is_writable && after[2].is_writable && after[3].is_writable,
        after[0].data@ == Processor::initialize_vending_machine_echo_outcome(
            program_id,
            before,
            price,
            buffer_size,
        )->Ok_0.data,
    ensures
        Processor::vending_machine_echo_outcome(program_id, after, data) matches Ok(transition) && {
            &&& transition.call == Some(
                InvocationView::Burn(
                    burn_instruction(
                        Pubkey { bytes: TOKEN_PROGRAM_ID },
                        after[2].key,
                        after[3].key,
                        after[1].key,
                        price,
                    ),
                ),
            )
            &&& transition.data.len() == buffer_size
            &&& VendingMachineBufferHeaderView::decode(transition.data) matches Some(header)
            &&& header.price == price
            &&& header.vending_machine_mint == before[1].key@
            &&& header.echo_data == left_aligned(
                data,
                (buffer_size - VENDING_MACHINE_HEADER_BYTES) as nat,
            )
        },
{
    let seeds = vending_machine_seeds(before[1].key, price);
    let found = found_address(seeds, program_id@)->0;
    let header = VendingMachineBufferHeaderView::zeroed(
        found.1,
        price,
        before[1].key@,
        buffer_size,
    )->0;
    header.lemma_decode_encoding();
    lemma_found_is_derived(seeds, program_id@);
    Pubkey::lemma_view_injective(after[3].key, before[1].key);
    header.echoed(data).lemma_decode_encoding();
}

/// `AuthorizedEcho` twice with the same payload leaves what one leaves: once
/// the buffer holds the bytes of the first echo, the second leads to the
/// same bytes.
pub proof fn lemma_authorized_echo_idempotent(
    program_id: Pubkey,
    before: Seq<AccountInfo>,
    after: Seq<AccountInfo>,
    data: Seq<u8>,
)
    requires
        Processor::authorized_echo_outcome(program_id, before, data) is Ok,
        after.len() == before.len(),
        after[0].key == before[0].key,
        after[1] == before[1],
        after[0].data@ == Processor::authorized_echo_outcome(program_id, before, data)->Ok_0.data,
    ensures
        Processor::authorized_echo_outcome(program_id, after, data)
            == Processor::authorized_echo_outcome(program_id, before, data),
{
    let header = AuthorizedBufferHeaderView::decode(before[0].data@)->0;
    AuthorizedBufferHeaderView::lemma_encoding_of_decoded(before[0].data@);
    let written = header.echoed(data);
    written.lemma_decode_encoding();
    assert(written.echoed(data).echo_data =~= written.echo_data);
    assert(written.echoed(data) == written);
}

/// `VendingMachineEcho` twice with the same payload leaves the bytes that
/// one leaves, and owes the same burn each time.
pub proof fn lemma_vending_machine_echo_idempotent(
    program_id: Pubkey,
    before: Seq<AccountInfo>,
    after: Seq<AccountInfo>,
    data: Seq<u8>,
)
    requires
        Processor::vending_machine_echo_outcome(program_id, before, data) is Ok,
        after.len() == before.len(),
        after[0].key == before[0].key,
        after[0].is_writable,
        after[1] == before[1],
        after[2] == before[2],
        after[3] == before[3],
        after[0].data@ == Processor::vending_machine_echo_outcome(
            program_id,
            before,
            data,
        )->Ok_0.data,
    ensures
        Processor::vending_machine_echo_outcome(program_id, after, data)
            == Processor::vending_machine_echo_outcome(program_id, before, data),
{
    let header = VendingMachineBufferHeaderView::decode(before[0].data@)->0;
    VendingMachineBufferHeaderView::lemma_encoding_of_decoded(before[0].data@);
    let written = header.echoed(data);
    written.lemma_decode_encoding();
    assert(written.echoed(data).echo_data =~= written.echo_data);
    assert(written.echoed(data) == written);
}

/// An echo into a record keeps the length of the buffer: the bytes that
/// `AuthorizedEcho` and `VendingMachineEcho` lead to are as many as the
/// buffer held.
pub proof fn lemma_echo_keeps_length(program_id: Pubkey, accounts: Seq<AccountInfo>, data: Seq<u8>)
    ensures
        Processor::authorized_echo_outcome(program_id, accounts, data) matches Ok(transition)
            ==> transition.data.len() == accounts[0].data@.len(),
        Processor::vending_machine_echo_outcome(program_id, accounts, data) matches Ok(transition)
            ==> transition.data.len() == accounts[0].data@.len(),
{
    if Processor::authorized_echo_outcome(program_id, accounts, data) is Ok {
        let header = AuthorizedBufferHeaderView::decode(accounts[0].data@)->0;
        AuthorizedBufferHeaderView::lemma_encoding_of_decoded(accounts[0].data@);
        header.lemma_decode_encoding();
        header.echoed(data).lemma_decode_encoding();
    }
    if Processor::vending_machine_echo_outcome(program_id, accounts, data) is Ok {
        let header = VendingMachineBufferHeaderView::decode(accounts[0].data@)->0;
        VendingMachineBufferHeaderView::lemma_encoding_of_decoded(accounts[0].data@);
        header.lemma_decode_encoding();
        header.echoed(data).lemma_decode_encoding();
    }
}

} // verus!

//! The calls that an instruction owes to other programs before its write
//! may be committed: the creation of a buffer's account by the system
//! program, and the burning of tokens by the token program.
//!
//! The library decides which call is owed and with what; the host that runs
//! the program makes the call. The instructions themselves are built by
//! `solana_program` and `spl_token`.

use crate::codec::u64_le_bytes;
use crate::error::ProgramError;
use crate::pubkey::{seeds_view, Pubkey};
use vstd::prelude::*;

verus! {

/// The address of the system program: 32 zero bytes.
pub const SYSTEM_PROGRAM_ID: [u8; 32] = [
    0, 0, 0, 0, 0, 0, 0, 0, 0, 0, 0, 0, 0, 0, 0, 0,
    0, 0, 0, 0, 0, 0, 0, 0, 0, 0, 0, 0, 0, 0, 0, 0,
];

/// The address of the token program.
pub const TOKEN_PROGRAM_ID: [u8; 32] = [
    6, 221, 246, 225, 215, 101, 161, 147, 217, 203, 225, 70, 206, 235, 121, 172,
    28, 180, 133, 237, 95, 91, 55, 145, 58, 140, 245, 133, 126, 255, 0, 169,
];

/// An account as an instruction to another program names it.
#[derive(Clone, Copy, Debug, PartialEq, Eq)]
pub struct AccountMeta {
    pub pubkey: Pubkey,
    pub is_signer: bool,
    pub is_writable: bool,
}

/// An instruction to another program.
#[derive(Clone, Debug, PartialEq, Eq)]
pub struct Instruction {
    pub program_id: Pubkey,
    pub accounts: Vec<AccountMeta>,
    pub data: Vec<u8>,
}

/// An instruction to another program as a mathematical value.
pub struct InstructionView {
    pub program_id: Pubkey,
    pub accounts: Seq<AccountMeta>,
    pub data: Seq<u8>,
}

impl View for Instruction {
    type V = InstructionView;

    open spec fn view(&self) -> InstructionView {
        InstructionView { program_id: self.program_id, accounts: self.accounts@, data: self.data@ }
    }
}

/// An instruction as the crates that build instructions hand it over: the
/// program's address, then for each account its address and whether it signs
/// and is written to, then the data.
pub open spec fn parts_view(parts: ([u8; 32], Vec<([u8; 32], bool, bool)>, Vec<u8>)) -> InstructionView {
    InstructionView {
        program_id: Pubkey { bytes: parts.0 },
        accounts: Seq::new(
            parts.1@.len(),
            |i: int|
                AccountMeta {
                    pubkey: Pubkey { bytes: parts.1@[i].0 },
                    is_signer: parts.1@[i].1,
                    is_writable: parts.1@[i].2,
                },
        ),
        data: parts.2@,
    }
}

/// The data of the system program's instruction that creates an account:
/// what `solana_program::system_instruction::create_account` puts into the
/// instruction for the given balance, size and owner.
pub uninterp spec fn create_account_data(lamports: u64, space: u64, owner: Seq<u8>) -> Seq<u8>;

/// The instruction that has the system program create `new_account`, paid
/// for by `payer`: both sign and both are written to.
pub open spec fn create_account_instruction(
    payer: Pubkey,
    new_account: Pubkey,
    lamports: u64,
    space: u64,
    owner: Pubkey,
) -> InstructionView {
    InstructionView {
        program_id: Pubkey { bytes: SYSTEM_PROGRAM_ID },
        accounts: seq![
            AccountMeta { pubkey: payer, is_signer: true, is_writable: true },
            AccountMeta { pubkey: new_account, is_signer: true, is_writable: true },
        ],
        data: create_account_data(lamports, space, owner@),
    }
}

/// The instruction that has the token program burn `amount` tokens of `mint`
/// from `account`, with `authority` as the one signer: the account and the
/// mint are written to, and the authority is named twice, as the owner and as
/// the signer. The data is the byte 8 and the amount in little-endian order.
pub open spec fn burn_instruction(
    token_program_id: Pubkey,
    account: Pubkey,
    mint: Pubkey,
    authority: Pubkey,
    amount: u64,
) -> InstructionView {
    InstructionView {
        program_id: token_program_id,
        accounts: seq![
            AccountMeta { pubkey: account, is_signer: false, is_writable: true },
            AccountMeta { pubkey: mint, is_signer: false, is_writable: true },
            AccountMeta { pubkey: authority, is_signer: false, is_writable: false },
            AccountMeta { pubkey: authority, is_signer: true, is_writable: false },
        ],
        data: seq![8u8] + u64_le_bytes(amount),
    }
}

/// `solana_program::system_instruction::create_account`: an instruction to
/// the system program that names the payer and the new account, both as
/// signers that are written to; its data depends on the balance, the size and
/// the owner alone.
#[verifier::external_body]
fn outside_create_account(
    payer: &Pubkey,
    new_account: &Pubkey,
    lamports: u64,
    space: u64,
    owner: &Pubkey,
) -> (r: ([u8; 32], Vec<([u8; 32], bool, bool)>, Vec<u8>))
    ensures
        parts_view(r).program_id == (Pubkey { bytes: SYSTEM_PROGRAM_ID }),
        parts_view(r).accounts == create_account_instruction(
            *payer,
            *new_account,
            lamports,
            space,
            *owner,
        ).accounts,
        parts_view(r).data == create_account_data(lamports, space, owner@),
{
    let key = |p: &Pubkey| solana_program::pubkey::Pubkey::new_from_array(p.bytes);
    let (from, to, owner) = (key(payer), key(new_account), key(owner));
    let made = solana_program::system_instruction::create_account(&from, &to, lamports, space, &owner);
    let metas = made.accounts.iter().map(|m| (m.pubkey.to_bytes(), m.is_signer, m.is_writable));
    (made.program_id.to_bytes(), metas.collect(), made.data)
}

/// `spl_token::id`: the address of the token program.
#[verifier::external_body]
fn outside_token_program_id() -> (r: Pubkey)
    ensures
        r.bytes == TOKEN_PROGRAM_ID,
{
    Pubkey { bytes: spl_token::id().to_bytes() }
}

/// `spl_token::instruction::burn`, with `authority` as the one signer: it
/// refuses any program but the token program, and else returns the
/// instruction that `burn_instruction` states.
#[verifier::external_body]
fn outside_burn(
    token_program_id: &Pubkey,
    account: &Pubkey,
    mint: &Pubkey,
    authority: &Pubkey,
    amount: u64,
) -> (r: Option<([u8; 32], Vec<([u8; 32], bool, bool)>, Vec<u8>)>)
    ensures
        r is Some <==> token_program_id.bytes == TOKEN_PROGRAM_ID,
        r matches Some(made) ==> parts_view(made) == burn_instruction(
            *token_program_id,
            *account,
            *mint,
            *authority,
            amount,
        ),
{
    let key = |p: &Pubkey| solana_program::pubkey::Pubkey::new_from_array(p.bytes);
    let (program, from, mint, signer) = (key(token_program_id), key(account), key(mint), key(authority));
    let made = spl_token::instruction::burn(&program, &from, &mint, &signer, &[&signer], amount).ok()?;
    let metas = made.accounts.iter().map(|m| (m.pubkey.to_bytes(), m.is_signer, m.is_writable));
    Some((made.program_id.to_bytes(), metas.collect(), made.data))
}

impl Instruction {
    /// The instruction made of the parts that an instruction-building crate
    /// hands over.
    fn from_parts(parts: ([u8; 32], Vec<([u8; 32], bool, bool)>, Vec<u8>)) -> (r: Instruction)
        ensures
            r@ == parts_view(parts),
    {
        let (program_id, metas, data) = parts;
        let mut accounts: Vec<AccountMeta> = Vec::new();
        let mut i: usize = 0;
        while i < metas.len()
            invariant
                i <= metas@.len(),
                accounts@.len() == i,
                forall|j: int| 0 <= j < i ==> accounts@[j] == parts_view(parts).accounts[j],
                metas == parts.1,
            decreases metas@.len() - i,
        {
            let (pubkey, is_signer, is_writable) = metas[i];
            accounts.push(AccountMeta { pubkey: Pubkey { bytes: pubkey }, is_signer, is_writable });
            i += 1;
        }
        assert(accounts@ =~= parts_view(parts).accounts);
        Instruction { program_id: Pubkey { bytes: program_id }, accounts, data }
    }
}

/// The creation of a buffer's account that an instruction owes: the system
/// program is to create `new_account` with `space` bytes, owned by `owner`
/// and paid for by `payer`. The new account signs by `signer_seeds`, the
/// seeds from which its address is derived. The balance that the account
/// needs is the host's to say.
#[derive(Clone, Debug, PartialEq, Eq)]
pub struct CreateAccount {
    pub payer: Pubkey,
    pub new_account: Pubkey,
    pub space: u64,
    pub owner: Pubkey,
    pub signer_seeds: Vec<Vec<u8>>,
}

/// A `CreateAccount` as a mathematical value.
pub struct CreateAccountView {
    pub payer: Pubkey,
    pub new_account: Pubkey,
    pub space: u64,
    pub owner: Pubkey,
    pub signer_seeds: Seq<Seq<u8>>,
}

impl View for CreateAccount {
    type V = CreateAccountView;

    open spec fn view(&self) -> CreateAccountView {
        CreateAccountView {
            payer: self.payer,
            new_account: self.new_account,
            space: self.space,
            owner: self.owner,
            signer_seeds: seeds_view(self.signer_seeds@),
        }
    }
}

impl CreateAccount {
    /// The instruction to the system program that creates the account with a
    /// balance of `lamports`.
    pub fn instruction(&self, lamports: u64) -> (r: Instruction)
        ensures
            r@ == create_account_instruction(
                self.payer,
                self.new_account,
                lamports,
                self.space,
                self.owner,
            ),
    {
        Instruction::from_parts(
            outside_create_account(
                &self.payer,
                &self.new_account,
                lamports,
                self.space,
                &self.owner,
            ),
        )
    }
}

/// The address of the token program.
pub fn token_program_id() -> (r: Pubkey)
    ensures
        r.bytes == TOKEN_PROGRAM_ID,
{
    outside_token_program_id()
}

/// The instruction that has the token program at `token_program_id` burn
/// `amount` tokens of `mint` from `account` on the authority's signature.
/// Fails with `IncorrectProgramId` for any program but the token program.
pub fn burn(
    token_program_id: &Pubkey,
    account: &Pubkey,
    mint: &Pubkey,
    authority: &Pubkey,
    amount: u64,
) -> (r: Result<Instruction, ProgramError>)
    ensures
        token_program_id.bytes == TOKEN_PROGRAM_ID ==> (r matches Ok(made) && made@
            == burn_instruction(*token_program_id, *account, *mint, *authority, amount)),
        token_program_id.bytes != TOKEN_PROGRAM_ID ==> r matches Err(
            ProgramError::IncorrectProgramId,
        ),
{
    match outside_burn(token_program_id, account, mint, authority, amount) {
        Some(parts) => Ok(Instruction::from_parts(parts)),
        None => Err(ProgramError::IncorrectProgramId),
    }
}

} // verus!

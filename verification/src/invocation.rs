use vstd::prelude::*;
use crate::address::{seeds_view, Derivation};
use crate::identity::Identity;

verus! {

/// One account that an instruction touches, and how.
#[derive(Clone, Copy, Debug, PartialEq, Eq)]
pub struct AccountMeta {
    pub pubkey: Identity,
    /// Whether the instruction needs this account's signature.
    pub is_signer: bool,
    /// Whether the instruction may change this account.
    pub is_writable: bool,
}

/// An instruction for another program, as the host takes it.
#[derive(Debug, PartialEq, Eq)]
pub struct Instruction {
    /// The program that is to carry the instruction out.
    pub program_id: Identity,
    pub accounts: Vec<AccountMeta>,
    pub data: Vec<u8>,
}

/// What an [`Instruction`] holds, as mathematical values.
pub struct InstructionView {
    pub program_id: Seq<u8>,
    pub accounts: Seq<AccountMeta>,
    pub data: Seq<u8>,
}

impl View for Instruction {
    type V = InstructionView;

    open spec fn view(&self) -> InstructionView {
        InstructionView { program_id: self.program_id@, accounts: self.accounts@, data: self.data@ }
    }
}

/// The address of the system program, which moves native currency: 32 zero bytes.
pub open spec fn system_program_id() -> Seq<u8> {
    Seq::new(32, |i: int| 0u8)
}

/// The data of the system program's transfer instruction for `lamports`, as
/// `solana_program::system_instruction::transfer` encodes it.
pub uninterp spec fn system_transfer_data(lamports: u64) -> Seq<u8>;

/// The system program's instruction that moves `lamports` from `from`, which
/// signs and is written, to `to`, which is written.
pub open spec fn system_transfer(from: Identity, to: Identity, lamports: u64) -> InstructionView {
    InstructionView {
        program_id: system_program_id(),
        accounts: seq![
            AccountMeta { pubkey: from, is_signer: true, is_writable: true },
            AccountMeta { pubkey: to, is_signer: false, is_writable: true },
        ],
        data: system_transfer_data(lamports),
    }
}

/// Calls `solana_program::system_instruction::transfer`. Its source builds the
/// instruction from the system program's id, two writable accounts of which
/// the first signs, and the encoding of the transfer of `lamports`; the
/// contract claims that, and leaves the encoding to its name.
#[verifier::external_body]
fn system_instruction_transfer(from: &Identity, to: &Identity, lamports: u64) -> (instruction:
    Instruction)
    ensures
        instruction@.program_id == system_program_id(),
        instruction@.accounts == seq![
            AccountMeta { pubkey: *from, is_signer: true, is_writable: true },
            AccountMeta { pubkey: *to, is_signer: false, is_writable: true },
        ],
        instruction@.data == system_transfer_data(lamports),
{
    let from = solana_program::pubkey::Pubkey::new_from_array(from.bytes);
    let to = solana_program::pubkey::Pubkey::new_from_array(to.bytes);
    let made = solana_program::system_instruction::transfer(&from, &to, lamports);
    Instruction {
        program_id: Identity { bytes: made.program_id.to_bytes() },
        accounts: made.accounts.iter().map(|meta| AccountMeta {
            pubkey: Identity { bytes: meta.pubkey.to_bytes() },
            is_signer: meta.is_signer,
            is_writable: meta.is_writable,
        }).collect(),
        data: made.data,
    }
}

/// What the program hands to the host: an instruction for another program,
/// and for each derived address that signs it the seeds that prove the
/// program's authority over that address.
#[derive(Debug, PartialEq, Eq)]
pub struct Invocation {
    pub instruction: Instruction,
    pub signers_seeds: Vec<Vec<Vec<u8>>>,
}

/// What an [`Invocation`] holds, as mathematical values.
pub struct InvocationView {
    pub instruction: InstructionView,
    pub signers_seeds: Seq<Seq<Seq<u8>>>,
}

impl View for Invocation {
    type V = InvocationView;

    open spec fn view(&self) -> InvocationView {
        InvocationView {
            instruction: self.instruction@,
            signers_seeds: Seq::new(
                self.signers_seeds@.len(),
                |i: int| seeds_view(self.signers_seeds@[i]),
            ),
        }
    }
}

/// A transfer on the system program, signed by no derived address.
pub fn transfer_from_signer(from: &Identity, to: &Identity, lamports: u64) -> (invocation: Invocation)
    ensures
        invocation@.instruction == system_transfer(*from, *to, lamports),
        invocation@.signers_seeds == Seq::<Seq<Seq<u8>>>::empty(),
{
    let instruction = system_instruction_transfer(from, to, lamports);
    let signers_seeds: Vec<Vec<Vec<u8>>> = Vec::new();
    let invocation = Invocation { instruction, signers_seeds };
    assert(invocation@.signers_seeds =~= Seq::<Seq<Seq<u8>>>::empty());
    invocation
}

/// A transfer on the system program out of the vault, signed by the seeds of
/// the vault's address followed by `bump`.
pub fn transfer_from_vault(vault: &Identity, bump: u8, to: &Identity, lamports: u64) -> (invocation:
    Invocation)
    ensures
        invocation@.instruction == system_transfer(*vault, *to, lamports),
        invocation@.signers_seeds == seq![Derivation::Vault.signer_seeds_spec(bump)],
{
    let instruction = system_instruction_transfer(vault, to, lamports);
    let seeds = Derivation::Vault.signer_seeds(bump);
    let mut signers_seeds: Vec<Vec<Vec<u8>>> = Vec::new();
    signers_seeds.push(seeds);
    let invocation = Invocation { instruction, signers_seeds };
    assert(invocation@.signers_seeds =~= seq![Derivation::Vault.signer_seeds_spec(bump)]);
    invocation
}

} // verus!

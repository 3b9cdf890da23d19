use vstd::prelude::*;
use crate::identity::Identity;

verus! {

/// The bytes of `config`, the tag of the configuration record's address.
pub open spec fn config_tag() -> Seq<u8> {
    seq![99u8, 111u8, 110u8, 102u8, 105u8, 103u8]
}

/// The bytes of `vault`, the tag of the vault's address.
pub open spec fn vault_tag() -> Seq<u8> {
    seq![118u8, 97u8, 117u8, 108u8, 116u8]
}

/// The bytes of `user-state`, the tag of every user's ledger record.
pub open spec fn user_state_tag() -> Seq<u8> {
    seq![117u8, 115u8, 101u8, 114u8, 45u8, 115u8, 116u8, 97u8, 116u8, 101u8]
}

/// A list of seeds as a sequence of byte sequences.
pub open spec fn seeds_view(seeds: Vec<Vec<u8>>) -> Seq<Seq<u8>> {
    Seq::new(seeds@.len(), |i: int| seeds@[i]@)
}

/// The address that `Pubkey::create_program_address` derives from `seeds`
/// under `program`, and `None` where it derives none.
pub uninterp spec fn created_program_address(seeds: Seq<Seq<u8>>, program: Seq<u8>) -> Option<Seq<u8>>;

/// The address and bump seed that `Pubkey::try_find_program_address` finds
/// for `seeds` under `program`, and `None` where it finds none.
pub uninterp spec fn found_program_address(seeds: Seq<Seq<u8>>, program: Seq<u8>) -> Option<(Seq<u8>, u8)>;

/// Calls `Pubkey::create_program_address` of `solana_program`, which hashes
/// the seeds with the program's id and gives the hash where it is no point
/// of the curve. The contract names the result; an error of either kind
/// comes back as `None`.
#[verifier::external_body]
fn create_program_address(seeds: &Vec<Vec<u8>>, program: &Identity) -> (address: Option<Identity>)
    ensures
        match address {
            Some(address) => created_program_address(seeds_view(*seeds), program@) == Some(address@),
            None => created_program_address(seeds_view(*seeds), program@) is None,
        },
{
    let parts: Vec<&[u8]> = seeds.iter().map(|seed| seed.as_slice()).collect();
    let program = solana_program::pubkey::Pubkey::new_from_array(program.bytes);
    solana_program::pubkey::Pubkey::create_program_address(&parts, &program)
        .ok()
        .map(|key| Identity { bytes: key.to_bytes() })
}

/// Calls `Pubkey::try_find_program_address` of `solana_program`, which tries
/// bump seeds until `create_program_address` accepts the seeds with one of
/// them appended. The contract names the result and claims what the source
/// shows of a hit: the address is the one that `create_program_address`
/// derives from the seeds followed by the one-byte seed that holds the bump.
#[verifier::external_body]
fn try_find_program_address(seeds: &Vec<Vec<u8>>, program: &Identity) -> (found: Option<(Identity, u8)>)
    ensures
        match found {
            Some((address, bump)) => {
                &&& found_program_address(seeds_view(*seeds), program@) == Some((address@, bump))
                &&& created_program_address(seeds_view(*seeds).push(seq![bump]), program@) == Some(
                    address@,
                )
            },
            None => found_program_address(seeds_view(*seeds), program@) is None,
        },
{
    let parts: Vec<&[u8]> = seeds.iter().map(|seed| seed.as_slice()).collect();
    let program = solana_program::pubkey::Pubkey::new_from_array(program.bytes);
    solana_program::pubkey::Pubkey::try_find_program_address(&parts, &program)
        .map(|(key, bump)| (Identity { bytes: key.to_bytes() }, bump))
}

/// Which of the program's derived addresses is meant.
#[derive(Clone, Copy, Debug, PartialEq, Eq)]
pub enum Derivation {
    /// The singleton configuration record.
    Config,
    /// The vault that holds the pooled native currency.
    Vault,
    /// The ledger record of one user.
    UserState { user: Identity },
}

impl Derivation {
    /// The seeds of the address: its tag, then the user's key where the
    /// address belongs to a user.
    pub open spec fn seeds_spec(self) -> Seq<Seq<u8>> {
        match self {
            Derivation::Config => seq![config_tag()],
            Derivation::Vault => seq![vault_tag()],
            Derivation::UserState { user } => seq![user_state_tag(), user@],
        }
    }

    /// The seeds that prove the program's authority over the address: the
    /// seeds of the address, then one seed that holds the bump.
    pub open spec fn signer_seeds_spec(self, bump: u8) -> Seq<Seq<u8>> {
        self.seeds_spec().push(seq![bump])
    }

    /// The seeds of the address.
    pub fn seeds(&self) -> (seeds: Vec<Vec<u8>>)
        ensures
            seeds_view(seeds) == self.seeds_spec(),
    {
        let mut seeds: Vec<Vec<u8>> = Vec::new();
        match self {
            Derivation::Config => {
                let tag: Vec<u8> = vec![99u8, 111u8, 110u8, 102u8, 105u8, 103u8];
                assert(tag@ =~= config_tag());
                seeds.push(tag);
            },
            Derivation::Vault => {
                let tag: Vec<u8> = vec![118u8, 97u8, 117u8, 108u8, 116u8];
                assert(tag@ =~= vault_tag());
                seeds.push(tag);
            },
            Derivation::UserState { user } => {
                let tag: Vec<u8> = vec![
                    117u8, 115u8, 101u8, 114u8, 45u8, 115u8, 116u8, 97u8, 116u8, 101u8,
                ];
                assert(tag@ =~= user_state_tag());
                seeds.push(tag);
                seeds.push(user.to_vec());
            },
        }
        assert(seeds_view(seeds) =~= self.seeds_spec());
        seeds
    }

    /// The address of this kind under `program`, and the bump seed that
    /// completes its seeds; `None` where the search finds no address.
    pub fn find(&self, program: &Identity) -> (found: Option<(Identity, u8)>)
        ensures
            match found {
                Some((address, bump)) => {
                    &&& found_program_address(self.seeds_spec(), program@) == Some((address@, bump))
                    &&& created_program_address(self.signer_seeds_spec(bump), program@) == Some(
                        address@,
                    )
                },
                None => found_program_address(self.seeds_spec(), program@) is None,
            },
    {
        let seeds = self.seeds();
        try_find_program_address(&seeds, program)
    }

    /// The address that the seeds of this kind, followed by `bump`, derive
    /// under `program`; `None` where they derive none.
    pub fn rederive(&self, bump: u8, program: &Identity) -> (address: Option<Identity>)
        ensures
            match address {
                Some(address) => created_program_address(self.signer_seeds_spec(bump), program@)
                    == Some(address@),
                None => created_program_address(self.signer_seeds_spec(bump), program@) is None,
            },
    {
        let seeds = self.signer_seeds(bump);
        create_program_address(&seeds, program)
    }

    /// Whether the seeds of this kind, followed by `bump`, derive `address`
    /// under `program`: the test that a proof of authority has to pass.
    pub fn proves(&self, bump: u8, program: &Identity, address: &Identity) -> (proved: bool)
        ensures
            proved == (created_program_address(self.signer_seeds_spec(bump), program@) == Some(
                address@,
            )),
    {
        match self.rederive(bump, program) {
            Some(derived) => {
                proof {
                    derived.lemma_view_injective(*address);
                }
                derived == *address
            },
            None => false,
        }
    }

    /// The seeds of the address, then one seed that holds `bump`.
    pub fn signer_seeds(&self, bump: u8) -> (seeds: Vec<Vec<u8>>)
        ensures
            seeds_view(seeds) == self.signer_seeds_spec(bump),
    {
        let mut seeds = self.seeds();
        let last: Vec<u8> = vec![bump];
        assert(last@ =~= seq![bump]);
        seeds.push(last);
        assert(seeds_view(seeds) =~= self.signer_seeds_spec(bump));
        seeds
    }
}

} // verus!

use crate::pubkey::Pubkey;
use vstd::prelude::*;
use vstd::slice::slice_to_vec;

verus! {

/// The bytes `dcavault`, the first seed of every vault's address.
pub const VAULT_SEED: [u8; 8] = [100, 99, 97, 118, 97, 117, 108, 116];

/// The seeds from which the address of `owner`'s vault is derived with the
/// nonce `bump`: the fixed prefix, the owner's address, the nonce.
pub open spec fn vault_seeds(owner: Pubkey, bump: u8) -> Seq<Seq<u8>> {
    seq![VAULT_SEED@, owner@, seq![bump]]
}

/// Builds the seeds with which the vault of `owner` signs for one call.
pub fn vault_signer_seeds(owner: &Pubkey, bump: u8) -> (seeds: Vec<Vec<u8>>)
    ensures
        seeds.deep_view() == vault_seeds(*owner, bump),
{
    let prefix = slice_to_vec(VAULT_SEED.as_slice());
    let address = slice_to_vec(owner.bytes.as_slice());
    let mut nonce: Vec<u8> = Vec::new();
    nonce.push(bump);
    let mut seeds: Vec<Vec<u8>> = Vec::new();
    seeds.push(prefix);
    seeds.push(address);
    seeds.push(nonce);
    proof {
        assert(seeds@[0].deep_view() =~= VAULT_SEED@);
        assert(seeds@[1].deep_view() =~= owner@);
        assert(seeds@[2].deep_view() =~= seq![bump]);
        assert(seeds.deep_view() =~= vault_seeds(*owner, bump));
    }
    seeds
}

} // verus!

use vstd::prelude::*;

verus! {

/// The Keccak-256 digest of a byte string, as a sequence of 32 bytes.
pub uninterp spec fn keccak256(data: Seq<u8>) -> Seq<u8>;

/// Calls `anchor_lang::solana_program::keccak::hashv` on the single slice
/// `data` and returns the 32 bytes of the resulting hash. The contract claims
/// only that the result is the Keccak-256 digest of `data`, which is what the
/// contracts of this library call `keccak256(data@)`.
#[verifier::external_body]
#[allow(deprecated)]
pub(crate) fn keccak_hashv(data: &Vec<u8>) -> (digest: [u8; 32])
    ensures
        digest@ == keccak256(data@),
{
    anchor_lang::solana_program::keccak::hashv(&[data.as_slice()]).0
}

} // verus!

verus! {

/// Whether two digests hold the same bytes.
pub fn digests_equal(a: &[u8; 32], b: &[u8; 32]) -> (r: bool)
    ensures
        r == (a@ == b@),
{
    let mut i: usize = 0;
    while i < 32
        invariant
            i <= 32,
            forall|j: int| 0 <= j < i ==> a@[j] == b@[j],
        decreases 32 - i,
    {
        if a[i] != b[i] {
            return false;
        }
        i = i + 1;
    }
    assert(a@ =~= b@);
    true
}

} // verus!

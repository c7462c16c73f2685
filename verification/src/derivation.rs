use vstd::prelude::*;
use vstd::utf8::encode_utf8;
use crate::identity::Identity;

verus! {

/// The address that a component derives from a list of seeds, with the bump
/// seed that was found for it, or `None` where the seeds admit no address.
pub uninterp spec fn program_address(seeds: Seq<Seq<u8>>, program: Seq<u8>) -> Option<(Seq<u8>, u8)>;

/// The view of a derived address and its bump seed.
pub open spec fn derived_view(r: Option<(Identity, u8)>) -> Option<(Seq<u8>, u8)> {
    match r {
        Some((identity, bump)) => Some((identity@, bump)),
        None => None,
    }
}

/// Calls `Pubkey::try_find_program_address` of `anchor_lang` with the seeds
/// and the deriving component's identity as the program id. The contract
/// claims only that the result is a function of the seeds and the program id,
/// which the contracts of this library call `program_address`.
#[verifier::external_body]
pub(crate) fn try_find_program_address(seeds: &Vec<Vec<u8>>, program: &Identity) -> (r: Option<(Identity, u8)>)
    ensures
        derived_view(r) == program_address(seeds.deep_view(), program@),
{
    let program_id = anchor_lang::prelude::Pubkey::new_from_array(program.bytes);
    let slices: Vec<&[u8]> = seeds.iter().map(|s| s.as_slice()).collect();
    anchor_lang::prelude::Pubkey::try_find_program_address(&slices, &program_id)
        .map(|(key, bump)| (Identity { bytes: key.to_bytes() }, bump))
}

} // verus!

verus! {

/// The seed list that holds a label alone.
pub open spec fn labelled_seeds(label: Seq<char>) -> Seq<Seq<u8>> {
    seq![encode_utf8(label)]
}

/// The seed list that holds a label and the key of one record.
pub open spec fn keyed_seeds(label: Seq<char>, key: Seq<u8>) -> Seq<Seq<u8>> {
    seq![encode_utf8(label), key]
}

/// The identity that `owner` derives from `label`, with its bump seed.
pub open spec fn derived_identity(owner: Seq<u8>, label: Seq<char>) -> Option<(Seq<u8>, u8)> {
    program_address(labelled_seeds(label), owner)
}

/// The address of the record that `owner` keeps under `label` for `key`, with
/// its bump seed.
pub open spec fn record_address(owner: Seq<u8>, label: Seq<char>, key: Seq<u8>) -> Option<(Seq<u8>, u8)> {
    program_address(keyed_seeds(label, key), owner)
}

fn bytes_of(s: &[u8]) -> (v: Vec<u8>)
    ensures
        v@ == s@,
{
    let mut v: Vec<u8> = Vec::new();
    v.extend_from_slice(s);
    assert(v@ =~= s@);
    v
}

/// Derives the identity that `owner` signs with under `label`. The same owner
/// and label always give the same identity.
pub fn derive_identity(owner: &Identity, label: &str) -> (r: Option<(Identity, u8)>)
    ensures
        derived_view(r) == derived_identity(owner@, label@),
{
    let mut seeds: Vec<Vec<u8>> = Vec::new();
    seeds.push(bytes_of(label.as_bytes()));
    assert(seeds.deep_view() =~~= labelled_seeds(label@));
    try_find_program_address(&seeds, owner)
}

/// Derives the address of the record that `owner` keeps under `label` for
/// `key`.
pub fn derive_record_address(owner: &Identity, label: &str, key: &[u8]) -> (r: Option<(Identity, u8)>)
    ensures
        derived_view(r) == record_address(owner@, label@, key@),
{
    let mut seeds: Vec<Vec<u8>> = Vec::new();
    seeds.push(bytes_of(label.as_bytes()));
    seeds.push(bytes_of(key));
    assert(seeds.deep_view() =~~= keyed_seeds(label@, key@));
    try_find_program_address(&seeds, owner)
}

/// A signing identity that a component derived from its own identity and a
/// label. Nothing outside this library makes a value of this type: the hub
/// and the engine each derive their own when they are created, and hold it.
/// So a capability always holds what the derivation gave for its deriver and
/// label, and whoever presents one holds the component that derived it.
#[derive(Debug)]
pub struct Capability {
    deriver: Identity,
    label: String,
    identity: Identity,
    bump: u8,
}

impl Capability {
    #[verifier::type_invariant]
    spec fn inv(&self) -> bool {
        derived_identity(self.deriver@, self.label@) == Some((self.identity@, self.bump))
    }

    pub closed spec fn spec_deriver(&self) -> Identity {
        self.deriver
    }

    pub closed spec fn spec_label(&self) -> Seq<char> {
        self.label@
    }

    pub closed spec fn spec_identity(&self) -> Identity {
        self.identity
    }

    pub closed spec fn spec_bump(&self) -> u8 {
        self.bump
    }

    /// Derives the capability of `deriver` under `label`, where the derivation
    /// gives an identity.
    pub(crate) fn derive(deriver: &Identity, label: &str) -> (r: Option<Capability>)
        ensures
            match r {
                Some(c) => {
                    &&& c.spec_deriver() == *deriver
                    &&& c.spec_label() == label@
                    &&& derived_identity(deriver@, label@) == Some((c.spec_identity()@, c.spec_bump()))
                },
                None => derived_identity(deriver@, label@) is None,
            },
    {
        match derive_identity(deriver, label) {
            Some((identity, bump)) => Some(
                Capability { deriver: *deriver, label: label.to_owned(), identity, bump },
            ),
            None => None,
        }
    }

    /// The component that derived this capability.
    pub fn deriver(&self) -> (r: Identity)
        ensures
            r == self.spec_deriver(),
    {
        self.deriver
    }

    /// The derived signing identity. It is what the derivation gives for the
    /// capability's deriver and label.
    pub fn identity(&self) -> (r: Identity)
        ensures
            r == self.spec_identity(),
            derived_identity(self.spec_deriver()@, self.spec_label()) == Some((r@, self.spec_bump())),
    {
        proof {
            use_type_invariant(self);
        }
        self.identity
    }

    /// The bump seed that the derivation found.
    pub fn bump(&self) -> (r: u8)
        ensures
            r == self.spec_bump(),
    {
        self.bump
    }

    /// Whether this capability was derived by `deriver` under `label`.
    pub fn is_derived_from(&self, deriver: &Identity, label: &str) -> (r: bool)
        ensures
            r == (self.spec_deriver() == *deriver && self.spec_label() == label@),
            r ==> derived_identity(deriver@, label@) == Some((self.spec_identity()@, self.spec_bump())),
    {
        proof {
            use_type_invariant(self);
        }
        let wanted: String = label.to_owned();
        self.deriver.same(deriver) && self.label == wanted
    }
}

} // verus!

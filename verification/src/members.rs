use vstd::prelude::*;
use crate::derivation::{derived_identity, record_address};
use crate::identity::Identity;
use crate::members::state::{MembersStore, MerchantInfo};

pub mod errors;
pub mod instructions;
pub mod events;
pub mod state;
pub mod theorems;

verus! {

/// Label under which the registry derives the address of its singleton.
pub const MEMBERS_SEED: &'static str = "members";

/// Label under which the registry derives the address of a merchant's record.
pub const MERCHANT_INFO_SEED: &'static str = "merchant_info";

/// The role registry: its own identity, its singleton and the records of the
/// registered merchants, in the order in which they were added.
#[derive(Debug)]
pub struct RoleRegistry {
    pub program_id: Identity,
    pub store: MembersStore,
    pub merchants: Vec<MerchantInfo>,
}

impl RoleRegistry {
    /// `merchant` has a record.
    pub open spec fn is_merchant(&self, merchant: Identity) -> bool {
        exists|i: int| 0 <= i < self.merchants@.len() && (#[trigger] self.merchants@[i]).merchant == merchant
    }

    /// The singleton and each record carry the bump seed of their derived
    /// address, no record is for the zero identity, and no merchant has two
    /// records.
    pub open spec fn wf(&self) -> bool {
        &&& derived_identity(self.program_id@, MEMBERS_SEED@) matches Some((_, bump))
            && bump == self.store.bump
        &&& forall|i: int|
            0 <= i < self.merchants@.len() ==> {
                let record = #[trigger] self.merchants@[i];
                &&& !record.merchant.spec_is_zero()
                &&& record_address(self.program_id@, MERCHANT_INFO_SEED@, record.merchant@)
                    matches Some((_, bump)) && bump == record.bump
            }
        &&& forall|i: int, j: int|
            0 <= i < j < self.merchants@.len() ==> (#[trigger] self.merchants@[i]).merchant != (
            #[trigger] self.merchants@[j]).merchant
    }

    /// The first position of a record of `merchant`, if it has one.
    pub fn find_merchant(&self, merchant: &Identity) -> (r: Option<usize>)
        ensures
            match r {
                Some(i) => {
                    &&& i < self.merchants@.len()
                    &&& self.merchants@[i as int].merchant == *merchant
                    &&& forall|j: int| 0 <= j < i ==> (#[trigger] self.merchants@[j]).merchant != *merchant
                },
                None => !self.is_merchant(*merchant),
            },
    {
        let mut i: usize = 0;
        while i < self.merchants.len()
            invariant
                i <= self.merchants@.len(),
                forall|j: int| 0 <= j < i ==> (#[trigger] self.merchants@[j]).merchant != *merchant,
            decreases self.merchants@.len() - i,
        {
            if self.merchants[i].merchant.same(merchant) {
                return Some(i);
            }
            i = i + 1;
        }
        None
    }
}

} // verus!

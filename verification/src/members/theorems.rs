use vstd::prelude::*;
use crate::derivation::record_address;
use crate::identity::Identity;
use crate::members::errors::MembersError;
use crate::members::instructions::add_merchant::{add_merchant_check, AddMerchantParams};
use crate::members::instructions::claim_ownership::claim_ownership_check;
use crate::members::instructions::transfer_ownership::{
    transfer_ownership_check, TransferOwnershipParams,
};
use crate::members::state::MembersStore;
use crate::members::{RoleRegistry, MERCHANT_INFO_SEED};

verus! {

/// The two-step handoff of the registry. After the owner has started a
/// handoff to `new_owner`, the owner is still the owner; a claim by anybody
/// else is refused with `InvalidPendingOwner`; the claim by `new_owner` is
/// accepted; and once it is, no handoff is pending, so that a second claim,
/// by `new_owner` or by anybody, is refused with `InvalidPendingOwner` as well.
pub proof fn handoff_takes_two_steps(
    store: MembersStore,
    owner: Identity,
    new_owner: Identity,
    other: Identity,
    zero: Identity,
)
    requires
        transfer_ownership_check(store, owner, TransferOwnershipParams { new_owner }) is Ok,
        zero.spec_is_zero(),
    ensures
        ({
            let started = MembersStore { pending_owner: new_owner, ..store };
            let claimed = MembersStore { owner: new_owner, pending_owner: zero, ..store };
            &&& started.owner == store.owner
            &&& other != new_owner ==> claim_ownership_check(started, other) == Err::<(), _>(
                MembersError::InvalidPendingOwner,
            )
            &&& claim_ownership_check(started, new_owner) is Ok
            &&& claim_ownership_check(claimed, other) == Err::<(), _>(
                MembersError::InvalidPendingOwner,
            )
            &&& claim_ownership_check(claimed, new_owner) == Err::<(), _>(
                MembersError::InvalidPendingOwner,
            )
        }),
{
}

/// A merchant's record holds nothing of the registry's past: whenever a
/// merchant is added to a registry of one component, after a removal or for
/// the first time, the record that is made for it is the same.
pub proof fn readded_merchant_is_fresh(
    first: RoleRegistry,
    first_owner: Identity,
    later: RoleRegistry,
    later_owner: Identity,
    merchant: Identity,
)
    requires
        first.program_id == later.program_id,
        add_merchant_check(first, first_owner, AddMerchantParams { merchant }) is Ok,
        add_merchant_check(later, later_owner, AddMerchantParams { merchant }) is Ok,
    ensures
        add_merchant_check(first, first_owner, AddMerchantParams { merchant }) == add_merchant_check(
            later,
            later_owner,
            AddMerchantParams { merchant },
        ),
        add_merchant_check(later, later_owner, AddMerchantParams { merchant }) matches Ok(bump)
            && record_address(later.program_id@, MERCHANT_INFO_SEED@, merchant@) matches Some((_, derived))
            && derived == bump,
{
}

/// A merchant that was removed from a well-formed registry can be added
/// again by the owner, and is then registered with a record of its own, last
/// in the registry.
pub proof fn removed_merchant_can_return(before: RoleRegistry, removed: RoleRegistry, owner: Identity, at: int)
    requires
        before.wf(),
        0 <= at < before.merchants@.len(),
        before.store.spec_is_owner(owner),
        removed.program_id == before.program_id,
        removed.store.owner == before.store.owner,
        removed.merchants@ == before.merchants@.remove(at),
    ensures
        !removed.is_merchant(before.merchants@[at].merchant),
        add_merchant_check(removed, owner, AddMerchantParams { merchant: before.merchants@[at].merchant })
            == Ok::<_, MembersError>(before.merchants@[at].bump),
{
    let merchant = before.merchants@[at].merchant;
    assert forall|i: int| 0 <= i < removed.merchants@.len() implies (#[trigger] removed.merchants@[i]).merchant
        != merchant by {
        if i < at {
            assert(removed.merchants@[i] == before.merchants@[i]);
        } else {
            assert(removed.merchants@[i] == before.merchants@[i + 1]);
        }
    }
}

} // verus!

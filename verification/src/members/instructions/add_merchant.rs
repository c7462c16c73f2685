use vstd::prelude::*;
use crate::derivation::{derive_record_address, derived_view, record_address};
use crate::identity::Identity;
use crate::members::errors::MembersError;
use crate::members::events::MerchantAdd;
use crate::members::state::{MembersStore, MerchantInfo};
use crate::members::{RoleRegistry, MERCHANT_INFO_SEED};

verus! {

/// The arguments of `add_merchant`.
#[derive(Clone, Copy, Debug, PartialEq, Eq)]
pub struct AddMerchantParams {
    pub merchant: Identity,
}

/// The merchant count after one more merchant: it saturates.
pub open spec fn count_after_add(count: u16) -> u16 {
    if count < u16::MAX {
        (count + 1) as u16
    } else {
        count
    }
}

/// What `add_merchant_derived` answers to `owner` on `registry`, given what
/// the derivation of the record's address gave: the bump seed of the new
/// record, or the reason for which the call is rejected.
pub open spec fn add_merchant_check_derived(
    registry: RoleRegistry,
    owner: Identity,
    params: AddMerchantParams,
    derived: Option<(Seq<u8>, u8)>,
) -> Result<u8, MembersError> {
    if !registry.store.spec_is_owner(owner) {
        Err(MembersError::Unauthorized)
    } else if params.merchant.spec_is_zero() {
        Err(MembersError::InvalidAddress)
    } else if registry.is_merchant(params.merchant) {
        Err(MembersError::MerchantAlreadyExists)
    } else {
        match derived {
            Some((_, bump)) => Ok(bump),
            None => Err(MembersError::InvalidProgramId),
        }
    }
}

/// What `add_merchant` answers to `owner` on `registry`: the answer of
/// `add_merchant_derived` to what the registry derives for the merchant.
pub open spec fn add_merchant_check(registry: RoleRegistry, owner: Identity, params: AddMerchantParams) -> Result<
    u8,
    MembersError,
> {
    add_merchant_check_derived(
        registry,
        owner,
        params,
        record_address(registry.program_id@, MERCHANT_INFO_SEED@, params.merchant@),
    )
}

/// Registers a merchant, given what the derivation of its record's address
/// gave: a new record for it, with the bump seed that was derived, follows
/// the others, and the merchant count grows by one, saturating. Only the
/// owner may; the zero identity and a merchant that has a record are refused,
/// and so is a derivation that gave nothing. A rejected call changes nothing.
/// The registry stays well formed where `derived` is what the registry
/// derives for the merchant.
pub fn add_merchant_derived(
    registry: &mut RoleRegistry,
    owner: Identity,
    params: AddMerchantParams,
    derived: Option<(Identity, u8)>,
) -> (r: Result<MerchantAdd, MembersError>)
    ensures
        match r {
            Ok(event) => {
                &&& add_merchant_check_derived(*old(registry), owner, params, derived_view(derived)) matches Ok(bump)
                &&& final(registry).merchants@ == old(registry).merchants@.push(
                    MerchantInfo { merchant: params.merchant, bump },
                )
                &&& final(registry).store == (MembersStore {
                    merchant_count: count_after_add(old(registry).store.merchant_count),
                    ..old(registry).store
                })
                &&& final(registry).program_id == old(registry).program_id
                &&& event == (MerchantAdd { merchant: params.merchant })
            },
            Err(e) => {
                &&& add_merchant_check_derived(*old(registry), owner, params, derived_view(derived)) == Err::<
                    u8,
                    _,
                >(e)
                &&& *final(registry) == *old(registry)
            },
        },
        old(registry).wf() && derived_view(derived) == record_address(
            old(registry).program_id@,
            MERCHANT_INFO_SEED@,
            params.merchant@,
        ) ==> final(registry).wf(),
{
    if !registry.store.is_owner(&owner) {
        return Err(MembersError::Unauthorized);
    }
    if params.merchant.is_zero() {
        return Err(MembersError::InvalidAddress);
    }
    if registry.find_merchant(&params.merchant).is_some() {
        return Err(MembersError::MerchantAlreadyExists);
    }
    let bump = match derived {
        Some((_, bump)) => bump,
        None => {
            return Err(MembersError::InvalidProgramId);
        },
    };
    registry.merchants.push(MerchantInfo { merchant: params.merchant, bump });
    registry.store.merchant_count = registry.store.merchant_count.saturating_add(1);
    Ok(MerchantAdd { merchant: params.merchant })
}

/// Registers a merchant: a new record for it follows the others, and the
/// merchant count grows by one, saturating. Only the owner may; the zero
/// identity and a merchant that has a record are refused. A rejected call
/// changes nothing.
pub fn add_merchant(registry: &mut RoleRegistry, owner: Identity, params: AddMerchantParams) -> (r: Result<
    MerchantAdd,
    MembersError,
>)
    ensures
        match r {
            Ok(event) => {
                &&& add_merchant_check(*old(registry), owner, params) matches Ok(bump)
                &&& final(registry).merchants@ == old(registry).merchants@.push(
                    MerchantInfo { merchant: params.merchant, bump },
                )
                &&& final(registry).store == (MembersStore {
                    merchant_count: count_after_add(old(registry).store.merchant_count),
                    ..old(registry).store
                })
                &&& final(registry).program_id == old(registry).program_id
                &&& event == (MerchantAdd { merchant: params.merchant })
            },
            Err(e) => {
                &&& add_merchant_check(*old(registry), owner, params) == Err::<u8, _>(e)
                &&& *final(registry) == *old(registry)
            },
        },
        old(registry).wf() ==> final(registry).wf(),
{
    let derived = derive_record_address(
        &registry.program_id,
        MERCHANT_INFO_SEED,
        params.merchant.bytes.as_slice(),
    );
    add_merchant_derived(registry, owner, params, derived)
}

} // verus!

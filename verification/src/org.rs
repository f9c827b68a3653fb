//! The organization access controller: organization identity, an owner
//! account and a membership set. Before delegating an `issue` or `revoke`
//! to the ledger through the gateway, it enforces the membership gate;
//! administration of the membership set is reserved to the owner.

use crate::gateway;
use crate::gateway::ContractError;
use crate::ledger;
use crate::ledger::{AccountId, HashValue, Pallet};
use std::collections::HashMap;
use vstd::prelude::*;

verus! {

broadcast use vstd::std_specs::hash::group_hash_axioms;

#[derive(Clone, Copy, Debug, PartialEq, Eq, Structural)]
pub struct IssuedByContract {
    pub value: HashValue,
    pub account_id: AccountId,
}

#[derive(Clone, Copy, Debug, PartialEq, Eq, Structural)]
pub struct RevokedByContract {
    pub value: HashValue,
    pub account_id: AccountId,
}

#[derive(Clone, Copy, Debug, PartialEq, Eq, Structural)]
pub struct NameChanged {
    pub name: HashValue,
}

#[derive(Clone, Copy, Debug, PartialEq, Eq, Structural)]
pub struct AddMember {
    pub account_id: AccountId,
}

#[derive(Clone, Copy, Debug, PartialEq, Eq, Structural)]
pub struct RemoveMember {
    pub account_id: AccountId,
}

/// Controller-side notifications, recorded exactly once per successful
/// operation and never on failure.
#[derive(Clone, Copy, Debug, PartialEq, Eq, Structural)]
pub enum ContractEvent {
    IssuedByContract(IssuedByContract),
    RevokedByContract(RevokedByContract),
    NameChanged(NameChanged),
    AddMember(AddMember),
    RemoveMember(RemoveMember),
}

/// One organization: a display name, the owning account with exclusive
/// administrative rights, the membership set and the record of emitted
/// notifications.
pub struct OrgContract {
    pub name: HashValue,
    pub owner: AccountId,
    pub members: HashMap<AccountId, bool>,
    pub events: Vec<ContractEvent>,
}

impl OrgContract {
    /// The account is a listed member. The owner is not required to be
    /// one: see [`OrgContract::is_authorized`].
    pub open spec fn spec_is_member(self, account_id: AccountId) -> bool {
        self.members@.contains_key(account_id) && self.members@[account_id]
    }

    /// The membership gate for `issue`/`revoke`: the owner is implicitly
    /// always authorized, everyone else must be a listed member.
    pub open spec fn is_authorized(self, account_id: AccountId) -> bool {
        account_id == self.owner || self.spec_is_member(account_id)
    }

    /// Well-formedness: the membership store only ever holds the value
    /// `true`, so presence of a key and membership coincide.
    pub open spec fn wf(self) -> bool {
        forall|a: AccountId| #[trigger] self.members@.contains_key(a) ==> self.members@[a]
    }

    /// Creates the organization: the creating caller becomes owner and
    /// the membership set is initialized to exactly the owner.
    pub fn new(caller: AccountId, name: HashValue) -> (r: OrgContract)
        ensures
            r.wf(),
            r.name == name,
            r.owner == caller,
            r.members@ == Map::<AccountId, bool>::empty().insert(caller, true),
            r.events@ == Seq::<ContractEvent>::empty(),
    {
        let mut members: HashMap<AccountId, bool> = HashMap::new();
        members.insert(caller, true);
        OrgContract { name, owner: caller, members, events: Vec::new() }
    }

    pub fn get(&self) -> (r: HashValue)
        ensures
            r == self.name,
    {
        self.name
    }

    /// Renames the organization. Always succeeds and records
    /// `NameChanged`; no other state is touched.
    pub fn set(&mut self, value: HashValue) -> (r: Result<(), ContractError>)
        ensures
            r == Ok::<(), ContractError>(()),
            final(self).name == value,
            final(self).owner == old(self).owner,
            final(self).members@ == old(self).members@,
            final(self).events@ == old(self).events@.push(
                ContractEvent::NameChanged((NameChanged { name: value })),
            ),
    {
        self.name = value;
        self.events.push(ContractEvent::NameChanged(NameChanged { name: value }));
        Ok(())
    }

    pub fn get_owner(&self) -> (r: AccountId)
        ensures
            r == self.owner,
    {
        self.owner
    }

    /// Membership lookup; unknown accounts default to `false`.
    pub fn is_member(&self, account_id: AccountId) -> (r: bool)
        ensures
            r == self.spec_is_member(account_id),
    {
        match self.members.get(&account_id) {
            Some(b) => *b,
            None => false,
        }
    }

    /// Adds a member. Only the owner may do so (else `NoPermission`), and
    /// the account must not already be a member (else `AlreadyAMember`);
    /// on failure nothing changes and no notification is recorded.
    pub fn add_member(&mut self, caller: AccountId, account_id: AccountId) -> (r: Result<
        (),
        ContractError,
    >)
        requires
            old(self).wf(),
        ensures
            final(self).wf(),
            add_member_post(*old(self), *final(self), caller, account_id, r),
    {
        if caller != self.owner {
            return Err(ContractError::NoPermission);
        }
        if self.members.contains_key(&account_id) {
            return Err(ContractError::AlreadyAMember);
        }
        self.members.insert(account_id, true);
        self.events.push(ContractEvent::AddMember(AddMember { account_id }));
        Ok(())
    }

    /// Removes a member. Only the owner may do so (else `NoPermission`),
    /// and the account must currently be a member (else `NotAMember`); on
    /// failure nothing changes and no notification is recorded.
    pub fn remove_member(&mut self, caller: AccountId, account_id: AccountId) -> (r: Result<
        (),
        ContractError,
    >)
        requires
            old(self).wf(),
        ensures
            final(self).wf(),
            remove_member_post(*old(self), *final(self), caller, account_id, r),
    {
        if caller != self.owner {
            return Err(ContractError::NoPermission);
        }
        if !self.members.contains_key(&account_id) {
            return Err(ContractError::NotAMember);
        }
        self.members.remove(&account_id);
        self.events.push(ContractEvent::RemoveMember(RemoveMember { account_id }));
        Ok(())
    }

    /// Issues a credential on behalf of the organization. The caller must
    /// pass the membership gate before any delegated call is attempted;
    /// the mutation itself is delegated to the ledger through the
    /// gateway, and `IssuedByContract` is recorded only after the
    /// delegated call has succeeded. A gateway failure propagates
    /// unchanged, with no state touched on either side of the boundary.
    pub fn issue(&mut self, caller: AccountId, runtime: &mut Pallet, value: HashValue) -> (r:
        Result<(), ContractError>)
        requires
            old(self).wf(),
            old(runtime).wf(),
        ensures
            final(self).wf(),
            final(runtime).wf(),
            contract_issue_post(
                *old(self),
                *final(self),
                *old(runtime),
                *final(runtime),
                caller,
                value,
                r,
            ),
    {
        let caller_is_owner = caller == self.owner;
        if !(caller_is_owner || self.is_member(caller)) {
            return Err(ContractError::NoPermission);
        }
        match gateway::issue_in_runtime(runtime, caller, value) {
            Ok(_) => {},
            Err(e) => {
                return Err(e);
            },
        }
        self.events.push(
            ContractEvent::IssuedByContract(IssuedByContract { value, account_id: caller }),
        );
        Ok(())
    }

    /// Revokes a credential on behalf of the organization, symmetric to
    /// [`OrgContract::issue`]: membership gate first, then the delegated
    /// call, and `RevokedByContract` only after it has succeeded.
    pub fn revoke(&mut self, caller: AccountId, runtime: &mut Pallet, value: HashValue) -> (r:
        Result<(), ContractError>)
        requires
            old(self).wf(),
            old(runtime).wf(),
        ensures
            final(self).wf(),
            final(runtime).wf(),
            contract_revoke_post(
                *old(self),
                *final(self),
                *old(runtime),
                *final(runtime),
                caller,
                value,
                r,
            ),
    {
        let caller_is_owner = caller == self.owner;
        if !(caller_is_owner || self.is_member(caller)) {
            return Err(ContractError::NoPermission);
        }
        match gateway::revoke_in_runtime(runtime, caller, value) {
            Ok(_) => {},
            Err(e) => {
                return Err(e);
            },
        }
        self.events.push(
            ContractEvent::RevokedByContract(RevokedByContract { value, account_id: caller }),
        );
        Ok(())
    }
}

/// Exactly how [`OrgContract::add_member`] relates its pre- and
/// post-state to its result, for every input.
pub open spec fn add_member_post(
    pre: OrgContract,
    post: OrgContract,
    caller: AccountId,
    account_id: AccountId,
    r: Result<(), ContractError>,
) -> bool {
    match r {
        Ok(()) => {
            &&& r == Ok::<(), ContractError>(())
            &&& caller == pre.owner
            &&& !pre.spec_is_member(account_id)
            &&& post.name == pre.name
            &&& post.owner == pre.owner
            &&& post.members@ == pre.members@.insert(account_id, true)
            &&& post.events@ == pre.events@.push(ContractEvent::AddMember(AddMember { account_id }))
        },
        Err(e) => {
            &&& post == pre
            &&& match e {
                ContractError::NoPermission => caller != pre.owner,
                ContractError::AlreadyAMember => caller == pre.owner && pre.spec_is_member(
                    account_id,
                ),
                _ => false,
            }
        },
    }
}

/// Exactly how [`OrgContract::remove_member`] relates its pre- and
/// post-state to its result, for every input.
pub open spec fn remove_member_post(
    pre: OrgContract,
    post: OrgContract,
    caller: AccountId,
    account_id: AccountId,
    r: Result<(), ContractError>,
) -> bool {
    match r {
        Ok(()) => {
            &&& r == Ok::<(), ContractError>(())
            &&& caller == pre.owner
            &&& pre.spec_is_member(account_id)
            &&& post.name == pre.name
            &&& post.owner == pre.owner
            &&& post.members@ == pre.members@.remove(account_id)
            &&& post.events@ == pre.events@.push(
                ContractEvent::RemoveMember(RemoveMember { account_id }),
            )
        },
        Err(e) => {
            &&& post == pre
            &&& match e {
                ContractError::NoPermission => caller != pre.owner,
                ContractError::NotAMember => caller == pre.owner && !pre.spec_is_member(account_id),
                _ => false,
            }
        },
    }
}

/// Exactly how [`OrgContract::issue`] relates the controller's and the
/// runtime's pre- and post-states to its result, for every input. The
/// controller's name, owner and membership are never touched by an issue.
pub open spec fn contract_issue_post(
    pre: OrgContract,
    post: OrgContract,
    rt_pre: Pallet,
    rt_post: Pallet,
    caller: AccountId,
    value: HashValue,
    r: Result<(), ContractError>,
) -> bool {
    &&& post.name == pre.name
    &&& post.owner == pre.owner
    &&& post.members@ == pre.members@
    &&& match r {
        Ok(()) => {
            &&& r == Ok::<(), ContractError>(())
            &&& pre.is_authorized(caller)
            &&& ledger::issue_post(rt_pre, rt_post, caller, value, Ok(()))
            &&& post.events@ == pre.events@.push(
                ContractEvent::IssuedByContract(IssuedByContract { value, account_id: caller }),
            )
        },
        Err(e) => {
            &&& post == pre
            &&& rt_post == rt_pre
            &&& match e {
                ContractError::NoPermission => !pre.is_authorized(caller),
                ContractError::UnknownStatusCode => pre.is_authorized(caller) && rt_pre.issued(
                    value,
                ),
                _ => false,
            }
        },
    }
}

/// Exactly how [`OrgContract::revoke`] relates the controller's and the
/// runtime's pre- and post-states to its result, for every input.
pub open spec fn contract_revoke_post(
    pre: OrgContract,
    post: OrgContract,
    rt_pre: Pallet,
    rt_post: Pallet,
    caller: AccountId,
    value: HashValue,
    r: Result<(), ContractError>,
) -> bool {
    &&& post.name == pre.name
    &&& post.owner == pre.owner
    &&& post.members@ == pre.members@
    &&& match r {
        Ok(()) => {
            &&& r == Ok::<(), ContractError>(())
            &&& pre.is_authorized(caller)
            &&& ledger::revoke_post(rt_pre, rt_post, caller, value, Ok(()))
            &&& post.events@ == pre.events@.push(
                ContractEvent::RevokedByContract(RevokedByContract { value, account_id: caller }),
            )
        },
        Err(e) => {
            &&& post == pre
            &&& rt_post == rt_pre
            &&& match e {
                ContractError::NoPermission => !pre.is_authorized(caller),
                ContractError::UnknownStatusCode => pre.is_authorized(caller) && (!rt_pre.issued(
                    value,
                ) || rt_pre.issuer_of(value) != caller),
                _ => false,
            }
        },
    }
}

/// Only the owner may administer membership: an `add_member` or
/// `remove_member` attempt by any other caller fails with `NoPermission`
/// and leaves the organization — membership set included — unchanged.
pub proof fn lemma_only_owner_manages_members(
    pre: OrgContract,
    post_add: OrgContract,
    post_remove: OrgContract,
    caller: AccountId,
    added: AccountId,
    removed: AccountId,
    r_add: Result<(), ContractError>,
    r_remove: Result<(), ContractError>,
)
    requires
        caller != pre.owner,
        add_member_post(pre, post_add, caller, added, r_add),
        remove_member_post(pre, post_remove, caller, removed, r_remove),
    ensures
        r_add == Err::<(), ContractError>(ContractError::NoPermission),
        post_add == pre,
        r_remove == Err::<(), ContractError>(ContractError::NoPermission),
        post_remove == pre,
{
}

/// Adding an account that is already a member fails with
/// `AlreadyAMember` and changes nothing, even for the owner.
pub proof fn lemma_add_present_member_rejected(
    pre: OrgContract,
    post: OrgContract,
    account_id: AccountId,
    r: Result<(), ContractError>,
)
    requires
        pre.spec_is_member(account_id),
        add_member_post(pre, post, pre.owner, account_id, r),
    ensures
        r == Err::<(), ContractError>(ContractError::AlreadyAMember),
        post == pre,
{
}

/// Removing an account that is not a member fails with `NotAMember` and
/// changes nothing, even for the owner.
pub proof fn lemma_remove_absent_member_rejected(
    pre: OrgContract,
    post: OrgContract,
    account_id: AccountId,
    r: Result<(), ContractError>,
)
    requires
        !pre.spec_is_member(account_id),
        remove_member_post(pre, post, pre.owner, account_id, r),
    ensures
        r == Err::<(), ContractError>(ContractError::NotAMember),
        post == pre,
{
}

/// A controller `issue` by a caller who fails the membership gate fails
/// with `NoPermission` before any delegated call is attempted: the
/// runtime — its notification record included — is untouched.
pub proof fn lemma_unauthorized_issue_not_delegated(
    pre: OrgContract,
    post: OrgContract,
    rt_pre: Pallet,
    rt_post: Pallet,
    caller: AccountId,
    value: HashValue,
    r: Result<(), ContractError>,
)
    requires
        !pre.is_authorized(caller),
        contract_issue_post(pre, post, rt_pre, rt_post, caller, value, r),
    ensures
        r == Err::<(), ContractError>(ContractError::NoPermission),
        post == pre,
        rt_post == rt_pre,
        rt_post.events@ == rt_pre.events@,
{
}

/// A controller `revoke` by a caller who fails the membership gate fails
/// with `NoPermission` before any delegated call is attempted: the
/// runtime — its notification record included — is untouched.
pub proof fn lemma_unauthorized_revoke_not_delegated(
    pre: OrgContract,
    post: OrgContract,
    rt_pre: Pallet,
    rt_post: Pallet,
    caller: AccountId,
    value: HashValue,
    r: Result<(), ContractError>,
)
    requires
        !pre.is_authorized(caller),
        contract_revoke_post(pre, post, rt_pre, rt_post, caller, value, r),
    ensures
        r == Err::<(), ContractError>(ContractError::NoPermission),
        post == pre,
        rt_post == rt_pre,
        rt_post.events@ == rt_pre.events@,
{
}

} // verus!

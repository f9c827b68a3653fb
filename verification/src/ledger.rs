//! The ledger mutation service: the authoritative key-value stores for
//! credential issuance and revocation, and the two mutating operations
//! (`issue`, `revoke`) that enforce the core ownership invariant.

use std::collections::HashMap;
use vstd::prelude::*;

verus! {

broadcast use vstd::std_specs::hash::group_hash_axioms;

/// An opaque, pre-authenticated account identity. Authentication happens
/// outside this library; every mutating operation receives the caller
/// explicitly.
pub type AccountId = u64;

/// A fixed-width hash value, as produced by an external hashing
/// collaborator. Credential identifiers and organization names arrive as
/// such values and are opaque to this library.
pub type HashValue = u64;

/// Service-layer errors: all deterministic, state-derived and
/// non-retryable.
#[derive(Clone, Copy, Debug, PartialEq, Eq, Structural)]
pub enum Error {
    /// Defensive only: an issuer lookup failed after an existence check.
    /// The contracts of [`Pallet::revoke`] prove it is never returned.
    NoOwner,
    /// The caller is not the issuer of the credential it tried to revoke.
    IncorrectOwner,
    /// The credential identifier already has an issuer.
    AlreadyExists,
    /// The credential identifier has no issuer.
    DoesNotExist,
}

/// Service-layer notifications, recorded exactly once per successful
/// mutating operation and never on failure.
#[derive(Clone, Copy, Debug, PartialEq, Eq, Structural)]
pub enum Event {
    Issued(AccountId, HashValue),
    Revoked(AccountId, HashValue),
}

/// A credential record as observable through [`Pallet::certificate_struct`]:
/// the account that issued it and whether it has been revoked.
#[derive(Clone, Copy, Debug, PartialEq, Eq, Structural)]
pub struct Certificate {
    pub issuer: AccountId,
    pub is_revoked: bool,
}

impl Default for Certificate {
    fn default() -> (r: Certificate)
        ensures
            r.issuer == 0,
            !r.is_revoked,
    {
        Certificate { issuer: 0, is_revoked: false }
    }
}

/// The ledger state: an issuer index resolving each issued credential to
/// the account that issued it, a revocation-status store keyed by
/// credential, and the record of emitted notifications.
pub struct Pallet {
    /// credential identifier -> issuer account, for every currently
    /// issued credential.
    pub issuers: HashMap<HashValue, AccountId>,
    /// credential identifier -> revocation flag. Revoking removes the
    /// issuer-index entry (freeing the identifier for re-issuance) and
    /// sets this flag.
    pub revocations: HashMap<HashValue, bool>,
    pub events: Vec<Event>,
}

impl Pallet {
    /// The credential currently has an issuer.
    pub open spec fn issued(self, credential_id: HashValue) -> bool {
        self.issuers@.contains_key(credential_id)
    }

    /// The issuer of a currently issued credential.
    pub open spec fn issuer_of(self, credential_id: HashValue) -> AccountId {
        self.issuers@[credential_id]
    }

    /// The credential has been revoked (and not re-issued since).
    pub open spec fn revoked(self, credential_id: HashValue) -> bool {
        self.revocations@.contains_key(credential_id) && self.revocations@[credential_id]
    }

    /// Well-formedness: an issued credential always carries a revocation
    /// flag, and that flag is false while the credential is issued.
    pub open spec fn wf(self) -> bool {
        forall|id: HashValue| #[trigger]
            self.issuers@.contains_key(id) ==> self.revocations@.contains_key(id)
                && !self.revocations@[id]
    }

    pub fn new() -> (r: Pallet)
        ensures
            r.wf(),
            r.issuers@ == Map::<HashValue, AccountId>::empty(),
            r.revocations@ == Map::<HashValue, bool>::empty(),
            r.events@ == Seq::<Event>::empty(),
    {
        Pallet { issuers: HashMap::new(), revocations: HashMap::new(), events: Vec::new() }
    }

    /// Records a new credential for `caller`. Fails with `AlreadyExists`
    /// if and only if the identifier already has an issuer; on failure
    /// nothing is written and no notification is recorded.
    pub fn issue(&mut self, caller: AccountId, credential_id: HashValue) -> (r: Result<
        (),
        Error,
    >)
        requires
            old(self).wf(),
        ensures
            final(self).wf(),
            issue_post(*old(self), *final(self), caller, credential_id, r),
    {
        if self.issuers.contains_key(&credential_id) {
            return Err(Error::AlreadyExists);
        }
        self.issuers.insert(credential_id, caller);
        self.revocations.insert(credential_id, false);
        self.events.push(Event::Issued(caller, credential_id));
        Ok(())
    }

    /// Revokes a credential. Fails with `DoesNotExist` if and only if the
    /// identifier has no issuer, and with `IncorrectOwner` if and only if
    /// the caller is not that issuer; on failure nothing is written and no
    /// notification is recorded. On success the issuer-index entry is
    /// removed — the identifier becomes eligible for re-issuance — and the
    /// revocation flag is set.
    pub fn revoke(&mut self, caller: AccountId, credential_id: HashValue) -> (r: Result<
        (),
        Error,
    >)
        requires
            old(self).wf(),
        ensures
            final(self).wf(),
            revoke_post(*old(self), *final(self), caller, credential_id, r),
    {
        if !self.issuers.contains_key(&credential_id) {
            return Err(Error::DoesNotExist);
        }
        let owner = match self.issuers.get(&credential_id) {
            Some(a) => *a,
            // Defensive: unreachable, since the existence check above
            // succeeded and the map is unchanged in between.
            None => {
                return Err(Error::NoOwner);
            },
        };
        if caller != owner {
            return Err(Error::IncorrectOwner);
        }
        self.issuers.remove(&credential_id);
        self.revocations.insert(credential_id, true);
        self.events.push(Event::Revoked(caller, credential_id));
        Ok(())
    }

    /// The issuer index, as observable by callers.
    pub fn certificate_issuer(&self, credential_id: HashValue) -> (r: Option<AccountId>)
        ensures
            r == (if self.issued(credential_id) {
                Some(self.issuer_of(credential_id))
            } else {
                None::<AccountId>
            }),
    {
        match self.issuers.get(&credential_id) {
            Some(a) => Some(*a),
            None => None,
        }
    }

    /// The revocation-status store, as observable by callers.
    pub fn certificate_revocation(&self, credential_id: HashValue) -> (r: Option<bool>)
        ensures
            r == (if self.revocations@.contains_key(credential_id) {
                Some(self.revocations@[credential_id])
            } else {
                None::<bool>
            }),
    {
        match self.revocations.get(&credential_id) {
            Some(b) => Some(*b),
            None => None,
        }
    }

    /// The credential record for a currently issued credential.
    pub fn certificate_struct(&self, credential_id: HashValue) -> (r: Option<Certificate>)
        ensures
            r == (if self.issued(credential_id) {
                Some(
                    (Certificate {
                        issuer: self.issuer_of(credential_id),
                        is_revoked: self.revoked(credential_id),
                    }),
                )
            } else {
                None::<Certificate>
            }),
    {
        match self.issuers.get(&credential_id) {
            Some(a) => {
                let flag = match self.revocations.get(&credential_id) {
                    Some(b) => *b,
                    None => false,
                };
                Some(Certificate { issuer: *a, is_revoked: flag })
            },
            None => None,
        }
    }
}

/// Exactly how [`Pallet::issue`] relates its pre- and post-state to its
/// result, for every input.
pub open spec fn issue_post(
    pre: Pallet,
    post: Pallet,
    caller: AccountId,
    credential_id: HashValue,
    r: Result<(), Error>,
) -> bool {
    match r {
        Ok(()) => {
            &&& r == Ok::<(), Error>(())
            &&& !pre.issued(credential_id)
            &&& post.issuers@ == pre.issuers@.insert(credential_id, caller)
            &&& post.revocations@ == pre.revocations@.insert(credential_id, false)
            &&& post.events@ == pre.events@.push(Event::Issued(caller, credential_id))
        },
        Err(e) => {
            &&& e == Error::AlreadyExists
            &&& pre.issued(credential_id)
            &&& post == pre
        },
    }
}

/// Exactly how [`Pallet::revoke`] relates its pre- and post-state to its
/// result, for every input. `NoOwner` never occurs: an issued credential
/// always has a resolvable issuer.
pub open spec fn revoke_post(
    pre: Pallet,
    post: Pallet,
    caller: AccountId,
    credential_id: HashValue,
    r: Result<(), Error>,
) -> bool {
    match r {
        Ok(()) => {
            &&& r == Ok::<(), Error>(())
            &&& pre.issued(credential_id)
            &&& pre.issuer_of(credential_id) == caller
            &&& post.issuers@ == pre.issuers@.remove(credential_id)
            &&& post.revocations@ == pre.revocations@.insert(credential_id, true)
            &&& post.events@ == pre.events@.push(Event::Revoked(caller, credential_id))
        },
        Err(e) => {
            &&& post == pre
            &&& match e {
                Error::DoesNotExist => !pre.issued(credential_id),
                Error::IncorrectOwner => pre.issued(credential_id) && pre.issuer_of(credential_id)
                    != caller,
                _ => false,
            }
        },
    }
}

/// Issuing a fresh credential identifier succeeds, and issuing the same
/// identifier again — by any caller — fails with `AlreadyExists` and
/// leaves the state exactly as it was after the first issue.
pub proof fn lemma_issue_is_not_repeatable(
    s0: Pallet,
    s1: Pallet,
    s2: Pallet,
    a: AccountId,
    b: AccountId,
    credential_id: HashValue,
    r1: Result<(), Error>,
    r2: Result<(), Error>,
)
    requires
        !s0.issued(credential_id),
        issue_post(s0, s1, a, credential_id, r1),
        issue_post(s1, s2, b, credential_id, r2),
    ensures
        r1 == Ok::<(), Error>(()),
        r2 == Err::<(), Error>(Error::AlreadyExists),
        s2 == s1,
{
    assert(s1.issuers@.contains_key(credential_id));
}

/// Revoking a credential identifier that was never issued fails with
/// `DoesNotExist` and changes nothing.
pub proof fn lemma_revoke_unissued_rejected(
    s0: Pallet,
    s1: Pallet,
    caller: AccountId,
    credential_id: HashValue,
    r: Result<(), Error>,
)
    requires
        !s0.issued(credential_id),
        revoke_post(s0, s1, caller, credential_id, r),
    ensures
        r == Err::<(), Error>(Error::DoesNotExist),
        s1 == s0,
{
}

/// A successful revoke is always performed by the credential's issuer.
pub proof fn lemma_successful_revoke_is_by_issuer(
    pre: Pallet,
    post: Pallet,
    caller: AccountId,
    credential_id: HashValue,
)
    requires
        revoke_post(pre, post, caller, credential_id, Ok(())),
    ensures
        pre.issued(credential_id),
        pre.issuer_of(credential_id) == caller,
{
}

/// After `a` issues a credential, a revoke attempt by any other account
/// fails with `IncorrectOwner`, changes nothing, and the credential stays
/// issued and non-revoked.
pub proof fn lemma_only_issuer_revokes(
    s0: Pallet,
    s1: Pallet,
    s2: Pallet,
    a: AccountId,
    b: AccountId,
    credential_id: HashValue,
    r: Result<(), Error>,
)
    requires
        issue_post(s0, s1, a, credential_id, Ok(())),
        revoke_post(s1, s2, b, credential_id, r),
        b != a,
    ensures
        r == Err::<(), Error>(Error::IncorrectOwner),
        s2 == s1,
        s2.issued(credential_id),
        !s2.revoked(credential_id),
{
    assert(s1.issuers@.contains_key(credential_id));
    assert(s1.issuer_of(credential_id) == a);
}

/// For a fixed credential identifier, the sequence issue, revoke, issue
/// is accepted: a successful revoke frees the identifier, so the third
/// step succeeds for any caller.
pub proof fn lemma_reissue_after_revoke(
    s0: Pallet,
    s1: Pallet,
    s2: Pallet,
    s3: Pallet,
    a: AccountId,
    b: AccountId,
    credential_id: HashValue,
    r: Result<(), Error>,
)
    requires
        issue_post(s0, s1, a, credential_id, Ok(())),
        revoke_post(s1, s2, a, credential_id, Ok(())),
        issue_post(s2, s3, b, credential_id, r),
    ensures
        r == Ok::<(), Error>(()),
{
    assert(!s2.issuers@.contains_key(credential_id));
}

} // verus!

use org_certify::gateway::{self, ContractError};
use org_certify::ledger::{Certificate, Error, Event, Pallet};
use org_certify::org::{
    AddMember, ContractEvent, IssuedByContract, NameChanged, OrgContract, RemoveMember,
    RevokedByContract,
};

const ALICE: u64 = 1;
const BOB: u64 = 2;
const CAROL: u64 = 3;

#[test]
fn issue_once_succeeds_and_repeat_is_rejected() {
    let mut p = Pallet::new();
    assert_eq!(p.issue(ALICE, 100), Ok(()));
    assert_eq!(p.certificate_issuer(100), Some(ALICE));
    assert_eq!(p.certificate_revocation(100), Some(false));
    assert_eq!(p.events, vec![Event::Issued(ALICE, 100)]);

    // The same identifier again, from any caller: rejected, nothing moves.
    assert_eq!(p.issue(BOB, 100), Err(Error::AlreadyExists));
    assert_eq!(p.issue(ALICE, 100), Err(Error::AlreadyExists));
    assert_eq!(p.certificate_issuer(100), Some(ALICE));
    assert_eq!(p.certificate_revocation(100), Some(false));
    assert_eq!(p.events, vec![Event::Issued(ALICE, 100)]);
}

#[test]
fn revoke_of_unknown_credential_is_rejected() {
    let mut p = Pallet::new();
    assert_eq!(p.revoke(ALICE, 55), Err(Error::DoesNotExist));
    assert_eq!(p.certificate_issuer(55), None);
    assert_eq!(p.certificate_revocation(55), None);
    assert!(p.events.is_empty());
}

#[test]
fn only_the_issuer_may_revoke() {
    let mut p = Pallet::new();
    assert_eq!(p.issue(ALICE, 100), Ok(()));

    assert_eq!(p.revoke(BOB, 100), Err(Error::IncorrectOwner));
    // The credential is still issued and still non-revoked.
    assert_eq!(p.certificate_issuer(100), Some(ALICE));
    assert_eq!(p.certificate_revocation(100), Some(false));
    assert_eq!(p.events, vec![Event::Issued(ALICE, 100)]);

    assert_eq!(p.revoke(ALICE, 100), Ok(()));
    assert_eq!(p.certificate_issuer(100), None);
    assert_eq!(p.certificate_revocation(100), Some(true));
    assert_eq!(p.events, vec![Event::Issued(ALICE, 100), Event::Revoked(ALICE, 100)]);
}

#[test]
fn issue_revoke_issue_is_accepted() {
    let mut p = Pallet::new();
    assert_eq!(p.issue(ALICE, 7), Ok(()));
    assert_eq!(p.revoke(ALICE, 7), Ok(()));
    // The revoke freed the identifier: it may be issued again.
    assert_eq!(p.issue(BOB, 7), Ok(()));
    assert_eq!(p.certificate_issuer(7), Some(BOB));
    assert_eq!(p.certificate_revocation(7), Some(false));
}

#[test]
fn certificate_record_reflects_both_stores() {
    let mut p = Pallet::new();
    assert_eq!(p.certificate_struct(9), None);
    assert_eq!(p.issue(ALICE, 9), Ok(()));
    assert_eq!(p.certificate_struct(9), Some(Certificate { issuer: ALICE, is_revoked: false }));
    assert_eq!(p.revoke(ALICE, 9), Ok(()));
    // Revoking removes the record entirely.
    assert_eq!(p.certificate_struct(9), None);
    assert_eq!(Certificate::default(), Certificate { issuer: 0, is_revoked: false });
}

#[test]
fn status_codes_decode_lossily() {
    assert_eq!(ContractError::from_status_code(0), Ok(()));
    assert_eq!(ContractError::from_status_code(1), Err(ContractError::UnknownStatusCode));
    assert_eq!(ContractError::from_status_code(7), Err(ContractError::UnknownStatusCode));
    assert_eq!(ContractError::from_status_code(u32::MAX), Err(ContractError::UnknownStatusCode));
}

#[test]
fn every_service_error_gets_its_own_nonzero_code() {
    let codes = [
        gateway::status_code_of(Error::NoOwner),
        gateway::status_code_of(Error::IncorrectOwner),
        gateway::status_code_of(Error::AlreadyExists),
        gateway::status_code_of(Error::DoesNotExist),
    ];
    assert_eq!(codes, [1, 2, 3, 4]);
    for c in codes {
        assert_ne!(c, 0);
        assert_eq!(ContractError::from_status_code(c), Err(ContractError::UnknownStatusCode));
    }
}

#[test]
fn gateway_echoes_key_on_success_and_loses_error_kind() {
    let mut p = Pallet::new();
    assert_eq!(gateway::issue_in_runtime(&mut p, ALICE, 100), Ok(100));
    assert_eq!(p.events, vec![Event::Issued(ALICE, 100)]);

    // AlreadyExists and IncorrectOwner both come back as UnknownStatusCode.
    assert_eq!(gateway::issue_in_runtime(&mut p, BOB, 100), Err(ContractError::UnknownStatusCode));
    assert_eq!(gateway::revoke_in_runtime(&mut p, BOB, 100), Err(ContractError::UnknownStatusCode));
    assert_eq!(p.events, vec![Event::Issued(ALICE, 100)]);

    assert_eq!(gateway::revoke_in_runtime(&mut p, ALICE, 100), Ok(100));
    assert_eq!(p.events, vec![Event::Issued(ALICE, 100), Event::Revoked(ALICE, 100)]);
}

#[test]
fn construction_sets_owner_and_initial_membership() {
    let c = OrgContract::new(ALICE, 500);
    assert_eq!(c.get(), 500);
    assert_eq!(c.get_owner(), ALICE);
    assert!(c.is_member(ALICE));
    assert!(!c.is_member(BOB));
    assert!(c.events.is_empty());
}

#[test]
fn renaming_always_succeeds_and_is_recorded() {
    let mut c = OrgContract::new(ALICE, 500);
    assert_eq!(c.set(501), Ok(()));
    assert_eq!(c.get(), 501);
    assert_eq!(c.events, vec![ContractEvent::NameChanged(NameChanged { name: 501 })]);
}

#[test]
fn only_the_owner_manages_members() {
    let mut c = OrgContract::new(ALICE, 500);
    assert_eq!(c.add_member(BOB, CAROL), Err(ContractError::NoPermission));
    assert_eq!(c.remove_member(BOB, ALICE), Err(ContractError::NoPermission));
    assert!(!c.is_member(CAROL));
    assert!(c.is_member(ALICE));
    assert!(c.events.is_empty());

    assert_eq!(c.add_member(ALICE, BOB), Ok(()));
    assert!(c.is_member(BOB));
    assert_eq!(c.remove_member(ALICE, BOB), Ok(()));
    assert!(!c.is_member(BOB));
    assert_eq!(
        c.events,
        vec![
            ContractEvent::AddMember(AddMember { account_id: BOB }),
            ContractEvent::RemoveMember(RemoveMember { account_id: BOB }),
        ]
    );
}

#[test]
fn duplicate_and_absent_membership_changes_are_rejected() {
    let mut c = OrgContract::new(ALICE, 500);
    assert_eq!(c.add_member(ALICE, BOB), Ok(()));
    assert_eq!(c.add_member(ALICE, BOB), Err(ContractError::AlreadyAMember));
    assert_eq!(c.remove_member(ALICE, CAROL), Err(ContractError::NotAMember));
    assert!(c.is_member(BOB));
    assert!(!c.is_member(CAROL));
    assert_eq!(c.events, vec![ContractEvent::AddMember(AddMember { account_id: BOB })]);
}

#[test]
fn non_member_issue_and_revoke_are_stopped_before_delegation() {
    let mut p = Pallet::new();
    let mut c = OrgContract::new(ALICE, 500);
    assert_eq!(c.issue(BOB, &mut p, 100), Err(ContractError::NoPermission));
    assert_eq!(c.revoke(BOB, &mut p, 100), Err(ContractError::NoPermission));
    // No delegated call was attempted: the service recorded nothing.
    assert!(p.events.is_empty());
    assert!(c.events.is_empty());
    assert_eq!(p.certificate_issuer(100), None);
}

#[test]
fn end_to_end_scenario() {
    let h1: u64 = 100;
    let h2: u64 = 200;
    let mut p = Pallet::new();

    // Owner creates the organization and issues H1.
    let mut c = OrgContract::new(ALICE, 500);
    assert_eq!(c.issue(ALICE, &mut p, h1), Ok(()));
    assert_eq!(p.events, vec![Event::Issued(ALICE, h1)]);
    assert_eq!(
        c.events,
        vec![ContractEvent::IssuedByContract(IssuedByContract { value: h1, account_id: ALICE })]
    );

    // Non-member attempts to issue H2: rejected, no state change anywhere.
    assert_eq!(c.issue(CAROL, &mut p, h2), Err(ContractError::NoPermission));
    assert_eq!(p.certificate_issuer(h2), None);
    assert_eq!(p.events.len(), 1);
    assert_eq!(c.events.len(), 1);

    // Owner adds a member, who then issues H2.
    assert_eq!(c.add_member(ALICE, BOB), Ok(()));
    assert_eq!(c.issue(BOB, &mut p, h2), Ok(()));
    assert_eq!(p.certificate_issuer(h2), Some(BOB));

    // The member may not revoke the owner's credential; the error kind is
    // lost at the boundary.
    assert_eq!(c.revoke(BOB, &mut p, h1), Err(ContractError::UnknownStatusCode));
    assert_eq!(p.certificate_issuer(h1), Some(ALICE));
    assert_eq!(p.certificate_revocation(h1), Some(false));

    // The owner revokes H1, and both layers record it.
    assert_eq!(c.revoke(ALICE, &mut p, h1), Ok(()));
    assert_eq!(p.certificate_revocation(h1), Some(true));
    assert_eq!(
        p.events,
        vec![Event::Issued(ALICE, h1), Event::Issued(BOB, h2), Event::Revoked(ALICE, h1)]
    );
    assert_eq!(
        c.events,
        vec![
            ContractEvent::IssuedByContract(IssuedByContract { value: h1, account_id: ALICE }),
            ContractEvent::AddMember(AddMember { account_id: BOB }),
            ContractEvent::IssuedByContract(IssuedByContract { value: h2, account_id: BOB }),
            ContractEvent::RevokedByContract(RevokedByContract { value: h1, account_id: ALICE }),
        ]
    );

    // The revoke freed the identifier: the owner may issue H1 again.
    assert_eq!(c.issue(ALICE, &mut p, h1), Ok(()));
    assert_eq!(p.certificate_issuer(h1), Some(ALICE));
    assert_eq!(p.certificate_revocation(h1), Some(false));
}

#[test]
fn extreme_identifiers_are_ordinary_values() {
    let mut p = Pallet::new();
    assert_eq!(p.issue(u64::MAX, u64::MAX), Ok(()));
    assert_eq!(p.issue(0, u64::MAX), Err(Error::AlreadyExists));
    assert_eq!(p.certificate_issuer(u64::MAX), Some(u64::MAX));
    assert_eq!(p.revoke(u64::MAX, u64::MAX), Ok(()));

    let mut c = OrgContract::new(0, 0);
    assert_eq!(c.add_member(0, u64::MAX), Ok(()));
    assert!(c.is_member(u64::MAX));
    assert_eq!(c.issue(u64::MAX, &mut p, 0), Ok(()));
}

#[test]
fn owner_stays_authorized_without_being_listed() {
    let mut p = Pallet::new();
    let mut c = OrgContract::new(ALICE, 500);
    // The owner may remove itself from the membership list...
    assert_eq!(c.remove_member(ALICE, ALICE), Ok(()));
    assert!(!c.is_member(ALICE));
    // ...and may still issue: the owner is implicitly authorized.
    assert_eq!(c.issue(ALICE, &mut p, 100), Ok(()));
    assert_eq!(p.certificate_issuer(100), Some(ALICE));
}

use scribe_registry::pallet::Pallet;
use scribe_registry::types::{
    Call, Config, DispatchError, Error, Event, Origin, SRCInfo, ServiceInfo,
};

const ROOT: Origin = Origin::Root;
const ALICE: u64 = 1;
const BOB: u64 = 2;
const CAROL: u64 = 3;
const SERVICE: u64 = 10;

fn config() -> Config {
    Config {
        max_kuri_length: 8,
        max_service_id_length: 4,
        max_ip_address_length: 6,
        max_service_swarm_key_length: 5,
        max_service_status_file_length: 3,
        max_service_rff_file_length: 2,
    }
}

fn module(e: Error) -> Result<(), DispatchError> {
    Err(DispatchError::Module(e))
}

/// A registry in which ALICE and BOB are scribes.
fn with_scribes() -> Pallet {
    let mut p = Pallet::new(config());
    assert_eq!(p.force_update_scribe_authority_status(ROOT, ALICE, true), Ok(()));
    assert_eq!(p.force_update_scribe_authority_status(ROOT, BOB, true), Ok(()));
    p
}

/// ALICE's SRC "kuri".
fn with_src() -> Pallet {
    let mut p = with_scribes();
    assert_eq!(p.self_register_content(Origin::Signed(ALICE), b"kuri".to_vec()), Ok(()));
    p
}

/// SERVICE registered by ALICE.
fn with_service() -> Pallet {
    let mut p = with_scribes();
    assert_eq!(
        p.register_service(
            Origin::Signed(ALICE),
            SERVICE,
            b"id".to_vec(),
            b"1.2.3".to_vec(),
            b"key".to_vec(),
            b"st".to_vec(),
            b"rf".to_vec(),
        ),
        Ok(())
    );
    p
}

fn last_event(p: &Pallet) -> Event<Vec<u8>> {
    p.events().last().cloned().expect("an event")
}

// ------------------------------------------------------------------ creation

#[test]
fn new_registry_is_empty() {
    let p = Pallet::new(config());
    assert_eq!(p.total_srcs_created(), None);
    assert_eq!(p.total_services_created(), None);
    assert!(!p.is_authorized_scribe(ALICE));
    assert!(!p.is_service(SERVICE));
    assert!(!p.is_src_transfer_accepted(&b"kuri".to_vec(), BOB));
    assert_eq!(p.srcs(&b"kuri".to_vec()), None);
    assert_eq!(p.services(SERVICE), None);
    assert!(p.events().is_empty());
}

// --------------------------------------------------------- scribe authority

#[test]
fn root_adds_and_removes_scribes() {
    let mut p = Pallet::new(config());
    assert_eq!(p.force_update_scribe_authority_status(ROOT, ALICE, true), Ok(()));
    assert!(p.is_authorized_scribe(ALICE));
    assert_eq!(last_event(&p), Event::ScribeAddedByAdmin(ALICE));
    assert_eq!(p.force_update_scribe_authority_status(ROOT, ALICE, false), Ok(()));
    assert!(!p.is_authorized_scribe(ALICE));
    assert_eq!(last_event(&p), Event::ScribeRemovedByAdmin(ALICE));
    assert_eq!(p.events().len(), 2);
}

#[test]
fn only_root_forces_scribe_status() {
    let mut p = with_scribes();
    assert_eq!(
        p.force_update_scribe_authority_status(Origin::Signed(ALICE), CAROL, true),
        Err(DispatchError::BadOrigin)
    );
    assert_eq!(
        p.force_update_scribe_authority_status(Origin::Unsigned, CAROL, true),
        Err(DispatchError::BadOrigin)
    );
    assert!(!p.is_authorized_scribe(CAROL));
}

#[test]
fn scribe_adds_and_removes_scribes() {
    let mut p = with_scribes();
    assert_eq!(p.update_scribe_authority_status(Origin::Signed(ALICE), CAROL, true), Ok(()));
    assert!(p.is_authorized_scribe(CAROL));
    assert_eq!(last_event(&p), Event::ScribeAdded(ALICE, CAROL));
    assert_eq!(p.update_scribe_authority_status(Origin::Signed(CAROL), BOB, false), Ok(()));
    assert!(!p.is_authorized_scribe(BOB));
    assert_eq!(last_event(&p), Event::ScribeRemoved(CAROL, BOB));
}

#[test]
fn non_scribe_cannot_change_scribes() {
    let mut p = with_scribes();
    let before = p.events().len();
    assert_eq!(
        p.update_scribe_authority_status(Origin::Signed(CAROL), CAROL, true),
        module(Error::CallForbidden)
    );
    assert_eq!(p.update_scribe_authority_status(ROOT, CAROL, true), Err(DispatchError::BadOrigin));
    assert!(!p.is_authorized_scribe(CAROL));
    assert_eq!(p.events().len(), before);
}

// ---------------------------------------------------------------------- SRCs

#[test]
fn scribe_registers_src() {
    let mut p = with_scribes();
    assert_eq!(p.self_register_content(Origin::Signed(ALICE), b"kuri".to_vec()), Ok(()));
    assert_eq!(
        p.srcs(&b"kuri".to_vec()),
        Some(SRCInfo { kuri: b"kuri".to_vec(), owner: ALICE, scribe: ALICE, deleted: false })
    );
    assert_eq!(p.total_srcs_created(), Some(1));
    assert_eq!(last_event(&p), Event::SRCCreated(b"kuri".to_vec()));
    assert_eq!(p.self_register_content(Origin::Signed(BOB), b"other".to_vec()), Ok(()));
    assert_eq!(p.total_srcs_created(), Some(2));
}

#[test]
fn src_registration_errors() {
    let mut p = with_src();
    assert_eq!(
        p.self_register_content(Origin::Unsigned, b"new".to_vec()),
        Err(DispatchError::BadOrigin)
    );
    assert_eq!(p.self_register_content(ROOT, b"new".to_vec()), Err(DispatchError::BadOrigin));
    assert_eq!(
        p.self_register_content(Origin::Signed(CAROL), b"new".to_vec()),
        module(Error::CallForbidden)
    );
    assert_eq!(
        p.self_register_content(Origin::Signed(ALICE), b"123456789".to_vec()),
        module(Error::MaxKURILengthExceeded)
    );
    assert_eq!(
        p.self_register_content(Origin::Signed(BOB), b"kuri".to_vec()),
        module(Error::SRCAlreadyAdded)
    );
    assert_eq!(p.total_srcs_created(), Some(1));
    assert_eq!(
        p.srcs(&b"kuri".to_vec()).map(|i| i.owner),
        Some(ALICE)
    );
}

#[test]
fn kuri_at_the_limit_is_accepted() {
    let mut p = with_scribes();
    assert_eq!(p.self_register_content(Origin::Signed(ALICE), b"12345678".to_vec()), Ok(()));
    assert_eq!(p.self_register_content(Origin::Signed(ALICE), Vec::new()), Ok(()));
    assert_eq!(p.total_srcs_created(), Some(2));
}

#[test]
fn transfer_of_src() {
    let mut p = with_src();
    let kuri = b"kuri".to_vec();
    // Nobody accepted yet.
    assert_eq!(p.transfer_src(Origin::Signed(ALICE), CAROL, kuri.clone()), module(Error::CallForbidden));
    // The owner cannot accept its own SRC.
    assert_eq!(p.accept_src_transfer(Origin::Signed(ALICE), kuri.clone()), module(Error::CallForbidden));
    // CAROL accepts; she need not be a scribe.
    assert_eq!(p.accept_src_transfer(Origin::Signed(CAROL), kuri.clone()), Ok(()));
    assert!(p.is_src_transfer_accepted(&kuri, CAROL));
    assert_eq!(last_event(&p), Event::SRCTransferAccepted(kuri.clone(), CAROL));
    // Only the owner transfers.
    assert_eq!(p.transfer_src(Origin::Signed(BOB), CAROL, kuri.clone()), module(Error::CallForbidden));
    assert_eq!(p.transfer_src(Origin::Signed(ALICE), CAROL, kuri.clone()), Ok(()));
    assert_eq!(last_event(&p), Event::SRCTransferred(kuri.clone()));
    let info = p.srcs(&kuri).unwrap();
    assert_eq!(info.owner, CAROL);
    assert_eq!(info.scribe, ALICE);
    // The acceptance stays stored.
    assert!(p.is_src_transfer_accepted(&kuri, CAROL));
}

#[test]
fn transfer_errors() {
    let mut p = with_src();
    assert_eq!(p.accept_src_transfer(Origin::Unsigned, b"kuri".to_vec()), Err(DispatchError::BadOrigin));
    assert_eq!(
        p.accept_src_transfer(Origin::Signed(BOB), b"123456789".to_vec()),
        module(Error::MaxKURILengthExceeded)
    );
    assert_eq!(p.accept_src_transfer(Origin::Signed(BOB), b"none".to_vec()), module(Error::SRCNotFound));
    assert_eq!(
        p.transfer_src(Origin::Signed(ALICE), BOB, b"123456789".to_vec()),
        module(Error::MaxKURILengthExceeded)
    );
    assert_eq!(p.transfer_src(ROOT, BOB, b"kuri".to_vec()), Err(DispatchError::BadOrigin));
    assert_eq!(p.accept_src_transfer(Origin::Signed(BOB), b"kuri".to_vec()), Ok(()));
    assert_eq!(p.delete_src(Origin::Signed(ALICE), b"kuri".to_vec()), Ok(()));
    assert_eq!(
        p.accept_src_transfer(Origin::Signed(CAROL), b"kuri".to_vec()),
        module(Error::SRCAlreadyDeleted)
    );
    assert_eq!(
        p.transfer_src(Origin::Signed(ALICE), BOB, b"kuri".to_vec()),
        module(Error::SRCAlreadyDeleted)
    );
}

#[test]
fn acceptance_is_per_kuri_and_account() {
    let mut p = with_src();
    assert_eq!(p.force_update_src_info(ROOT, b"other".to_vec(), ALICE, ALICE, false), Ok(()));
    assert_eq!(p.accept_src_transfer(Origin::Signed(BOB), b"other".to_vec()), Ok(()));
    assert!(p.is_src_transfer_accepted(&b"other".to_vec(), BOB));
    assert!(!p.is_src_transfer_accepted(&b"kuri".to_vec(), BOB));
    assert!(!p.is_src_transfer_accepted(&b"other".to_vec(), CAROL));
    assert_eq!(
        p.transfer_src(Origin::Signed(ALICE), BOB, b"kuri".to_vec()),
        module(Error::CallForbidden)
    );
    assert_eq!(
        p.transfer_src(Origin::Signed(ALICE), CAROL, b"other".to_vec()),
        module(Error::CallForbidden)
    );
    assert_eq!(p.transfer_src(Origin::Signed(ALICE), BOB, b"other".to_vec()), Ok(()));
}

#[test]
fn deletion_of_src() {
    let mut p = with_src();
    let kuri = b"kuri".to_vec();
    assert_eq!(p.delete_src(Origin::Signed(BOB), kuri.clone()), module(Error::CallForbidden));
    assert_eq!(p.delete_src(Origin::Signed(ALICE), b"none".to_vec()), module(Error::SRCNotFound));
    assert_eq!(
        p.delete_src(Origin::Signed(ALICE), b"123456789".to_vec()),
        module(Error::MaxKURILengthExceeded)
    );
    assert_eq!(p.delete_src(Origin::Unsigned, kuri.clone()), Err(DispatchError::BadOrigin));
    assert_eq!(p.delete_src(Origin::Signed(ALICE), kuri.clone()), Ok(()));
    assert_eq!(last_event(&p), Event::SRCDeleted(kuri.clone()));
    assert_eq!(
        p.srcs(&kuri),
        Some(SRCInfo { kuri: kuri.clone(), owner: ALICE, scribe: ALICE, deleted: true })
    );
    assert_eq!(p.delete_src(Origin::Signed(ALICE), kuri.clone()), module(Error::SRCAlreadyDeleted));
    // A deleted SRC still blocks registration of its KURI.
    assert_eq!(
        p.self_register_content(Origin::Signed(BOB), kuri.clone()),
        module(Error::SRCAlreadyAdded)
    );
}

#[test]
fn root_overwrites_src() {
    let mut p = with_src();
    let kuri = b"kuri".to_vec();
    assert_eq!(p.delete_src(Origin::Signed(ALICE), kuri.clone()), Ok(()));
    assert_eq!(p.force_update_src_info(ROOT, kuri.clone(), BOB, CAROL, false), Ok(()));
    assert_eq!(
        p.srcs(&kuri),
        Some(SRCInfo { kuri: kuri.clone(), owner: BOB, scribe: CAROL, deleted: false })
    );
    assert_eq!(last_event(&p), Event::SRCUpdated(kuri.clone()));
    // The counter counts registrations by scribes only.
    assert_eq!(p.force_update_src_info(ROOT, b"new".to_vec(), BOB, BOB, true), Ok(()));
    assert_eq!(p.total_srcs_created(), Some(1));
    assert_eq!(
        p.force_update_src_info(ROOT, b"123456789".to_vec(), BOB, BOB, true),
        module(Error::MaxKURILengthExceeded)
    );
    assert_eq!(
        p.force_update_src_info(Origin::Signed(ALICE), kuri.clone(), ALICE, ALICE, false),
        Err(DispatchError::BadOrigin)
    );
}

// ------------------------------------------------------------------ services

#[test]
fn scribe_registers_service() {
    let p = with_service();
    assert_eq!(
        p.services(SERVICE),
        Some(ServiceInfo {
            scribe: ALICE,
            service: SERVICE,
            id: b"id".to_vec(),
            ip_address: b"1.2.3".to_vec(),
            swarm_key: b"key".to_vec(),
            status: b"st".to_vec(),
            rff: b"rf".to_vec(),
            deleted: false,
        })
    );
    assert_eq!(p.total_services_created(), Some(1));
    assert_eq!(last_event(&p), Event::ServiceCreated(SERVICE));
    // Registering a service does not make its account act as a service.
    assert!(!p.is_service(SERVICE));
}

#[test]
fn service_registration_errors_in_order() {
    let mut p = with_service();
    let ok = |s: &[u8]| s.to_vec();
    let reg = |p: &mut Pallet, o: Origin, a: u64, id: &[u8], ip: &[u8], key: &[u8], st: &[u8], rf: &[u8]| {
        p.register_service(o, a, ok(id), ok(ip), ok(key), ok(st), ok(rf))
    };
    assert_eq!(reg(&mut p, Origin::Unsigned, 20, b"", b"", b"", b"", b""), Err(DispatchError::BadOrigin));
    assert_eq!(reg(&mut p, Origin::Signed(CAROL), 20, b"", b"", b"", b"", b""), module(Error::CallForbidden));
    assert_eq!(
        reg(&mut p, Origin::Signed(ALICE), 20, b"12345", b"1234567", b"", b"", b""),
        module(Error::MaxServiceIdLengthExceeded)
    );
    assert_eq!(
        reg(&mut p, Origin::Signed(ALICE), 20, b"1234", b"1234567", b"123456", b"", b""),
        module(Error::MaxIPAddressLengthExceeded)
    );
    assert_eq!(
        reg(&mut p, Origin::Signed(ALICE), 20, b"1234", b"123456", b"123456", b"1234", b""),
        module(Error::MaxServiceSwarmKeyLengthExceeded)
    );
    assert_eq!(
        reg(&mut p, Origin::Signed(ALICE), 20, b"1234", b"123456", b"12345", b"1234", b"123"),
        module(Error::MaxServiceStatusFileLengthExceeded)
    );
    assert_eq!(
        reg(&mut p, Origin::Signed(ALICE), 20, b"1234", b"123456", b"12345", b"123", b"123"),
        module(Error::MaxServiceRFFFileLengthExceeded)
    );
    assert_eq!(
        reg(&mut p, Origin::Signed(BOB), SERVICE, b"1234", b"123456", b"12345", b"123", b"12"),
        module(Error::ServiceAlreadyAdded)
    );
    assert_eq!(p.total_services_created(), Some(1));
    assert_eq!(
        reg(&mut p, Origin::Signed(BOB), 20, b"1234", b"123456", b"12345", b"123", b"12"),
        Ok(())
    );
    assert_eq!(p.total_services_created(), Some(2));
}

#[test]
fn scribe_updates_own_service() {
    let mut p = with_service();
    let upd = |p: &mut Pallet, o: Origin, a: u64, id: &[u8], rf: &[u8]| {
        p.update_service(o, a, id.to_vec(), b"ip".to_vec(), b"sk".to_vec(), b"s".to_vec(), rf.to_vec())
    };
    assert_eq!(upd(&mut p, ROOT, SERVICE, b"n", b"r"), Err(DispatchError::BadOrigin));
    assert_eq!(upd(&mut p, Origin::Signed(CAROL), SERVICE, b"n", b"r"), module(Error::CallForbidden));
    assert_eq!(upd(&mut p, Origin::Signed(ALICE), 99, b"n", b"r"), module(Error::ServiceNotFound));
    assert_eq!(upd(&mut p, Origin::Signed(BOB), SERVICE, b"n", b"r"), module(Error::CallForbidden));
    assert_eq!(
        upd(&mut p, Origin::Signed(ALICE), SERVICE, b"12345", b"r"),
        module(Error::MaxServiceIdLengthExceeded)
    );
    assert_eq!(
        upd(&mut p, Origin::Signed(ALICE), SERVICE, b"n", b"123"),
        module(Error::MaxServiceRFFFileLengthExceeded)
    );
    assert_eq!(upd(&mut p, Origin::Signed(ALICE), SERVICE, b"n", b"r"), Ok(()));
    assert_eq!(last_event(&p), Event::ServiceUpdated(SERVICE));
    assert_eq!(
        p.services(SERVICE),
        Some(ServiceInfo {
            scribe: ALICE,
            service: SERVICE,
            id: b"n".to_vec(),
            ip_address: b"ip".to_vec(),
            swarm_key: b"sk".to_vec(),
            status: b"s".to_vec(),
            rff: b"r".to_vec(),
            deleted: false,
        })
    );
}

#[test]
fn scribe_deletes_own_service() {
    let mut p = with_service();
    assert_eq!(p.delete_service(Origin::Unsigned, SERVICE), Err(DispatchError::BadOrigin));
    assert_eq!(p.delete_service(Origin::Signed(CAROL), SERVICE), module(Error::CallForbidden));
    assert_eq!(p.delete_service(Origin::Signed(BOB), SERVICE), module(Error::CallForbidden));
    assert_eq!(p.delete_service(Origin::Signed(ALICE), 99), module(Error::ServiceNotFound));
    assert_eq!(p.delete_service(Origin::Signed(ALICE), SERVICE), Ok(()));
    assert_eq!(last_event(&p), Event::ServiceDeleted(SERVICE));
    assert!(p.services(SERVICE).unwrap().deleted);
    assert_eq!(p.delete_service(Origin::Signed(ALICE), SERVICE), module(Error::ServiceAlreadyDeleted));
    assert_eq!(
        p.update_service(
            Origin::Signed(ALICE),
            SERVICE,
            b"12345".to_vec(),
            Vec::new(),
            Vec::new(),
            Vec::new(),
            Vec::new(),
        ),
        module(Error::ServiceAlreadyDeleted)
    );
}

#[test]
fn service_updates_own_status() {
    let mut p = with_service();
    assert_eq!(
        p.update_service_status(Origin::Signed(SERVICE), b"a".to_vec(), b"b".to_vec()),
        module(Error::CallForbidden)
    );
    p.set_available_service(SERVICE, true);
    assert!(p.is_service(SERVICE));
    assert_eq!(
        p.update_service_status(Origin::Unsigned, b"a".to_vec(), b"b".to_vec()),
        Err(DispatchError::BadOrigin)
    );
    assert_eq!(
        p.update_service_status(Origin::Signed(SERVICE), b"1234".to_vec(), b"123".to_vec()),
        module(Error::MaxServiceStatusFileLengthExceeded)
    );
    assert_eq!(
        p.update_service_status(Origin::Signed(SERVICE), b"123".to_vec(), b"123".to_vec()),
        module(Error::MaxServiceRFFFileLengthExceeded)
    );
    assert_eq!(p.update_service_status(Origin::Signed(SERVICE), b"a".to_vec(), b"b".to_vec()), Ok(()));
    assert_eq!(last_event(&p), Event::ServiceUpdated(SERVICE));
    let info = p.services(SERVICE).unwrap();
    assert_eq!(info.status, b"a".to_vec());
    assert_eq!(info.rff, b"b".to_vec());
    assert_eq!(info.id, b"id".to_vec());
    assert!(!info.deleted);
}

#[test]
fn service_status_of_missing_or_deleted_service() {
    let mut p = with_service();
    p.set_available_service(CAROL, true);
    assert_eq!(
        p.update_service_status(Origin::Signed(CAROL), b"a".to_vec(), b"b".to_vec()),
        module(Error::ServiceNotFound)
    );
    p.set_available_service(SERVICE, true);
    assert_eq!(p.delete_service(Origin::Signed(ALICE), SERVICE), Ok(()));
    assert_eq!(
        p.update_service_status(Origin::Signed(SERVICE), b"1234".to_vec(), b"b".to_vec()),
        module(Error::ServiceAlreadyDeleted)
    );
    p.set_available_service(SERVICE, false);
    assert_eq!(
        p.update_service_status(Origin::Signed(SERVICE), b"a".to_vec(), b"b".to_vec()),
        module(Error::CallForbidden)
    );
}

#[test]
fn root_overwrites_service() {
    let mut p = with_service();
    assert_eq!(p.delete_service(Origin::Signed(ALICE), SERVICE), Ok(()));
    assert_eq!(
        p.force_update_service_info(
            ROOT,
            CAROL,
            SERVICE,
            b"x".to_vec(),
            b"y".to_vec(),
            b"z".to_vec(),
            b"s".to_vec(),
            b"r".to_vec(),
            false,
        ),
        Ok(())
    );
    assert_eq!(last_event(&p), Event::ServiceUpdated(SERVICE));
    assert_eq!(
        p.services(SERVICE),
        Some(ServiceInfo {
            scribe: CAROL,
            service: SERVICE,
            id: b"x".to_vec(),
            ip_address: b"y".to_vec(),
            swarm_key: b"z".to_vec(),
            status: b"s".to_vec(),
            rff: b"r".to_vec(),
            deleted: false,
        })
    );
    assert_eq!(p.total_services_created(), Some(1));
    assert_eq!(
        p.force_update_service_info(
            ROOT,
            CAROL,
            SERVICE,
            b"x".to_vec(),
            b"1234567".to_vec(),
            b"z".to_vec(),
            b"s".to_vec(),
            b"r".to_vec(),
            false,
        ),
        module(Error::MaxIPAddressLengthExceeded)
    );
    assert_eq!(
        p.force_update_service_info(
            Origin::Signed(CAROL),
            CAROL,
            SERVICE,
            Vec::new(),
            Vec::new(),
            Vec::new(),
            Vec::new(),
            Vec::new(),
            false,
        ),
        Err(DispatchError::BadOrigin)
    );
}

// ------------------------------------------------------------------ dispatch

#[test]
fn dispatch_runs_calls() {
    let mut p = Pallet::new(config());
    assert_eq!(
        p.dispatch(ROOT, Call::ForceUpdateScribeAuthorityStatus { scribe: ALICE, status: true }),
        Ok(())
    );
    assert_eq!(
        p.dispatch(Origin::Signed(ALICE), Call::SelfRegisterContent { kuri: b"k".to_vec() }),
        Ok(())
    );
    assert_eq!(
        p.dispatch(Origin::Signed(BOB), Call::AcceptSrcTransfer { kuri: b"k".to_vec() }),
        Ok(())
    );
    assert_eq!(
        p.dispatch(Origin::Signed(ALICE), Call::TransferSrc { to: BOB, kuri: b"k".to_vec() }),
        Ok(())
    );
    assert_eq!(
        p.dispatch(Origin::Signed(BOB), Call::DeleteSrc { kuri: b"k".to_vec() }),
        Ok(())
    );
    assert_eq!(p.srcs(&b"k".to_vec()).unwrap(), SRCInfo { kuri: b"k".to_vec(), owner: BOB, scribe: ALICE, deleted: true });
    assert_eq!(
        p.dispatch(Origin::Signed(ALICE), Call::DeleteService { service_address: SERVICE }),
        module(Error::ServiceNotFound)
    );
    assert_eq!(p.events().len(), 5);
}

// ------------------------------------------------------------------- laws

#[test]
fn refused_call_changes_nothing() {
    let mut p = with_src();
    let events = p.events().clone();
    let src = p.srcs(&b"kuri".to_vec());
    assert_eq!(p.delete_src(Origin::Signed(BOB), b"kuri".to_vec()), module(Error::CallForbidden));
    assert_eq!(p.self_register_content(Origin::Signed(ALICE), b"kuri".to_vec()), module(Error::SRCAlreadyAdded));
    assert_eq!(p.events(), &events);
    assert_eq!(p.srcs(&b"kuri".to_vec()), src);
    assert_eq!(p.total_srcs_created(), Some(1));
}

#[test]
fn each_accepted_call_deposits_one_event() {
    let mut p = Pallet::new(config());
    assert_eq!(p.force_update_scribe_authority_status(ROOT, ALICE, true), Ok(()));
    assert_eq!(p.events().len(), 1);
    assert_eq!(p.self_register_content(Origin::Signed(ALICE), b"a".to_vec()), Ok(()));
    assert_eq!(p.events().len(), 2);
    assert_eq!(p.events()[0], Event::ScribeAddedByAdmin(ALICE));
    assert_eq!(p.events()[1], Event::SRCCreated(b"a".to_vec()));
}

#[test]
fn deleted_src_is_final_short_of_root() {
    let mut p = with_src();
    let kuri = b"kuri".to_vec();
    assert_eq!(p.accept_src_transfer(Origin::Signed(BOB), kuri.clone()), Ok(()));
    assert_eq!(p.delete_src(Origin::Signed(ALICE), kuri.clone()), Ok(()));
    let frozen = p.srcs(&kuri);
    assert!(p.transfer_src(Origin::Signed(ALICE), BOB, kuri.clone()).is_err());
    assert!(p.delete_src(Origin::Signed(ALICE), kuri.clone()).is_err());
    assert!(p.self_register_content(Origin::Signed(ALICE), kuri.clone()).is_err());
    assert!(p.accept_src_transfer(Origin::Signed(CAROL), kuri.clone()).is_err());
    assert_eq!(p.srcs(&kuri), frozen);
}

#[test]
fn unsigned_origin_is_always_refused() {
    let mut p = with_src();
    let calls = vec![
        Call::SelfRegisterContent { kuri: b"x".to_vec() },
        Call::UpdateScribeAuthorityStatus { scribe: CAROL, status: true },
        Call::ForceUpdateSrcInfo { kuri: b"x".to_vec(), owner: CAROL, scribe: CAROL, deleted: false },
        Call::UpdateServiceStatus { status_file: Vec::new(), rff_file: Vec::new() },
    ];
    for call in calls {
        assert_eq!(p.dispatch(Origin::Unsigned, call), Err(DispatchError::BadOrigin));
    }
}

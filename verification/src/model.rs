//! The registry's state as mathematical values, and what each call does to it:
//! which error refuses it, and otherwise the state that it leaves.
//!
//! A refused call changes nothing at all, neither storage nor the events:
//! every call runs as one transaction.
use vstd::prelude::*;

use crate::types::{AccountId, Call, CallView, Config, DispatchError, DispatchResult, Error, Event, EventView, Origin, SRCInfo, SRCInfoView, ServiceInfo, ServiceInfoView};

verus! {

/// The whole state of the registry: its limits, its storage items and the events deposited so far.
#[verifier::ext_equal]
pub struct PalletView {
    pub config: Config,
    /// How many SRCs have been registered by scribes (`None` before the first).
    pub total_srcs_created: Option<u64>,
    /// How many services have been registered by scribes (`None` before the first).
    pub total_services_created: Option<u64>,
    /// Stored authorisation flags of scribes; an account without an entry is not a scribe.
    pub authorized_scribes: Map<AccountId, bool>,
    /// Stored flags of accounts that act as services; an account without an entry is not one.
    pub available_services: Map<AccountId, bool>,
    /// Stored acceptances of SRC transfers, by KURI and accepting account.
    pub src_transfer_accepted: Map<(Seq<u8>, AccountId), bool>,
    /// The SRCs, by KURI.
    pub srcs: Map<Seq<u8>, SRCInfoView>,
    /// The services, by service account.
    pub services: Map<AccountId, ServiceInfoView>,
    /// The events deposited so far, oldest first.
    pub events: Seq<EventView>,
}

/// Reads a flag map the way the registry reads it: a missing entry is `false`.
pub open spec fn flag<K>(m: Map<K, bool>, k: K) -> bool {
    m.contains_key(k) && m[k]
}

/// Whether a byte string fits within a length limit.
pub open spec fn fits(bytes: Seq<u8>, limit: u32) -> bool {
    bytes.len() <= limit
}

/// A counter after one more record: the first record makes it `Some(1)`.
pub open spec fn bumped(counter: Option<u64>) -> Option<u64> {
    match counter {
        None => Some(1u64),
        Some(n) => Some((n + 1) as u64),
    }
}

/// Whether one more record would take a counter past `u64::MAX`.
pub open spec fn counter_full(counter: Option<u64>) -> bool {
    counter == Some(u64::MAX)
}

/// The number a counter stands for.
pub open spec fn count(counter: Option<u64>) -> int {
    match counter {
        None => 0,
        Some(n) => n as int,
    }
}

/// A refusal with an error of the registry.
pub open spec fn refused(e: Error) -> Option<DispatchError> {
    Some(DispatchError::Module(e))
}

/// The first of the five service byte strings, in this order, that is too long, as an error.
pub open spec fn service_fields_error(
    config: Config,
    service_id: Seq<u8>,
    ip_address: Seq<u8>,
    swarm_key: Seq<u8>,
    status_file: Seq<u8>,
    rff_file: Seq<u8>,
) -> Option<DispatchError> {
    if !fits(service_id, config.max_service_id_length) {
        refused(Error::MaxServiceIdLengthExceeded)
    } else if !fits(ip_address, config.max_ip_address_length) {
        refused(Error::MaxIPAddressLengthExceeded)
    } else if !fits(swarm_key, config.max_service_swarm_key_length) {
        refused(Error::MaxServiceSwarmKeyLengthExceeded)
    } else if !fits(status_file, config.max_service_status_file_length) {
        refused(Error::MaxServiceStatusFileLengthExceeded)
    } else if !fits(rff_file, config.max_service_rff_file_length) {
        refused(Error::MaxServiceRFFFileLengthExceeded)
    } else {
        None
    }
}

/// Whether every byte string of a service record fits its limit.
pub open spec fn service_fits(config: Config, info: ServiceInfoView) -> bool {
    &&& fits(info.id, config.max_service_id_length)
    &&& fits(info.ip_address, config.max_ip_address_length)
    &&& fits(info.swarm_key, config.max_service_swarm_key_length)
    &&& fits(info.status, config.max_service_status_file_length)
    &&& fits(info.rff, config.max_service_rff_file_length)
}

impl PalletView {
    /// The registry with the given limits, empty storage and no events.
    pub open spec fn initial(config: Config) -> PalletView {
        PalletView {
            config,
            total_srcs_created: None,
            total_services_created: None,
            authorized_scribes: Map::empty(),
            available_services: Map::empty(),
            src_transfer_accepted: Map::empty(),
            srcs: Map::empty(),
            services: Map::empty(),
            events: Seq::empty(),
        }
    }

    /// What holds of the storage in every reachable state: each record is stored under its
    /// own KURI or service account, its byte strings fit their limits, and every stored
    /// transfer acceptance is `true` and names a stored SRC.
    pub open spec fn consistent(self) -> bool {
        &&& forall|k: Seq<u8>| #[trigger]
            self.srcs.contains_key(k) ==> self.srcs[k].kuri == k && fits(
                k,
                self.config.max_kuri_length,
            )
        &&& forall|a: AccountId| #[trigger]
            self.services.contains_key(a) ==> self.services[a].service == a && service_fits(
                self.config,
                self.services[a],
            )
        &&& forall|p: (Seq<u8>, AccountId)| #[trigger]
            self.src_transfer_accepted.contains_key(p) ==> self.src_transfer_accepted[p]
                && self.srcs.contains_key(p.0)
    }

    /// The state with one more event deposited.
    pub open spec fn deposit(self, e: EventView) -> PalletView {
        PalletView { events: self.events.push(e), ..self }
    }
}

// ---------------------------------------------------------------- SRC calls
/// Why registering a SRC is refused, if it is.
pub open spec fn self_register_content_error(s: PalletView, origin: Origin, kuri: Seq<u8>) -> Option<
    DispatchError,
> {
    match origin {
        Origin::Signed(signer) => if !flag(s.authorized_scribes, signer) {
            refused(Error::CallForbidden)
        } else if !fits(kuri, s.config.max_kuri_length) {
            refused(Error::MaxKURILengthExceeded)
        } else if s.srcs.contains_key(kuri) {
            refused(Error::SRCAlreadyAdded)
        } else if counter_full(s.total_srcs_created) {
            refused(Error::StorageOverflow)
        } else {
            None
        },
        _ => Some(DispatchError::BadOrigin),
    }
}

/// A registered SRC is owned and scribed by its signer and not deleted; the counter grows by one.
pub open spec fn self_register_content_effect(s: PalletView, signer: AccountId, kuri: Seq<u8>) -> PalletView {
    PalletView {
        srcs: s.srcs.insert(kuri, SRCInfo { kuri, owner: signer, scribe: signer, deleted: false }),
        total_srcs_created: bumped(s.total_srcs_created),
        ..s
    }.deposit(Event::SRCCreated(kuri))
}

/// Why accepting the transfer of a SRC is refused, if it is.
pub open spec fn accept_src_transfer_error(s: PalletView, origin: Origin, kuri: Seq<u8>) -> Option<
    DispatchError,
> {
    match origin {
        Origin::Signed(signer) => if !fits(kuri, s.config.max_kuri_length) {
            refused(Error::MaxKURILengthExceeded)
        } else if !s.srcs.contains_key(kuri) {
            refused(Error::SRCNotFound)
        } else if s.srcs[kuri].owner == signer {
            refused(Error::CallForbidden)
        } else if s.srcs[kuri].deleted {
            refused(Error::SRCAlreadyDeleted)
        } else {
            None
        },
        _ => Some(DispatchError::BadOrigin),
    }
}

/// The signer's acceptance of the SRC is stored.
pub open spec fn accept_src_transfer_effect(s: PalletView, signer: AccountId, kuri: Seq<u8>) -> PalletView {
    PalletView {
        src_transfer_accepted: s.src_transfer_accepted.insert((kuri, signer), true),
        ..s
    }.deposit(Event::SRCTransferAccepted(kuri, signer))
}

/// Why transferring a SRC to `to` is refused, if it is.
pub open spec fn transfer_src_error(
    s: PalletView,
    origin: Origin,
    to: AccountId,
    kuri: Seq<u8>,
) -> Option<DispatchError> {
    match origin {
        Origin::Signed(signer) => if !fits(kuri, s.config.max_kuri_length) {
            refused(Error::MaxKURILengthExceeded)
        } else if !flag(s.src_transfer_accepted, (kuri, to)) {
            refused(Error::CallForbidden)
        } else if !s.srcs.contains_key(kuri) {
            refused(Error::SRCNotFound)
        } else if s.srcs[kuri].owner != signer {
            refused(Error::CallForbidden)
        } else if s.srcs[kuri].deleted {
            refused(Error::SRCAlreadyDeleted)
        } else {
            None
        },
        _ => Some(DispatchError::BadOrigin),
    }
}

/// The SRC is owned by `to`; the acceptance stays stored.
pub open spec fn transfer_src_effect(s: PalletView, to: AccountId, kuri: Seq<u8>) -> PalletView {
    PalletView {
        srcs: s.srcs.insert(kuri, SRCInfo { owner: to, ..s.srcs[kuri] }),
        ..s
    }.deposit(Event::SRCTransferred(kuri))
}

/// Why deleting a SRC is refused, if it is.
pub open spec fn delete_src_error(s: PalletView, origin: Origin, kuri: Seq<u8>) -> Option<DispatchError> {
    match origin {
        Origin::Signed(signer) => if !fits(kuri, s.config.max_kuri_length) {
            refused(Error::MaxKURILengthExceeded)
        } else if !s.srcs.contains_key(kuri) {
            refused(Error::SRCNotFound)
        } else if s.srcs[kuri].owner != signer {
            refused(Error::CallForbidden)
        } else if s.srcs[kuri].deleted {
            refused(Error::SRCAlreadyDeleted)
        } else {
            None
        },
        _ => Some(DispatchError::BadOrigin),
    }
}

/// The SRC is marked deleted; its record stays stored.
pub open spec fn delete_src_effect(s: PalletView, kuri: Seq<u8>) -> PalletView {
    PalletView {
        srcs: s.srcs.insert(kuri, SRCInfo { deleted: true, ..s.srcs[kuri] }),
        ..s
    }.deposit(Event::SRCDeleted(kuri))
}

// ------------------------------------------------------------ service calls
/// Why registering a service is refused, if it is.
pub open spec fn register_service_error(
    s: PalletView,
    origin: Origin,
    service_address: AccountId,
    service_id: Seq<u8>,
    ip_address: Seq<u8>,
    swarm_key: Seq<u8>,
    status_file: Seq<u8>,
    rff_file: Seq<u8>,
) -> Option<DispatchError> {
    match origin {
        Origin::Signed(signer) => if !flag(s.authorized_scribes, signer) {
            refused(Error::CallForbidden)
        } else if service_fields_error(
            s.config,
            service_id,
            ip_address,
            swarm_key,
            status_file,
            rff_file,
        ) is Some {
            service_fields_error(s.config, service_id, ip_address, swarm_key, status_file, rff_file)
        } else if s.services.contains_key(service_address) {
            refused(Error::ServiceAlreadyAdded)
        } else if counter_full(s.total_services_created) {
            refused(Error::StorageOverflow)
        } else {
            None
        },
        _ => Some(DispatchError::BadOrigin),
    }
}

/// A registered service is scribed by its signer and not deleted; the counter grows by one.
pub open spec fn register_service_effect(
    s: PalletView,
    signer: AccountId,
    service_address: AccountId,
    service_id: Seq<u8>,
    ip_address: Seq<u8>,
    swarm_key: Seq<u8>,
    status_file: Seq<u8>,
    rff_file: Seq<u8>,
) -> PalletView {
    PalletView {
        services: s.services.insert(
            service_address,
            ServiceInfo {
                scribe: signer,
                service: service_address,
                id: service_id,
                ip_address,
                swarm_key,
                status: status_file,
                rff: rff_file,
                deleted: false,
            },
        ),
        total_services_created: bumped(s.total_services_created),
        ..s
    }.deposit(Event::ServiceCreated(service_address))
}

/// Why updating a service is refused, if it is.
pub open spec fn update_service_error(
    s: PalletView,
    origin: Origin,
    service_address: AccountId,
    service_id: Seq<u8>,
    ip_address: Seq<u8>,
    swarm_key: Seq<u8>,
    status_file: Seq<u8>,
    rff_file: Seq<u8>,
) -> Option<DispatchError> {
    match origin {
        Origin::Signed(signer) => if !flag(s.authorized_scribes, signer) {
            refused(Error::CallForbidden)
        } else if !s.services.contains_key(service_address) {
            refused(Error::ServiceNotFound)
        } else if s.services[service_address].scribe != signer {
            refused(Error::CallForbidden)
        } else if s.services[service_address].deleted {
            refused(Error::ServiceAlreadyDeleted)
        } else {
            service_fields_error(s.config, service_id, ip_address, swarm_key, status_file, rff_file)
        },
        _ => Some(DispatchError::BadOrigin),
    }
}

/// The service's five byte strings are replaced; its scribe, account and deletion flag stay.
pub open spec fn update_service_effect(
    s: PalletView,
    service_address: AccountId,
    service_id: Seq<u8>,
    ip_address: Seq<u8>,
    swarm_key: Seq<u8>,
    status_file: Seq<u8>,
    rff_file: Seq<u8>,
) -> PalletView {
    PalletView {
        services: s.services.insert(
            service_address,
            ServiceInfo {
                id: service_id,
                ip_address,
                swarm_key,
                status: status_file,
                rff: rff_file,
                ..s.services[service_address]
            },
        ),
        ..s
    }.deposit(Event::ServiceUpdated(service_address))
}

/// Why deleting a service is refused, if it is.
pub open spec fn delete_service_error(s: PalletView, origin: Origin, service_address: AccountId) -> Option<
    DispatchError,
> {
    match origin {
        Origin::Signed(signer) => if !flag(s.authorized_scribes, signer) {
            refused(Error::CallForbidden)
        } else if !s.services.contains_key(service_address) {
            refused(Error::ServiceNotFound)
        } else if s.services[service_address].scribe != signer {
            refused(Error::CallForbidden)
        } else if s.services[service_address].deleted {
            refused(Error::ServiceAlreadyDeleted)
        } else {
            None
        },
        _ => Some(DispatchError::BadOrigin),
    }
}

/// The service is marked deleted; its record stays stored.
pub open spec fn delete_service_effect(s: PalletView, service_address: AccountId) -> PalletView {
    PalletView {
        services: s.services.insert(
            service_address,
            ServiceInfo { deleted: true, ..s.services[service_address] },
        ),
        ..s
    }.deposit(Event::ServiceDeleted(service_address))
}

/// Why a service's update of its own status is refused, if it is.
pub open spec fn update_service_status_error(
    s: PalletView,
    origin: Origin,
    status_file: Seq<u8>,
    rff_file: Seq<u8>,
) -> Option<DispatchError> {
    match origin {
        Origin::Signed(signer) => if !flag(s.available_services, signer) {
            refused(Error::CallForbidden)
        } else if !s.services.contains_key(signer) {
            refused(Error::ServiceNotFound)
        } else if s.services[signer].deleted {
            refused(Error::ServiceAlreadyDeleted)
        } else if !fits(status_file, s.config.max_service_status_file_length) {
            refused(Error::MaxServiceStatusFileLengthExceeded)
        } else if !fits(rff_file, s.config.max_service_rff_file_length) {
            refused(Error::MaxServiceRFFFileLengthExceeded)
        } else {
            None
        },
        _ => Some(DispatchError::BadOrigin),
    }
}

/// The signer's status and RFF files are replaced; the service is reported as updated.
pub open spec fn update_service_status_effect(
    s: PalletView,
    signer: AccountId,
    status_file: Seq<u8>,
    rff_file: Seq<u8>,
) -> PalletView {
    PalletView {
        services: s.services.insert(
            signer,
            ServiceInfo { status: status_file, rff: rff_file, ..s.services[signer] },
        ),
        ..s
    }.deposit(Event::ServiceUpdated(signer))
}

// ------------------------------------------------------------- scribe calls
/// Why a scribe's update of another scribe's authority is refused, if it is.
pub open spec fn update_scribe_authority_status_error(s: PalletView, origin: Origin) -> Option<
    DispatchError,
> {
    match origin {
        Origin::Signed(signer) => if !flag(s.authorized_scribes, signer) {
            refused(Error::CallForbidden)
        } else {
            None
        },
        _ => Some(DispatchError::BadOrigin),
    }
}

/// The scribe's flag is stored as `status`.
pub open spec fn update_scribe_authority_status_effect(
    s: PalletView,
    signer: AccountId,
    scribe: AccountId,
    status: bool,
) -> PalletView {
    PalletView { authorized_scribes: s.authorized_scribes.insert(scribe, status), ..s }.deposit(
        if status {
            Event::ScribeAdded(signer, scribe)
        } else {
            Event::ScribeRemoved(signer, scribe)
        },
    )
}

// --------------------------------------------------------------- root calls
/// A call reserved to the root is refused for any other origin.
pub open spec fn root_error(origin: Origin) -> Option<DispatchError> {
    match origin {
        Origin::Root => None,
        _ => Some(DispatchError::BadOrigin),
    }
}

/// The root stores the scribe's flag as `status`.
pub open spec fn force_update_scribe_authority_status_effect(
    s: PalletView,
    scribe: AccountId,
    status: bool,
) -> PalletView {
    PalletView { authorized_scribes: s.authorized_scribes.insert(scribe, status), ..s }.deposit(
        if status {
            Event::ScribeAddedByAdmin(scribe)
        } else {
            Event::ScribeRemovedByAdmin(scribe)
        },
    )
}

/// Why the root's overwrite of a SRC is refused, if it is.
pub open spec fn force_update_src_info_error(s: PalletView, origin: Origin, kuri: Seq<u8>) -> Option<
    DispatchError,
> {
    if root_error(origin) is Some {
        root_error(origin)
    } else if !fits(kuri, s.config.max_kuri_length) {
        refused(Error::MaxKURILengthExceeded)
    } else {
        None
    }
}

/// The root stores the given SRC record under its KURI, whatever was there.
pub open spec fn force_update_src_info_effect(
    s: PalletView,
    kuri: Seq<u8>,
    owner: AccountId,
    scribe: AccountId,
    deleted: bool,
) -> PalletView {
    PalletView {
        srcs: s.srcs.insert(kuri, SRCInfo { kuri, owner, scribe, deleted }),
        ..s
    }.deposit(Event::SRCUpdated(kuri))
}

/// Why the root's overwrite of a service is refused, if it is.
pub open spec fn force_update_service_info_error(
    s: PalletView,
    origin: Origin,
    service_id: Seq<u8>,
    ip_address: Seq<u8>,
    swarm_key: Seq<u8>,
    status_file: Seq<u8>,
    rff_file: Seq<u8>,
) -> Option<DispatchError> {
    if root_error(origin) is Some {
        root_error(origin)
    } else {
        service_fields_error(s.config, service_id, ip_address, swarm_key, status_file, rff_file)
    }
}

/// The root stores the given service record under its account, whatever was there.
pub open spec fn force_update_service_info_effect(
    s: PalletView,
    scribe: AccountId,
    service_address: AccountId,
    service_id: Seq<u8>,
    ip_address: Seq<u8>,
    swarm_key: Seq<u8>,
    status_file: Seq<u8>,
    rff_file: Seq<u8>,
    deleted: bool,
) -> PalletView {
    PalletView {
        services: s.services.insert(
            service_address,
            ServiceInfo {
                scribe,
                service: service_address,
                id: service_id,
                ip_address,
                swarm_key,
                status: status_file,
                rff: rff_file,
                deleted,
            },
        ),
        ..s
    }.deposit(Event::ServiceUpdated(service_address))
}

// ---------------------------------------------------------------- any call
/// The signing account of an origin (meaningful for signed origins only).
pub open spec fn signer_of(origin: Origin) -> AccountId {
    match origin {
        Origin::Signed(a) => a,
        _ => 0,
    }
}

/// Why a call from `origin` is refused in state `s`, if it is.
pub open spec fn call_error(s: PalletView, origin: Origin, call: CallView) -> Option<DispatchError> {
    match call {
        Call::SelfRegisterContent { kuri } => self_register_content_error(s, origin, kuri),
        Call::AcceptSrcTransfer { kuri } => accept_src_transfer_error(s, origin, kuri),
        Call::TransferSrc { to, kuri } => transfer_src_error(s, origin, to, kuri),
        Call::DeleteSrc { kuri } => delete_src_error(s, origin, kuri),
        Call::RegisterService {
            service_address,
            service_id,
            ip_address,
            swarm_key,
            status_file,
            rff_file,
        } => register_service_error(
            s,
            origin,
            service_address,
            service_id,
            ip_address,
            swarm_key,
            status_file,
            rff_file,
        ),
        Call::UpdateService {
            service_address,
            service_id,
            ip_address,
            swarm_key,
            status_file,
            rff_file,
        } => update_service_error(
            s,
            origin,
            service_address,
            service_id,
            ip_address,
            swarm_key,
            status_file,
            rff_file,
        ),
        Call::DeleteService { service_address } => delete_service_error(s, origin, service_address),
        Call::UpdateServiceStatus { status_file, rff_file } => update_service_status_error(
            s,
            origin,
            status_file,
            rff_file,
        ),
        Call::UpdateScribeAuthorityStatus { .. } => update_scribe_authority_status_error(s, origin),
        Call::ForceUpdateScribeAuthorityStatus { .. } => root_error(origin),
        Call::ForceUpdateSrcInfo { kuri, .. } => force_update_src_info_error(s, origin, kuri),
        Call::ForceUpdateServiceInfo {
            service_id,
            ip_address,
            swarm_key,
            status_file,
            rff_file,
            ..
        } => force_update_service_info_error(
            s,
            origin,
            service_id,
            ip_address,
            swarm_key,
            status_file,
            rff_file,
        ),
    }
}

/// The state that an accepted call from `origin` leaves.
pub open spec fn call_effect(s: PalletView, origin: Origin, call: CallView) -> PalletView {
    let signer = signer_of(origin);
    match call {
        Call::SelfRegisterContent { kuri } => self_register_content_effect(s, signer, kuri),
        Call::AcceptSrcTransfer { kuri } => accept_src_transfer_effect(s, signer, kuri),
        Call::TransferSrc { to, kuri } => transfer_src_effect(s, to, kuri),
        Call::DeleteSrc { kuri } => delete_src_effect(s, kuri),
        Call::RegisterService {
            service_address,
            service_id,
            ip_address,
            swarm_key,
            status_file,
            rff_file,
        } => register_service_effect(
            s,
            signer,
            service_address,
            service_id,
            ip_address,
            swarm_key,
            status_file,
            rff_file,
        ),
        Call::UpdateService {
            service_address,
            service_id,
            ip_address,
            swarm_key,
            status_file,
            rff_file,
        } => update_service_effect(
            s,
            service_address,
            service_id,
            ip_address,
            swarm_key,
            status_file,
            rff_file,
        ),
        Call::DeleteService { service_address } => delete_service_effect(s, service_address),
        Call::UpdateServiceStatus { status_file, rff_file } => update_service_status_effect(
            s,
            signer,
            status_file,
            rff_file,
        ),
        Call::UpdateScribeAuthorityStatus { scribe, status } => update_scribe_authority_status_effect(
            s,
            signer,
            scribe,
            status,
        ),
        Call::ForceUpdateScribeAuthorityStatus {
            scribe,
            status,
        } => force_update_scribe_authority_status_effect(s, scribe, status),
        Call::ForceUpdateSrcInfo { kuri, owner, scribe, deleted } => force_update_src_info_effect(
            s,
            kuri,
            owner,
            scribe,
            deleted,
        ),
        Call::ForceUpdateServiceInfo {
            scribe,
            service_address,
            service_id,
            ip_address,
            swarm_key,
            status_file,
            rff_file,
            deleted,
        } => force_update_service_info_effect(
            s,
            scribe,
            service_address,
            service_id,
            ip_address,
            swarm_key,
            status_file,
            rff_file,
            deleted,
        ),
    }
}

/// The outcome of a call from `origin` in state `s`, and the state after it: a refused
/// call returns its error and leaves `s` as it was.
pub open spec fn step(s: PalletView, origin: Origin, call: CallView) -> (DispatchResult, PalletView) {
    match call_error(s, origin, call) {
        Some(e) => (Err(e), s),
        None => (Ok(()), call_effect(s, origin, call)),
    }
}

} // verus!

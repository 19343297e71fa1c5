//! The registry's data: accounts and origins, the stored records, events,
//! errors, the configured length limits and the calls.
use vstd::prelude::*;

use crate::table::{StorageItem, StorageKey};

verus! {

/// An account on the chain.
pub type AccountId = u64;

/// Who sent a call: the root (administrator), a signing account, or nobody.
#[derive(Clone, Copy, Debug, PartialEq, Eq, Structural)]
pub enum Origin {
    Root,
    Signed(AccountId),
    Unsigned,
}

/// Why a call of the registry was refused.
#[derive(Clone, Copy, Debug, PartialEq, Eq, Structural)]
pub enum Error {
    /// A value was expected in storage but none was there (no call of the registry returns it).
    NoneValue,
    /// A counter of created records would pass `u64::MAX`.
    StorageOverflow,
    /// The sender may not make this call.
    CallForbidden,
    /// A KURI is longer than the allowed limit.
    MaxKURILengthExceeded,
    /// 404 for a SRC.
    SRCNotFound,
    /// SRC has already been added.
    SRCAlreadyAdded,
    /// SRC has already been deleted.
    SRCAlreadyDeleted,
    /// A service ID is longer than the allowed limit.
    MaxServiceIdLengthExceeded,
    /// A service IP address is longer than the allowed limit.
    MaxIPAddressLengthExceeded,
    /// A service swarm key is longer than the allowed limit.
    MaxServiceSwarmKeyLengthExceeded,
    /// A service status file is longer than the allowed limit.
    MaxServiceStatusFileLengthExceeded,
    /// A service RFF file is longer than the allowed limit.
    MaxServiceRFFFileLengthExceeded,
    /// Service not found.
    ServiceNotFound,
    /// Service has already been added.
    ServiceAlreadyAdded,
    /// Service has already been deleted.
    ServiceAlreadyDeleted,
}

/// The error of a refused call: an origin of the wrong kind, or an error of the registry.
#[derive(Clone, Copy, Debug, PartialEq, Eq, Structural)]
pub enum DispatchError {
    BadOrigin,
    Module(Error),
}

/// The outcome of a call.
pub type DispatchResult = Result<(), DispatchError>;

/// The length limits of the stored byte strings.
#[derive(Clone, Copy, Debug, PartialEq, Eq, Structural)]
pub struct Config {
    /// The maximum size of a SRC's KURI
    pub max_kuri_length: u32,
    /// The maximum size of a Service's ID
    pub max_service_id_length: u32,
    /// The maximum size of a Service's IP address
    pub max_ip_address_length: u32,
    /// The maximum size of a Service's swarm-key
    pub max_service_swarm_key_length: u32,
    /// The maximum size of a Service's status-file
    pub max_service_status_file_length: u32,
    /// The maximum size of a Service's rff-file
    pub max_service_rff_file_length: u32,
}

/// SRC info
#[derive(Clone, Debug, PartialEq, Eq)]
pub struct SRCInfo<KURI, AccountId> {
    /// SRC kuri
    pub kuri: KURI,
    /// SRC owner
    pub owner: AccountId,
    /// SRC scribe
    pub scribe: AccountId,
    /// SRC status
    pub deleted: bool,
}

/// Service info
#[derive(Clone, Debug, PartialEq, Eq)]
pub struct ServiceInfo<ServiceId, IPAddress, SwarmKey, StatusFile, RFFFile, AccountId> {
    /// scribe
    pub scribe: AccountId,
    /// key
    pub service: AccountId,
    /// id
    pub id: ServiceId,
    /// IP address
    pub ip_address: IPAddress,
    /// swarm-key
    pub swarm_key: SwarmKey,
    /// status-file
    pub status: StatusFile,
    /// rff-file
    pub rff: RFFFile,
    /// deleted
    pub deleted: bool,
}

/// A stored SRC record.
pub type SRCInfoOf = SRCInfo<Vec<u8>, AccountId>;

/// A stored service record.
pub type ServiceInfoOf = ServiceInfo<Vec<u8>, Vec<u8>, Vec<u8>, Vec<u8>, Vec<u8>, AccountId>;

/// What a stored SRC record stands for.
pub type SRCInfoView = SRCInfo<Seq<u8>, AccountId>;

/// What a stored service record stands for.
pub type ServiceInfoView = ServiceInfo<Seq<u8>, Seq<u8>, Seq<u8>, Seq<u8>, Seq<u8>, AccountId>;

impl View for SRCInfo<Vec<u8>, AccountId> {
    type V = SRCInfoView;

    open spec fn view(&self) -> SRCInfoView {
        SRCInfo { kuri: self.kuri@, owner: self.owner, scribe: self.scribe, deleted: self.deleted }
    }
}

impl View for ServiceInfo<Vec<u8>, Vec<u8>, Vec<u8>, Vec<u8>, Vec<u8>, AccountId> {
    type V = ServiceInfoView;

    open spec fn view(&self) -> ServiceInfoView {
        ServiceInfo {
            scribe: self.scribe,
            service: self.service,
            id: self.id@,
            ip_address: self.ip_address@,
            swarm_key: self.swarm_key@,
            status: self.status@,
            rff: self.rff@,
            deleted: self.deleted,
        }
    }
}

impl StorageItem for SRCInfo<Vec<u8>, AccountId> {
    fn duplicate(&self) -> (r: Self) {
        SRCInfo {
            kuri: self.kuri.duplicate(),
            owner: self.owner,
            scribe: self.scribe,
            deleted: self.deleted,
        }
    }
}

impl StorageItem for ServiceInfo<Vec<u8>, Vec<u8>, Vec<u8>, Vec<u8>, Vec<u8>, AccountId> {
    fn duplicate(&self) -> (r: Self) {
        ServiceInfo {
            scribe: self.scribe,
            service: self.service,
            id: self.id.duplicate(),
            ip_address: self.ip_address.duplicate(),
            swarm_key: self.swarm_key.duplicate(),
            status: self.status.duplicate(),
            rff: self.rff.duplicate(),
            deleted: self.deleted,
        }
    }
}

/// What the registry reports when a call changes it; a KURI is carried as `KURI`.
#[derive(Clone, Debug, PartialEq, Eq)]
pub enum Event<KURI> {
    ScribeAdded(AccountId, AccountId),
    ScribeRemoved(AccountId, AccountId),
    ScribeAddedByAdmin(AccountId),
    ScribeRemovedByAdmin(AccountId),
    SRCCreated(KURI),
    SRCDeleted(KURI),
    SRCUpdated(KURI),
    SRCTransferAccepted(KURI, AccountId),
    SRCTransferred(KURI),
    ServiceCreated(AccountId),
    ServiceDeleted(AccountId),
    ServiceUpdated(AccountId),
}

/// An event as it is stored.
pub type EventOf = Event<Vec<u8>>;

/// What a stored event stands for.
pub type EventView = Event<Seq<u8>>;

impl View for Event<Vec<u8>> {
    type V = EventView;

    open spec fn view(&self) -> EventView {
        match self {
            Event::ScribeAdded(a, b) => Event::ScribeAdded(*a, *b),
            Event::ScribeRemoved(a, b) => Event::ScribeRemoved(*a, *b),
            Event::ScribeAddedByAdmin(a) => Event::ScribeAddedByAdmin(*a),
            Event::ScribeRemovedByAdmin(a) => Event::ScribeRemovedByAdmin(*a),
            Event::SRCCreated(k) => Event::SRCCreated(k@),
            Event::SRCDeleted(k) => Event::SRCDeleted(k@),
            Event::SRCUpdated(k) => Event::SRCUpdated(k@),
            Event::SRCTransferAccepted(k, a) => Event::SRCTransferAccepted(k@, *a),
            Event::SRCTransferred(k) => Event::SRCTransferred(k@),
            Event::ServiceCreated(a) => Event::ServiceCreated(*a),
            Event::ServiceDeleted(a) => Event::ServiceDeleted(*a),
            Event::ServiceUpdated(a) => Event::ServiceUpdated(*a),
        }
    }
}

/// The calls that the registry accepts, with their arguments; byte strings are carried as `Bytes`.
#[derive(Clone, Debug, PartialEq, Eq)]
pub enum Call<Bytes> {
    SelfRegisterContent { kuri: Bytes },
    AcceptSrcTransfer { kuri: Bytes },
    TransferSrc { to: AccountId, kuri: Bytes },
    DeleteSrc { kuri: Bytes },
    RegisterService {
        service_address: AccountId,
        service_id: Bytes,
        ip_address: Bytes,
        swarm_key: Bytes,
        status_file: Bytes,
        rff_file: Bytes,
    },
    UpdateService {
        service_address: AccountId,
        service_id: Bytes,
        ip_address: Bytes,
        swarm_key: Bytes,
        status_file: Bytes,
        rff_file: Bytes,
    },
    DeleteService { service_address: AccountId },
    UpdateServiceStatus { status_file: Bytes, rff_file: Bytes },
    UpdateScribeAuthorityStatus { scribe: AccountId, status: bool },
    ForceUpdateScribeAuthorityStatus { scribe: AccountId, status: bool },
    ForceUpdateSrcInfo { kuri: Bytes, owner: AccountId, scribe: AccountId, deleted: bool },
    ForceUpdateServiceInfo {
        scribe: AccountId,
        service_address: AccountId,
        service_id: Bytes,
        ip_address: Bytes,
        swarm_key: Bytes,
        status_file: Bytes,
        rff_file: Bytes,
        deleted: bool,
    },
}

/// A call as it is sent.
pub type CallOf = Call<Vec<u8>>;

/// What a sent call stands for.
pub type CallView = Call<Seq<u8>>;

impl View for Call<Vec<u8>> {
    type V = CallView;

    open spec fn view(&self) -> CallView {
        match self {
            Call::SelfRegisterContent { kuri } => Call::SelfRegisterContent { kuri: kuri@ },
            Call::AcceptSrcTransfer { kuri } => Call::AcceptSrcTransfer { kuri: kuri@ },
            Call::TransferSrc { to, kuri } => Call::TransferSrc { to: *to, kuri: kuri@ },
            Call::DeleteSrc { kuri } => Call::DeleteSrc { kuri: kuri@ },
            Call::RegisterService {
                service_address,
                service_id,
                ip_address,
                swarm_key,
                status_file,
                rff_file,
            } => Call::RegisterService {
                service_address: *service_address,
                service_id: service_id@,
                ip_address: ip_address@,
                swarm_key: swarm_key@,
                status_file: status_file@,
                rff_file: rff_file@,
            },
            Call::UpdateService {
                service_address,
                service_id,
                ip_address,
                swarm_key,
                status_file,
                rff_file,
            } => Call::UpdateService {
                service_address: *service_address,
                service_id: service_id@,
                ip_address: ip_address@,
                swarm_key: swarm_key@,
                status_file: status_file@,
                rff_file: rff_file@,
            },
            Call::DeleteService { service_address } => Call::DeleteService {
                service_address: *service_address,
            },
            Call::UpdateServiceStatus { status_file, rff_file } => Call::UpdateServiceStatus {
                status_file: status_file@,
                rff_file: rff_file@,
            },
            Call::UpdateScribeAuthorityStatus { scribe, status } => Call::UpdateScribeAuthorityStatus {
                scribe: *scribe,
                status: *status,
            },
            Call::ForceUpdateScribeAuthorityStatus {
                scribe,
                status,
            } => Call::ForceUpdateScribeAuthorityStatus { scribe: *scribe, status: *status },
            Call::ForceUpdateSrcInfo { kuri, owner, scribe, deleted } => Call::ForceUpdateSrcInfo {
                kuri: kuri@,
                owner: *owner,
                scribe: *scribe,
                deleted: *deleted,
            },
            Call::ForceUpdateServiceInfo {
                scribe,
                service_address,
                service_id,
                ip_address,
                swarm_key,
                status_file,
                rff_file,
                deleted,
            } => Call::ForceUpdateServiceInfo {
                scribe: *scribe,
                service_address: *service_address,
                service_id: service_id@,
                ip_address: ip_address@,
                swarm_key: swarm_key@,
                status_file: status_file@,
                rff_file: rff_file@,
                deleted: *deleted,
            },
        }
    }
}

} // verus!

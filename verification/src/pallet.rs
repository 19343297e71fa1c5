//! The registry itself: its storage, its calls and the reads of its storage.
//!
//! Each call checks its origin and arguments in a fixed order and either refuses
//! with the first error found, leaving everything as it was, or writes its changes
//! and deposits one event. `crate::model::step` states both for every call.
use vstd::prelude::*;

use crate::checks::{ensure_root, ensure_signed, fits_bound};
use crate::laws::lemma_step_preserves_consistency;
use crate::model::{flag, step, PalletView};
use crate::table::{StorageItem, StorageTable};
use crate::types::{
    AccountId, Call, CallOf, Config, DispatchError, DispatchResult, Error, Event, EventOf, Origin,
    SRCInfo, SRCInfoOf, ServiceInfo, ServiceInfoOf,
};

verus! {

/// The registry: its limits, its storage items and the events it has deposited.
pub struct Pallet {
    config: Config,
    total_srcs_created: Option<u64>,
    total_services_created: Option<u64>,
    authorized_scribes: StorageTable<AccountId, bool>,
    available_services: StorageTable<AccountId, bool>,
    src_transfer_accepted: StorageTable<(Vec<u8>, AccountId), bool>,
    srcs: StorageTable<Vec<u8>, SRCInfoOf>,
    services: StorageTable<AccountId, ServiceInfoOf>,
    events: Vec<EventOf>,
}

impl View for Pallet {
    type V = PalletView;

    closed spec fn view(&self) -> PalletView {
        PalletView {
            config: self.config,
            total_srcs_created: self.total_srcs_created,
            total_services_created: self.total_services_created,
            authorized_scribes: self.authorized_scribes@,
            available_services: self.available_services@,
            src_transfer_accepted: self.src_transfer_accepted@,
            srcs: self.srcs@,
            services: self.services@,
            events: self.events@.map_values(|e: EventOf| e@),
        }
    }
}

/// Reads a flag the way storage with a default reads it: a missing entry is `false`.
fn read_flag(table: &StorageTable<AccountId, bool>, account: AccountId) -> (r: bool)
    requires
        table.wf(),
    ensures
        r == flag(table@, account),
{
    match table.get(&account) {
        Some(b) => b,
        None => false,
    }
}

/// The refusal with an error of the registry.
fn refuse(e: Error) -> (r: DispatchResult)
    ensures
        r == Err::<(), DispatchError>(DispatchError::Module(e)),
{
    Err(DispatchError::Module(e))
}

impl Pallet {
    /// The storage tables are well formed.
    pub closed spec fn tables_wf(&self) -> bool {
        &&& self.authorized_scribes.wf()
        &&& self.available_services.wf()
        &&& self.src_transfer_accepted.wf()
        &&& self.srcs.wf()
        &&& self.services.wf()
    }

    /// The registry's invariant: well-formed tables holding a consistent state.
    pub open spec fn wf(&self) -> bool {
        self.tables_wf() && self@.consistent()
    }

    /// A registry with the given limits, empty storage and no events.
    pub fn new(config: Config) -> (p: Pallet)
        ensures
            p.wf(),
            p@ == PalletView::initial(config),
    {
        let p = Pallet {
            config,
            total_srcs_created: None,
            total_services_created: None,
            authorized_scribes: StorageTable::new(),
            available_services: StorageTable::new(),
            src_transfer_accepted: StorageTable::new(),
            srcs: StorageTable::new(),
            services: StorageTable::new(),
            events: Vec::new(),
        };
        assert(p@.events =~= Seq::<crate::types::EventView>::empty());
        p
    }

    fn deposit_event(&mut self, e: EventOf)
        ensures
            final(self)@ == old(self)@.deposit(e@),
            final(self).config == old(self).config,
            final(self).total_srcs_created == old(self).total_srcs_created,
            final(self).total_services_created == old(self).total_services_created,
            final(self).authorized_scribes == old(self).authorized_scribes,
            final(self).available_services == old(self).available_services,
            final(self).src_transfer_accepted == old(self).src_transfer_accepted,
            final(self).srcs == old(self).srcs,
            final(self).services == old(self).services,
    {
        let ghost before = self.events@;
        let ghost ev = e@;
        self.events.push(e);
        assert(self.events@.map_values(|x: EventOf| x@) =~= before.map_values(|x: EventOf| x@).push(
            ev,
        ));
    }

    // ------------------------------------------------------------ SRC calls
    /// Register a new SRC.
    pub fn self_register_content(&mut self, origin: Origin, kuri: Vec<u8>) -> (r: DispatchResult)
        requires
            old(self).wf(),
        ensures
            final(self).wf(),
            (r, final(self)@) == step(old(self)@, origin, Call::SelfRegisterContent { kuri: kuri@ }),
    {
        let ghost s0 = self@;
        let signer = match ensure_signed(origin) {
            Ok(a) => a,
            Err(e) => {
                return Err(e);
            },
        };
        if !read_flag(&self.authorized_scribes, signer) {
            return refuse(Error::CallForbidden);
        }
        if !fits_bound(&kuri, self.config.max_kuri_length) {
            return refuse(Error::MaxKURILengthExceeded);
        }
        if self.srcs.contains_key(&kuri) {
            return refuse(Error::SRCAlreadyAdded);
        }
        let total: u64 = match self.total_srcs_created {
            None => 1,
            Some(n) => match n.checked_add(1) {
                Some(m) => m,
                None => {
                    return refuse(Error::StorageOverflow);
                },
            },
        };
        let info = SRCInfo { kuri: kuri.duplicate(), owner: signer, scribe: signer, deleted: false };
        self.srcs.insert(kuri.duplicate(), info);
        self.total_srcs_created = Some(total);
        self.deposit_event(Event::SRCCreated(kuri));
        proof {
            lemma_step_preserves_consistency(s0, origin, Call::SelfRegisterContent { kuri: kuri@ });
        }
        Ok(())
    }

    /// Accept a transfer of a SRC.
    pub fn accept_src_transfer(&mut self, origin: Origin, kuri: Vec<u8>) -> (r: DispatchResult)
        requires
            old(self).wf(),
        ensures
            final(self).wf(),
            (r, final(self)@) == step(old(self)@, origin, Call::AcceptSrcTransfer { kuri: kuri@ }),
    {
        let ghost s0 = self@;
        let signer = match ensure_signed(origin) {
            Ok(a) => a,
            Err(e) => {
                return Err(e);
            },
        };
        if !fits_bound(&kuri, self.config.max_kuri_length) {
            return refuse(Error::MaxKURILengthExceeded);
        }
        let info = match self.srcs.get(&kuri) {
            Some(info) => info,
            None => {
                return refuse(Error::SRCNotFound);
            },
        };
        if info.owner == signer {
            return refuse(Error::CallForbidden);
        }
        if info.deleted {
            return refuse(Error::SRCAlreadyDeleted);
        }
        self.src_transfer_accepted.insert((kuri.duplicate(), signer), true);
        self.deposit_event(Event::SRCTransferAccepted(kuri, signer));
        proof {
            lemma_step_preserves_consistency(s0, origin, Call::AcceptSrcTransfer { kuri: kuri@ });
        }
        Ok(())
    }

    /// Transfer a SRC to another account.
    pub fn transfer_src(&mut self, origin: Origin, to: AccountId, kuri: Vec<u8>) -> (r:
        DispatchResult)
        requires
            old(self).wf(),
        ensures
            final(self).wf(),
            (r, final(self)@) == step(old(self)@, origin, Call::TransferSrc { to, kuri: kuri@ }),
    {
        let ghost s0 = self@;
        let signer = match ensure_signed(origin) {
            Ok(a) => a,
            Err(e) => {
                return Err(e);
            },
        };
        if !fits_bound(&kuri, self.config.max_kuri_length) {
            return refuse(Error::MaxKURILengthExceeded);
        }
        let accepted = match self.src_transfer_accepted.get(&(kuri.duplicate(), to)) {
            Some(b) => b,
            None => false,
        };
        if !accepted {
            return refuse(Error::CallForbidden);
        }
        let info = match self.srcs.get(&kuri) {
            Some(info) => info,
            None => {
                return refuse(Error::SRCNotFound);
            },
        };
        if info.owner != signer {
            return refuse(Error::CallForbidden);
        }
        if info.deleted {
            return refuse(Error::SRCAlreadyDeleted);
        }
        let updated = SRCInfo { kuri: info.kuri, owner: to, scribe: info.scribe, deleted: info.deleted };
        self.srcs.insert(kuri.duplicate(), updated);
        self.deposit_event(Event::SRCTransferred(kuri));
        proof {
            lemma_step_preserves_consistency(s0, origin, Call::TransferSrc { to, kuri: kuri@ });
        }
        Ok(())
    }

    /// Delete a SRC.
    pub fn delete_src(&mut self, origin: Origin, kuri: Vec<u8>) -> (r: DispatchResult)
        requires
            old(self).wf(),
        ensures
            final(self).wf(),
            (r, final(self)@) == step(old(self)@, origin, Call::DeleteSrc { kuri: kuri@ }),
    {
        let ghost s0 = self@;
        let signer = match ensure_signed(origin) {
            Ok(a) => a,
            Err(e) => {
                return Err(e);
            },
        };
        if !fits_bound(&kuri, self.config.max_kuri_length) {
            return refuse(Error::MaxKURILengthExceeded);
        }
        let info = match self.srcs.get(&kuri) {
            Some(info) => info,
            None => {
                return refuse(Error::SRCNotFound);
            },
        };
        if info.owner != signer {
            return refuse(Error::CallForbidden);
        }
        if info.deleted {
            return refuse(Error::SRCAlreadyDeleted);
        }
        let updated = SRCInfo { kuri: info.kuri, owner: info.owner, scribe: info.scribe, deleted: true };
        self.srcs.insert(kuri.duplicate(), updated);
        self.deposit_event(Event::SRCDeleted(kuri));
        proof {
            lemma_step_preserves_consistency(s0, origin, Call::DeleteSrc { kuri: kuri@ });
        }
        Ok(())
    }

    // -------------------------------------------------------- service calls
    /// The first of the five service byte strings, in this order, that is too long, as a refusal.
    fn check_service_fields(
        &self,
        service_id: &Vec<u8>,
        ip_address: &Vec<u8>,
        swarm_key: &Vec<u8>,
        status_file: &Vec<u8>,
        rff_file: &Vec<u8>,
    ) -> (r: DispatchResult)
        ensures
            r is Ok <==> crate::model::service_fields_error(
                self@.config,
                service_id@,
                ip_address@,
                swarm_key@,
                status_file@,
                rff_file@,
            ) is None,
            r matches Err(e) ==> crate::model::service_fields_error(
                self@.config,
                service_id@,
                ip_address@,
                swarm_key@,
                status_file@,
                rff_file@,
            ) == Some(e),
    {
        if !fits_bound(service_id, self.config.max_service_id_length) {
            return refuse(Error::MaxServiceIdLengthExceeded);
        }
        if !fits_bound(ip_address, self.config.max_ip_address_length) {
            return refuse(Error::MaxIPAddressLengthExceeded);
        }
        if !fits_bound(swarm_key, self.config.max_service_swarm_key_length) {
            return refuse(Error::MaxServiceSwarmKeyLengthExceeded);
        }
        if !fits_bound(status_file, self.config.max_service_status_file_length) {
            return refuse(Error::MaxServiceStatusFileLengthExceeded);
        }
        if !fits_bound(rff_file, self.config.max_service_rff_file_length) {
            return refuse(Error::MaxServiceRFFFileLengthExceeded);
        }
        Ok(())
    }

    /// Register a service.
    pub fn register_service(
        &mut self,
        origin: Origin,
        service_address: AccountId,
        service_id: Vec<u8>,
        ip_address: Vec<u8>,
        swarm_key: Vec<u8>,
        status_file: Vec<u8>,
        rff_file: Vec<u8>,
    ) -> (r: DispatchResult)
        requires
            old(self).wf(),
        ensures
            final(self).wf(),
            (r, final(self)@) == step(
                old(self)@,
                origin,
                Call::RegisterService {
                    service_address,
                    service_id: service_id@,
                    ip_address: ip_address@,
                    swarm_key: swarm_key@,
                    status_file: status_file@,
                    rff_file: rff_file@,
                },
            ),
    {
        let ghost s0 = self@;
        let ghost call = Call::RegisterService {
            service_address,
            service_id: service_id@,
            ip_address: ip_address@,
            swarm_key: swarm_key@,
            status_file: status_file@,
            rff_file: rff_file@,
        };
        let signer = match ensure_signed(origin) {
            Ok(a) => a,
            Err(e) => {
                return Err(e);
            },
        };
        if !read_flag(&self.authorized_scribes, signer) {
            return refuse(Error::CallForbidden);
        }
        let checked = self.check_service_fields(
            &service_id,
            &ip_address,
            &swarm_key,
            &status_file,
            &rff_file,
        );
        if checked.is_err() {
            return checked;
        }
        if self.services.contains_key(&service_address) {
            return refuse(Error::ServiceAlreadyAdded);
        }
        let total: u64 = match self.total_services_created {
            None => 1,
            Some(n) => match n.checked_add(1) {
                Some(m) => m,
                None => {
                    return refuse(Error::StorageOverflow);
                },
            },
        };
        let info = ServiceInfo {
            scribe: signer,
            service: service_address,
            id: service_id,
            ip_address,
            swarm_key,
            status: status_file,
            rff: rff_file,
            deleted: false,
        };
        self.services.insert(service_address, info);
        self.total_services_created = Some(total);
        self.deposit_event(Event::ServiceCreated(service_address));
        proof {
            lemma_step_preserves_consistency(s0, origin, call);
        }
        Ok(())
    }

    /// Update a service.
    pub fn update_service(
        &mut self,
        origin: Origin,
        service_address: AccountId,
        service_id: Vec<u8>,
        ip_address: Vec<u8>,
        swarm_key: Vec<u8>,
        status_file: Vec<u8>,
        rff_file: Vec<u8>,
    ) -> (r: DispatchResult)
        requires
            old(self).wf(),
        ensures
            final(self).wf(),
            (r, final(self)@) == step(
                old(self)@,
                origin,
                Call::UpdateService {
                    service_address,
                    service_id: service_id@,
                    ip_address: ip_address@,
                    swarm_key: swarm_key@,
                    status_file: status_file@,
                    rff_file: rff_file@,
                },
            ),
    {
        let ghost s0 = self@;
        let ghost call = Call::UpdateService {
            service_address,
            service_id: service_id@,
            ip_address: ip_address@,
            swarm_key: swarm_key@,
            status_file: status_file@,
            rff_file: rff_file@,
        };
        let signer = match ensure_signed(origin) {
            Ok(a) => a,
            Err(e) => {
                return Err(e);
            },
        };
        if !read_flag(&self.authorized_scribes, signer) {
            return refuse(Error::CallForbidden);
        }
        let info = match self.services.get(&service_address) {
            Some(info) => info,
            None => {
                return refuse(Error::ServiceNotFound);
            },
        };
        if info.scribe != signer {
            return refuse(Error::CallForbidden);
        }
        if info.deleted {
            return refuse(Error::ServiceAlreadyDeleted);
        }
        let checked = self.check_service_fields(
            &service_id,
            &ip_address,
            &swarm_key,
            &status_file,
            &rff_file,
        );
        if checked.is_err() {
            return checked;
        }
        let updated = ServiceInfo {
            scribe: info.scribe,
            service: info.service,
            id: service_id,
            ip_address,
            swarm_key,
            status: status_file,
            rff: rff_file,
            deleted: info.deleted,
        };
        self.services.insert(service_address, updated);
        self.deposit_event(Event::ServiceUpdated(service_address));
        proof {
            lemma_step_preserves_consistency(s0, origin, call);
        }
        Ok(())
    }

    /// Delete a service.
    pub fn delete_service(&mut self, origin: Origin, service_address: AccountId) -> (r:
        DispatchResult)
        requires
            old(self).wf(),
        ensures
            final(self).wf(),
            (r, final(self)@) == step(old(self)@, origin, Call::DeleteService { service_address }),
    {
        let ghost s0 = self@;
        let signer = match ensure_signed(origin) {
            Ok(a) => a,
            Err(e) => {
                return Err(e);
            },
        };
        if !read_flag(&self.authorized_scribes, signer) {
            return refuse(Error::CallForbidden);
        }
        let info = match self.services.get(&service_address) {
            Some(info) => info,
            None => {
                return refuse(Error::ServiceNotFound);
            },
        };
        if info.scribe != signer {
            return refuse(Error::CallForbidden);
        }
        if info.deleted {
            return refuse(Error::ServiceAlreadyDeleted);
        }
        let updated = ServiceInfo {
            scribe: info.scribe,
            service: info.service,
            id: info.id,
            ip_address: info.ip_address,
            swarm_key: info.swarm_key,
            status: info.status,
            rff: info.rff,
            deleted: true,
        };
        self.services.insert(service_address, updated);
        self.deposit_event(Event::ServiceDeleted(service_address));
        proof {
            lemma_step_preserves_consistency(s0, origin, Call::DeleteService { service_address });
        }
        Ok(())
    }

    /// Update own status: a service replaces its status and RFF files, and is reported
    /// as updated (`ServiceUpdated` with the service's account).
    pub fn update_service_status(&mut self, origin: Origin, status_file: Vec<u8>, rff_file: Vec<u8>) -> (r:
        DispatchResult)
        requires
            old(self).wf(),
        ensures
            final(self).wf(),
            (r, final(self)@) == step(
                old(self)@,
                origin,
                Call::UpdateServiceStatus { status_file: status_file@, rff_file: rff_file@ },
            ),
    {
        let ghost s0 = self@;
        let ghost call = Call::UpdateServiceStatus { status_file: status_file@, rff_file: rff_file@ };
        let signer = match ensure_signed(origin) {
            Ok(a) => a,
            Err(e) => {
                return Err(e);
            },
        };
        if !read_flag(&self.available_services, signer) {
            return refuse(Error::CallForbidden);
        }
        let info = match self.services.get(&signer) {
            Some(info) => info,
            None => {
                return refuse(Error::ServiceNotFound);
            },
        };
        if info.deleted {
            return refuse(Error::ServiceAlreadyDeleted);
        }
        if !fits_bound(&status_file, self.config.max_service_status_file_length) {
            return refuse(Error::MaxServiceStatusFileLengthExceeded);
        }
        if !fits_bound(&rff_file, self.config.max_service_rff_file_length) {
            return refuse(Error::MaxServiceRFFFileLengthExceeded);
        }
        let updated = ServiceInfo {
            scribe: info.scribe,
            service: info.service,
            id: info.id,
            ip_address: info.ip_address,
            swarm_key: info.swarm_key,
            status: status_file,
            rff: rff_file,
            deleted: info.deleted,
        };
        self.services.insert(signer, updated);
        self.deposit_event(Event::ServiceUpdated(signer));
        proof {
            lemma_step_preserves_consistency(s0, origin, call);
        }
        Ok(())
    }

    // --------------------------------------------------------- scribe calls
    /// Update another scribe's status.
    pub fn update_scribe_authority_status(&mut self, origin: Origin, scribe: AccountId, status: bool) -> (r:
        DispatchResult)
        requires
            old(self).wf(),
        ensures
            final(self).wf(),
            (r, final(self)@) == step(
                old(self)@,
                origin,
                Call::UpdateScribeAuthorityStatus { scribe, status },
            ),
    {
        let ghost s0 = self@;
        let signer = match ensure_signed(origin) {
            Ok(a) => a,
            Err(e) => {
                return Err(e);
            },
        };
        if !read_flag(&self.authorized_scribes, signer) {
            return refuse(Error::CallForbidden);
        }
        self.authorized_scribes.insert(scribe, status);
        if status {
            self.deposit_event(Event::ScribeAdded(signer, scribe));
        } else {
            self.deposit_event(Event::ScribeRemoved(signer, scribe));
        }
        proof {
            lemma_step_preserves_consistency(
                s0,
                origin,
                Call::UpdateScribeAuthorityStatus { scribe, status },
            );
        }
        Ok(())
    }

    // ----------------------------------------------------------- root calls
    /// Update a scribe's status (root only).
    pub fn force_update_scribe_authority_status(
        &mut self,
        origin: Origin,
        scribe: AccountId,
        status: bool,
    ) -> (r: DispatchResult)
        requires
            old(self).wf(),
        ensures
            final(self).wf(),
            (r, final(self)@) == step(
                old(self)@,
                origin,
                Call::ForceUpdateScribeAuthorityStatus { scribe, status },
            ),
    {
        let ghost s0 = self@;
        match ensure_root(origin) {
            Ok(()) => {},
            Err(e) => {
                return Err(e);
            },
        }
        self.authorized_scribes.insert(scribe, status);
        if status {
            self.deposit_event(Event::ScribeAddedByAdmin(scribe));
        } else {
            self.deposit_event(Event::ScribeRemovedByAdmin(scribe));
        }
        proof {
            lemma_step_preserves_consistency(
                s0,
                origin,
                Call::ForceUpdateScribeAuthorityStatus { scribe, status },
            );
        }
        Ok(())
    }

    /// Update a SRC's info (root only): the record under `kuri` becomes the one given.
    pub fn force_update_src_info(
        &mut self,
        origin: Origin,
        kuri: Vec<u8>,
        owner: AccountId,
        scribe: AccountId,
        deleted: bool,
    ) -> (r: DispatchResult)
        requires
            old(self).wf(),
        ensures
            final(self).wf(),
            (r, final(self)@) == step(
                old(self)@,
                origin,
                Call::ForceUpdateSrcInfo { kuri: kuri@, owner, scribe, deleted },
            ),
    {
        let ghost s0 = self@;
        match ensure_root(origin) {
            Ok(()) => {},
            Err(e) => {
                return Err(e);
            },
        }
        if !fits_bound(&kuri, self.config.max_kuri_length) {
            return refuse(Error::MaxKURILengthExceeded);
        }
        let info = SRCInfo { kuri: kuri.duplicate(), owner, scribe, deleted };
        self.srcs.insert(kuri.duplicate(), info);
        self.deposit_event(Event::SRCUpdated(kuri));
        proof {
            lemma_step_preserves_consistency(
                s0,
                origin,
                Call::ForceUpdateSrcInfo { kuri: kuri@, owner, scribe, deleted },
            );
        }
        Ok(())
    }

    /// Update a service's info (root only): the record under `service_address` becomes the one given.
    pub fn force_update_service_info(
        &mut self,
        origin: Origin,
        scribe: AccountId,
        service_address: AccountId,
        service_id: Vec<u8>,
        ip_address: Vec<u8>,
        swarm_key: Vec<u8>,
        status_file: Vec<u8>,
        rff_file: Vec<u8>,
        deleted: bool,
    ) -> (r: DispatchResult)
        requires
            old(self).wf(),
        ensures
            final(self).wf(),
            (r, final(self)@) == step(
                old(self)@,
                origin,
                Call::ForceUpdateServiceInfo {
                    scribe,
                    service_address,
                    service_id: service_id@,
                    ip_address: ip_address@,
                    swarm_key: swarm_key@,
                    status_file: status_file@,
                    rff_file: rff_file@,
                    deleted,
                },
            ),
    {
        let ghost s0 = self@;
        let ghost call = Call::ForceUpdateServiceInfo {
            scribe,
            service_address,
            service_id: service_id@,
            ip_address: ip_address@,
            swarm_key: swarm_key@,
            status_file: status_file@,
            rff_file: rff_file@,
            deleted,
        };
        match ensure_root(origin) {
            Ok(()) => {},
            Err(e) => {
                return Err(e);
            },
        }
        let checked = self.check_service_fields(
            &service_id,
            &ip_address,
            &swarm_key,
            &status_file,
            &rff_file,
        );
        if checked.is_err() {
            return checked;
        }
        let info = ServiceInfo {
            scribe,
            service: service_address,
            id: service_id,
            ip_address,
            swarm_key,
            status: status_file,
            rff: rff_file,
            deleted,
        };
        self.services.insert(service_address, info);
        self.deposit_event(Event::ServiceUpdated(service_address));
        proof {
            lemma_step_preserves_consistency(s0, origin, call);
        }
        Ok(())
    }

    /// Runs any call of the registry.
    pub fn dispatch(&mut self, origin: Origin, call: CallOf) -> (r: DispatchResult)
        requires
            old(self).wf(),
        ensures
            final(self).wf(),
            (r, final(self)@) == step(old(self)@, origin, call@),
    {
        match call {
            Call::SelfRegisterContent { kuri } => self.self_register_content(origin, kuri),
            Call::AcceptSrcTransfer { kuri } => self.accept_src_transfer(origin, kuri),
            Call::TransferSrc { to, kuri } => self.transfer_src(origin, to, kuri),
            Call::DeleteSrc { kuri } => self.delete_src(origin, kuri),
            Call::RegisterService {
                service_address,
                service_id,
                ip_address,
                swarm_key,
                status_file,
                rff_file,
            } => self.register_service(
                origin,
                service_address,
                service_id,
                ip_address,
                swarm_key,
                status_file,
                rff_file,
            ),
            Call::UpdateService {
                service_address,
                service_id,
                ip_address,
                swarm_key,
                status_file,
                rff_file,
            } => self.update_service(
                origin,
                service_address,
                service_id,
                ip_address,
                swarm_key,
                status_file,
                rff_file,
            ),
            Call::DeleteService { service_address } => self.delete_service(origin, service_address),
            Call::UpdateServiceStatus { status_file, rff_file } => self.update_service_status(
                origin,
                status_file,
                rff_file,
            ),
            Call::UpdateScribeAuthorityStatus { scribe, status } => self.update_scribe_authority_status(
                origin,
                scribe,
                status,
            ),
            Call::ForceUpdateScribeAuthorityStatus {
                scribe,
                status,
            } => self.force_update_scribe_authority_status(origin, scribe, status),
            Call::ForceUpdateSrcInfo { kuri, owner, scribe, deleted } => self.force_update_src_info(
                origin,
                kuri,
                owner,
                scribe,
                deleted,
            ),
            Call::ForceUpdateServiceInfo {
                scribe,
                service_address,
                service_id,
                ip_address,
                swarm_key,
                status_file,
                rff_file,
                deleted,
            } => self.force_update_service_info(
                origin,
                scribe,
                service_address,
                service_id,
                ip_address,
                swarm_key,
                status_file,
                rff_file,
                deleted,
            ),
        }
    }

    // ------------------------------------------------------ storage writes
    /// Stores whether `account` acts as a service. No call of the registry writes this
    /// item: it is set up with the chain (at genesis or by an upgrade).
    pub fn set_available_service(&mut self, account: AccountId, available: bool)
        requires
            old(self).wf(),
        ensures
            final(self).wf(),
            final(self)@ == (PalletView {
                available_services: old(self)@.available_services.insert(account, available),
                ..old(self)@
            }),
    {
        self.available_services.insert(account, available);
    }

    // ------------------------------------------------------- storage reads
    /// How many SRCs scribes have registered (`None` before the first).
    pub fn total_srcs_created(&self) -> (r: Option<u64>)
        ensures
            r == self@.total_srcs_created,
    {
        self.total_srcs_created
    }

    /// How many services scribes have registered (`None` before the first).
    pub fn total_services_created(&self) -> (r: Option<u64>)
        ensures
            r == self@.total_services_created,
    {
        self.total_services_created
    }

    /// Whether `account` is an authorized scribe.
    pub fn is_authorized_scribe(&self, account: AccountId) -> (r: bool)
        requires
            self.wf(),
        ensures
            r == flag(self@.authorized_scribes, account),
    {
        read_flag(&self.authorized_scribes, account)
    }

    /// Whether `account` acts as a service.
    pub fn is_service(&self, account: AccountId) -> (r: bool)
        requires
            self.wf(),
        ensures
            r == flag(self@.available_services, account),
    {
        read_flag(&self.available_services, account)
    }

    /// Whether `account` has accepted the transfer of the SRC `kuri`.
    pub fn is_src_transfer_accepted(&self, kuri: &Vec<u8>, account: AccountId) -> (r: bool)
        requires
            self.wf(),
        ensures
            r == flag(self@.src_transfer_accepted, (kuri@, account)),
    {
        match self.src_transfer_accepted.get(&(kuri.duplicate(), account)) {
            Some(b) => b,
            None => false,
        }
    }

    /// The SRC stored under `kuri`, if there is one.
    pub fn srcs(&self, kuri: &Vec<u8>) -> (r: Option<SRCInfoOf>)
        requires
            self.wf(),
        ensures
            r.is_some() == self@.srcs.contains_key(kuri@),
            r.is_some() ==> r.unwrap()@ == self@.srcs[kuri@],
    {
        self.srcs.get(kuri)
    }

    /// The service stored under `account`, if there is one.
    pub fn services(&self, account: AccountId) -> (r: Option<ServiceInfoOf>)
        requires
            self.wf(),
        ensures
            r.is_some() == self@.services.contains_key(account),
            r.is_some() ==> r.unwrap()@ == self@.services[account],
    {
        self.services.get(&account)
    }

    /// The events deposited so far, oldest first.
    pub fn events(&self) -> (r: &Vec<EventOf>)
        ensures
            r@.map_values(|e: EventOf| e@) == self@.events,
    {
        &self.events
    }
}

} // verus!

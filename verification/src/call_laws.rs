//! For each call of the registry: exactly when it is accepted, stated in terms of its
//! arguments and the state before it, and what the state holds after an accepted call,
//! read back record by record.
use vstd::prelude::*;

use crate::model::{count, step, PalletView};
use crate::types::{AccountId, Call, DispatchError, Error, Event, Origin};

verus! {

/// `m2` holds the same entries as `m1` under every key but `k`.
pub open spec fn same_except<K, V>(m1: Map<K, V>, m2: Map<K, V>, k: K) -> bool {
    forall|j: K|
        j != k ==> (#[trigger] m1.contains_key(j) == m2.contains_key(j)) && (m1.contains_key(j)
            ==> m1[j] == m2[j])
}

/// Whether an account is stored as `true` in a flag map (a missing entry reads as `false`).
pub open spec fn is_set<K>(m: Map<K, bool>, k: K) -> bool {
    m.contains_key(k) && m[k]
}

/// Registering a SRC succeeds exactly when the signer is an authorized scribe, the KURI is
/// within its limit, no SRC is stored under it and the counter is not full. Afterwards the
/// SRC reads back as owned and scribed by the signer and not deleted, no other SRC changed,
/// the counter grew by one and `SRCCreated` was deposited.
pub proof fn law_self_register_content(s: PalletView, signer: AccountId, kuri: Seq<u8>)
    ensures
        ({
            let (r, t) = step(s, Origin::Signed(signer), Call::SelfRegisterContent { kuri });
            &&& r is Ok <==> (is_set(s.authorized_scribes, signer) && kuri.len()
                <= s.config.max_kuri_length && !s.srcs.contains_key(kuri) && s.total_srcs_created
                != Some(u64::MAX))
            &&& r is Ok ==> {
                &&& t.srcs.contains_key(kuri)
                &&& t.srcs[kuri].kuri == kuri
                &&& t.srcs[kuri].owner == signer
                &&& t.srcs[kuri].scribe == signer
                &&& !t.srcs[kuri].deleted
                &&& same_except(s.srcs, t.srcs, kuri)
                &&& count(t.total_srcs_created) == count(s.total_srcs_created) + 1
                &&& t.events == s.events.push(Event::SRCCreated(kuri))
                &&& t.services == s.services && t.authorized_scribes == s.authorized_scribes
                &&& t.src_transfer_accepted == s.src_transfer_accepted
            }
        }),
{
}

/// Accepting the transfer of a stored, not deleted SRC with a KURI within its limit is
/// refused with `CallForbidden` exactly when the signer is the SRC's current owner (its
/// scribe may accept once it no longer owns it). In general it succeeds exactly when the
/// KURI is within its limit and names a stored, not deleted SRC that the signer does not own;
/// afterwards the signer's acceptance of that KURI is stored, nothing else of the storage
/// changed and `SRCTransferAccepted` was deposited.
pub proof fn law_accept_src_transfer(s: PalletView, signer: AccountId, kuri: Seq<u8>)
    ensures
        ({
            let (r, t) = step(s, Origin::Signed(signer), Call::AcceptSrcTransfer { kuri });
            &&& (kuri.len() <= s.config.max_kuri_length && s.srcs.contains_key(kuri)
                && !s.srcs[kuri].deleted) ==> (r == Err::<(), DispatchError>(
                DispatchError::Module(Error::CallForbidden),
            ) <==> s.srcs[kuri].owner == signer)
            &&& r is Ok <==> (kuri.len() <= s.config.max_kuri_length && s.srcs.contains_key(kuri)
                && s.srcs[kuri].owner != signer && !s.srcs[kuri].deleted)
            &&& r is Ok ==> {
                &&& is_set(t.src_transfer_accepted, (kuri, signer))
                &&& same_except(s.src_transfer_accepted, t.src_transfer_accepted, (kuri, signer))
                &&& t.srcs == s.srcs && t.services == s.services
                &&& t.authorized_scribes == s.authorized_scribes
                &&& t.events == s.events.push(Event::SRCTransferAccepted(kuri, signer))
            }
        }),
{
}

/// Transferring a SRC succeeds exactly when the KURI is within its limit, `to` has accepted
/// it, it is stored and not deleted, and the signer is its current owner, whoever its scribe
/// is. Afterwards the SRC is owned by `to` and keeps its KURI, scribe and deletion flag; no
/// other SRC changed and `SRCTransferred` was deposited.
pub proof fn law_transfer_src(s: PalletView, signer: AccountId, to: AccountId, kuri: Seq<u8>)
    ensures
        ({
            let (r, t) = step(s, Origin::Signed(signer), Call::TransferSrc { to, kuri });
            &&& r is Ok <==> (kuri.len() <= s.config.max_kuri_length && is_set(
                s.src_transfer_accepted,
                (kuri, to),
            ) && s.srcs.contains_key(kuri) && s.srcs[kuri].owner == signer
                && !s.srcs[kuri].deleted)
            &&& r is Ok ==> {
                &&& t.srcs.contains_key(kuri)
                &&& t.srcs[kuri].owner == to
                &&& t.srcs[kuri].kuri == s.srcs[kuri].kuri
                &&& t.srcs[kuri].scribe == s.srcs[kuri].scribe
                &&& t.srcs[kuri].deleted == s.srcs[kuri].deleted
                &&& same_except(s.srcs, t.srcs, kuri)
                &&& t.src_transfer_accepted == s.src_transfer_accepted
                &&& t.events == s.events.push(Event::SRCTransferred(kuri))
            }
        }),
{
}

/// Deleting a SRC succeeds exactly when the KURI is within its limit and names a stored, not
/// deleted SRC that the signer owns. Afterwards the record is the one before with its
/// deletion flag set and nothing else changed; `SRCDeleted` was deposited.
pub proof fn law_delete_src(s: PalletView, signer: AccountId, kuri: Seq<u8>)
    ensures
        ({
            let (r, t) = step(s, Origin::Signed(signer), Call::DeleteSrc { kuri });
            &&& r is Ok <==> (kuri.len() <= s.config.max_kuri_length && s.srcs.contains_key(kuri)
                && s.srcs[kuri].owner == signer && !s.srcs[kuri].deleted)
            &&& r is Ok ==> {
                &&& t.srcs.contains_key(kuri)
                &&& t.srcs[kuri].deleted
                &&& t.srcs[kuri].kuri == s.srcs[kuri].kuri
                &&& t.srcs[kuri].owner == s.srcs[kuri].owner
                &&& t.srcs[kuri].scribe == s.srcs[kuri].scribe
                &&& same_except(s.srcs, t.srcs, kuri)
                &&& t.events == s.events.push(Event::SRCDeleted(kuri))
            }
        }),
{
}

/// Whether the five byte strings of a service fit their limits.
pub open spec fn service_strings_fit(
    s: PalletView,
    service_id: Seq<u8>,
    ip_address: Seq<u8>,
    swarm_key: Seq<u8>,
    status_file: Seq<u8>,
    rff_file: Seq<u8>,
) -> bool {
    &&& service_id.len() <= s.config.max_service_id_length
    &&& ip_address.len() <= s.config.max_ip_address_length
    &&& swarm_key.len() <= s.config.max_service_swarm_key_length
    &&& status_file.len() <= s.config.max_service_status_file_length
    &&& rff_file.len() <= s.config.max_service_rff_file_length
}

/// Registering a service succeeds exactly when the signer is an authorized scribe, the five
/// byte strings fit, no service is stored under the account and the counter is not full.
/// Afterwards the service reads back with exactly the given strings, scribed by the signer,
/// under its account, not deleted; the counter grew by one and `ServiceCreated` was deposited.
pub proof fn law_register_service(
    s: PalletView,
    signer: AccountId,
    a: AccountId,
    id: Seq<u8>,
    ip: Seq<u8>,
    key: Seq<u8>,
    st: Seq<u8>,
    rf: Seq<u8>,
)
    ensures
        ({
            let (r, t) = step(
                s,
                Origin::Signed(signer),
                Call::RegisterService {
                    service_address: a,
                    service_id: id,
                    ip_address: ip,
                    swarm_key: key,
                    status_file: st,
                    rff_file: rf,
                },
            );
            &&& r is Ok <==> (is_set(s.authorized_scribes, signer) && service_strings_fit(
                s,
                id,
                ip,
                key,
                st,
                rf,
            ) && !s.services.contains_key(a) && s.total_services_created != Some(u64::MAX))
            &&& r is Ok ==> {
                &&& t.services.contains_key(a)
                &&& t.services[a].scribe == signer && t.services[a].service == a
                &&& t.services[a].id == id && t.services[a].ip_address == ip
                &&& t.services[a].swarm_key == key && t.services[a].status == st
                &&& t.services[a].rff == rf && !t.services[a].deleted
                &&& same_except(s.services, t.services, a)
                &&& count(t.total_services_created) == count(s.total_services_created) + 1
                &&& t.events == s.events.push(Event::ServiceCreated(a))
                &&& t.srcs == s.srcs
            }
        }),
{
}

/// Updating a service succeeds exactly when the signer is an authorized scribe, a service is
/// stored under the account, the signer is its scribe, it is not deleted and the five byte
/// strings fit. Afterwards its five strings are the given ones and its scribe, account and
/// deletion flag are as before; `ServiceUpdated` was deposited.
pub proof fn law_update_service(
    s: PalletView,
    signer: AccountId,
    a: AccountId,
    id: Seq<u8>,
    ip: Seq<u8>,
    key: Seq<u8>,
    st: Seq<u8>,
    rf: Seq<u8>,
)
    ensures
        ({
            let (r, t) = step(
                s,
                Origin::Signed(signer),
                Call::UpdateService {
                    service_address: a,
                    service_id: id,
                    ip_address: ip,
                    swarm_key: key,
                    status_file: st,
                    rff_file: rf,
                },
            );
            &&& r is Ok <==> (is_set(s.authorized_scribes, signer) && s.services.contains_key(a)
                && s.services[a].scribe == signer && !s.services[a].deleted && service_strings_fit(
                s,
                id,
                ip,
                key,
                st,
                rf,
            ))
            &&& r is Ok ==> {
                &&& t.services.contains_key(a)
                &&& t.services[a].id == id && t.services[a].ip_address == ip
                &&& t.services[a].swarm_key == key && t.services[a].status == st
                &&& t.services[a].rff == rf
                &&& t.services[a].scribe == s.services[a].scribe
                &&& t.services[a].service == s.services[a].service
                &&& t.services[a].deleted == s.services[a].deleted
                &&& same_except(s.services, t.services, a)
                &&& t.events == s.events.push(Event::ServiceUpdated(a))
            }
        }),
{
}

/// Deleting a service succeeds exactly when the signer is an authorized scribe, a service is
/// stored under the account, the signer is its scribe and it is not deleted. Afterwards the
/// record is the one before with its deletion flag set: its strings, scribe and account are
/// kept; `ServiceDeleted` was deposited.
pub proof fn law_delete_service(s: PalletView, signer: AccountId, a: AccountId)
    ensures
        ({
            let (r, t) = step(s, Origin::Signed(signer), Call::DeleteService { service_address: a });
            &&& r is Ok <==> (is_set(s.authorized_scribes, signer) && s.services.contains_key(a)
                && s.services[a].scribe == signer && !s.services[a].deleted)
            &&& r is Ok ==> {
                &&& t.services.contains_key(a)
                &&& t.services[a].deleted
                &&& t.services[a].scribe == s.services[a].scribe
                &&& t.services[a].service == s.services[a].service
                &&& t.services[a].id == s.services[a].id
                &&& t.services[a].ip_address == s.services[a].ip_address
                &&& t.services[a].swarm_key == s.services[a].swarm_key
                &&& t.services[a].status == s.services[a].status
                &&& t.services[a].rff == s.services[a].rff
                &&& same_except(s.services, t.services, a)
                &&& t.events == s.events.push(Event::ServiceDeleted(a))
            }
        }),
{
}

/// A service's update of its own status succeeds exactly when the signer acts as a service,
/// a service is stored under the signer's account, it is not deleted and the two files fit.
/// Afterwards the status and RFF files are the given ones and everything else of the record
/// is kept; `ServiceUpdated` for the signer was deposited.
pub proof fn law_update_service_status(s: PalletView, signer: AccountId, st: Seq<u8>, rf: Seq<u8>)
    ensures
        ({
            let (r, t) = step(
                s,
                Origin::Signed(signer),
                Call::UpdateServiceStatus { status_file: st, rff_file: rf },
            );
            &&& r is Ok <==> (is_set(s.available_services, signer) && s.services.contains_key(
                signer,
            ) && !s.services[signer].deleted && st.len() <= s.config.max_service_status_file_length
                && rf.len() <= s.config.max_service_rff_file_length)
            &&& r is Ok ==> {
                &&& t.services.contains_key(signer)
                &&& t.services[signer].status == st && t.services[signer].rff == rf
                &&& t.services[signer].scribe == s.services[signer].scribe
                &&& t.services[signer].service == s.services[signer].service
                &&& t.services[signer].id == s.services[signer].id
                &&& t.services[signer].ip_address == s.services[signer].ip_address
                &&& t.services[signer].swarm_key == s.services[signer].swarm_key
                &&& t.services[signer].deleted == s.services[signer].deleted
                &&& same_except(s.services, t.services, signer)
                &&& t.events == s.events.push(Event::ServiceUpdated(signer))
            }
        }),
{
}

/// A scribe's update of another scribe's authority succeeds exactly when the signer is an
/// authorized scribe. Afterwards the scribe's flag reads back as `status`, no other flag
/// changed, and `ScribeAdded` or `ScribeRemoved` (as `status` says) was deposited.
pub proof fn law_update_scribe_authority_status(
    s: PalletView,
    signer: AccountId,
    scribe: AccountId,
    status: bool,
)
    ensures
        ({
            let (r, t) = step(
                s,
                Origin::Signed(signer),
                Call::UpdateScribeAuthorityStatus { scribe, status },
            );
            &&& r is Ok <==> is_set(s.authorized_scribes, signer)
            &&& r is Ok ==> {
                &&& is_set(t.authorized_scribes, scribe) == status
                &&& same_except(s.authorized_scribes, t.authorized_scribes, scribe)
                &&& t.events == s.events.push(
                    if status {
                        Event::ScribeAdded(signer, scribe)
                    } else {
                        Event::ScribeRemoved(signer, scribe)
                    },
                )
            }
        }),
{
}

/// The root's update of a scribe's authority always succeeds; afterwards the flag reads back
/// as `status`, no other flag changed, and `ScribeAddedByAdmin` or `ScribeRemovedByAdmin` was
/// deposited.
pub proof fn law_force_update_scribe_authority_status(s: PalletView, scribe: AccountId, status: bool)
    ensures
        ({
            let (r, t) = step(s, Origin::Root, Call::ForceUpdateScribeAuthorityStatus { scribe, status });
            &&& r is Ok
            &&& is_set(t.authorized_scribes, scribe) == status
            &&& same_except(s.authorized_scribes, t.authorized_scribes, scribe)
            &&& t.events == s.events.push(
                if status {
                    Event::ScribeAddedByAdmin(scribe)
                } else {
                    Event::ScribeRemovedByAdmin(scribe)
                },
            )
        }),
{
}

/// The root's overwrite of a SRC succeeds exactly when the KURI is within its limit;
/// afterwards the record under the KURI reads back as exactly the one given, its deletion
/// flag included, no other SRC changed and `SRCUpdated` was deposited.
pub proof fn law_force_update_src_info(
    s: PalletView,
    kuri: Seq<u8>,
    owner: AccountId,
    scribe: AccountId,
    deleted: bool,
)
    ensures
        ({
            let (r, t) = step(s, Origin::Root, Call::ForceUpdateSrcInfo { kuri, owner, scribe, deleted });
            &&& r is Ok <==> kuri.len() <= s.config.max_kuri_length
            &&& r is Ok ==> {
                &&& t.srcs.contains_key(kuri)
                &&& t.srcs[kuri].kuri == kuri
                &&& t.srcs[kuri].owner == owner
                &&& t.srcs[kuri].scribe == scribe
                &&& t.srcs[kuri].deleted == deleted
                &&& same_except(s.srcs, t.srcs, kuri)
                &&& t.total_srcs_created == s.total_srcs_created
                &&& t.events == s.events.push(Event::SRCUpdated(kuri))
            }
        }),
{
}

/// The root's overwrite of a service succeeds exactly when the five byte strings fit;
/// afterwards the record under the account reads back as exactly the one given, its
/// deletion flag included, no other service changed and `ServiceUpdated` was deposited.
pub proof fn law_force_update_service_info(
    s: PalletView,
    scribe: AccountId,
    a: AccountId,
    id: Seq<u8>,
    ip: Seq<u8>,
    key: Seq<u8>,
    st: Seq<u8>,
    rf: Seq<u8>,
    deleted: bool,
)
    ensures
        ({
            let (r, t) = step(
                s,
                Origin::Root,
                Call::ForceUpdateServiceInfo {
                    scribe,
                    service_address: a,
                    service_id: id,
                    ip_address: ip,
                    swarm_key: key,
                    status_file: st,
                    rff_file: rf,
                    deleted,
                },
            );
            &&& r is Ok <==> service_strings_fit(s, id, ip, key, st, rf)
            &&& r is Ok ==> {
                &&& t.services.contains_key(a)
                &&& t.services[a].scribe == scribe && t.services[a].service == a
                &&& t.services[a].id == id && t.services[a].ip_address == ip
                &&& t.services[a].swarm_key == key && t.services[a].status == st
                &&& t.services[a].rff == rf && t.services[a].deleted == deleted
                &&& same_except(s.services, t.services, a)
                &&& t.total_services_created == s.total_services_created
                &&& t.events == s.events.push(Event::ServiceUpdated(a))
            }
        }),
{
}

/// A refusal with an error of the registry.
pub open spec fn err(e: Error) -> Result<(), DispatchError> {
    Err(DispatchError::Module(e))
}

/// The error for the first of the five service byte strings, in the order id, IP address,
/// swarm key, status file, RFF file, that is longer than its limit.
pub open spec fn first_long_string(
    s: PalletView,
    id: Seq<u8>,
    ip: Seq<u8>,
    key: Seq<u8>,
    st: Seq<u8>,
    rf: Seq<u8>,
) -> Option<Error> {
    if id.len() > s.config.max_service_id_length {
        Some(Error::MaxServiceIdLengthExceeded)
    } else if ip.len() > s.config.max_ip_address_length {
        Some(Error::MaxIPAddressLengthExceeded)
    } else if key.len() > s.config.max_service_swarm_key_length {
        Some(Error::MaxServiceSwarmKeyLengthExceeded)
    } else if st.len() > s.config.max_service_status_file_length {
        Some(Error::MaxServiceStatusFileLengthExceeded)
    } else if rf.len() > s.config.max_service_rff_file_length {
        Some(Error::MaxServiceRFFFileLengthExceeded)
    } else {
        None
    }
}

/// Which error refuses a SRC registration: a non-scribe is forbidden; then a KURI over its
/// limit, a KURI already stored and a full counter are reported, in that order.
pub proof fn law_self_register_content_errors(s: PalletView, signer: AccountId, kuri: Seq<u8>)
    ensures
        ({
            let r = step(s, Origin::Signed(signer), Call::SelfRegisterContent { kuri }).0;
            let scribe = is_set(s.authorized_scribes, signer);
            let short = kuri.len() <= s.config.max_kuri_length;
            &&& (r == err(Error::CallForbidden)) == !scribe
            &&& (r == err(Error::MaxKURILengthExceeded)) == (scribe && !short)
            &&& (r == err(Error::SRCAlreadyAdded)) == (scribe && short && s.srcs.contains_key(kuri))
            &&& (r == err(Error::StorageOverflow)) == (scribe && short && !s.srcs.contains_key(kuri)
                && s.total_srcs_created == Some(u64::MAX))
        }),
{
}

/// Which error refuses accepting a transfer: a KURI over its limit, then a missing SRC, then
/// the signer owning it (forbidden), then its deletion.
pub proof fn law_accept_src_transfer_errors(s: PalletView, signer: AccountId, kuri: Seq<u8>)
    ensures
        ({
            let r = step(s, Origin::Signed(signer), Call::AcceptSrcTransfer { kuri }).0;
            let short = kuri.len() <= s.config.max_kuri_length;
            let found = s.srcs.contains_key(kuri);
            &&& (r == err(Error::MaxKURILengthExceeded)) == !short
            &&& (r == err(Error::SRCNotFound)) == (short && !found)
            &&& (r == err(Error::CallForbidden)) == (short && found && s.srcs[kuri].owner == signer)
            &&& (r == err(Error::SRCAlreadyDeleted)) == (short && found && s.srcs[kuri].owner
                != signer && s.srcs[kuri].deleted)
        }),
{
}

/// Which error refuses a transfer: a KURI over its limit; then a missing acceptance by `to`
/// or a signer that does not own the SRC (forbidden); a missing SRC; a deleted SRC.
pub proof fn law_transfer_src_errors(s: PalletView, signer: AccountId, to: AccountId, kuri: Seq<u8>)
    ensures
        ({
            let r = step(s, Origin::Signed(signer), Call::TransferSrc { to, kuri }).0;
            let short = kuri.len() <= s.config.max_kuri_length;
            let accepted = is_set(s.src_transfer_accepted, (kuri, to));
            let found = s.srcs.contains_key(kuri);
            &&& (r == err(Error::MaxKURILengthExceeded)) == !short
            &&& (r == err(Error::CallForbidden)) == (short && (!accepted || (found
                && s.srcs[kuri].owner != signer)))
            &&& (r == err(Error::SRCNotFound)) == (short && accepted && !found)
            &&& (r == err(Error::SRCAlreadyDeleted)) == (short && accepted && found
                && s.srcs[kuri].owner == signer && s.srcs[kuri].deleted)
        }),
{
}

/// Which error refuses a SRC deletion: a KURI over its limit, a missing SRC, a signer that
/// does not own it (forbidden), a SRC already deleted.
pub proof fn law_delete_src_errors(s: PalletView, signer: AccountId, kuri: Seq<u8>)
    ensures
        ({
            let r = step(s, Origin::Signed(signer), Call::DeleteSrc { kuri }).0;
            let short = kuri.len() <= s.config.max_kuri_length;
            let found = s.srcs.contains_key(kuri);
            &&& (r == err(Error::MaxKURILengthExceeded)) == !short
            &&& (r == err(Error::SRCNotFound)) == (short && !found)
            &&& (r == err(Error::CallForbidden)) == (short && found && s.srcs[kuri].owner != signer)
            &&& (r == err(Error::SRCAlreadyDeleted)) == (short && found && s.srcs[kuri].owner
                == signer && s.srcs[kuri].deleted)
        }),
{
}

/// Which error refuses a service registration: a non-scribe is forbidden; then the first
/// string over its limit; then an account already holding a service; then a full counter.
pub proof fn law_register_service_errors(
    s: PalletView,
    signer: AccountId,
    a: AccountId,
    id: Seq<u8>,
    ip: Seq<u8>,
    key: Seq<u8>,
    st: Seq<u8>,
    rf: Seq<u8>,
)
    ensures
        ({
            let r = step(
                s,
                Origin::Signed(signer),
                Call::RegisterService {
                    service_address: a,
                    service_id: id,
                    ip_address: ip,
                    swarm_key: key,
                    status_file: st,
                    rff_file: rf,
                },
            ).0;
            let scribe = is_set(s.authorized_scribes, signer);
            let long = first_long_string(s, id, ip, key, st, rf);
            &&& (r == err(Error::CallForbidden)) == !scribe
            &&& scribe && long is Some ==> r == err(long.unwrap())
            &&& (r == err(Error::ServiceAlreadyAdded)) == (scribe && long is None
                && s.services.contains_key(a))
            &&& (r == err(Error::StorageOverflow)) == (scribe && long is None
                && !s.services.contains_key(a) && s.total_services_created == Some(u64::MAX))
        }),
{
}

/// Which error refuses a service update: a non-scribe is forbidden; a missing service; a
/// signer that is not the service's scribe (forbidden); a deleted service; then the first
/// string over its limit.
pub proof fn law_update_service_errors(
    s: PalletView,
    signer: AccountId,
    a: AccountId,
    id: Seq<u8>,
    ip: Seq<u8>,
    key: Seq<u8>,
    st: Seq<u8>,
    rf: Seq<u8>,
)
    ensures
        ({
            let r = step(
                s,
                Origin::Signed(signer),
                Call::UpdateService {
                    service_address: a,
                    service_id: id,
                    ip_address: ip,
                    swarm_key: key,
                    status_file: st,
                    rff_file: rf,
                },
            ).0;
            let scribe = is_set(s.authorized_scribes, signer);
            let found = s.services.contains_key(a);
            let long = first_long_string(s, id, ip, key, st, rf);
            &&& (r == err(Error::CallForbidden)) == (!scribe || (found && s.services[a].scribe
                != signer))
            &&& (r == err(Error::ServiceNotFound)) == (scribe && !found)
            &&& (r == err(Error::ServiceAlreadyDeleted)) == (scribe && found && s.services[a].scribe
                == signer && s.services[a].deleted)
            &&& (scribe && found && s.services[a].scribe == signer && !s.services[a].deleted
                && long is Some) ==> r == err(long.unwrap())
        }),
{
}

/// Which error refuses a service deletion: a non-scribe is forbidden; a missing service; a
/// signer that is not the service's scribe (forbidden); a service already deleted.
pub proof fn law_delete_service_errors(s: PalletView, signer: AccountId, a: AccountId)
    ensures
        ({
            let r = step(s, Origin::Signed(signer), Call::DeleteService { service_address: a }).0;
            let scribe = is_set(s.authorized_scribes, signer);
            let found = s.services.contains_key(a);
            &&& (r == err(Error::CallForbidden)) == (!scribe || (found && s.services[a].scribe
                != signer))
            &&& (r == err(Error::ServiceNotFound)) == (scribe && !found)
            &&& (r == err(Error::ServiceAlreadyDeleted)) == (scribe && found && s.services[a].scribe
                == signer && s.services[a].deleted)
        }),
{
}

/// Which error refuses a service's update of its own status: an account that does not act as
/// a service is forbidden; then a missing service, a deleted service, a status file over its
/// limit, an RFF file over its limit.
pub proof fn law_update_service_status_errors(s: PalletView, signer: AccountId, st: Seq<u8>, rf: Seq<u8>)
    ensures
        ({
            let r = step(
                s,
                Origin::Signed(signer),
                Call::UpdateServiceStatus { status_file: st, rff_file: rf },
            ).0;
            let service = is_set(s.available_services, signer);
            let found = s.services.contains_key(signer);
            let live = found && !s.services[signer].deleted;
            &&& (r == err(Error::CallForbidden)) == !service
            &&& (r == err(Error::ServiceNotFound)) == (service && !found)
            &&& (r == err(Error::ServiceAlreadyDeleted)) == (service && found
                && s.services[signer].deleted)
            &&& (r == err(Error::MaxServiceStatusFileLengthExceeded)) == (service && live && st.len()
                > s.config.max_service_status_file_length)
            &&& (r == err(Error::MaxServiceRFFFileLengthExceeded)) == (service && live && st.len()
                <= s.config.max_service_status_file_length && rf.len()
                > s.config.max_service_rff_file_length)
        }),
{
}

/// Which error refuses the root's overwrites: a KURI over its limit for a SRC, the first
/// string over its limit for a service.
pub proof fn law_force_update_errors(
    s: PalletView,
    kuri: Seq<u8>,
    owner: AccountId,
    scribe: AccountId,
    a: AccountId,
    id: Seq<u8>,
    ip: Seq<u8>,
    key: Seq<u8>,
    st: Seq<u8>,
    rf: Seq<u8>,
    deleted: bool,
)
    ensures
        kuri.len() > s.config.max_kuri_length ==> step(
            s,
            Origin::Root,
            Call::ForceUpdateSrcInfo { kuri, owner, scribe, deleted },
        ).0 == err(Error::MaxKURILengthExceeded),
        first_long_string(s, id, ip, key, st, rf) is Some ==> step(
            s,
            Origin::Root,
            Call::ForceUpdateServiceInfo {
                scribe,
                service_address: a,
                service_id: id,
                ip_address: ip,
                swarm_key: key,
                status_file: st,
                rff_file: rf,
                deleted,
            },
        ).0 == err(first_long_string(s, id, ip, key, st, rf).unwrap()),
{
}

} // verus!

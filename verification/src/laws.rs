//! What holds of every call of the registry, whatever the state and the arguments.
use vstd::prelude::*;

use crate::model::{call_error, count, fits, flag, refused, step, transfer_src_error, PalletView};
use crate::types::{AccountId, Call, CallView, DispatchError, Error, Origin, SRCInfo, ServiceInfo};

verus! {

/// Every call keeps the registry consistent (records stored under their own keys, byte
/// strings within their limits, stored transfer acceptances all `true` and naming stored
/// SRCs), and no call changes the limits.
pub proof fn lemma_step_preserves_consistency(s: PalletView, origin: Origin, call: CallView)
    requires
        s.consistent(),
    ensures
        step(s, origin, call).1.consistent(),
        step(s, origin, call).1.config == s.config,
{
}

/// A refused call leaves the registry exactly as it was, storage and events alike; a call
/// is refused exactly when some check of it fails.
pub proof fn lemma_refused_call_changes_nothing(s: PalletView, origin: Origin, call: CallView)
    ensures
        step(s, origin, call).0 is Err <==> call_error(s, origin, call) is Some,
        step(s, origin, call).0 is Err ==> step(s, origin, call).1 == s,
{
}

/// An accepted call deposits exactly one event after the earlier ones; a refused call
/// deposits none. Earlier events are never lost.
pub proof fn lemma_one_event_per_accepted_call(s: PalletView, origin: Origin, call: CallView)
    ensures
        step(s, origin, call).0 is Ok ==> step(s, origin, call).1.events.len() == s.events.len() + 1,
        step(s, origin, call).0 is Err ==> step(s, origin, call).1.events == s.events,
        step(s, origin, call).1.events.subrange(0, s.events.len() as int) == s.events,
{
    let t = step(s, origin, call).1;
    assert(t.events.subrange(0, s.events.len() as int) =~= s.events);
}

/// The counters count registrations: a counter grows by one exactly when a registration of
/// its kind is accepted, and stays as it is otherwise; so it never decreases.
pub proof fn lemma_counters_count_registrations(s: PalletView, origin: Origin, call: CallView)
    ensures
        count(step(s, origin, call).1.total_srcs_created) == count(s.total_srcs_created) + if step(
            s,
            origin,
            call,
        ).0 is Ok && call is SelfRegisterContent {
            1int
        } else {
            0int
        },
        count(step(s, origin, call).1.total_services_created) == count(s.total_services_created)
            + if step(s, origin, call).0 is Ok && call is RegisterService {
            1int
        } else {
            0int
        },
        count(step(s, origin, call).1.total_srcs_created) >= count(s.total_srcs_created),
        count(step(s, origin, call).1.total_services_created) >= count(s.total_services_created),
{
}

/// Only the root, or an account that is an authorized scribe, changes who is an authorized scribe.
pub proof fn lemma_scribe_authority_guarded(s: PalletView, origin: Origin, call: CallView)
    ensures
        step(s, origin, call).1.authorized_scribes != s.authorized_scribes ==> (origin == Origin::Root
            || (origin matches Origin::Signed(a) && flag(s.authorized_scribes, a))),
{
}

/// Every call from an unsigned origin is refused with `BadOrigin`.
pub proof fn lemma_unsigned_origin_refused(s: PalletView, call: CallView)
    ensures
        step(s, Origin::Unsigned, call).0 == Err::<(), DispatchError>(DispatchError::BadOrigin),
{
}

/// The root-only calls are refused with `BadOrigin` for any signed origin, and the calls of
/// scribes, owners and services are refused with `BadOrigin` for the root.
pub proof fn lemma_origin_kinds_are_separate(s: PalletView, a: AccountId, call: CallView)
    ensures
        (call is ForceUpdateScribeAuthorityStatus || call is ForceUpdateSrcInfo
            || call is ForceUpdateServiceInfo) ==> step(s, Origin::Signed(a), call).0 == Err::<
            (),
            DispatchError,
        >(DispatchError::BadOrigin),
        !(call is ForceUpdateScribeAuthorityStatus || call is ForceUpdateSrcInfo
            || call is ForceUpdateServiceInfo) ==> step(s, Origin::Root, call).0 == Err::<
            (),
            DispatchError,
        >(DispatchError::BadOrigin),
{
}

/// Records are never removed: a SRC or service stored before any call is stored after it.
pub proof fn lemma_records_persist(s: PalletView, origin: Origin, call: CallView, kuri: Seq<u8>, account: AccountId)
    ensures
        s.srcs.contains_key(kuri) ==> step(s, origin, call).1.srcs.contains_key(kuri),
        s.services.contains_key(account) ==> step(s, origin, call).1.services.contains_key(account),
{
}

/// Short of the root, a stored SRC keeps its KURI and its scribe; its owner changes only
/// by a transfer that its owner signed to an account that had accepted it, and it becomes
/// deleted only by its owner's deletion (and never undeleted).
pub proof fn lemma_src_ownership_changes_only_by_accepted_transfer(
    s: PalletView,
    origin: Origin,
    call: CallView,
    kuri: Seq<u8>,
)
    requires
        origin != Origin::Root,
        s.srcs.contains_key(kuri),
    ensures
        step(s, origin, call).1.srcs[kuri].kuri == s.srcs[kuri].kuri,
        step(s, origin, call).1.srcs[kuri].scribe == s.srcs[kuri].scribe,
        step(s, origin, call).1.srcs[kuri].owner != s.srcs[kuri].owner ==> {
            &&& step(s, origin, call).0 is Ok
            &&& origin == Origin::Signed(s.srcs[kuri].owner)
            &&& call matches Call::TransferSrc { to, kuri: k } && k == kuri && flag(
                s.src_transfer_accepted,
                (kuri, to),
            ) && step(s, origin, call).1.srcs[kuri].owner == to
        },
        step(s, origin, call).1.srcs[kuri].deleted != s.srcs[kuri].deleted ==> {
            &&& origin == Origin::Signed(s.srcs[kuri].owner)
            &&& call == Call::DeleteSrc::<Seq<u8>> { kuri }
            &&& step(s, origin, call).1.srcs[kuri].deleted
        },
{
}

/// Short of the root, a deleted SRC stays exactly as it is.
pub proof fn lemma_deleted_src_is_final(s: PalletView, origin: Origin, call: CallView, kuri: Seq<u8>)
    requires
        origin != Origin::Root,
        s.srcs.contains_key(kuri),
        s.srcs[kuri].deleted,
    ensures
        step(s, origin, call).1.srcs[kuri] == s.srcs[kuri],
{
}

/// Short of the root, a deleted service stays exactly as it is.
pub proof fn lemma_deleted_service_is_final(
    s: PalletView,
    origin: Origin,
    call: CallView,
    account: AccountId,
)
    requires
        origin != Origin::Root,
        s.services.contains_key(account),
        s.services[account].deleted,
    ensures
        step(s, origin, call).1.services[account] == s.services[account],
{
}

/// Short of the root, a stored service keeps its account and its scribe, and it changes
/// only by a call of that scribe (an update or a deletion) or by the service account itself,
/// which replaces nothing but its status and RFF files.
pub proof fn lemma_service_changes_are_authorized(
    s: PalletView,
    origin: Origin,
    call: CallView,
    account: AccountId,
)
    requires
        origin != Origin::Root,
        s.services.contains_key(account),
    ensures
        step(s, origin, call).1.services[account].scribe == s.services[account].scribe,
        step(s, origin, call).1.services[account].service == s.services[account].service,
        step(s, origin, call).1.services[account] != s.services[account] ==> {
            ||| origin == Origin::Signed(s.services[account].scribe) && (call is UpdateService
                || call is DeleteService)
            ||| origin == Origin::Signed(account) && call is UpdateServiceStatus && step(
                s,
                origin,
                call,
            ).1.services[account] == (ServiceInfo {
                status: step(s, origin, call).1.services[account].status,
                rff: step(s, origin, call).1.services[account].rff,
                ..s.services[account]
            })
        },
{
}

/// What a read gives back of a write: a registered SRC reads back as owned and scribed by its
/// signer and not deleted, and the flag that the root stores for a scribe reads back as stored.
pub proof fn lemma_writes_read_back(
    s: PalletView,
    signer: AccountId,
    kuri: Seq<u8>,
    scribe: AccountId,
    status: bool,
)
    ensures
        step(s, Origin::Signed(signer), Call::SelfRegisterContent { kuri }).0 is Ok ==> {
            let t = step(s, Origin::Signed(signer), Call::SelfRegisterContent { kuri }).1;
            t.srcs.contains_key(kuri) && t.srcs[kuri] == SRCInfo {
                kuri,
                owner: signer,
                scribe: signer,
                deleted: false,
            }
        },
        step(s, Origin::Root, Call::ForceUpdateScribeAuthorityStatus { scribe, status }).0 is Ok,
        flag(
            step(s, Origin::Root, Call::ForceUpdateScribeAuthorityStatus { scribe, status }).1.authorized_scribes,
            scribe,
        ) == status,
{
}

/// In a consistent registry, a transfer that some account accepted always finds its SRC:
/// a transfer is never refused with `SRCNotFound`.
pub proof fn lemma_accepted_transfer_finds_src(s: PalletView, origin: Origin, to: AccountId, kuri: Seq<u8>)
    requires
        s.consistent(),
    ensures
        transfer_src_error(s, origin, to, kuri) != refused(Error::SRCNotFound),
{
    if origin is Signed && fits(kuri, s.config.max_kuri_length) && flag(s.src_transfer_accepted, (kuri, to)) {
        assert(s.src_transfer_accepted.contains_key((kuri, to)));
    }
}

} // verus!

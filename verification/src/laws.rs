//! The protocol's laws, stated and proved once over the specification
//! functions the executable contracts are phrased in.

use vstd::prelude::*;
use crate::directory::{spec_capability_of, spec_register};
use crate::endpoint::{
    acceptable, lemma_path_key_injective, receive_capable, receive_transition, spec_path_key,
    Endpoint, ReceiveState,
};
use crate::errors::RegistryError;
use crate::message_lib::{LibraryIdentity, MessageLibInfo, ReceiveLibraryConfig};

verus! {

/// A path never configured for receives accepts exactly the current global
/// default library: no other candidate, and the default at every checkpoint.
pub proof fn lemma_unset_accepts_default_exactly(
    e: Endpoint,
    application: u64,
    remote_eid: u32,
    candidate: LibraryIdentity,
    checkpoint: u64,
    default_lib: LibraryIdentity,
)
    requires
        !e.receive_map().contains_key(spec_path_key(application, remote_eid)),
    ensures
        e.spec_acceptable(application, remote_eid, candidate, checkpoint, default_lib) == (candidate
            == default_lib),
{
}

/// A pinned path accepts exactly its pinned library, whatever the checkpoint
/// and whatever the global default.
pub proof fn lemma_pinned_accepts_exactly(
    state: ReceiveState,
    lib: LibraryIdentity,
    candidate: LibraryIdentity,
    checkpoint: u64,
    default_lib: LibraryIdentity,
)
    requires
        state == (ReceiveState::Pinned { lib }),
    ensures
        acceptable(state, candidate, checkpoint, default_lib) == (candidate == lib),
{
}

/// A migrating path accepts both the new and the previous library strictly
/// before the expiry checkpoint; from the expiry on, it accepts exactly the
/// new library.
pub proof fn lemma_migration_window(
    lib: LibraryIdentity,
    prev: LibraryIdentity,
    expiry: u64,
    candidate: LibraryIdentity,
    checkpoint: u64,
    default_lib: LibraryIdentity,
)
    ensures
        checkpoint < expiry ==> acceptable(
            (ReceiveState::Migrating { lib, prev, expiry }),
            lib,
            checkpoint,
            default_lib,
        ) && acceptable(
            (ReceiveState::Migrating { lib, prev, expiry }),
            prev,
            checkpoint,
            default_lib,
        ),
        checkpoint >= expiry ==> acceptable(
            (ReceiveState::Migrating { lib, prev, expiry }),
            candidate,
            checkpoint,
            default_lib,
        ) == (candidate == lib),
{
}

/// Starting a second migration discards the first window: after a successful
/// `set_receive_library` on a migrating record, the old previous library is
/// acceptable at no checkpoint — even one before the first window's expiry —
/// provided it is distinct from the two libraries the new window names.
pub proof fn lemma_second_migration_discards_prev(
    lib: LibraryIdentity,
    prev: LibraryIdentity,
    expiry: u64,
    new_lib: LibraryIdentity,
    new_expiry: u64,
    checkpoint: u64,
    default_lib: LibraryIdentity,
)
    requires
        prev != new_lib,
        prev != lib,
    ensures
        !acceptable(
            receive_transition(
                (ReceiveState::Migrating { lib, prev, expiry }),
                new_lib,
                Some(new_expiry),
            ),
            prev,
            checkpoint,
            default_lib,
        ),
{
}

/// Registration is idempotent-rejecting: registering the same identity twice
/// returns `AlreadyRegistered` and leaves the recorded capability unchanged.
pub proof fn lemma_register_idempotent_rejecting(
    dir: Map<u64, MessageLibInfo>,
    lib: LibraryIdentity,
    info: MessageLibInfo,
    info2: MessageLibInfo,
)
    requires
        !dir.contains_key(lib.value),
    ensures
        ({
            let (dir1, r1) = spec_register(dir, lib, info);
            let (dir2, r2) = spec_register(dir1, lib, info2);
            &&& r1 == Ok::<(), RegistryError>(())
            &&& r2 == Err::<(), RegistryError>(RegistryError::AlreadyRegistered)
            &&& dir2 == dir1
            &&& spec_capability_of(dir2, lib) == Some(info.message_lib_type)
        }),
{
}

/// Paths are independent: replacing the receive record of one
/// (application, remote path) — which is all a successful
/// `set_receive_library` does to the receive records — leaves the effective
/// receive state of every other path unchanged.
pub proof fn lemma_paths_independent(
    pre: Endpoint,
    post: Endpoint,
    application: u64,
    remote_eid: u32,
    cfg: ReceiveLibraryConfig,
    other_application: u64,
    other_eid: u32,
)
    requires
        post.receive_map() == pre.receive_map().insert(
            spec_path_key(application, remote_eid),
            cfg,
        ),
        other_application != application || other_eid != remote_eid,
    ensures
        post.spec_receive_state(other_application, other_eid) == pre.spec_receive_state(
            other_application,
            other_eid,
        ),
{
    if spec_path_key(other_application, other_eid) == spec_path_key(application, remote_eid) {
        lemma_path_key_injective(other_application, other_eid, application, remote_eid);
    }
}

/// The selection invariant made visible: under `wf`, every library a receive
/// record names — the current one, and the previous one of a pending
/// migration — is registered with receive capability.
pub proof fn lemma_wf_receive_records_capable(e: Endpoint, application: u64, remote_eid: u32)
    requires
        e.wf(),
    ensures
        e.spec_receive_state(application, remote_eid) matches ReceiveState::Pinned { lib }
            ==> receive_capable(e.directory_map(), lib),
        e.spec_receive_state(application, remote_eid) matches ReceiveState::Migrating {
            lib,
            prev,
            ..
        } ==> receive_capable(e.directory_map(), lib) && receive_capable(e.directory_map(), prev),
{
    if e.spec_receive_state(application, remote_eid) !is Unset {
        assert(e.receive_map().contains_key(spec_path_key(application, remote_eid)));
    }
}

} // verus!

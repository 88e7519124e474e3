//! The endpoint state machine: per-(application, remote path) send and
//! receive selection records over the library directory, the migration
//! protocol for receive switches, and the acceptance query consulted on
//! every inbound message.

use vstd::prelude::*;
use std::collections::HashMap;
use crate::directory::{spec_capability_of, spec_register, LibraryDirectory};
use crate::errors::RegistryError;
use crate::message_lib::{
    LibraryIdentity, MessageLibInfo, MessageLibType, ReceiveLibraryConfig, ReceiveLibraryTimeout,
    SendLibraryConfig,
};

verus! {

/// Packs an (application, remote path) pair into the single key the
/// per-path records are stored under. Injective: see
/// `lemma_path_key_injective`.
pub open spec fn spec_path_key(application: u64, remote_eid: u32) -> u128 {
    ((application as u128) * 0x1_0000_0000 + (remote_eid as u128)) as u128
}

/// Distinct (application, remote path) pairs are stored under distinct keys.
pub proof fn lemma_path_key_injective(a1: u64, e1: u32, a2: u64, e2: u32)
    requires
        spec_path_key(a1, e1) == spec_path_key(a2, e2),
    ensures
        a1 == a2 && e1 == e2,
{
    assert(a1 == a2 && e1 == e2) by (nonlinear_arith)
        requires
            (a1 as u128) * 0x1_0000_0000 + (e1 as u128) == (a2 as u128) * 0x1_0000_0000 + (
            e2 as u128),
            e1 < 0x1_0000_0000,
            e2 < 0x1_0000_0000,
    ;
}

fn path_key(application: u64, remote_eid: u32) -> (r: u128)
    ensures
        r == spec_path_key(application, remote_eid),
{
    (application as u128) * 0x1_0000_0000 + (remote_eid as u128)
}

/// The effective receive-selection state of one (application, remote path):
/// absence of a record means the path follows the global default; a record
/// without a pending migration pins one library; a record with one keeps the
/// previous library acceptable until the expiry checkpoint.
#[derive(Clone, Copy, PartialEq, Eq, Structural, Debug)]
pub enum ReceiveState {
    Unset,
    Pinned { lib: LibraryIdentity },
    Migrating { lib: LibraryIdentity, prev: LibraryIdentity, expiry: u64 },
}

/// Reads the effective receive state out of the stored records. The
/// `Migrating -> Pinned` transition at expiry is not stored; it is observed
/// by `acceptable`, which compares the checkpoint against the expiry on
/// every read.
pub open spec fn receive_state_of(
    rcv: Map<u128, ReceiveLibraryConfig>,
    application: u64,
    remote_eid: u32,
) -> ReceiveState {
    let key = spec_path_key(application, remote_eid);
    if rcv.contains_key(key) {
        match rcv[key].timeout {
            None => ReceiveState::Pinned { lib: rcv[key].message_lib },
            Some(t) => ReceiveState::Migrating {
                lib: rcv[key].message_lib,
                prev: t.message_lib,
                expiry: t.expiry,
            },
        }
    } else {
        ReceiveState::Unset
    }
}

/// The acceptance predicate every inbound message consults: which candidate
/// library's attestation is acceptable at the given checkpoint. Pure; the
/// expiry comparison is strict, so at `checkpoint == expiry` the previous
/// library is already unacceptable.
pub open spec fn acceptable(
    state: ReceiveState,
    candidate: LibraryIdentity,
    checkpoint: u64,
    default_lib: LibraryIdentity,
) -> bool {
    match state {
        ReceiveState::Unset => candidate == default_lib,
        ReceiveState::Pinned { lib } => candidate == lib,
        ReceiveState::Migrating { lib, prev, expiry } => candidate == lib || (candidate == prev
            && checkpoint < expiry),
    }
}

/// The successful `set_receive_library` transition, applied after the
/// capability and expiry checks have passed. A requested migration window
/// keeps the currently selected library as the previous one; from `Unset`
/// there is no previous library, so the new selection is simply pinned.
/// Re-invoking on a migrating record replaces the whole window: the old
/// previous library is discarded even before its expiry (single-window
/// policy, no stacking of grace periods).
pub open spec fn receive_transition(
    state: ReceiveState,
    new_lib: LibraryIdentity,
    expiry: Option<u64>,
) -> ReceiveState {
    match state {
        ReceiveState::Unset => ReceiveState::Pinned { lib: new_lib },
        ReceiveState::Pinned { lib } => match expiry {
            None => ReceiveState::Pinned { lib: new_lib },
            Some(e) => ReceiveState::Migrating { lib: new_lib, prev: lib, expiry: e },
        },
        ReceiveState::Migrating { lib, .. } => match expiry {
            None => ReceiveState::Pinned { lib: new_lib },
            Some(e) => ReceiveState::Migrating { lib: new_lib, prev: lib, expiry: e },
        },
    }
}

/// The identity is registered with a capability valid for outbound sends.
pub open spec fn send_capable(dir: Map<u64, MessageLibInfo>, lib: LibraryIdentity) -> bool {
    spec_capability_of(dir, lib) matches Some(t) && t.supports_send()
}

/// The identity is registered with a capability valid for inbound receives.
pub open spec fn receive_capable(dir: Map<u64, MessageLibInfo>, lib: LibraryIdentity) -> bool {
    spec_capability_of(dir, lib) matches Some(t) && t.supports_receive()
}

/// Which role a change event is about.
#[derive(Clone, Copy, PartialEq, Eq, Structural, Debug)]
pub enum LibraryRole {
    Send,
    Receive,
}

/// Change event emitted by every successful mutation of a selection record,
/// for external auditability. `None` in `old_library` or `new_library`
/// stands for "the global default".
#[derive(Clone, Copy, PartialEq, Eq, Debug)]
pub struct LibraryChangeEvent {
    pub application: u64,
    pub remote_eid: u32,
    pub role: LibraryRole,
    pub old_library: Option<LibraryIdentity>,
    pub new_library: Option<LibraryIdentity>,
    pub expiry: Option<u64>,
}

/// `wf` survives any change that only touches records whose new entries are
/// capability-checked against an unchanged directory.
proof fn lemma_wf_update(pre: Endpoint, post: Endpoint)
    requires
        pre.wf(),
        post.directory_map() == pre.directory_map(),
        forall|k: u128| #[trigger]
            post.send_map().contains_key(k) ==> (pre.send_map().contains_key(k)
                && post.send_map()[k] == pre.send_map()[k]) || send_capable(
                pre.directory_map(),
                post.send_map()[k].message_lib,
            ),
        forall|k: u128| #[trigger]
            post.receive_map().contains_key(k) ==> (pre.receive_map().contains_key(k)
                && post.receive_map()[k] == pre.receive_map()[k]) || (receive_capable(
                pre.directory_map(),
                post.receive_map()[k].message_lib,
            ) && (post.receive_map()[k].timeout matches Some(t) ==> receive_capable(
                pre.directory_map(),
                t.message_lib,
            ))),
    ensures
        post.wf(),
{
    assert forall|k: u128| #[trigger] post.send_map().contains_key(k) implies send_capable(
        post.directory_map(),
        post.send_map()[k].message_lib,
    ) by {
        if pre.send_map().contains_key(k) && post.send_map()[k] == pre.send_map()[k] {
            assert(send_capable(pre.directory_map(), pre.send_map()[k].message_lib));
        }
    }
    assert forall|k: u128| #[trigger] post.receive_map().contains_key(k) implies ({
        let c = post.receive_map()[k];
        &&& receive_capable(post.directory_map(), c.message_lib)
        &&& (c.timeout matches Some(t) ==> receive_capable(post.directory_map(), t.message_lib))
    }) by {
        if pre.receive_map().contains_key(k) && post.receive_map()[k] == pre.receive_map()[k] {
            assert(receive_capable(pre.directory_map(), pre.receive_map()[k].message_lib));
            assert(pre.receive_map()[k].timeout matches Some(t) ==> receive_capable(
                pre.directory_map(),
                t.message_lib,
            ));
        }
    }
}

/// `wf` survives a registration: the directory is append-only, so every
/// capability it already answered for stays answered unchanged.
proof fn lemma_wf_after_register(
    pre: Endpoint,
    post: Endpoint,
    lib: LibraryIdentity,
    info: MessageLibInfo,
)
    requires
        pre.wf(),
        post.directory_map() == spec_register(pre.directory_map(), lib, info).0,
        post.send_map() == pre.send_map(),
        post.receive_map() == pre.receive_map(),
    ensures
        post.wf(),
{
    let dir0 = pre.directory_map();
    let dir1 = post.directory_map();
    assert forall|k: u128| #[trigger] post.send_map().contains_key(k) implies send_capable(
        dir1,
        post.send_map()[k].message_lib,
    ) by {
        assert(pre.send_map().contains_key(k));
        let l = pre.send_map()[k].message_lib;
        assert(send_capable(dir0, l));
        assert(spec_capability_of(dir1, l) == spec_capability_of(dir0, l));
    }
    assert forall|k: u128| #[trigger] post.receive_map().contains_key(k) implies ({
        let c = post.receive_map()[k];
        &&& receive_capable(dir1, c.message_lib)
        &&& (c.timeout matches Some(t) ==> receive_capable(dir1, t.message_lib))
    }) by {
        assert(pre.receive_map().contains_key(k));
        let c = pre.receive_map()[k];
        assert(receive_capable(dir0, c.message_lib));
        assert(spec_capability_of(dir1, c.message_lib) == spec_capability_of(dir0, c.message_lib));
        if c.timeout is Some {
            let t = c.timeout->0;
            assert(receive_capable(dir0, t.message_lib));
            assert(spec_capability_of(dir1, t.message_lib) == spec_capability_of(
                dir0,
                t.message_lib,
            ));
        }
    }
}

/// The endpoint's control-plane state: the append-only library directory,
/// the owner recorded for each provisioned application, and the per-path
/// send and receive selection records.
pub struct Endpoint {
    directory: LibraryDirectory,
    owners: HashMap<u64, u64>,
    send: HashMap<u128, SendLibraryConfig>,
    receive: HashMap<u128, ReceiveLibraryConfig>,
}

impl Endpoint {
    pub closed spec fn directory_map(self) -> Map<u64, MessageLibInfo> {
        self.directory@
    }

    pub closed spec fn owners_map(self) -> Map<u64, u64> {
        self.owners@
    }

    pub closed spec fn send_map(self) -> Map<u128, SendLibraryConfig> {
        self.send@
    }

    pub closed spec fn receive_map(self) -> Map<u128, ReceiveLibraryConfig> {
        self.receive@
    }

    /// Only the recorded owner of an application may mutate its selections.
    pub open spec fn authorized(self, caller: u64, application: u64) -> bool {
        self.owners_map().contains_key(application) && self.owners_map()[application] == caller
    }

    /// Invariant: every library a selection record names was registered with
    /// a capability valid for the record's role — including the previous
    /// library of a pending migration, which was the capability-checked
    /// current library when the migration began.
    pub open spec fn wf(self) -> bool {
        &&& forall|k: u128| #[trigger]
            self.send_map().contains_key(k) ==> send_capable(
                self.directory_map(),
                self.send_map()[k].message_lib,
            )
        &&& forall|k: u128| #[trigger]
            self.receive_map().contains_key(k) ==> {
                let c = self.receive_map()[k];
                &&& receive_capable(self.directory_map(), c.message_lib)
                &&& (c.timeout matches Some(t) ==> receive_capable(
                    self.directory_map(),
                    t.message_lib,
                ))
            }
    }

    pub open spec fn spec_receive_state(self, application: u64, remote_eid: u32) -> ReceiveState {
        receive_state_of(self.receive_map(), application, remote_eid)
    }

    pub open spec fn spec_acceptable(
        self,
        application: u64,
        remote_eid: u32,
        candidate: LibraryIdentity,
        checkpoint: u64,
        default_lib: LibraryIdentity,
    ) -> bool {
        acceptable(
            self.spec_receive_state(application, remote_eid),
            candidate,
            checkpoint,
            default_lib,
        )
    }

    pub open spec fn spec_send_library(self, application: u64, remote_eid: u32) -> Option<
        LibraryIdentity,
    > {
        let key = spec_path_key(application, remote_eid);
        if self.send_map().contains_key(key) {
            Some(self.send_map()[key].message_lib)
        } else {
            None
        }
    }

    pub fn new() -> (r: Endpoint)
        ensures
            r.wf(),
            r.directory_map() == Map::<u64, MessageLibInfo>::empty(),
            r.owners_map() == Map::<u64, u64>::empty(),
            r.send_map() == Map::<u128, SendLibraryConfig>::empty(),
            r.receive_map() == Map::<u128, ReceiveLibraryConfig>::empty(),
    {
        Endpoint {
            directory: LibraryDirectory::new(),
            owners: HashMap::new(),
            send: HashMap::new(),
            receive: HashMap::new(),
        }
    }

    /// Records the owner of a newly provisioned application. One-shot
    /// bootstrap: a second initialization of the same application is
    /// rejected and changes nothing.
    pub fn init_application(&mut self, application: u64, owner: u64) -> (r: Result<
        (),
        RegistryError,
    >)
        requires
            old(self).wf(),
        ensures
            final(self).wf(),
            final(self).directory_map() == old(self).directory_map(),
            final(self).send_map() == old(self).send_map(),
            final(self).receive_map() == old(self).receive_map(),
            r is Ok <==> !old(self).owners_map().contains_key(application),
            r is Ok ==> final(self).owners_map() == old(self).owners_map().insert(
                application,
                owner,
            ),
            r is Err ==> final(self).owners_map() == old(self).owners_map() && r == Err::<
                (),
                RegistryError,
            >(RegistryError::AlreadyRegistered),
    {
        if self.owners.contains_key(&application) {
            Err(RegistryError::AlreadyRegistered)
        } else {
            self.owners.insert(application, owner);
            proof {
                lemma_wf_update(*old(self), *self);
            }
            Ok(())
        }
    }

    /// Registers a library identity in the directory. Append-only; see
    /// `LibraryDirectory::register`.
    pub fn register(&mut self, lib: LibraryIdentity, info: MessageLibInfo) -> (r: Result<
        (),
        RegistryError,
    >)
        requires
            old(self).wf(),
        ensures
            final(self).wf(),
            final(self).owners_map() == old(self).owners_map(),
            final(self).send_map() == old(self).send_map(),
            final(self).receive_map() == old(self).receive_map(),
            (final(self).directory_map(), r) == spec_register(old(self).directory_map(), lib, info),
            r is Ok <==> !old(self).directory_map().contains_key(lib.value),
    {
        let r = self.directory.register(lib, info);
        proof {
            lemma_wf_after_register(*old(self), *self, lib, info);
        }
        r
    }

    /// Looks up the capability recorded for an identity.
    pub fn capability_of(&self, lib: LibraryIdentity) -> (r: Option<MessageLibType>)
        ensures
            r == spec_capability_of(self.directory_map(), lib),
    {
        self.directory.capability_of(lib)
    }

    /// The owner recorded for an application, if it was provisioned.
    pub fn owner_of(&self, application: u64) -> (r: Option<u64>)
        ensures
            r matches Some(o) ==> self.owners_map().contains_key(application)
                && self.owners_map()[application] == o,
            r is None ==> !self.owners_map().contains_key(application),
    {
        match self.owners.get(&application) {
            Some(o) => Some(*o),
            None => None,
        }
    }

    /// The library configured for outbound sends on a path, or `None` when
    /// the path follows the global default.
    pub fn send_library_of(&self, application: u64, remote_eid: u32) -> (r: Option<
        LibraryIdentity,
    >)
        ensures
            r == self.spec_send_library(application, remote_eid),
    {
        let key = path_key(application, remote_eid);
        match self.send.get(&key) {
            Some(c) => Some(c.message_lib),
            None => None,
        }
    }

    /// The effective receive-selection state of a path.
    pub fn receive_state(&self, application: u64, remote_eid: u32) -> (r: ReceiveState)
        ensures
            r == self.spec_receive_state(application, remote_eid),
    {
        let key = path_key(application, remote_eid);
        match self.receive.get(&key) {
            None => ReceiveState::Unset,
            Some(c) => match c.timeout {
                None => ReceiveState::Pinned { lib: c.message_lib },
                Some(t) => ReceiveState::Migrating {
                    lib: c.message_lib,
                    prev: t.message_lib,
                    expiry: t.expiry,
                },
            },
        }
    }

    /// The acceptance query every inbound message consults: whether the
    /// candidate library's attestation is acceptable for this path at the
    /// given checkpoint, with the network-wide default receive library
    /// injected as a read-only configuration value. Pure and side-effect
    /// free.
    pub fn is_acceptable(
        &self,
        application: u64,
        remote_eid: u32,
        candidate: LibraryIdentity,
        current_checkpoint: u64,
        default_lib: LibraryIdentity,
    ) -> (r: bool)
        ensures
            r == self.spec_acceptable(
                application,
                remote_eid,
                candidate,
                current_checkpoint,
                default_lib,
            ),
    {
        let key = path_key(application, remote_eid);
        match self.receive.get(&key) {
            None => candidate == default_lib,
            Some(c) => {
                if candidate == c.message_lib {
                    true
                } else {
                    match c.timeout {
                        Some(t) => candidate == t.message_lib && current_checkpoint < t.expiry,
                        None => false,
                    }
                }
            },
        }
    }

    /// Selects the library authoritative for outbound sends on a path.
    /// Total, immediate replacement: a send switch has no transition window,
    /// because the sender controls timing and can stop sending through the
    /// old path. Checks, in order: the caller owns the application
    /// (`Unauthorized`), and the library declares send capability
    /// (`InvalidCapability`). On success the whole record is replaced in a
    /// single assignment and a change event is returned.
    pub fn set_send_library(
        &mut self,
        caller: u64,
        application: u64,
        remote_eid: u32,
        new_lib: LibraryIdentity,
    ) -> (r: Result<LibraryChangeEvent, RegistryError>)
        requires
            old(self).wf(),
        ensures
            final(self).wf(),
            final(self).directory_map() == old(self).directory_map(),
            final(self).owners_map() == old(self).owners_map(),
            final(self).receive_map() == old(self).receive_map(),
            r is Err ==> final(self).send_map() == old(self).send_map(),
            !old(self).authorized(caller, application) ==> r == Err::<
                LibraryChangeEvent,
                RegistryError,
            >(RegistryError::Unauthorized),
            old(self).authorized(caller, application) && !send_capable(
                old(self).directory_map(),
                new_lib,
            ) ==> r == Err::<LibraryChangeEvent, RegistryError>(RegistryError::InvalidCapability),
            old(self).authorized(caller, application) && send_capable(
                old(self).directory_map(),
                new_lib,
            ) ==> ({
                let key = spec_path_key(application, remote_eid);
                let had = old(self).send_map().contains_key(key);
                let bump: u8 = if had {
                    old(self).send_map()[key].bump
                } else {
                    0
                };
                &&& final(self).send_map() == old(self).send_map().insert(
                    key,
                    (SendLibraryConfig { message_lib: new_lib, bump }),
                )
                &&& r == Ok::<LibraryChangeEvent, RegistryError>(
                    (LibraryChangeEvent {
                        application,
                        remote_eid,
                        role: LibraryRole::Send,
                        old_library: old(self).spec_send_library(application, remote_eid),
                        new_library: Some(new_lib),
                        expiry: None,
                    }),
                )
            }),
    {
        let authorized: bool = match self.owners.get(&application) {
            Some(owner) => *owner == caller,
            None => false,
        };
        if !authorized {
            return Err(RegistryError::Unauthorized);
        }
        let capable: bool = match self.directory.capability_of(new_lib) {
            Some(t) => t.can_send(),
            None => false,
        };
        if !capable {
            return Err(RegistryError::InvalidCapability);
        }
        let key: u128 = path_key(application, remote_eid);
        let old_library: Option<LibraryIdentity> = match self.send.get(&key) {
            Some(c) => Some(c.message_lib),
            None => None,
        };
        let bump: u8 = match self.send.get(&key) {
            Some(c) => c.bump,
            None => 0,
        };
        self.send.insert(key, SendLibraryConfig { message_lib: new_lib, bump });
        proof {
            assert(send_capable(old(self).directory_map(), new_lib));
            lemma_wf_update(*old(self), *self);
        }
        Ok(
            LibraryChangeEvent {
                application,
                remote_eid,
                role: LibraryRole::Send,
                old_library,
                new_library: Some(new_lib),
                expiry: None,
            },
        )
    }

    /// Removes the send selection record of a path unconditionally,
    /// reverting the path to default-library semantics.
    pub fn clear_send_library(&mut self, caller: u64, application: u64, remote_eid: u32) -> (r:
        Result<LibraryChangeEvent, RegistryError>)
        requires
            old(self).wf(),
        ensures
            final(self).wf(),
            final(self).directory_map() == old(self).directory_map(),
            final(self).owners_map() == old(self).owners_map(),
            final(self).receive_map() == old(self).receive_map(),
            r is Err ==> final(self).send_map() == old(self).send_map(),
            !old(self).authorized(caller, application) ==> r == Err::<
                LibraryChangeEvent,
                RegistryError,
            >(RegistryError::Unauthorized),
            old(self).authorized(caller, application) ==> ({
                let key = spec_path_key(application, remote_eid);
                &&& final(self).send_map() == old(self).send_map().remove(key)
                &&& r == Ok::<LibraryChangeEvent, RegistryError>(
                    (LibraryChangeEvent {
                        application,
                        remote_eid,
                        role: LibraryRole::Send,
                        old_library: old(self).spec_send_library(application, remote_eid),
                        new_library: None,
                        expiry: None,
                    }),
                )
            }),
    {
        let authorized: bool = match self.owners.get(&application) {
            Some(owner) => *owner == caller,
            None => false,
        };
        if !authorized {
            return Err(RegistryError::Unauthorized);
        }
        let key: u128 = path_key(application, remote_eid);
        let old_library: Option<LibraryIdentity> = match self.send.get(&key) {
            Some(c) => Some(c.message_lib),
            None => None,
        };
        self.send.remove(&key);
        proof {
            lemma_wf_update(*old(self), *self);
        }
        Ok(
            LibraryChangeEvent {
                application,
                remote_eid,
                role: LibraryRole::Send,
                old_library,
                new_library: None,
                expiry: None,
            },
        )
    }

    /// Selects the library authoritative for inbound receives on a path,
    /// optionally opening a migration window during which the previously
    /// selected library stays acceptable until `expiry`. Checks, in order:
    /// the caller owns the application (`Unauthorized`), the library
    /// declares receive capability (`InvalidCapability`), and a requested
    /// expiry is strictly in the future (`InvalidExpiry`). On success the
    /// whole record is replaced in a single assignment — starting a new
    /// migration discards any unexpired prior window — and a change event is
    /// returned.
    pub fn set_receive_library(
        &mut self,
        caller: u64,
        application: u64,
        remote_eid: u32,
        new_lib: LibraryIdentity,
        expiry: Option<u64>,
        current_checkpoint: u64,
    ) -> (r: Result<LibraryChangeEvent, RegistryError>)
        requires
            old(self).wf(),
        ensures
            final(self).wf(),
            final(self).directory_map() == old(self).directory_map(),
            final(self).owners_map() == old(self).owners_map(),
            final(self).send_map() == old(self).send_map(),
            r is Err ==> final(self).receive_map() == old(self).receive_map(),
            !old(self).authorized(caller, application) ==> r == Err::<
                LibraryChangeEvent,
                RegistryError,
            >(RegistryError::Unauthorized),
            old(self).authorized(caller, application) && !receive_capable(
                old(self).directory_map(),
                new_lib,
            ) ==> r == Err::<LibraryChangeEvent, RegistryError>(RegistryError::InvalidCapability),
            old(self).authorized(caller, application) && receive_capable(
                old(self).directory_map(),
                new_lib,
            ) && (expiry matches Some(e) && e <= current_checkpoint) ==> r == Err::<
                LibraryChangeEvent,
                RegistryError,
            >(RegistryError::InvalidExpiry),
            old(self).authorized(caller, application) && receive_capable(
                old(self).directory_map(),
                new_lib,
            ) && (expiry matches Some(e) ==> e > current_checkpoint) ==> ({
                let key = spec_path_key(application, remote_eid);
                let s0 = old(self).spec_receive_state(application, remote_eid);
                let s1 = receive_transition(s0, new_lib, expiry);
                let had = old(self).receive_map().contains_key(key);
                let bump: u8 = if had {
                    old(self).receive_map()[key].bump
                } else {
                    0
                };
                let timeout = match s1 {
                    ReceiveState::Migrating { prev, expiry: e, .. } => Some(
                        ReceiveLibraryTimeout { message_lib: prev, expiry: e },
                    ),
                    _ => None,
                };
                &&& final(self).spec_receive_state(application, remote_eid) == s1
                &&& final(self).receive_map() == old(self).receive_map().insert(
                    key,
                    (ReceiveLibraryConfig { message_lib: new_lib, timeout, bump }),
                )
                &&& r == Ok::<LibraryChangeEvent, RegistryError>(
                    (LibraryChangeEvent {
                        application,
                        remote_eid,
                        role: LibraryRole::Receive,
                        old_library: match s0 {
                            ReceiveState::Unset => None,
                            ReceiveState::Pinned { lib } => Some(lib),
                            ReceiveState::Migrating { lib, .. } => Some(lib),
                        },
                        new_library: Some(new_lib),
                        expiry: match s1 {
                            ReceiveState::Migrating { expiry: e, .. } => Some(e),
                            _ => None,
                        },
                    }),
                )
            }),
    {
        let authorized: bool = match self.owners.get(&application) {
            Some(owner) => *owner == caller,
            None => false,
        };
        if !authorized {
            return Err(RegistryError::Unauthorized);
        }
        let capable: bool = match self.directory.capability_of(new_lib) {
            Some(t) => t.can_receive(),
            None => false,
        };
        if !capable {
            return Err(RegistryError::InvalidCapability);
        }
        if let Some(e) = expiry {
            if e <= current_checkpoint {
                return Err(RegistryError::InvalidExpiry);
            }
        }
        let key: u128 = path_key(application, remote_eid);
        let old_cfg: Option<ReceiveLibraryConfig> = match self.receive.get(&key) {
            Some(c) => Some(*c),
            None => None,
        };
        let bump: u8 = match old_cfg {
            Some(c) => c.bump,
            None => 0,
        };
        let timeout: Option<ReceiveLibraryTimeout> = match (old_cfg, expiry) {
            (Some(c), Some(e)) => Some(ReceiveLibraryTimeout { message_lib: c.message_lib, expiry: e }),
            _ => None,
        };
        let old_library: Option<LibraryIdentity> = match old_cfg {
            Some(c) => Some(c.message_lib),
            None => None,
        };
        let window: Option<u64> = match timeout {
            Some(t) => Some(t.expiry),
            None => None,
        };
        self.receive.insert(key, ReceiveLibraryConfig { message_lib: new_lib, timeout, bump });
        proof {
            assert(receive_capable(old(self).directory_map(), new_lib));
            match old_cfg {
                Some(c) => {
                    assert(old(self).receive_map().contains_key(
                        spec_path_key(application, remote_eid),
                    ));
                    assert(receive_capable(old(self).directory_map(), c.message_lib));
                },
                None => {},
            }
            lemma_wf_update(*old(self), *self);
        }
        Ok(
            LibraryChangeEvent {
                application,
                remote_eid,
                role: LibraryRole::Receive,
                old_library,
                new_library: Some(new_lib),
                expiry: window,
            },
        )
    }

    /// Removes the receive selection record of a path unconditionally,
    /// discarding any pending migration and returning the path to
    /// default-library semantics.
    pub fn clear_receive_library(&mut self, caller: u64, application: u64, remote_eid: u32) -> (r:
        Result<LibraryChangeEvent, RegistryError>)
        requires
            old(self).wf(),
        ensures
            final(self).wf(),
            final(self).directory_map() == old(self).directory_map(),
            final(self).owners_map() == old(self).owners_map(),
            final(self).send_map() == old(self).send_map(),
            r is Err ==> final(self).receive_map() == old(self).receive_map(),
            !old(self).authorized(caller, application) ==> r == Err::<
                LibraryChangeEvent,
                RegistryError,
            >(RegistryError::Unauthorized),
            old(self).authorized(caller, application) ==> ({
                let key = spec_path_key(application, remote_eid);
                let s0 = old(self).spec_receive_state(application, remote_eid);
                &&& final(self).receive_map() == old(self).receive_map().remove(key)
                &&& final(self).spec_receive_state(application, remote_eid) is Unset
                &&& r == Ok::<LibraryChangeEvent, RegistryError>(
                    (LibraryChangeEvent {
                        application,
                        remote_eid,
                        role: LibraryRole::Receive,
                        old_library: match s0 {
                            ReceiveState::Unset => None,
                            ReceiveState::Pinned { lib } => Some(lib),
                            ReceiveState::Migrating { lib, .. } => Some(lib),
                        },
                        new_library: None,
                        expiry: None,
                    }),
                )
            }),
    {
        let authorized: bool = match self.owners.get(&application) {
            Some(owner) => *owner == caller,
            None => false,
        };
        if !authorized {
            return Err(RegistryError::Unauthorized);
        }
        let key: u128 = path_key(application, remote_eid);
        let old_library: Option<LibraryIdentity> = match self.receive.get(&key) {
            Some(c) => Some(c.message_lib),
            None => None,
        };
        self.receive.remove(&key);
        proof {
            lemma_wf_update(*old(self), *self);
        }
        Ok(
            LibraryChangeEvent {
                application,
                remote_eid,
                role: LibraryRole::Receive,
                old_library,
                new_library: None,
                expiry: None,
            },
        )
    }
}

} // verus!

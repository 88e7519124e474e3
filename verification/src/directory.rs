//! The library directory: an append-only registry of library identities and
//! the capability each one declared when it was registered.

use vstd::prelude::*;
use std::collections::HashMap;
use crate::errors::RegistryError;
use crate::message_lib::{LibraryIdentity, MessageLibInfo, MessageLibType};

verus! {

/// What `capability_of` answers over a directory snapshot: the capability
/// recorded for the identity, or `None` when it was never registered.
pub open spec fn spec_capability_of(
    dir: Map<u64, MessageLibInfo>,
    lib: LibraryIdentity,
) -> Option<MessageLibType> {
    if dir.contains_key(lib.value) {
        Some(dir[lib.value].message_lib_type)
    } else {
        None
    }
}

/// The registration transition: appends a fresh identity, or rejects a
/// duplicate leaving the directory unchanged.
pub open spec fn spec_register(
    dir: Map<u64, MessageLibInfo>,
    lib: LibraryIdentity,
    info: MessageLibInfo,
) -> (Map<u64, MessageLibInfo>, Result<(), RegistryError>) {
    if dir.contains_key(lib.value) {
        (dir, Err(RegistryError::AlreadyRegistered))
    } else {
        (dir.insert(lib.value, info), Ok(()))
    }
}

/// Append-only mapping from a library's identity to its registration info.
/// An identity, once registered, can neither change capability nor be
/// removed, so a recorded capability is authoritative for the library's
/// lifetime.
pub struct LibraryDirectory {
    table: HashMap<u64, MessageLibInfo>,
}

impl View for LibraryDirectory {
    type V = Map<u64, MessageLibInfo>;

    closed spec fn view(&self) -> Map<u64, MessageLibInfo> {
        self.table@
    }
}

impl LibraryDirectory {
    pub fn new() -> (r: LibraryDirectory)
        ensures
            r@ == Map::<u64, MessageLibInfo>::empty(),
    {
        LibraryDirectory { table: HashMap::new() }
    }

    /// Registers a library identity with its declared capability.
    /// Append-only: a duplicate identity is rejected and nothing changes.
    pub fn register(&mut self, lib: LibraryIdentity, info: MessageLibInfo) -> (r: Result<
        (),
        RegistryError,
    >)
        ensures
            (final(self)@, r) == spec_register(old(self)@, lib, info),
            r is Ok <==> !old(self)@.contains_key(lib.value),
            r is Ok ==> final(self)@ == old(self)@.insert(lib.value, info),
            r is Err ==> final(self)@ == old(self)@ && r == Err::<(), RegistryError>(
                RegistryError::AlreadyRegistered,
            ),
    {
        if self.table.contains_key(&lib.value) {
            Err(RegistryError::AlreadyRegistered)
        } else {
            self.table.insert(lib.value, info);
            Ok(())
        }
    }

    /// Looks up the capability recorded for an identity.
    pub fn capability_of(&self, lib: LibraryIdentity) -> (r: Option<MessageLibType>)
        ensures
            r == spec_capability_of(self@, lib),
    {
        match self.table.get(&lib.value) {
            Some(info) => Some(info.message_lib_type),
            None => None,
        }
    }
}

} // verus!

//! The record types of the registry: library identities and capabilities,
//! directory entries, and the per-path send and receive selection records.

use vstd::prelude::*;

verus! {

/// Opaque, globally unique identity of a registered message library.
/// The registry only stores and compares identities; it never inspects or
/// calls the library behind one.
#[derive(Clone, Copy, PartialEq, Eq, Structural, Hash, Debug)]
pub struct LibraryIdentity {
    pub value: u64,
}

/// The capability a library declares at registration: valid for outbound
/// sends only, inbound receives only, or both. Attached to an identity once
/// and never changed.
#[derive(Clone, Copy, PartialEq, Eq, Structural, Debug)]
pub enum MessageLibType {
    Send,
    Receive,
    SendAndReceive,
}

impl MessageLibType {
    /// Whether a library of this capability may be selected for outbound sends.
    pub open spec fn supports_send(self) -> bool {
        self is Send || self is SendAndReceive
    }

    /// Whether a library of this capability may be selected for inbound receives.
    pub open spec fn supports_receive(self) -> bool {
        self is Receive || self is SendAndReceive
    }

    pub fn can_send(&self) -> (r: bool)
        ensures
            r == self.supports_send(),
    {
        match self {
            MessageLibType::Send => true,
            MessageLibType::Receive => false,
            MessageLibType::SendAndReceive => true,
        }
    }

    pub fn can_receive(&self) -> (r: bool)
        ensures
            r == self.supports_receive(),
    {
        match self {
            MessageLibType::Send => false,
            MessageLibType::Receive => true,
            MessageLibType::SendAndReceive => true,
        }
    }
}

/// Directory entry for a registered library: its declared capability, plus
/// the bump seeds of the ledger addresses the entry and the library's own
/// record are stored under.
#[derive(Clone, Copy, PartialEq, Eq, Structural, Debug)]
pub struct MessageLibInfo {
    pub message_lib_type: MessageLibType,
    pub bump: u8,
    pub message_lib_bump: u8,
}

/// Per-(application, remote path) record naming the single library currently
/// authoritative for outbound sends. Absence of the record means the path
/// uses the global default library; the distinction between "unset" and "set
/// to some library" is explicit, never inferred from a null field.
#[derive(Clone, Copy, PartialEq, Eq, Debug)]
pub struct SendLibraryConfig {
    pub message_lib: LibraryIdentity,
    pub bump: u8,
}

/// Per-(application, remote path) record naming the library currently
/// authoritative for inbound receives, plus an optional pending-migration
/// descriptor. Absence of the record means the path uses the global default.
#[derive(Clone, Copy, PartialEq, Eq, Debug)]
pub struct ReceiveLibraryConfig {
    pub message_lib: LibraryIdentity,
    pub timeout: Option<ReceiveLibraryTimeout>,
    pub bump: u8,
}

/// Pending-migration descriptor: the previously authoritative library stays
/// acceptable for verification until the expiry checkpoint is reached.
#[derive(Clone, Copy, PartialEq, Eq, Debug)]
pub struct ReceiveLibraryTimeout {
    pub message_lib: LibraryIdentity,
    pub expiry: u64,
}

} // verus!

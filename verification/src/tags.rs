//! The two one-bit tags of a frame: which kind of identifier it carries, and
//! whether it is a data frame or a remote frame.

use vstd::prelude::*;
use vstd::std_specs::convert::FromSpecImpl;
use crate::ident::{ExtendedId, Id, StandardId};

verus! {

/// Kind of identifier that a frame carries.
#[derive(Clone, Copy, Debug, PartialEq, Eq, Structural)]
pub enum IdType {
    /// Standard 11-bit identifier.
    StandardId,
    /// Extended 29-bit identifier.
    ExtendedId,
}

/// Kind of frame: one that carries data, or one that asks for it.
#[derive(Clone, Copy, Debug, PartialEq, Eq, Structural)]
pub enum RemoteTransmissionRequest {
    /// Data frame.
    TransmitDataFrame,
    /// Remote frame (remote transmission request).
    TransmitRemoteFrame,
}

impl IdType {
    /// The tag whose extended flag is `extended`.
    pub open spec fn of_flag(extended: bool) -> Self {
        if extended {
            IdType::ExtendedId
        } else {
            IdType::StandardId
        }
    }
}

impl RemoteTransmissionRequest {
    /// The tag whose remote flag is `remote`.
    pub open spec fn of_flag(remote: bool) -> Self {
        if remote {
            RemoteTransmissionRequest::TransmitRemoteFrame
        } else {
            RemoteTransmissionRequest::TransmitDataFrame
        }
    }
}

impl From<StandardId> for IdType {
    fn from(_id: StandardId) -> (tag: Self) {
        IdType::StandardId
    }
}

impl FromSpecImpl<StandardId> for IdType {
    open spec fn obeys_from_spec() -> bool {
        true
    }

    open spec fn from_spec(_id: StandardId) -> Self {
        IdType::StandardId
    }
}

impl From<ExtendedId> for IdType {
    fn from(_id: ExtendedId) -> (tag: Self) {
        IdType::ExtendedId
    }
}

impl FromSpecImpl<ExtendedId> for IdType {
    open spec fn obeys_from_spec() -> bool {
        true
    }

    open spec fn from_spec(_id: ExtendedId) -> Self {
        IdType::ExtendedId
    }
}

impl From<Id> for IdType {
    fn from(id: Id) -> (tag: Self) {
        match id {
            Id::Standard(id) => IdType::from(id),
            Id::Extended(id) => IdType::from(id),
        }
    }
}

impl FromSpecImpl<Id> for IdType {
    open spec fn obeys_from_spec() -> bool {
        true
    }

    open spec fn from_spec(id: Id) -> Self {
        IdType::of_flag(id is Extended)
    }
}

} // verus!

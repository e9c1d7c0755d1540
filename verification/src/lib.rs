//! Arbitration-register codec for CAN message identifiers.
//!
//! A CAN identifier is either an 11-bit standard value or a 29-bit extended
//! value, and every frame is either a data frame or a remote frame. The
//! peripheral keeps all of this in one 32-bit word; [`IdReg`] is that word,
//! with functions that pack it, unpack it and order it by bus priority.
//!
//! Contracts speak of an [`IdReg`] through its view, the 32-bit word, and the
//! functions in [`layout`] say what each bit of that word means.

pub mod ident;
pub mod layout;
pub mod order;
pub mod reg;
pub mod tags;

pub use crate::ident::{ExtendedId, Id, IdValue, StandardId};
pub use crate::reg::IdReg;
pub use crate::tags::{IdType, RemoteTransmissionRequest};

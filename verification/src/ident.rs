//! Range-checked CAN identifier values.
//!
//! The range rules are those of the `embedded-can` crate: the checked
//! constructors hand the raw number to that crate and keep what it accepts.

use vstd::prelude::*;

verus! {

/// The base ID of a 29-bit raw value: its upper 11 bits.
pub open spec fn base_of(raw: u32) -> u16 {
    (raw >> 18) as u16
}

/// Calls `embedded_can::StandardId::new` and reads the accepted identifier
/// back with `as_raw`. Trusted: the crate accepts exactly the values up to
/// `0x7FF` and keeps the number it was given.
#[verifier::external_body]
fn checked_standard(raw: u16) -> (accepted: Option<u16>)
    ensures
        raw <= 0x7FF ==> accepted == Some(raw),
        raw > 0x7FF ==> accepted is None,
{
    match embedded_can::StandardId::new(raw) {
        Some(id) => Some(id.as_raw()),
        None => None,
    }
}

/// Calls `embedded_can::ExtendedId::new` and reads the accepted identifier
/// back with `as_raw`. Trusted: the crate accepts exactly the values up to
/// `0x1FFF_FFFF` and keeps the number it was given.
#[verifier::external_body]
fn checked_extended(raw: u32) -> (accepted: Option<u32>)
    ensures
        raw <= 0x1FFF_FFFF ==> accepted == Some(raw),
        raw > 0x1FFF_FFFF ==> accepted is None,
{
    match embedded_can::ExtendedId::new(raw) {
        Some(id) => Some(id.as_raw()),
        None => None,
    }
}

/// Calls `embedded_can::ExtendedId::standard_id` on the extended identifier
/// with raw value `raw`. Trusted: for a value in range the crate returns the
/// raw value shifted right by 18 bits, as a 16-bit number; a value out of
/// range is no extended identifier, and nothing is returned for it.
#[verifier::external_body]
fn base_id_bits(raw: u32) -> (base: Option<u16>)
    ensures
        raw <= 0x1FFF_FFFF ==> base == Some(base_of(raw)),
        raw > 0x1FFF_FFFF ==> base is None,
{
    match embedded_can::ExtendedId::new(raw) {
        Some(id) => Some(id.standard_id().as_raw()),
        None => None,
    }
}

/// Standard 11-bit CAN identifier (`0..=0x7FF`).
#[derive(Clone, Copy, Debug, PartialEq, Eq, Hash, Structural)]
pub struct StandardId(u16);

impl View for StandardId {
    type V = u16;

    /// The raw identifier value.
    closed spec fn view(&self) -> u16 {
        self.0
    }
}

impl StandardId {
    #[verifier::type_invariant]
    closed spec fn in_range(self) -> bool {
        self.0 <= 0x7FF
    }

    /// The identifier whose raw value is `raw`.
    pub closed spec fn of_raw(raw: u16) -> Self {
        StandardId(raw)
    }

    /// `of_raw` and the view are inverse to each other, so two identifiers
    /// with the same raw value are the same identifier.
    pub proof fn lemma_of_raw(self, raw: u16)
        ensures
            Self::of_raw(raw)@ == raw,
            Self::of_raw(self@) == self,
    {
    }

    /// Makes a standard identifier from `raw`, or nothing if `raw` does not
    /// fit in 11 bits.
    pub fn new(raw: u16) -> (id: Option<Self>)
        ensures
            raw <= 0x7FF ==> id == Some(Self::of_raw(raw)),
            raw > 0x7FF ==> id is None,
            id matches Some(made) ==> made@ == raw,
    {
        match checked_standard(raw) {
            Some(accepted) => Some(StandardId(accepted)),
            None => None,
        }
    }

    /// Makes a standard identifier from a value that the caller has already
    /// brought into range, without testing it again.
    pub fn new_unchecked(raw: u16) -> (id: Self)
        requires
            raw <= 0x7FF,
        ensures
            id == Self::of_raw(raw),
            id@ == raw,
    {
        StandardId(raw)
    }

    /// The raw identifier value, which always fits in 11 bits.
    pub fn as_raw(&self) -> (raw: u16)
        ensures
            raw == self@,
            raw <= 0x7FF,
    {
        proof {
            use_type_invariant(self);
        }
        self.0
    }
}

/// Extended 29-bit CAN identifier (`0..=0x1FFF_FFFF`).
#[derive(Clone, Copy, Debug, PartialEq, Eq, Hash, Structural)]
pub struct ExtendedId(u32);

impl View for ExtendedId {
    type V = u32;

    /// The raw identifier value.
    closed spec fn view(&self) -> u32 {
        self.0
    }
}

impl ExtendedId {
    #[verifier::type_invariant]
    closed spec fn in_range(self) -> bool {
        self.0 <= 0x1FFF_FFFF
    }

    /// The identifier whose raw value is `raw`.
    pub closed spec fn of_raw(raw: u32) -> Self {
        ExtendedId(raw)
    }

    /// `of_raw` and the view are inverse to each other, so two identifiers
    /// with the same raw value are the same identifier.
    pub proof fn lemma_of_raw(self, raw: u32)
        ensures
            Self::of_raw(raw)@ == raw,
            Self::of_raw(self@) == self,
    {
    }

    /// Makes an extended identifier from `raw`, or nothing if `raw` does not
    /// fit in 29 bits.
    pub fn new(raw: u32) -> (id: Option<Self>)
        ensures
            raw <= 0x1FFF_FFFF ==> id == Some(Self::of_raw(raw)),
            raw > 0x1FFF_FFFF ==> id is None,
            id matches Some(made) ==> made@ == raw,
    {
        match checked_extended(raw) {
            Some(accepted) => Some(ExtendedId(accepted)),
            None => None,
        }
    }

    /// Makes an extended identifier from a value that the caller has already
    /// brought into range, without testing it again.
    pub fn new_unchecked(raw: u32) -> (id: Self)
        requires
            raw <= 0x1FFF_FFFF,
        ensures
            id == Self::of_raw(raw),
            id@ == raw,
    {
        ExtendedId(raw)
    }

    /// The raw identifier value, which always fits in 29 bits.
    pub fn as_raw(&self) -> (raw: u32)
        ensures
            raw == self@,
            raw <= 0x1FFF_FFFF,
    {
        proof {
            use_type_invariant(self);
        }
        self.0
    }

    /// The base ID: the upper 11 bits of this identifier, as a standard
    /// identifier.
    pub fn standard_id(&self) -> (base: StandardId)
        ensures
            base@ == base_of(self@),
    {
        let raw: u32 = self.as_raw();
        proof {
            lemma_base_in_range(raw);
        }
        match base_id_bits(raw) {
            Some(bits) => StandardId::new_unchecked(bits),
            None => vstd::pervasive::unreached(),
        }
    }
}

/// The base ID of a value that fits in 29 bits fits in 11 bits.
pub proof fn lemma_base_in_range(raw: u32)
    requires
        raw <= 0x1FFF_FFFF,
    ensures
        base_of(raw) <= 0x7FF,
        base_of(raw) == raw >> 18,
{
    assert((raw >> 18) <= 0x7FF) by (bit_vector)
        requires
            raw <= 0x1FFF_FFFF,
    ;
}

/// A CAN identifier: standard or extended.
#[derive(Clone, Copy, Debug, PartialEq, Eq, Hash, Structural)]
pub enum Id {
    /// Standard 11-bit identifier (`0..=0x7FF`).
    Standard(StandardId),
    /// Extended 29-bit identifier (`0..=0x1FFF_FFFF`).
    Extended(ExtendedId),
}

/// What an [`Id`] stands for: the kind of identifier and its raw value.
pub enum IdValue {
    /// A standard identifier with this raw value.
    Standard(u16),
    /// An extended identifier with this raw value.
    Extended(u32),
}

impl IdValue {
    /// The raw value fits the width of its kind.
    pub open spec fn in_range(self) -> bool {
        match self {
            IdValue::Standard(raw) => raw <= 0x7FF,
            IdValue::Extended(raw) => raw <= 0x1FFF_FFFF,
        }
    }
}

impl View for Id {
    type V = IdValue;

    open spec fn view(&self) -> IdValue {
        match *self {
            Id::Standard(id) => IdValue::Standard(id@),
            Id::Extended(id) => IdValue::Extended(id@),
        }
    }
}

impl Id {
    /// The identifier that stands for `value`.
    pub open spec fn of_value(value: IdValue) -> Self {
        match value {
            IdValue::Standard(raw) => Id::Standard(StandardId::of_raw(raw)),
            IdValue::Extended(raw) => Id::Extended(ExtendedId::of_raw(raw)),
        }
    }

    /// `of_value` and the view are inverse to each other, so two identifiers
    /// with the same view are the same identifier.
    pub proof fn lemma_of_value(self, value: IdValue)
        ensures
            Self::of_value(value)@ == value,
            Self::of_value(self@) == self,
    {
        match value {
            IdValue::Standard(raw) => StandardId::of_raw(raw).lemma_of_raw(raw),
            IdValue::Extended(raw) => ExtendedId::of_raw(raw).lemma_of_raw(raw),
        }
        match self {
            Id::Standard(id) => id.lemma_of_raw(0),
            Id::Extended(id) => id.lemma_of_raw(0),
        }
    }
}

} // verus!

//! The arbitration register value and the functions that pack and unpack it.

use vstd::prelude::*;
use vstd::std_specs::convert::FromSpecImpl;
use crate::ident::{ExtendedId, Id, IdValue, StandardId};
use crate::layout::{
    extended_word, ident_word, lemma_extended_round_trip, lemma_ident_in_range,
    lemma_standard_round_trip, lemma_with_rtr_keeps_rest, register_word, standard_word,
    word_ident, word_is_canonical, word_is_extended, word_is_remote, word_raw_id, word_with_rtr,
    EXTENDED_MASK, EXTENDED_SHIFT, RTR_MASK, RTR_SHIFT, STANDARD_MASK, STANDARD_SHIFT, XTD_MASK,
    XTD_SHIFT,
};
use crate::tags::{IdType, RemoteTransmissionRequest};

verus! {

/// Identifier of a CAN message as the arbitration register holds it.
///
/// The value is either a standard identifier (11 bits) or an extended
/// identifier (29 bits), together with the flag that tells a remote frame
/// from a data frame. Its view is the 32-bit register word.
///
/// Values are ordered by the priority of their frames on the bus: lower
/// identifiers come before higher ones, standard frames before extended
/// frames with the same base ID, data frames before remote frames.
#[derive(Clone, Copy, Debug, PartialEq, Eq, Structural)]
pub struct IdReg(u32);

impl View for IdReg {
    type V = u32;

    /// The register word.
    closed spec fn view(&self) -> u32 {
        self.0
    }
}

impl IdReg {
    /// The register value whose word is `word`.
    pub closed spec fn of_word(word: u32) -> Self {
        IdReg(word)
    }

    /// `of_word` and the view are inverse to each other, so two register
    /// values with the same word are equal.
    pub proof fn lemma_of_word(self, word: u32)
        ensures
            Self::of_word(word)@ == word,
            Self::of_word(self@) == self,
    {
    }

    /// Packs a standard identifier: its 11 bits at bit 18, both flags clear.
    pub fn new_standard(id: StandardId) -> (reg: Self)
        ensures
            reg@ == standard_word(id@),
            word_ident(reg@) == IdValue::Standard(id@),
            !word_is_remote(reg@),
            word_is_canonical(reg@),
    {
        let raw: u16 = id.as_raw();
        let wide: u32 = raw as u32;
        proof {
            lemma_standard_round_trip(raw);
        }
        assert(wide << 18 <= 0x1FFC_0000) by (bit_vector)
            requires
                wide <= 0x7FF,
        ;
        IdReg(wide << STANDARD_SHIFT)
    }

    /// Packs an extended identifier: its 29 bits at bit 0, the XTD flag set,
    /// the RTR flag clear.
    pub fn new_extended(id: ExtendedId) -> (reg: Self)
        ensures
            reg@ == extended_word(id@),
            word_ident(reg@) == IdValue::Extended(id@),
            !word_is_remote(reg@),
            word_is_canonical(reg@),
    {
        let raw: u32 = id.as_raw();
        proof {
            lemma_extended_round_trip(raw);
        }
        assert(raw << 0 == raw) by (bit_vector);
        assert(1u32 << 30 == 0x4000_0000) by (bit_vector);
        IdReg(raw << EXTENDED_SHIFT | (1u32 << XTD_SHIFT))
    }

    /// Bits 0 to 28 of the register, whatever kind of identifier it holds.
    ///
    /// For a standard identifier this is the identifier still shifted left by
    /// 18 bits, not its 11-bit value: use [`IdReg::to_id`] for that.
    pub fn as_raw_id(&self) -> (raw: u32)
        ensures
            raw == word_raw_id(self@),
    {
        self.0 & EXTENDED_MASK
    }

    /// Builds a register value from raw identifier bits and the two flags,
    /// as they are read from the peripheral. The bits are taken as they are.
    pub fn from_register(id: u32, rtr: RemoteTransmissionRequest, xtd: IdType) -> (reg: Self)
        ensures
            reg@ == register_word(
                id,
                rtr is TransmitRemoteFrame,
                xtd is ExtendedId,
            ),
    {
        assert(1u32 << 29 == 0x2000_0000) by (bit_vector);
        assert(1u32 << 30 == 0x4000_0000) by (bit_vector);
        let rtr: u32 = match rtr {
            RemoteTransmissionRequest::TransmitDataFrame => 0,
            RemoteTransmissionRequest::TransmitRemoteFrame => 1u32 << RTR_SHIFT,
        };
        let xtd: u32 = match xtd {
            IdType::StandardId => 0,
            IdType::ExtendedId => 1u32 << XTD_SHIFT,
        };
        IdReg(id | rtr | xtd)
    }

    /// Returns this value with the RTR flag set to `rtr`: set, it marks the
    /// identifier as part of a remote frame. Every other bit is kept.
    #[must_use]
    pub fn with_rtr(self, rtr: bool) -> (reg: Self)
        ensures
            reg@ == word_with_rtr(self@, rtr),
            word_is_remote(reg@) == rtr,
            word_is_extended(reg@) == word_is_extended(self@),
            word_ident(reg@) == word_ident(self@),
            word_is_canonical(reg@) == word_is_canonical(self@),
    {
        proof {
            lemma_with_rtr_keeps_rest(self.0, rtr);
        }
        if rtr {
            assert(1u32 << 29 == 0x2000_0000) by (bit_vector);
            IdReg(self.0 | (1u32 << RTR_SHIFT))
        } else {
            IdReg(self.0 & !RTR_MASK)
        }
    }

    /// Returns the identifier: the XTD flag selects the field, and the field
    /// is masked to its width, so the result is always in range.
    pub fn to_id(self) -> (id: Id)
        ensures
            id@ == word_ident(self@),
            id@.in_range(),
    {
        proof {
            lemma_ident_in_range(self.0);
        }
        if self.is_extended() {
            let field: u32 = self.0 & EXTENDED_MASK;
            assert(field >> 0 == field) by (bit_vector);
            Id::Extended(ExtendedId::new_unchecked(field >> EXTENDED_SHIFT))
        } else {
            let field: u32 = (self.0 & STANDARD_MASK) >> STANDARD_SHIFT;
            Id::Standard(StandardId::new_unchecked(field as u16))
        }
    }

    /// Returns `true` if the identifier is an extended identifier.
    pub fn is_extended(self) -> (extended: bool)
        ensures
            extended == word_is_extended(self@),
    {
        (self.0 & XTD_MASK) != 0
    }

    /// Returns `true` if the identifier is a standard identifier.
    pub fn is_standard(self) -> (standard: bool)
        ensures
            standard == !word_is_extended(self@),
    {
        !self.is_extended()
    }

    /// Returns `true` if the identifier is part of a remote frame (RTR flag
    /// set).
    pub fn rtr(self) -> (remote: bool)
        ensures
            remote == word_is_remote(self@),
    {
        self.0 & RTR_MASK != 0
    }
}

impl From<Id> for IdReg {
    /// Packs an identifier of either kind as a data frame.
    fn from(id: Id) -> (reg: Self) {
        match id {
            Id::Standard(s) => IdReg::new_standard(s),
            Id::Extended(e) => IdReg::new_extended(e),
        }
    }
}

impl FromSpecImpl<Id> for IdReg {
    open spec fn obeys_from_spec() -> bool {
        true
    }

    open spec fn from_spec(id: Id) -> Self {
        IdReg::of_word(ident_word(id@))
    }
}

impl From<IdReg> for Id {
    /// The identifier that the register holds.
    fn from(reg: IdReg) -> (id: Self) {
        let id = reg.to_id();
        proof {
            id.lemma_of_value(id@);
        }
        id
    }
}

impl FromSpecImpl<IdReg> for Id {
    open spec fn obeys_from_spec() -> bool {
        true
    }

    open spec fn from_spec(reg: IdReg) -> Self {
        Id::of_value(word_ident(reg@))
    }
}

impl From<IdReg> for IdType {
    /// The kind of identifier, read from the XTD flag alone.
    fn from(reg: IdReg) -> (tag: Self) {
        if reg.is_standard() {
            IdType::StandardId
        } else {
            IdType::ExtendedId
        }
    }
}

impl FromSpecImpl<IdReg> for IdType {
    open spec fn obeys_from_spec() -> bool {
        true
    }

    open spec fn from_spec(reg: IdReg) -> Self {
        IdType::of_flag(word_is_extended(reg@))
    }
}

impl From<IdReg> for RemoteTransmissionRequest {
    /// The kind of frame, read from the RTR flag alone.
    fn from(reg: IdReg) -> (tag: Self) {
        if reg.rtr() {
            RemoteTransmissionRequest::TransmitRemoteFrame
        } else {
            RemoteTransmissionRequest::TransmitDataFrame
        }
    }
}

impl FromSpecImpl<IdReg> for RemoteTransmissionRequest {
    open spec fn obeys_from_spec() -> bool {
        true
    }

    open spec fn from_spec(reg: IdReg) -> Self {
        RemoteTransmissionRequest::of_flag(word_is_remote(reg@))
    }
}

} // verus!

//! Priority order of arbitration register values.
//!
//! When several frames contend for the bus, the one that is greater in this
//! order is sent first. The order goes by the identifier before anything
//! else, and against its number: the lower identifier is the greater value.

use core::cmp::Ordering;
use vstd::prelude::*;
use vstd::std_specs::cmp::PartialOrdSpecImpl;
use crate::ident::{base_of, Id, IdValue};
use crate::layout::{
    lemma_ident_in_range, lemma_split_extended, word_ident, word_is_canonical, word_is_extended,
    word_is_remote, word_rank,
};
use crate::reg::IdReg;

verus! {

/// Order of two frames with the same identifier: the data frame is greater
/// than the remote frame.
pub open spec fn frame_kind_order(remote: bool, other_remote: bool) -> Ordering {
    if remote == other_remote {
        Ordering::Equal
    } else if other_remote {
        Ordering::Greater
    } else {
        Ordering::Less
    }
}

/// Priority of the word `a` against the word `b`; `Greater` means that `a`
/// wins the bus.
///
/// Between two identifiers of one kind the lower raw value wins, and with
/// equal raw values the data frame wins over the remote frame. Between a
/// standard and an extended identifier the standard value is held against
/// the base ID of the extended one: the lower wins, and where they are equal
/// the standard identifier wins.
pub open spec fn priority(a: u32, b: u32) -> Ordering {
    match (word_ident(a), word_ident(b)) {
        (IdValue::Standard(x), IdValue::Standard(y)) => if x < y {
            Ordering::Greater
        } else if x > y {
            Ordering::Less
        } else {
            frame_kind_order(word_is_remote(a), word_is_remote(b))
        },
        (IdValue::Extended(x), IdValue::Extended(y)) => if x < y {
            Ordering::Greater
        } else if x > y {
            Ordering::Less
        } else {
            frame_kind_order(word_is_remote(a), word_is_remote(b))
        },
        (IdValue::Standard(x), IdValue::Extended(y)) => if x <= base_of(y) {
            Ordering::Greater
        } else {
            Ordering::Less
        },
        (IdValue::Extended(x), IdValue::Standard(y)) => if base_of(x) < y {
            Ordering::Greater
        } else {
            Ordering::Less
        },
    }
}

/// The two words stand for the same frame: same identifier, same kind of
/// frame. They may still differ in bits that carry no meaning.
pub open spec fn same_frame(a: u32, b: u32) -> bool {
    word_ident(a) == word_ident(b) && word_is_remote(a) == word_is_remote(b)
}

fn frame_kind_cmp(remote: bool, other_remote: bool) -> (o: Ordering)
    ensures
        o == frame_kind_order(remote, other_remote),
{
    if remote == other_remote {
        Ordering::Equal
    } else if other_remote {
        Ordering::Greater
    } else {
        Ordering::Less
    }
}

impl IdReg {
    /// Compares two register values by the priority of their frames:
    /// `Greater` means that `self` wins the bus against `other`.
    pub fn cmp(&self, other: &Self) -> (o: Ordering)
        ensures
            o == priority(self@, other@),
    {
        let id_a = self.to_id();
        let id_b = other.to_id();
        match (id_a, id_b) {
            (Id::Standard(a), Id::Standard(b)) => {
                let x: u16 = a.as_raw();
                let y: u16 = b.as_raw();
                if x < y {
                    Ordering::Greater
                } else if x > y {
                    Ordering::Less
                } else {
                    frame_kind_cmp(self.rtr(), other.rtr())
                }
            },
            (Id::Extended(a), Id::Extended(b)) => {
                let x: u32 = a.as_raw();
                let y: u32 = b.as_raw();
                if x < y {
                    Ordering::Greater
                } else if x > y {
                    Ordering::Less
                } else {
                    frame_kind_cmp(self.rtr(), other.rtr())
                }
            },
            (Id::Standard(a), Id::Extended(b)) => {
                let x: u16 = a.as_raw();
                let y: u16 = b.standard_id().as_raw();
                if x <= y {
                    Ordering::Greater
                } else {
                    Ordering::Less
                }
            },
            (Id::Extended(a), Id::Standard(b)) => {
                let x: u16 = a.standard_id().as_raw();
                let y: u16 = b.as_raw();
                if x < y {
                    Ordering::Greater
                } else {
                    Ordering::Less
                }
            },
        }
    }
}

impl PartialOrd for IdReg {
    /// The order is total: this is always `Some` of what [`IdReg::cmp`] gives.
    fn partial_cmp(&self, other: &Self) -> (o: Option<Ordering>) {
        Some(self.cmp(other))
    }
}

impl PartialOrdSpecImpl for IdReg {
    open spec fn obeys_partial_cmp_spec() -> bool {
        true
    }

    open spec fn partial_cmp_spec(&self, other: &Self) -> Option<Ordering> {
        Some(priority(self@, other@))
    }
}

/// The priority order is the order of ranks, turned round: the word with the
/// smaller rank is the greater one, and two words are equal in priority
/// exactly when their ranks are equal.
pub proof fn lemma_priority_is_rank_order(a: u32, b: u32)
    ensures
        priority(a, b) == Ordering::Greater <==> word_rank(a) < word_rank(b),
        priority(a, b) == Ordering::Equal <==> word_rank(a) == word_rank(b),
        priority(a, b) == Ordering::Less <==> word_rank(a) > word_rank(b),
{
    lemma_ident_in_range(a);
    lemma_ident_in_range(b);
    match word_ident(a) {
        IdValue::Standard(x) => {},
        IdValue::Extended(x) => lemma_split_extended(x),
    }
    match word_ident(b) {
        IdValue::Standard(y) => {},
        IdValue::Extended(y) => lemma_split_extended(y),
    }
}

/// Two words are equal in priority exactly when they stand for the same
/// frame.
pub proof fn lemma_priority_equal_iff_same_frame(a: u32, b: u32)
    ensures
        priority(a, b) == Ordering::Equal <==> same_frame(a, b),
{
}

/// Trichotomy: of two register values, exactly one of these holds: the
/// first is less than the second, the two are equal, the first is greater.
///
/// Two different values that stand for the same frame (they differ only in
/// bits without meaning) are neither less nor greater, and are left out;
/// [`lemma_canonical_same_frame`] shows that values without stray bits never
/// form such a pair.
pub proof fn lemma_order_trichotomy(a: IdReg, b: IdReg)
    requires
        same_frame(a@, b@) ==> a == b,
    ensures
        priority(a@, b@) == Ordering::Less <==> priority(b@, a@) == Ordering::Greater,
        priority(a@, b@) == Ordering::Greater <==> priority(b@, a@) == Ordering::Less,
        priority(a@, b@) == Ordering::Equal <==> a == b,
        ({
            let less = priority(a@, b@) == Ordering::Less;
            let equal = a == b;
            let greater = priority(a@, b@) == Ordering::Greater;
            (less && !equal && !greater) || (!less && equal && !greater) || (!less && !equal
                && greater)
        }),
{
    lemma_priority_antisymmetric(a@, b@);
}

/// Transitivity: if `a` is less than `b` and `b` is less than `c`, then `a`
/// is less than `c`; and the same for greater.
pub proof fn lemma_order_transitive(a: IdReg, b: IdReg, c: IdReg)
    ensures
        priority(a@, b@) == Ordering::Less && priority(b@, c@) == Ordering::Less ==> priority(
            a@,
            c@,
        ) == Ordering::Less,
        priority(a@, b@) == Ordering::Greater && priority(b@, c@) == Ordering::Greater
            ==> priority(a@, c@) == Ordering::Greater,
{
    lemma_priority_is_rank_order(a@, b@);
    lemma_priority_is_rank_order(b@, c@);
    lemma_priority_is_rank_order(a@, c@);
}

/// Turning a comparison round turns its result round, for all words.
pub proof fn lemma_priority_antisymmetric(a: u32, b: u32)
    ensures
        priority(a, a) == Ordering::Equal,
        priority(a, b) == Ordering::Equal <==> priority(b, a) == Ordering::Equal,
        priority(a, b) == Ordering::Less <==> priority(b, a) == Ordering::Greater,
        priority(a, b) == Ordering::Greater <==> priority(b, a) == Ordering::Less,
{
    lemma_priority_is_rank_order(a, a);
    lemma_priority_is_rank_order(a, b);
    lemma_priority_is_rank_order(b, a);
}

/// Words that are equal in priority compare alike with every third word.
pub proof fn lemma_priority_respects_equal(a: u32, b: u32, c: u32)
    requires
        priority(a, b) == Ordering::Equal,
    ensures
        priority(a, c) == priority(b, c),
        priority(c, a) == priority(c, b),
{
}

/// Two register values without stray bits that stand for the same frame are
/// equal. Every value packed from an identifier is without stray bits, and
/// so is every value made from one of them by setting the RTR flag.
pub proof fn lemma_canonical_same_frame(a: IdReg, b: IdReg)
    requires
        word_is_canonical(a@),
        word_is_canonical(b@),
        same_frame(a@, b@),
    ensures
        a == b,
{
    let x: u32 = a@;
    let y: u32 = b@;
    lemma_ident_in_range(x);
    lemma_ident_in_range(y);
    assert(x & 0x6000_0000 == y & 0x6000_0000) by (bit_vector)
        requires
            (x & 0x4000_0000 != 0) == (y & 0x4000_0000 != 0),
            (x & 0x2000_0000 != 0) == (y & 0x2000_0000 != 0),
    ;
    assert(x == y) by (bit_vector)
        requires
            x & 0x6000_0000 == y & 0x6000_0000,
            x & 0x4000_0000 != 0 ==> x & 0x1FFF_FFFF == y & 0x1FFF_FFFF && x & 0x8000_0000 == 0
                && y & 0x8000_0000 == 0,
            x & 0x4000_0000 == 0 ==> (x & 0x1FFC_0000) >> 18 == (y & 0x1FFC_0000) >> 18 && x
                & 0x8003_FFFF == 0 && y & 0x8003_FFFF == 0,
    ;
    a.lemma_of_word(x);
    b.lemma_of_word(y);
}

} // verus!

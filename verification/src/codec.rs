//! Representation codec: the packed form of a (length, ownership) pair.
//!
//! In a single-word rendering of the handle, one unsigned length field
//! doubles as the ownership discriminant: the byte length lives in the low
//! bits and the single highest bit says whether the handle owns its buffer.
//! The packing only works because a supported length never exceeds
//! [`LEN_MASK`], half the range of `usize`, leaving the top bit free to carry
//! the tag — that bound is the one the handle's constructors state, and this
//! module is where it comes from.  [`encode`], [`decode`] and [`downgrade`]
//! map between the packed field and the arithmetic model ([`field_len`],
//! [`field_owned`]), and the lemmas at the bottom show the mapping loses
//! nothing in either direction.
//!
//! The handle type itself stores its two variants directly: under a type
//! system that tracks ownership, the tagged form is the one that carries the
//! proofs, and the packing is a layout matter.  This module pins the packed
//! format down as a contract of its own, holding every handle to the same
//! length bound either way.

use vstd::arithmetic::div_mod::{lemma_mod_multiples_vanish, lemma_small_mod};
use vstd::arithmetic::power2::*;
use vstd::bits::*;
use vstd::prelude::*;

verus! {

/// Largest supported byte length: half the range of `usize`, so that the top
/// bit of a length field is free to carry the ownership tag.
pub const LEN_MASK: usize = usize::MAX >> 1;

/// The ownership tag: the complement of [`LEN_MASK`], which is the single
/// highest bit of a length field.
pub const OWN_FLAG: usize = usize::MAX - LEN_MASK;

/// Arithmetic model of a packed field: the length it carries.
pub open spec fn field_len(field: nat) -> nat {
    field % (OWN_FLAG as nat)
}

/// Arithmetic model of a packed field: whether the ownership tag is set.
pub open spec fn field_owned(field: nat) -> bool {
    field >= OWN_FLAG
}

/// The packed field that carries a given length and ownership tag.
pub open spec fn field_for(len: nat, owned: bool) -> nat {
    len + if owned {
        OWN_FLAG as nat
    } else {
        0
    }
}

/// The arithmetic meaning of the two constants: `OWN_FLAG` is the top bit of a
/// `usize` and `LEN_MASK` covers exactly the bits below it.
pub proof fn lemma_constants()
    ensures
        OWN_FLAG as nat == pow2((usize::BITS - 1) as nat),
        LEN_MASK as nat == pow2((usize::BITS - 1) as nat) - 1,
        usize::MAX as nat == 2 * (OWN_FLAG as nat) - 1,
{
    vstd::layout::unsigned_int_max_values();
    lemma_usize_shr_is_div(usize::MAX, 1);
    lemma2_to64();
    lemma_pow2_unfold(usize::BITS as nat);
    assert(LEN_MASK == usize::MAX / 2);
    assert(usize::MAX as nat == 2 * pow2((usize::BITS - 1) as nat) - 1);
}

/// Any value together with its complement fills the whole word.
proof fn lemma_complement(m: usize, x: usize)
    by (bit_vector)
    ensures
        x <= vstd::prelude::add(m, !m),
        vstd::prelude::add(m, !m) == m + !m,
{
}

/// `OWN_FLAG` is the bitwise complement of `LEN_MASK`.
proof fn lemma_flag_is_complement()
    ensures
        OWN_FLAG == !LEN_MASK,
{
    lemma_complement(LEN_MASK, usize::MAX);
}

/// Bitwise operations against a flag that is the single top bit of the word
/// (said without naming the width: the flag is the complement of its own
/// predecessor).
proof fn lemma_tag_ops(x: usize, m: usize, f: usize)
    by (bit_vector)
    requires
        f != 0,
        f == !m,
        m == vstd::prelude::sub(f, 1),
    ensures
        ((x & f) == f) <==> (x >= f),
        ((x & f) == 0) <==> (x < f),
        (x & m) == x % f,
        x <= m ==> (x | f) == x + f,
{
}

/// The bitwise reading of any field against the two constants, in arithmetic
/// terms.
proof fn lemma_tag_bit_facts(x: usize)
    ensures
        ((x & OWN_FLAG) == OWN_FLAG) <==> (x >= OWN_FLAG),
        ((x & OWN_FLAG) == 0) <==> (x < OWN_FLAG),
        (x & LEN_MASK) == x % OWN_FLAG,
        x <= LEN_MASK ==> (x | OWN_FLAG) == x + OWN_FLAG,
{
    lemma_constants();
    lemma_pow2_pos((usize::BITS - 1) as nat);
    lemma_flag_is_complement();
    lemma_tag_ops(x, LEN_MASK, OWN_FLAG);
}

/// Packs a length and an ownership tag into a single field.
pub fn encode(length: usize, owned: bool) -> (r: usize)
    requires
        length <= LEN_MASK,
    ensures
        r as nat == field_for(length as nat, owned),
        field_len(r as nat) == length,
        field_owned(r as nat) == owned,
{
    proof {
        lemma_constants();
        lemma_pow2_pos((usize::BITS - 1) as nat);
        lemma_tag_bit_facts(length);
        lemma_mod_multiples_vanish(1, length as int, OWN_FLAG as int);
        lemma_small_mod(length as nat, OWN_FLAG as nat);
    }
    if owned {
        length | OWN_FLAG
    } else {
        length
    }
}

/// Unpacks a field into the length and the ownership tag it carries.
pub fn decode(len_field: usize) -> (r: (usize, bool))
    ensures
        r.0 as nat == field_len(len_field as nat),
        r.1 == field_owned(len_field as nat),
{
    proof {
        lemma_tag_bit_facts(len_field);
    }
    (len_field & LEN_MASK, (len_field & OWN_FLAG) != 0)
}

/// Clears the ownership tag, leaving the length untouched: the field of a
/// non-owning view of the same bytes.
pub fn downgrade(len_field: usize) -> (r: usize)
    ensures
        r as nat == field_len(len_field as nat),
        !field_owned(r as nat),
        field_len(r as nat) == field_len(len_field as nat),
{
    proof {
        lemma_constants();
        lemma_pow2_pos((usize::BITS - 1) as nat);
        lemma_tag_bit_facts(len_field);
        lemma_small_mod((len_field as nat) % (OWN_FLAG as nat), OWN_FLAG as nat);
    }
    len_field & LEN_MASK
}

/// Re-packing what a field decodes to gives the field back: the codec loses
/// nothing on any representable field.
pub proof fn lemma_field_round_trip(field: usize)
    ensures
        field_for(field_len(field as nat), field_owned(field as nat)) == field as nat,
{
    lemma_constants();
    lemma_pow2_pos((usize::BITS - 1) as nat);
    if field >= OWN_FLAG {
        lemma_mod_multiples_vanish(1, field - OWN_FLAG, OWN_FLAG as int);
        lemma_small_mod((field - OWN_FLAG) as nat, OWN_FLAG as nat);
    } else {
        lemma_small_mod(field as nat, OWN_FLAG as nat);
    }
}

/// Decoding what a pair packs to gives the pair back: the codec is injective
/// on every length within range.
pub proof fn lemma_pair_round_trip(len: nat, owned: bool)
    requires
        len <= LEN_MASK,
    ensures
        field_len(field_for(len, owned)) == len,
        field_owned(field_for(len, owned)) == owned,
{
    lemma_constants();
    lemma_pow2_pos((usize::BITS - 1) as nat);
    lemma_mod_multiples_vanish(1, len as int, OWN_FLAG as int);
    lemma_small_mod(len, OWN_FLAG as nat);
}

} // verus!

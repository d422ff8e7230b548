//! The view accessor: everything a plain string slice supports, presented
//! uniformly over both storages — slicing, comparison in every operand order,
//! hashing that agrees with plain slices, and the two textual forms.
//!
//! Every contract here speaks of the handle's characters alone: which storage
//! backs them never shows through any observable outcome.

use crate::handle::{MownStr, Repr};
use core::cmp::Ordering;
use vstd::prelude::*;
use vstd::string::StringSliceAdditionalSpecFns;
use vstd::utf8::encode_utf8;

verus! {

/// Lexicographic three-way comparison of two byte sequences: the documented
/// order of plain string slices, which compare by their UTF-8 bytes.
pub open spec fn lex_bytes(a: Seq<u8>, b: Seq<u8>) -> Ordering
    decreases a.len(),
{
    if a.len() == 0 && b.len() == 0 {
        Ordering::Equal
    } else if a.len() == 0 {
        Ordering::Less
    } else if b.len() == 0 {
        Ordering::Greater
    } else if a[0] < b[0] {
        Ordering::Less
    } else if a[0] > b[0] {
        Ordering::Greater
    } else {
        lex_bytes(a.drop_first(), b.drop_first())
    }
}

/// Two byte sequences compare [`Ordering::Equal`] exactly when they are the
/// same sequence.
pub proof fn lemma_lex_bytes_equal_iff(a: Seq<u8>, b: Seq<u8>)
    ensures
        lex_bytes(a, b) == Ordering::Equal <==> a == b,
    decreases a.len(),
{
    if a.len() != 0 && b.len() != 0 && a[0] == b[0] {
        lemma_lex_bytes_equal_iff(a.drop_first(), b.drop_first());
        if lex_bytes(a, b) == Ordering::Equal {
            assert(a =~= seq![a[0]] + a.drop_first());
            assert(b =~= seq![b[0]] + b.drop_first());
        }
        if a == b {
            assert(a.drop_first() =~= b.drop_first());
        }
    } else if a.len() == 0 && b.len() == 0 {
        assert(a =~= b);
    }
}

/// Swapping the operands reverses the comparison.
pub proof fn lemma_lex_bytes_swap(a: Seq<u8>, b: Seq<u8>)
    ensures
        lex_bytes(a, b) == Ordering::Less <==> lex_bytes(b, a) == Ordering::Greater,
        lex_bytes(a, b) == Ordering::Equal <==> lex_bytes(b, a) == Ordering::Equal,
    decreases a.len(),
{
    if a.len() != 0 && b.len() != 0 && a[0] == b[0] {
        lemma_lex_bytes_swap(a.drop_first(), b.drop_first());
    }
}

/// Three-way comparison of two string slices by their UTF-8 bytes.
fn str_cmp(a: &str, b: &str) -> (r: Ordering)
    ensures
        r == lex_bytes(a.spec_bytes(), b.spec_bytes()),
{
    let ab = a.as_bytes();
    let bb = b.as_bytes();
    let mut i: usize = 0;
    proof {
        assert(ab@.skip(0) =~= ab@);
        assert(bb@.skip(0) =~= bb@);
    }
    loop
        invariant
            i <= ab@.len(),
            i <= bb@.len(),
            ab@ == a.spec_bytes(),
            bb@ == b.spec_bytes(),
            lex_bytes(a.spec_bytes(), b.spec_bytes()) == lex_bytes(
                ab@.skip(i as int),
                bb@.skip(i as int),
            ),
        decreases ab@.len() - i,
    {
        proof {
            assert(ab@.skip(i as int).len() == ab@.len() - i);
            assert(bb@.skip(i as int).len() == bb@.len() - i);
        }
        if i == ab.len() {
            if i == bb.len() {
                return Ordering::Equal;
            } else {
                return Ordering::Less;
            }
        }
        if i == bb.len() {
            return Ordering::Greater;
        }
        let x = ab[i];
        let y = bb[i];
        if x < y {
            return Ordering::Less;
        }
        if x > y {
            return Ordering::Greater;
        }
        proof {
            assert(ab@.skip(i as int).drop_first() =~= ab@.skip(i + 1));
            assert(bb@.skip(i as int).drop_first() =~= bb@.skip(i + 1));
        }
        i = i + 1;
    }
}

/// Equality of two string slices, decided by the same byte walk as the
/// ordering, so the two can never disagree.
fn str_eq(a: &str, b: &str) -> (r: bool)
    ensures
        r == (a@ == b@),
{
    proof {
        vstd::utf8::encode_utf8_decode_utf8(a@);
        vstd::utf8::encode_utf8_decode_utf8(b@);
        lemma_lex_bytes_equal_iff(a.spec_bytes(), b.spec_bytes());
    }
    match str_cmp(a, b) {
        Ordering::Equal => true,
        _ => false,
    }
}

/// The quoted, escaped rendering of a character sequence, as the standard
/// debug form of a string slice prints it.
pub uninterp spec fn debug_quoted(s: Seq<char>) -> Seq<char>;

/// Relies on the standard `Debug` formatting of `str`: the quoted, escaped
/// rendering, a function of the characters alone.
#[verifier::external_body]
fn debug_str(s: &str) -> (r: String)
    ensures
        r@ == debug_quoted(s@),
{
    format!("{:?}", s)
}

/// Relies on the `Hash` impl of `str`: feeds the slice's bytes to the hasher
/// exactly as hashing a plain string slice would, so a handle and a plain
/// slice with the same characters land in the same bucket.
#[verifier::external_body]
fn hash_str<H: core::hash::Hasher>(s: &str, state: &mut H) {
    core::hash::Hash::hash(s, state)
}

impl<'a> MownStr<'a> {
    /// The handle's characters as a plain string slice, whichever storage
    /// backs them.
    pub fn as_str(&self) -> (r: &str)
        ensures
            r@ == self@,
    {
        match &self.inner {
            Repr::Brw(s) => s,
            Repr::Own(s) => s.as_str(),
        }
    }

    /// The display form: the characters themselves, as an owned string.
    pub fn to_string(&self) -> (r: String)
        ensures
            r@ == self@,
    {
        self.as_str().to_owned()
    }

    /// The debug form: the characters quoted and escaped, exactly as a plain
    /// string slice renders under debug formatting.
    pub fn to_debug_string(&self) -> (r: String)
        ensures
            r@ == debug_quoted(self@),
    {
        debug_str(self.as_str())
    }
}

impl<'a> core::ops::Deref for MownStr<'a> {
    type Target = str;

    fn deref(&self) -> (r: &str)
        ensures
            r@ == self@,
    {
        self.as_str()
    }
}

impl<'a> core::borrow::Borrow<str> for MownStr<'a> {
    fn borrow(&self) -> &str {
        self.as_str()
    }
}

impl<'a> core::hash::Hash for MownStr<'a> {
    fn hash<H: core::hash::Hasher>(&self, state: &mut H) {
        hash_str(self.as_str(), state)
    }
}

impl<'a> PartialEq for MownStr<'a> {
    fn eq(&self, other: &Self) -> (r: bool) {
        str_eq(self.as_str(), other.as_str())
    }
}

impl<'a> vstd::std_specs::cmp::PartialEqSpecImpl for MownStr<'a> {
    open spec fn obeys_eq_spec() -> bool {
        true
    }

    open spec fn eq_spec(&self, other: &Self) -> bool {
        self@ == other@
    }
}

impl<'a> Eq for MownStr<'a> {}

impl<'a> PartialEq<&'a str> for MownStr<'a> {
    fn eq(&self, other: &&'a str) -> (r: bool) {
        str_eq(self.as_str(), *other)
    }
}

impl<'a> vstd::std_specs::cmp::PartialEqSpecImpl<&'a str> for MownStr<'a> {
    open spec fn obeys_eq_spec() -> bool {
        true
    }

    open spec fn eq_spec(&self, other: &&'a str) -> bool {
        self@ == other@
    }
}

impl<'a> PartialEq<MownStr<'a>> for &'a str {
    fn eq(&self, other: &MownStr<'a>) -> (r: bool) {
        str_eq(*self, other.as_str())
    }
}

impl<'a> vstd::std_specs::cmp::PartialEqSpecImpl<MownStr<'a>> for &'a str {
    open spec fn obeys_eq_spec() -> bool {
        true
    }

    open spec fn eq_spec(&self, other: &MownStr<'a>) -> bool {
        self@ == other@
    }
}

impl<'a> PartialOrd for MownStr<'a> {
    fn partial_cmp(&self, other: &Self) -> (r: Option<Ordering>) {
        Some(str_cmp(self.as_str(), other.as_str()))
    }
}

impl<'a> vstd::std_specs::cmp::PartialOrdSpecImpl for MownStr<'a> {
    open spec fn obeys_partial_cmp_spec() -> bool {
        true
    }

    open spec fn partial_cmp_spec(&self, other: &Self) -> Option<Ordering> {
        Some(lex_bytes(encode_utf8(self@), encode_utf8(other@)))
    }
}

impl<'a> PartialOrd<&'a str> for MownStr<'a> {
    fn partial_cmp(&self, other: &&'a str) -> (r: Option<Ordering>) {
        Some(str_cmp(self.as_str(), *other))
    }
}

impl<'a> vstd::std_specs::cmp::PartialOrdSpecImpl<&'a str> for MownStr<'a> {
    open spec fn obeys_partial_cmp_spec() -> bool {
        true
    }

    open spec fn partial_cmp_spec(&self, other: &&'a str) -> Option<Ordering> {
        Some(lex_bytes(encode_utf8(self@), encode_utf8(other@)))
    }
}

impl<'a> PartialOrd<MownStr<'a>> for &'a str {
    fn partial_cmp(&self, other: &MownStr<'a>) -> (r: Option<Ordering>) {
        Some(str_cmp(*self, other.as_str()))
    }
}

impl<'a> vstd::std_specs::cmp::PartialOrdSpecImpl<MownStr<'a>> for &'a str {
    open spec fn obeys_partial_cmp_spec() -> bool {
        true
    }

    open spec fn partial_cmp_spec(&self, other: &MownStr<'a>) -> Option<Ordering> {
        Some(lex_bytes(encode_utf8(self@), encode_utf8(other@)))
    }
}

} // verus!

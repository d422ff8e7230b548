//! The laws the library states of itself, each proved from the public
//! contracts' own spec functions.

use crate::handle::MownStr;
use core::cmp::Ordering;
use std::borrow::Cow;
use vstd::prelude::*;
use vstd::std_specs::cmp::{PartialEqSpec, PartialOrdSpec};
use vstd::std_specs::convert::FromSpec;
use vstd::utf8::encode_utf8;
use vstd::utf8::encode_utf8_decode_utf8;

verus! {

/// Round-trip identity, borrowed source: building a handle from a borrowed
/// view gives back exactly the view's characters, and the handle reports
/// not-owned.
pub proof fn lemma_round_trip_borrowed<'a>(s: &'a str)
    ensures
        (<MownStr<'a> as FromSpec<&'a str>>::from_spec(s))@ == s@,
        !(<MownStr<'a> as FromSpec<&'a str>>::from_spec(s)).is_owned_spec(),
{
}

/// Round-trip identity, owned source: building a handle from an owned buffer
/// gives back exactly the buffer's characters, and the handle reports owned.
pub proof fn lemma_round_trip_owned<'a>(s: String)
    ensures
        (<MownStr<'a> as FromSpec<String>>::from_spec(s))@ == s@,
        (<MownStr<'a> as FromSpec<String>>::from_spec(s)).is_owned_spec(),
{
}

/// Building a handle from an either-owned-or-borrowed wrapper keeps the
/// characters and takes the ownership the wrapper's current variant had.
pub proof fn lemma_round_trip_wrapper<'a>(c: Cow<'a, str>)
    ensures
        (<MownStr<'a> as FromSpec<Cow<'a, str>>>::from_spec(c))@ == c@,
        (<MownStr<'a> as FromSpec<Cow<'a, str>>>::from_spec(c)).is_owned_spec() == (c matches Cow::Owned(_)),
{
}

/// Equality and ordering of two handles are consistent with each other and
/// with their characters: the handles are equal exactly when their characters
/// are, they compare `Equal` in exactly the same case, and swapping the
/// operands reverses the ordering.  Which handle owns its storage never
/// enters into it.
pub proof fn lemma_compare_consistency<'a>(a: MownStr<'a>, b: MownStr<'a>)
    ensures
        a.eq_spec(&b) <==> a@ == b@,
        a.partial_cmp_spec(&b) == Some(Ordering::Equal) <==> a@ == b@,
        a.partial_cmp_spec(&b) == Some(Ordering::Less) <==> b.partial_cmp_spec(&a) == Some(
            Ordering::Greater,
        ),
{
    encode_utf8_decode_utf8(a@);
    encode_utf8_decode_utf8(b@);
    crate::access::lemma_lex_bytes_equal_iff(encode_utf8(a@), encode_utf8(b@));
    crate::access::lemma_lex_bytes_swap(encode_utf8(a@), encode_utf8(b@));
}

/// Comparing a handle against a plain string slice, in either operand order,
/// is consistent with comparing the characters directly: equal exactly when
/// the characters are equal, and the two orders reverse each other.
pub proof fn lemma_cross_compare_consistency<'a>(m: MownStr<'a>, s: &'a str)
    ensures
        <MownStr<'a> as PartialEqSpec<&'a str>>::eq_spec(&m, &s) <==> m@ == s@,
        <&'a str as PartialEqSpec<MownStr<'a>>>::eq_spec(&s, &m) <==> m@ == s@,
        <MownStr<'a> as PartialOrdSpec<&'a str>>::partial_cmp_spec(&m, &s) == Some(
            Ordering::Equal,
        ) <==> m@ == s@,
        <MownStr<'a> as PartialOrdSpec<&'a str>>::partial_cmp_spec(&m, &s) == Some(
            Ordering::Less,
        ) <==> <&'a str as PartialOrdSpec<MownStr<'a>>>::partial_cmp_spec(&s, &m) == Some(
            Ordering::Greater,
        ),
{
    encode_utf8_decode_utf8(m@);
    encode_utf8_decode_utf8(s@);
    crate::access::lemma_lex_bytes_equal_iff(encode_utf8(m@), encode_utf8(s@));
    crate::access::lemma_lex_bytes_swap(encode_utf8(m@), encode_utf8(s@));
}

} // verus!

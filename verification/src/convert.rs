//! Interop: building a handle from the common owned and borrowed sources, and
//! handing its storage over to any type built from either form.
//!
//! Conversions never copy more than they must: a borrowed source or sink
//! passes the reference through, an owned source or sink passes the buffer
//! through, and only taking an exactly-sized buffer out of a growable one may
//! move bytes.

use crate::handle::{MownStr, Repr};
use std::borrow::Cow;
use vstd::pervasive::arbitrary;
use vstd::prelude::*;

verus! {

/// Relies on `String`'s conversion from `Box<str>`: the buffer is taken over
/// as it stands, characters unchanged.
pub assume_specification[ <String as From<Box<str>>>::from ](b: Box<str>) -> (r: String)
    ensures
        r@ == b@,
;

/// Relies on `String::into_boxed_str`: the buffer trimmed to its length,
/// characters unchanged.
pub assume_specification[ String::into_boxed_str ](s: String) -> (r: Box<str>)
    ensures
        r@ == s@,
;

impl<'a> From<&'a str> for MownStr<'a> {
    /// Builds a borrowing handle aliasing the slice; no allocation.
    fn from(other: &'a str) -> (r: Self)
        ensures
            r@ == other@,
            !r.is_owned_spec(),
    {
        MownStr { inner: Repr::Brw(other) }
    }
}

impl<'a> vstd::std_specs::convert::FromSpecImpl<&'a str> for MownStr<'a> {
    open spec fn obeys_from_spec() -> bool {
        true
    }

    open(crate) spec fn from_spec(v: &'a str) -> Self {
        MownStr { inner: Repr::Brw(v) }
    }
}

impl<'a> From<String> for MownStr<'a> {
    /// Builds an owning handle by taking the growable buffer over; reuses its
    /// storage rather than copying the characters.
    fn from(other: String) -> (r: Self)
        ensures
            r@ == other@,
            r.is_owned_spec(),
    {
        MownStr { inner: Repr::Own(other) }
    }
}

impl<'a> vstd::std_specs::convert::FromSpecImpl<String> for MownStr<'a> {
    open spec fn obeys_from_spec() -> bool {
        true
    }

    open(crate) spec fn from_spec(v: String) -> Self {
        MownStr { inner: Repr::Own(v) }
    }
}

impl<'a> From<Box<str>> for MownStr<'a> {
    /// Builds an owning handle by taking the exactly-sized buffer over.
    fn from(other: Box<str>) -> (r: Self)
        ensures
            r@ == other@,
            r.is_owned_spec(),
    {
        MownStr { inner: Repr::Own(String::from(other)) }
    }
}

impl<'a> vstd::std_specs::convert::FromSpecImpl<Box<str>> for MownStr<'a> {
    open spec fn obeys_from_spec() -> bool {
        false
    }

    open(crate) spec fn from_spec(v: Box<str>) -> Self {
        arbitrary()
    }
}

impl<'a> From<Cow<'a, str>> for MownStr<'a> {
    /// Dispatches on the wrapper's current variant: a borrowed wrapper gives a
    /// borrowing handle, an owned wrapper hands its buffer over.
    fn from(other: Cow<'a, str>) -> (r: Self)
        ensures
            r@ == other@,
            r.is_owned_spec() == (other matches Cow::Owned(_)),
    {
        match other {
            Cow::Borrowed(s) => MownStr { inner: Repr::Brw(s) },
            Cow::Owned(s) => MownStr { inner: Repr::Own(s) },
        }
    }
}

impl<'a> vstd::std_specs::convert::FromSpecImpl<Cow<'a, str>> for MownStr<'a> {
    open spec fn obeys_from_spec() -> bool {
        true
    }

    open(crate) spec fn from_spec(v: Cow<'a, str>) -> Self {
        match v {
            Cow::Borrowed(s) => MownStr { inner: Repr::Brw(s) },
            Cow::Owned(s) => MownStr { inner: Repr::Own(s) },
        }
    }
}

impl<'a> From<MownStr<'a>> for String {
    /// An owned copy of the characters; an owning handle hands its buffer
    /// over without copying.
    fn from(other: MownStr<'a>) -> (r: Self)
        ensures
            r@ == other@,
    {
        match other.inner {
            Repr::Brw(s) => s.to_owned(),
            Repr::Own(s) => s,
        }
    }
}

impl<'a> vstd::std_specs::convert::FromSpecImpl<MownStr<'a>> for String {
    open spec fn obeys_from_spec() -> bool {
        false
    }

    open(crate) spec fn from_spec(v: MownStr<'a>) -> Self {
        arbitrary()
    }
}

impl<'a> From<MownStr<'a>> for Box<str> {
    /// An exactly-sized owned copy of the characters; an owning handle hands
    /// its buffer over, trimmed rather than re-copied.
    fn from(other: MownStr<'a>) -> (r: Self)
        ensures
            r@ == other@,
    {
        match other.inner {
            Repr::Brw(s) => s.to_owned().into_boxed_str(),
            Repr::Own(s) => s.into_boxed_str(),
        }
    }
}

impl<'a> vstd::std_specs::convert::FromSpecImpl<MownStr<'a>> for Box<str> {
    open spec fn obeys_from_spec() -> bool {
        false
    }

    open(crate) spec fn from_spec(v: MownStr<'a>) -> Self {
        arbitrary()
    }
}

impl<'a> From<MownStr<'a>> for Cow<'a, str> {
    /// The wrapper variant matching the handle's storage: a borrowing handle
    /// becomes a borrowed wrapper without allocating, an owning handle hands
    /// its buffer to an owned wrapper.
    fn from(other: MownStr<'a>) -> (r: Self)
        ensures
            r@ == other@,
            (r matches Cow::Owned(_)) == other.is_owned_spec(),
    {
        match other.inner {
            Repr::Brw(s) => Cow::Borrowed(s),
            Repr::Own(s) => Cow::Owned(s),
        }
    }
}

impl<'a> vstd::std_specs::convert::FromSpecImpl<MownStr<'a>> for Cow<'a, str> {
    open spec fn obeys_from_spec() -> bool {
        true
    }

    open(crate) spec fn from_spec(v: MownStr<'a>) -> Self {
        match v.inner {
            Repr::Brw(s) => Cow::Borrowed(s),
            Repr::Own(s) => Cow::Owned(s),
        }
    }
}

impl<'a> MownStr<'a> {
    /// Converts the handle into any type that can be built from either a
    /// borrowed slice or an owned buffer, handing over the existing storage:
    /// neither path copies the characters or allocates a redundant buffer.
    ///
    /// This is the one conversion primitive; the plain conversions into owned
    /// and borrowed string types are thin uses of the same dispatch.  It
    /// cannot itself be a `From` impl, which would conflict with the
    /// conversions out of the handle.
    #[must_use]
    pub fn to<T>(self) -> (r: T) where T: From<&'a str> + From<String>
        ensures
            !self.is_owned_spec() ==> self.borrowed_ref_spec()@ == self@ && call_ensures(
                <T as From<&'a str>>::from,
                (self.borrowed_ref_spec(),),
                r,
            ),
            self.is_owned_spec() ==> self.owned_buf_spec()@ == self@ && call_ensures(
                <T as From<String>>::from,
                (self.owned_buf_spec(),),
                r,
            ),
    {
        match self.inner {
            Repr::Brw(s) => T::from(s),
            Repr::Own(s) => T::from(s),
        }
    }
}

} // verus!

//! The handle itself: construction, ownership queries, downgrade and cloning.

use crate::codec::LEN_MASK;
use vstd::prelude::*;
use vstd::string::StringSliceAdditionalSpecFns;
use vstd::utf8::encode_utf8;

verus! {

broadcast use vstd::slice::group_slice_axioms;

/// Storage behind a handle: a view of bytes someone else owns, or a buffer of
/// its own.
#[derive(Debug)]
pub(crate) enum Repr<'a> {
    Brw(&'a str),
    Own(String),
}

/// "Maybe own str": a read-only string handle that either borrows its
/// characters from elsewhere for the lifetime `'a`, or owns them on the heap.
///
/// The handle is read-only once built, and it is not generic over the pair of
/// owned and borrowed forms: it always presents a string slice.  Its one
/// stated limit is that a supported byte length never exceeds
/// [`LEN_MASK`](crate::codec::LEN_MASK), half the range of `usize`; the named
/// constructors state that bound as their contract (see
/// [`crate::codec`] for why the limit exists).
#[derive(Debug)]
pub struct MownStr<'a> {
    pub(crate) inner: Repr<'a>,
}

impl<'a> View for MownStr<'a> {
    type V = Seq<char>;

    open(crate) spec fn view(&self) -> Seq<char> {
        match self.inner {
            Repr::Brw(s) => s@,
            Repr::Own(s) => s@,
        }
    }
}

impl<'a> MownStr<'a> {
    /// Whether the handle owns its buffer.
    pub open(crate) spec fn is_owned_spec(&self) -> bool {
        self.inner is Own
    }

    /// The byte length of the handle's characters in their UTF-8 form.
    pub open spec fn byte_len(&self) -> nat {
        encode_utf8(self@).len()
    }

    /// The slice a borrowing handle aliases.
    pub open(crate) spec fn borrowed_ref_spec(&self) -> &'a str
        recommends
            !self.is_owned_spec(),
    {
        self.inner->Brw_0
    }

    /// The buffer an owning handle holds.
    pub open(crate) spec fn owned_buf_spec(&self) -> String
        recommends
            self.is_owned_spec(),
    {
        self.inner->Own_0
    }

    /// Builds a handle borrowing `other`.  Never allocates.
    #[must_use]
    pub fn from_ref(other: &'a str) -> (r: Self)
        requires
            other.spec_bytes().len() <= LEN_MASK,
        ensures
            r@ == other@,
            !r.is_owned_spec(),
    {
        MownStr { inner: Repr::Brw(other) }
    }

    /// Builds a handle borrowing `other`.
    ///
    /// An older name for [`MownStr::from_ref`], kept so existing callers keep
    /// working; prefer `from_ref`, whose name does not collide with the
    /// conventional `from_str` of parsing.
    #[must_use]
    pub fn from_str(other: &'a str) -> (r: Self)
        requires
            other.spec_bytes().len() <= LEN_MASK,
        ensures
            r@ == other@,
            !r.is_owned_spec(),
    {
        Self::from_ref(other)
    }

    /// Whether the handle merely borrows its characters.
    #[must_use]
    pub fn is_borrowed(&self) -> (r: bool)
        ensures
            r == !self.is_owned_spec(),
    {
        match &self.inner {
            Repr::Brw(_) => true,
            Repr::Own(_) => false,
        }
    }

    /// Whether the handle owns its buffer.
    #[must_use]
    pub fn is_owned(&self) -> (r: bool)
        ensures
            r == self.is_owned_spec(),
    {
        match &self.inner {
            Repr::Brw(_) => false,
            Repr::Own(_) => true,
        }
    }

    /// A non-owning view of the same characters: the downgrade of the handle.
    ///
    /// The view borrows from `self`, so it can never outlive the owner of the
    /// bytes, and discarding it never releases the owner's buffer.
    #[must_use]
    pub fn borrowed(&self) -> (r: MownStr<'_>)
        ensures
            r@ == self@,
            !r.is_owned_spec(),
    {
        match &self.inner {
            Repr::Brw(s) => MownStr { inner: Repr::Brw(s) },
            Repr::Own(s) => MownStr { inner: Repr::Brw(s.as_str()) },
        }
    }

    /// The true byte length of the handle's characters.
    pub fn real_len(&self) -> (r: usize)
        ensures
            r as nat == self.byte_len(),
    {
        let s = self.as_str();
        let b = s.as_bytes();
        b.len()
    }
}

impl<'a> Clone for MownStr<'a> {
    /// A borrowing handle clones to another view of the same bytes, without
    /// allocating; an owning handle clones to an independently owned copy of
    /// its characters.
    fn clone(&self) -> (r: Self)
        ensures
            r@ == self@,
            r.is_owned_spec() == self.is_owned_spec(),
    {
        match &self.inner {
            Repr::Brw(s) => MownStr { inner: Repr::Brw(s) },
            Repr::Own(s) => MownStr { inner: Repr::Own(s.clone()) },
        }
    }
}

} // verus!

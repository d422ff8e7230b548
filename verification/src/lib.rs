//! `MownStr`: a read-only "maybe own" string handle.
//!
//! A [`MownStr`] either borrows a string slice owned by someone else or owns
//! its own heap buffer, while behaving like a plain string slice for every
//! read: slicing, comparison, hashing and formatting all look through to the
//! characters and never reveal which storage backs them.  The handle is
//! deliberately not mutable and not generic, which keeps it lighter than a
//! general copy-on-write wrapper.
//!
//! The one stated limit is on length: a supported string never exceeds
//! [`codec::LEN_MASK`] bytes, half the range of `usize` — the bound under
//! which a single length field can carry the ownership tag in its top bit,
//! as [`codec`] lays down.  The named constructors carry that bound as their
//! contract; it is the only failure mode in the whole surface, every other
//! operation being total on a validly built handle.

pub mod codec;
pub mod laws;

mod access;
mod convert;
mod handle;

pub use access::debug_quoted;
pub use access::lex_bytes;
pub use handle::MownStr;

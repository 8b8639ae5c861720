//! Text behind one value, whether it is borrowed or owned.

use vstd::prelude::*;
use vstd::utf8::{decode_utf8, encode_utf8, valid_utf8};
use crate::cow_vec::CowVec;
use crate::elements::{
    lemma_byte_clone_is_exact, lemma_byte_eq_is_identity, lemma_elementwise_identity,
    lemma_exact_duplicates, slices_equal,
};
use crate::text::{lemma_encodes_iff_decodes, str_of, string_of};

verus! {

/// Text that is either borrowed from a string slice or held in a buffer
/// of its own.
///
/// It is a [`CowVec`] of bytes that are well-formed UTF-8 at all times:
/// one is made from a `&str` or a `String`, whose bytes are text already,
/// or from bytes that [`CowStr::from_utf8`] has looked over.
///
/// Safe Rust goes from bytes to text only through a scan of the bytes, so
/// reading the text costs one pass over it. The scan cannot fail.
pub struct CowStr<'a> {
    bytes: CowVec<'a, u8>,
}

impl<'a> View for CowStr<'a> {
    type V = Seq<char>;

    /// The characters, in order.
    closed spec fn view(&self) -> Seq<char> {
        decode_utf8(self.bytes@)
    }
}

impl<'a> CowStr<'a> {
    /// The bytes are text.
    #[verifier::type_invariant]
    spec fn holds_text(&self) -> bool {
        valid_utf8(self.bytes@)
    }

    /// Whether the container owns its text.
    pub closed spec fn is_owned(&self) -> bool {
        self.bytes.is_owned()
    }

    /// Borrows `b`. Nothing is allocated or copied.
    pub fn borrowed(b: &'a str) -> (c: Self)
        ensures
            c@ == b@,
            !c.is_owned(),
    {
        let bytes = CowVec::borrowed(b.as_bytes());
        proof {
            vstd::utf8::encode_utf8_valid_utf8(b@);
            vstd::utf8::encode_utf8_decode_utf8(b@);
        }
        CowStr { bytes }
    }

    /// Takes over `v`, with its allocation. Nothing is copied.
    pub fn owned(v: String) -> (c: Self)
        ensures
            c@ == v@,
            c.is_owned(),
    {
        proof {
            vstd::utf8::encode_utf8_valid_utf8(v@);
            vstd::utf8::encode_utf8_decode_utf8(v@);
        }
        CowStr { bytes: CowVec::owned(v.into_bytes()) }
    }

    /// The text, read-only, for as long as the container is borrowed.
    pub fn as_str(&self) -> (s: &str)
        ensures
            s@ == self@,
    {
        proof {
            use_type_invariant(self);
        }
        str_of(self.bytes.as_slice())
    }

    /// Reads `bytes` as text if they are well-formed UTF-8, and hands them
    /// back untouched if they are not. Nothing is allocated or copied.
    pub fn from_utf8(bytes: CowVec<'a, u8>) -> (r: Result<Self, CowVec<'a, u8>>)
        ensures
            r is Ok <==> valid_utf8(bytes@),
            r matches Ok(c) ==> c@ == decode_utf8(bytes@) && c.is_owned() == bytes.is_owned(),
            r matches Err(b) ==> b == bytes,
    {
        if core::str::from_utf8(bytes.as_slice()).is_ok() {
            Ok(CowStr { bytes })
        } else {
            Err(bytes)
        }
    }

    /// A string of its own that holds the same text.
    pub fn to_string(&self) -> (r: String)
        ensures
            r@ == self@,
    {
        self.as_str().to_owned()
    }

    /// Whether the container holds exactly the text `other`.
    fn holds(&self, other: &str) -> (r: bool)
        ensures
            r == (self@ == other@),
    {
        proof {
            use_type_invariant(self);
            lemma_byte_eq_is_identity();
            lemma_elementwise_identity::<u8>(self.bytes@, encode_utf8(other@));
            lemma_encodes_iff_decodes(self.bytes@, other@);
        }
        slices_equal(self.bytes.as_slice(), other.as_bytes())
    }

    /// Hands out the text as a string, allocating and copying only where
    /// the container does not own its buffer.
    pub fn into_owned(self) -> (r: String)
        ensures
            r@ == self@,
    {
        proof {
            use_type_invariant(&self);
        }
        let ghost held = self.bytes@;
        let bytes = self.bytes.into_owned();
        proof {
            lemma_byte_clone_is_exact();
            if !self.bytes.is_owned() {
                lemma_exact_duplicates(held, bytes@);
            }
        }
        string_of(bytes)
    }

    /// Hands out the text as a string if the container owns its buffer,
    /// and nothing otherwise. Nothing is allocated or copied either way.
    pub fn try_owned(self) -> (r: Option<String>)
        ensures
            r is Some <==> self.is_owned(),
            r matches Some(s) ==> s@ == self@,
    {
        proof {
            use_type_invariant(&self);
        }
        match self.bytes.try_owned() {
            Some(bytes) => Some(string_of(bytes)),
            None => None,
        }
    }
}

impl<'a> Clone for CowStr<'a> {
    /// A borrowed container is copied as a view of the same text; an owned
    /// one gets a buffer of its own.
    fn clone(&self) -> (c: Self)
        ensures
            c@ == self@,
            c.is_owned() == self.is_owned(),
    {
        proof {
            use_type_invariant(self);
        }
        let bytes = self.bytes.clone();
        proof {
            lemma_byte_clone_is_exact();
            if self.bytes.is_owned() {
                lemma_exact_duplicates(self.bytes@, bytes@);
            }
        }
        CowStr { bytes }
    }
}

impl<'a> core::ops::Deref for CowStr<'a> {
    type Target = str;

    fn deref(&self) -> (s: &str)
        ensures
            s@ == self@,
    {
        self.as_str()
    }
}

impl<'a> AsRef<str> for CowStr<'a> {
    fn as_ref(&self) -> (s: &str)
        ensures
            s@ == self@,
    {
        self.as_str()
    }
}

impl<'a> From<&'a str> for CowStr<'a> {
    fn from(other: &'a str) -> (c: Self)
        ensures
            c@ == other@,
            !c.is_owned(),
    {
        CowStr::borrowed(other)
    }
}

impl<'a> vstd::std_specs::convert::FromSpecImpl<&'a str> for CowStr<'a> {
    /// `from` is specified by its own `ensures`, over the view.
    open spec fn obeys_from_spec() -> bool {
        false
    }

    open spec fn from_spec(other: &'a str) -> Self {
        choose|c: Self| c@ == other@ && !c.is_owned()
    }
}

impl From<String> for CowStr<'static> {
    fn from(other: String) -> (c: Self)
        ensures
            c@ == other@,
            c.is_owned(),
    {
        CowStr::owned(other)
    }
}

impl vstd::std_specs::convert::FromSpecImpl<String> for CowStr<'static> {
    /// `from` is specified by its own `ensures`, over the view.
    open spec fn obeys_from_spec() -> bool {
        false
    }

    open spec fn from_spec(other: String) -> Self {
        choose|c: Self| c@ == other@ && c.is_owned()
    }
}

impl<'a> PartialEq<&'a str> for CowStr<'a> {
    fn eq(&self, other: &&'a str) -> (r: bool) {
        self.holds(*other)
    }
}

impl<'a> vstd::std_specs::cmp::PartialEqSpecImpl<&'a str> for CowStr<'a> {
    open spec fn obeys_eq_spec() -> bool {
        true
    }

    open spec fn eq_spec(&self, other: &&'a str) -> bool {
        self@ == other@
    }
}

impl<'a> PartialEq<String> for CowStr<'a> {
    fn eq(&self, other: &String) -> (r: bool) {
        self.holds(other.as_str())
    }
}

impl<'a> vstd::std_specs::cmp::PartialEqSpecImpl<String> for CowStr<'a> {
    open spec fn obeys_eq_spec() -> bool {
        true
    }

    open spec fn eq_spec(&self, other: &String) -> bool {
        self@ == other@
    }
}

impl<'a> PartialEq for CowStr<'a> {
    fn eq(&self, other: &Self) -> (r: bool) {
        self.holds(other.as_str())
    }
}

impl<'a> vstd::std_specs::cmp::PartialEqSpecImpl for CowStr<'a> {
    open spec fn obeys_eq_spec() -> bool {
        true
    }

    open spec fn eq_spec(&self, other: &Self) -> bool {
        self@ == other@
    }
}

} // verus!

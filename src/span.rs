use vstd::prelude::*;
use vstd::utf8::{
    encode_utf8, encode_utf8_valid_utf8, is_char_boundary, is_char_boundary_iff_not_is_continuation_byte,
    is_char_boundary_start_end_of_seq, valid_utf8, valid_utf8_split,
};
use vstd::string::StringSliceAdditionalSpecFns;

verus! {

/// A half-open range `start..end` of byte offsets into a source buffer.
///
/// A span only holds coordinates: it does not own or borrow the buffer.
#[derive(Copy, Clone, Debug, PartialEq, Eq, Structural)]
pub struct Span {
    pub start: usize,
    pub end: usize,
}

impl Span {
    /// The range is not reversed.
    pub open spec fn wf(self) -> bool {
        self.start <= self.end
    }

    /// The span lies within a buffer of `len` bytes.
    pub open spec fn within(self, len: int) -> bool {
        self.start <= self.end <= len
    }

    /// The span lies within the bytes of `s` and both of its ends fall on
    /// character boundaries, so that it selects a whole substring.
    pub open spec fn selects(self, s: &str) -> bool {
        self.selects_in(s.spec_bytes())
    }

    /// The span lies within `bytes` and both of its ends fall on character
    /// boundaries.
    pub open spec fn selects_in(self, bytes: Seq<u8>) -> bool {
        &&& self.within(bytes.len() as int)
        &&& is_char_boundary(bytes, self.start as int)
        &&& is_char_boundary(bytes, self.end as int)
    }

    /// The bytes of `s` that the span covers.
    pub open spec fn bytes_of(self, s: &str) -> Seq<u8> {
        s.spec_bytes().subrange(self.start as int, self.end as int)
    }
}

/// A value paired with the span of source bytes it came from.
#[derive(Copy, Clone, Debug, PartialEq)]
pub struct WithSpan<T> {
    pub item: T,
    pub span: Span,
}

impl<T> WithSpan<T> {
    /// Wraps `item` with `span`.
    pub fn new(item: T, span: Span) -> (r: Self)
        ensures
            r.item == item,
            r.span == span,
    {
        WithSpan { item, span }
    }
}

/// Byte offsets past a character boundary stay boundaries of the rest of
/// the buffer, counted from its new beginning.
proof fn lemma_boundary_in_suffix(bytes: Seq<u8>, from: int, index: int)
    requires
        valid_utf8(bytes),
        is_char_boundary(bytes, from),
        is_char_boundary(bytes, index),
        0 <= from <= index <= bytes.len(),
    ensures
        valid_utf8(bytes.subrange(from, bytes.len() as int)),
        is_char_boundary(bytes.subrange(from, bytes.len() as int), index - from),
{
    let rest = bytes.subrange(from, bytes.len() as int);
    valid_utf8_split(bytes, from);
    if index == bytes.len() {
        is_char_boundary_start_end_of_seq(rest);
    } else {
        is_char_boundary_iff_not_is_continuation_byte(bytes, index);
        is_char_boundary_iff_not_is_continuation_byte(rest, index - from);
    }
}

/// The substring of `s` that `span` covers.
pub fn slice_str(s: &str, span: Span) -> (r: &str)
    requires
        span.selects(s),
    ensures
        r.spec_bytes() == span.bytes_of(s),
{
    proof {
        encode_utf8_valid_utf8(s@);
        lemma_boundary_in_suffix(s.spec_bytes(), span.start as int, span.end as int);
    }
    let (_, rest) = s.split_at(span.start);
    let (mid, _) = rest.split_at(span.end - span.start);
    proof {
        assert(mid.spec_bytes() =~= span.bytes_of(s));
    }
    mid
}

impl core::ops::Index<Span> for str {
    type Output = str;

    fn index(&self, index: Span) -> (r: &str)
        ensures
            r.spec_bytes() == index.bytes_of(self),
    {
        slice_str(self, index)
    }
}

impl vstd::std_specs::core::IndexSpecImpl<Span> for str {
    open spec fn index_req(&self, index: &Span) -> bool {
        index.selects(self)
    }
}

impl core::ops::Index<Span> for String {
    type Output = str;

    fn index(&self, index: Span) -> (r: &str)
        ensures
            r.spec_bytes() == encode_utf8(self@).subrange(index.start as int, index.end as int),
    {
        slice_str(self.as_str(), index)
    }
}

impl vstd::std_specs::core::IndexSpecImpl<Span> for String {
    open spec fn index_req(&self, index: &Span) -> bool {
        index.selects_in(encode_utf8(self@))
    }
}

} // verus!

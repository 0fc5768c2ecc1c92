//! An immutable, possibly fragmented view over one or more byte buffers,
//! treated as a single logical byte range.
use vstd::prelude::*;

verus! {

/// An ordered sequence of byte buffers handed across component boundaries
/// without forcing the producer to concatenate them first. A `Span` is
/// write-once, read-many: it is built by a constructor and never mutated.
#[derive(Clone, Debug)]
pub struct Span {
    parts: Vec<Vec<u8>>,
}

impl View for Span {
    type V = Seq<u8>;

    /// A `Span` denotes the single logical byte range formed by its buffers
    /// laid end to end.
    closed spec fn view(&self) -> Seq<u8> {
        self.parts.deep_view().flatten()
    }
}

impl Span {
    /// The underlying buffers, in original order.
    pub closed spec fn parts_view(&self) -> Seq<Seq<u8>> {
        self.parts.deep_view()
    }

    /// Builds a span over a single byte buffer.
    pub fn from_bytes(bytes: Vec<u8>) -> (s: Span)
        ensures
            s.parts_view() == seq![bytes@],
            s@ == bytes@,
    {
        let ghost b = bytes@;
        let mut parts: Vec<Vec<u8>> = Vec::new();
        parts.push(bytes);
        let s = Span { parts };
        proof {
            assert(s.parts_view() =~~= seq![b]);
            seq![b].lemma_flatten_one_element();
        }
        s
    }

    /// Builds a span over the given buffers, kept in order.
    pub fn from_parts(parts: Vec<Vec<u8>>) -> (s: Span)
        ensures
            s.parts_view() == parts.deep_view(),
            s@ == parts.deep_view().flatten(),
    {
        Span { parts }
    }

    /// A span's logical byte range is its buffers flattened in order.
    pub proof fn lemma_view_is_flattened_parts(&self)
        ensures
            self@ == self.parts_view().flatten(),
    {
    }

    /// The finite, restartable sequence of contiguous byte slices in
    /// original order; callers may walk it as often as they like.
    pub fn spans(&self) -> (r: &Vec<Vec<u8>>)
        ensures
            r.deep_view() == self.parts_view(),
    {
        &self.parts
    }
}

} // verus!

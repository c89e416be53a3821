//! The transforms that can be applied to fetched bytes before they are stored.

use vstd::prelude::*;

verus! {

/// The transform applied to fetched bytes before they are stored.
#[derive(Clone, Copy, Debug, PartialEq, Eq, Structural)]
pub enum EncodingKind {
    /// The bytes are stored exactly as fetched.
    Identity,
    /// The bytes are stored as a Brotli stream.
    Brotli,
}

impl EncodingKind {
    /// The stable text that stands for this encoding in a cache key:
    /// `None` for the identity, `Brotli` for Brotli, in ASCII.
    pub open spec fn tag(self) -> Seq<u8> {
        match self {
            EncodingKind::Identity => seq![0x4eu8, 0x6fu8, 0x6eu8, 0x65u8],
            EncodingKind::Brotli => seq![0x42u8, 0x72u8, 0x6fu8, 0x74u8, 0x6cu8, 0x69u8],
        }
    }

    /// Appends the tag of this encoding to `out`.
    pub fn write_tag(&self, out: &mut Vec<u8>)
        ensures
            final(out)@ == old(out)@ + self.tag(),
    {
        match self {
            EncodingKind::Identity => {
                out.push(0x4e);
                out.push(0x6f);
                out.push(0x6e);
                out.push(0x65);
            },
            EncodingKind::Brotli => {
                out.push(0x42);
                out.push(0x72);
                out.push(0x6f);
                out.push(0x74);
                out.push(0x6c);
                out.push(0x69);
            },
        }
    }

    /// Two encodings never share a tag, and no tag holds the separator byte.
    pub proof fn lemma_tag_distinguishes(a: EncodingKind, b: EncodingKind)
        ensures
            a.tag() == b.tag() <==> a == b,
            a.tag().len() > 0,
            forall|i: int| 0 <= i < a.tag().len() ==> a.tag()[i] != 0u8,
    {
        if a != b {
            assert(a.tag().len() != b.tag().len());
        }
    }
}

} // verus!

//! An in-memory render surface: a row-major RGBA byte buffer.
use vstd::prelude::*;

verus! {

/// The byte sequence of a buffer after it has been cleared to opaque black:
/// every pixel becomes `[0, 0, 0, 255]`.
pub open spec fn cleared(buf: Seq<u8>) -> Seq<u8> {
    Seq::new(buf.len(), |i: int| if i % 4 == 3 { 255u8 } else { 0u8 })
}

/// A render surface the animator composites into: `width * height` pixels,
/// stored row-major with four bytes (R, G, B, A) per pixel.
///
/// The surface is presented by the surrounding program; this type only holds
/// the bytes.
pub struct Screen {
    /// Row-major RGBA bytes, `width * height * 4` of them.
    pub buffer: Vec<u8>,
    /// Width in pixels.
    pub width: u32,
    /// Height in pixels.
    pub height: u32,
}

impl Screen {
    /// The buffer holds exactly four bytes per pixel.
    pub open spec fn wf(self) -> bool {
        self.buffer@.len() == self.width * self.height * 4
    }

    /// Creates a screen of the given dimensions with an all-zero buffer.
    pub fn new(width: u32, height: u32) -> (s: Screen)
        requires
            width * height * 4 <= usize::MAX,
        ensures
            s.wf(),
            s.width == width,
            s.height == height,
            s.buffer@ == Seq::new((width * height * 4) as nat, |i: int| 0u8),
    {
        proof {
            vstd::arithmetic::mul::lemma_mul_nonnegative(width as int, height as int);
        }
        let len: usize = (width as usize) * (height as usize) * 4;
        let mut buffer: Vec<u8> = Vec::new();
        while buffer.len() < len
            invariant
                buffer@.len() <= len,
                forall|i: int| 0 <= i < buffer@.len() ==> buffer@[i] == 0u8,
            decreases len - buffer@.len(),
        {
            buffer.push(0u8);
        }
        proof {
            assert(buffer@ =~= Seq::new((width * height * 4) as nat, |i: int| 0u8));
        }
        Screen { buffer, width, height }
    }

    /// Overwrites every pixel with opaque black.
    pub fn clear(&mut self)
        requires
            old(self).wf(),
        ensures
            final(self).wf(),
            final(self).width == old(self).width,
            final(self).height == old(self).height,
            final(self).buffer@ == cleared(old(self).buffer@),
    {
        let len: usize = self.buffer.len();
        let mut i: usize = 0;
        while i < len
            invariant
                len == self.buffer@.len(),
                len == old(self).buffer@.len(),
                self.width == old(self).width,
                self.height == old(self).height,
                self.wf(),
                i <= len,
                forall|j: int| 0 <= j < i ==> self.buffer@[j] == cleared(old(self).buffer@)[j],
            decreases len - i,
        {
            if i % 4 == 3 {
                self.buffer[i] = 255u8;
            } else {
                self.buffer[i] = 0u8;
            }
            i = i + 1;
        }
        proof {
            assert(self.buffer@ =~= cleared(old(self).buffer@));
        }
    }
}

} // verus!

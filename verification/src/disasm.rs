//! The streaming disassembler: partitioning a byte buffer into
//! instruction-sized windows, with explicit truncation handling.

use vstd::prelude::*;

use crate::decode::DecodeError;

verus! {

/// One window of the input buffer.  A full window carries the four bytes
/// at its offset, assembled as a little-endian word, together with the
/// window's address; a final partial window of one to three bytes carries
/// its address alone.
#[derive(Clone, Copy, Debug, PartialEq, Eq, Hash, Structural)]
pub enum Window {
    Full { address: u64, word: u32 },
    Short { address: u64 },
}

impl Window {
    /// The item a window stands for when no full word could be supplied: a
    /// partial window stands for its address paired with
    /// [`DecodeError::Short`], a full window for no error.
    pub fn short_error(self) -> (r: Option<(u64, DecodeError)>)
        ensures
            r == (match self {
                Window::Short { address } => Some((address, DecodeError::Short)),
                Window::Full { .. } => None::<(u64, DecodeError)>,
            }),
    {
        match self {
            Window::Short { address } => Some((address, DecodeError::Short)),
            Window::Full { .. } => None,
        }
    }
}

/// The little-endian 32-bit word formed by `code[pos .. pos + 4]`.
pub open spec fn spec_le_word(code: Seq<u8>, pos: int) -> u32
    recommends
        0 <= pos && pos + 4 <= code.len(),
{
    (code[pos] + code[pos + 1] * 0x100 + code[pos + 2] * 0x10000 + code[pos + 3]
        * 0x1000000) as u32
}

/// A lazily pulled sequence of instruction-sized windows over one byte
/// buffer.  Window `i` starts at byte offset `4 * i` and covers address
/// `base + 4 * i`.  The cursor only ever moves forward; pulling a window
/// has no effect beyond advancing it.
pub struct Disassembler {
    code: Vec<u8>,
    base: u64,
    pos: usize,
}

impl Disassembler {
    /// The cursor sits on a window boundary inside the buffer (or at its
    /// end, once a partial window was yielded), and every window address
    /// fits in an address word.
    #[verifier::type_invariant]
    spec fn inv(self) -> bool {
        &&& self.pos <= self.code@.len()
        &&& (self.pos % 4 == 0 || self.pos == self.code@.len())
        &&& self.base + self.code@.len() <= u64::MAX + 1
    }

    /// The input buffer.
    pub closed spec fn spec_code(self) -> Seq<u8> {
        self.code@
    }

    /// The address of the first window.
    pub closed spec fn spec_base(self) -> u64 {
        self.base
    }

    /// The byte offset of the next window.
    pub closed spec fn spec_pos(self) -> int {
        self.pos as int
    }

    /// How many windows are still to be yielded: one per full four bytes
    /// left, plus one for a trailing partial window.
    pub open spec fn spec_windows_left(self) -> int {
        (self.spec_code().len() - self.spec_pos() + 3) / 4
    }

    /// Starts a window sequence over `code` with start address `address`.
    /// The sequence will yield exactly one window per four bytes of
    /// `code`, rounded upward; the precondition keeps every window
    /// address inside the address space.
    pub fn new(code: Vec<u8>, address: u64) -> (r: Disassembler)
        requires
            address + code@.len() <= u64::MAX + 1,
        ensures
            r.spec_code() == code@,
            r.spec_base() == address,
            r.spec_pos() == 0,
            r.spec_windows_left() == (code@.len() + 3) / 4,
    {
        Disassembler { code, base: address, pos: 0 }
    }

    /// Yields the next window, or `None` once the buffer is exhausted.
    ///
    /// A full window is yielded with its little-endian word; a trailing
    /// partial window of one to three bytes is yielded as `Short` and is
    /// always the last window.  Exactly one window fewer remains after
    /// every yield.
    pub fn next_window(&mut self) -> (r: Option<Window>)
        ensures
            final(self).spec_code() == old(self).spec_code(),
            final(self).spec_base() == old(self).spec_base(),
            r is None <==> old(self).spec_windows_left() == 0,
            r is None ==> final(self).spec_pos() == old(self).spec_pos(),
            old(self).spec_pos() + 4 <= old(self).spec_code().len() ==> r == (Some(
                Window::Full {
                    address: (old(self).spec_base() + old(self).spec_pos()) as u64,
                    word: spec_le_word(old(self).spec_code(), old(self).spec_pos()),
                },
            )) && final(self).spec_pos() == old(self).spec_pos() + 4,
            old(self).spec_pos() < old(self).spec_code().len() < old(self).spec_pos() + 4
                ==> r == (Some(
                Window::Short { address: (old(self).spec_base() + old(self).spec_pos()) as u64 },
            )) && final(self).spec_pos() == old(self).spec_code().len(),
            final(self).spec_windows_left() == if r is Some {
                old(self).spec_windows_left() - 1
            } else {
                0
            },
            r matches Some(w) ==> (w is Short <==> old(self).spec_windows_left() == 1
                && old(self).spec_code().len() % 4 != 0),
    {
        proof {
            use_type_invariant(&*self);
        }
        let len = self.code.len();
        if self.pos >= len {
            return None;
        }
        let address = self.base + (self.pos as u64);
        if len - self.pos >= 4 {
            let b0 = self.code[self.pos];
            let b1 = self.code[self.pos + 1];
            let b2 = self.code[self.pos + 2];
            let b3 = self.code[self.pos + 3];
            let word = (b0 as u32) + (b1 as u32) * 0x100 + (b2 as u32) * 0x10000 + (b3 as u32)
                * 0x1000000;
            self.pos = self.pos + 4;
            Some(Window::Full { address, word })
        } else {
            self.pos = len;
            Some(Window::Short { address })
        }
    }
}

} // verus!

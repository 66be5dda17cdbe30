//! Fixed-size blocks of bytes: the backing storage of RAM, ROM and the
//! cartridge image.

use crate::bytes::{pad, padded};
use vstd::prelude::*;

verus! {

/// `N` bytes of storage. A block never grows or shrinks.
pub struct Block<const N: usize> {
    bytes: Vec<u8>,
}

impl<const N: usize> View for Block<N> {
    type V = Seq<u8>;

    closed spec fn view(&self) -> Seq<u8> {
        self.bytes@
    }
}

impl<const N: usize> Block<N> {
    #[verifier::type_invariant]
    spec fn full(self) -> bool {
        self.bytes.len() == N
    }

    /// A block that holds `image`, cut or filled with zeros to `N` bytes.
    pub fn new(image: Vec<u8>) -> (block: Self)
        ensures
            block@ == padded(image@, N as nat),
    {
        Block { bytes: pad(image, N) }
    }

    /// A block with `byte` in every place.
    pub fn filled(byte: u8) -> (block: Self)
        ensures
            block@ == Seq::new(N as nat, |i: int| byte),
    {
        let bytes = vec![byte; N];
        assert(bytes@ =~= Seq::new(N as nat, |i: int| byte));
        Block { bytes }
    }

    /// The number of bytes, which is `N`.
    pub fn len(&self) -> (len: usize)
        ensures
            len == N,
            self@.len() == N,
    {
        proof {
            use_type_invariant(self);
        }
        self.bytes.len()
    }

    /// The byte at `index`.
    pub fn get(&self, index: usize) -> (byte: u8)
        requires
            index < N,
        ensures
            byte == self@[index as int],
            self@.len() == N,
    {
        proof {
            use_type_invariant(self);
        }
        self.bytes[index]
    }

    /// Stores `byte` at `index`.
    pub fn set(&mut self, index: usize, byte: u8)
        requires
            index < N,
        ensures
            final(self)@ == old(self)@.update(index as int, byte),
            final(self)@.len() == N,
    {
        proof {
            use_type_invariant(&*self);
        }
        self.bytes[index] = byte;
    }
}

} // verus!

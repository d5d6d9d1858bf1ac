//! An in-memory byte stream that is read in exact amounts.
use vstd::prelude::*;
use vstd::slice::{slice_subrange, slice_to_vec};
use crate::socket5::error::Error;

verus! {

/// What decoding a byte sequence gives: the value or the error, and how many
/// bytes were taken off the front of the sequence to get there.
pub struct Decoded<T> {
    pub value: Result<T, Error>,
    pub used: nat,
}

/// The model of a decoding result: the model of the value, or the error as it is.
pub open spec fn viewed<T: View>(r: Result<T, Error>) -> Result<T::V, Error> {
    match r {
        Ok(t) => Ok(t@),
        Err(e) => Err(e),
    }
}

/// The outcome of a read that found the stream shorter than the message.
pub open spec fn cut_short<T>(s: Seq<u8>) -> Decoded<T> {
    Decoded { value: Err(Error::IoError), used: s.len() }
}

/// Bytes received from a peer, consumed from the front.
pub struct ByteStream {
    data: Vec<u8>,
    pos: usize,
}

impl ByteStream {
    #[verifier::type_invariant]
    spec fn inv(self) -> bool {
        self.pos <= self.data@.len()
    }

    /// The bytes that have not been read yet.
    pub closed spec fn remaining(&self) -> Seq<u8> {
        self.data@.skip(self.pos as int)
    }

    /// A stream that will deliver `data` and then end.
    pub fn new(data: Vec<u8>) -> (s: Self)
        ensures
            s.remaining() == data@,
    {
        ByteStream { data, pos: 0 }
    }

    /// Number of bytes that are still to be read.
    pub fn len(&self) -> (n: usize)
        ensures
            n == self.remaining().len(),
    {
        proof {
            use_type_invariant(self);
        }
        self.data.len() - self.pos
    }

    /// Reads exactly `n` bytes. Where fewer are left the stream is drained and
    /// the read fails: the peer closed in the middle of a message.
    pub fn read_exact(&mut self, n: usize) -> (res: Result<Vec<u8>, Error>)
        ensures
            n <= old(self).remaining().len() ==> res is Ok && res->Ok_0@ == old(
                self,
            ).remaining().take(n as int) && final(self).remaining() == old(self).remaining().skip(
                n as int,
            ),
            n > old(self).remaining().len() ==> res == Err::<Vec<u8>, Error>(Error::IoError)
                && final(self).remaining() == Seq::<u8>::empty(),
    {
        proof {
            use_type_invariant(&*self);
        }
        let left: usize = self.data.len() - self.pos;
        if n > left {
            self.pos = self.data.len();
            return Err(Error::IoError);
        }
        let end: usize = self.pos + n;
        let out = slice_to_vec(slice_subrange(self.data.as_slice(), self.pos, end));
        self.pos = end;
        Ok(out)
    }
}

} // verus!

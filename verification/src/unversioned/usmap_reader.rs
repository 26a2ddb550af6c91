//! A reader over the bytes of a usmap file, with the file's name map.

use crate::byte_io::read_i32_le;
use crate::byte_io::i32_from_le_bytes;
use crate::error::Error;
use crate::unversioned::properties::format::{name_views, parse_name};
use vstd::prelude::*;

verus! {

/// Reads usmap data front to back; names are resolved in `name_map`.
pub struct UsmapReader {
    data: Vec<u8>,
    pos: usize,
    name_map: Vec<String>,
}

impl UsmapReader {
    #[verifier::type_invariant]
    spec fn inv(self) -> bool {
        self.pos <= self.data@.len()
    }

    /// All the bytes the reader was made with.
    pub closed spec fn data(&self) -> Seq<u8> {
        self.data@
    }

    /// How many bytes have been read.
    pub closed spec fn pos(&self) -> nat {
        self.pos as nat
    }

    /// The bytes not read yet.
    pub closed spec fn remaining(&self) -> Seq<u8> {
        self.data@.subrange(self.pos as int, self.data@.len() as int)
    }

    /// The name map, as character sequences.
    pub closed spec fn names(&self) -> Seq<Seq<char>> {
        name_views(self.name_map@)
    }

    /// A reader at the start of `data`.
    pub fn new(data: Vec<u8>, name_map: Vec<String>) -> (r: UsmapReader)
        ensures
            r.data() == data@,
            r.pos() == 0,
            r.remaining() == data@,
            r.names() == name_views(name_map@),
    {
        let r = UsmapReader { data, pos: 0, name_map };
        assert(r.remaining() =~= r.data());
        r
    }

    /// How many bytes have been read.
    pub fn position(&self) -> (p: usize)
        ensures
            p == self.pos(),
    {
        self.pos
    }

    /// The name map.
    pub fn name_map(&self) -> (m: &Vec<String>)
        ensures
            name_views(m@) == self.names(),
    {
        &self.name_map
    }

    /// Reads one byte.
    pub fn read_u8(&mut self) -> (r: Result<u8, Error>)
        ensures
            final(self).data() == old(self).data(),
            final(self).names() == old(self).names(),
            old(self).remaining().len() == 0 ==> r == Err::<u8, Error>(Error::UnexpectedEnd)
                && final(self).pos() == old(self).pos() && final(self).remaining()
                == old(self).remaining(),
            old(self).remaining().len() > 0 ==> r == Ok::<u8, Error>(old(self).remaining()[0])
                && final(self).pos() == old(self).pos() + 1 && final(self).remaining()
                == old(self).remaining().drop_first(),
    {
        proof {
            use_type_invariant(&*self);
        }
        if self.pos < self.data.len() {
            let b = self.data[self.pos];
            self.pos = self.pos + 1;
            assert(self.remaining() =~= old(self).remaining().drop_first());
            Ok(b)
        } else {
            Err(Error::UnexpectedEnd)
        }
    }

    /// Reads a little-endian `i32`.
    pub fn read_i32(&mut self) -> (r: Result<i32, Error>)
        ensures
            final(self).data() == old(self).data(),
            final(self).names() == old(self).names(),
            old(self).remaining().len() < 4 ==> r == Err::<i32, Error>(Error::UnexpectedEnd)
                && final(self).pos() == old(self).pos() && final(self).remaining()
                == old(self).remaining(),
            old(self).remaining().len() >= 4 ==> r == Ok::<i32, Error>(
                i32_from_le_bytes(old(self).remaining()),
            ) && final(self).pos() == old(self).pos() + 4 && final(self).remaining()
                == old(self).remaining().skip(4),
    {
        proof {
            use_type_invariant(&*self);
        }
        if self.data.len() - self.pos >= 4 {
            let n = read_i32_le(self.data.as_slice(), self.pos);
            assert(self.data@.subrange(self.pos as int, self.pos + 4) =~= old(self).remaining().take(
                4,
            ));
            self.pos = self.pos + 4;
            assert(self.remaining() =~= old(self).remaining().skip(4));
            Ok(n)
        } else {
            Err(Error::UnexpectedEnd)
        }
    }

    /// Reads a name: an `i32` index into the name map.
    pub fn read_name(&mut self) -> (r: Result<String, Error>)
        ensures
            final(self).data() == old(self).data(),
            final(self).names() == old(self).names(),
            match parse_name(old(self).names(), old(self).remaining()) {
                Ok((name, n)) => r matches Ok(s) && s@ == name && final(self).pos() == old(
                    self,
                ).pos() + n && final(self).remaining() == old(self).remaining().skip(n as int),
                Err(e) => r == Err::<String, Error>(e) && final(self).pos() == old(self).pos()
                    && final(self).remaining() == old(self).remaining(),
            },
    {
        proof {
            use_type_invariant(&*self);
        }
        if self.data.len() - self.pos < 4 {
            return Err(Error::UnexpectedEnd);
        }
        let ghost before = old(self).remaining();
        let index = read_i32_le(self.data.as_slice(), self.pos);
        assert(self.data@.subrange(self.pos as int, self.pos + 4) =~= before.take(4));
        if index < 0 || index as usize >= self.name_map.len() {
            return Err(Error::InvalidNameIndex(index));
        }
        let name = self.name_map[index as usize].clone();
        self.pos = self.pos + 4;
        assert(self.remaining() =~= before.skip(4));
        Ok(name)
    }
}

} // verus!

//! A writer of usmap data into a byte buffer, with the name map that names
//! are written against.

use crate::byte_io::{i32_le_bytes, write_i32_le_to, write_u8_to};
use crate::error::Error;
use crate::unversioned::properties::format::{
    bytes_or_empty, name_views, outcome_of, serialize_name,
};
use vstd::prelude::*;

verus! {

/// Appends usmap data to a byte buffer; names are written as their index in
/// `name_map`.
pub struct UsmapWriter {
    buf: Vec<u8>,
    name_map: Vec<String>,
}

/// The position of the first name in `name_map` equal to `name`.
fn find_name(name_map: &Vec<String>, name: &String) -> (r: Option<usize>)
    ensures
        r matches Some(i) ==> name_views(name_map@).index_of_first(name@) == Some(i as int),
        r is None ==> name_views(name_map@).index_of_first(name@) is None,
{
    let ghost names = name_views(name_map@);
    let mut i: usize = 0;
    while i < name_map.len()
        invariant
            i <= name_map.len(),
            names == name_views(name_map@),
            forall|k: int| 0 <= k < i ==> names[k] != name@,
        decreases name_map.len() - i,
    {
        if name_map[i] == *name {
            proof {
                assert(names[i as int] == name@);
                names.index_of_first_ensures(name@);
                let first = names.index_of_first(name@)->0;
                assert(first == i) by {
                    if first < i {
                        assert(names[first] != name@);
                    }
                }
            }
            return Some(i);
        }
        i = i + 1;
    }
    proof {
        names.index_of_first_ensures(name@);
        assert(!names.contains(name@));
    }
    None
}

impl UsmapWriter {
    /// The bytes written so far.
    pub closed spec fn bytes(&self) -> Seq<u8> {
        self.buf@
    }

    /// The name map, as character sequences.
    pub closed spec fn names(&self) -> Seq<Seq<char>> {
        name_views(self.name_map@)
    }

    /// The buffer never holds more bytes than a `usize` counts.
    pub proof fn lemma_bytes_fit(&self)
        ensures
            self.bytes().len() <= usize::MAX,
    {
        assert(self.buf.len() == self.buf@.len());
    }

    /// A writer with nothing written yet.
    pub fn new(name_map: Vec<String>) -> (r: UsmapWriter)
        ensures
            r.bytes() == Seq::<u8>::empty(),
            r.names() == name_views(name_map@),
    {
        UsmapWriter { buf: Vec::new(), name_map }
    }

    /// The bytes written so far.
    pub fn written(&self) -> (r: &[u8])
        ensures
            r@ == self.bytes(),
    {
        self.buf.as_slice()
    }

    /// The bytes written, giving up the writer.
    pub fn into_bytes(self) -> (r: Vec<u8>)
        ensures
            r@ == self.bytes(),
    {
        self.buf
    }

    /// The name map.
    pub fn name_map(&self) -> (m: &Vec<String>)
        ensures
            name_views(m@) == self.names(),
    {
        &self.name_map
    }

    /// Writes one byte.
    pub fn write_u8(&mut self, n: u8)
        ensures
            final(self).names() == old(self).names(),
            final(self).bytes() == old(self).bytes().push(n),
    {
        let written = write_u8_to(&mut self.buf, n);
        proof {
            assert(written is Ok);
        }
    }

    /// Writes a little-endian `i32`.
    pub fn write_i32(&mut self, n: i32)
        ensures
            final(self).names() == old(self).names(),
            final(self).bytes() == old(self).bytes() + i32_le_bytes(n),
    {
        let written = write_i32_le_to(&mut self.buf, n);
        proof {
            assert(written is Ok);
        }
    }

    /// Writes a name as the `i32` index of its first occurrence in the name
    /// map.
    pub fn write_name(&mut self, name: &String) -> (r: Result<(), Error>)
        ensures
            final(self).names() == old(self).names(),
            final(self).bytes() == old(self).bytes() + bytes_or_empty(
                serialize_name(old(self).names(), name@),
            ),
            r == outcome_of(serialize_name(old(self).names(), name@)),
    {
        match find_name(&self.name_map, name) {
            Some(index) => {
                if index > 0x7fff_ffff {
                    return Err(Error::NameNotInMap);
                }
                self.write_i32(index as i32);
                Ok(())
            },
            None => Err(Error::NameNotInMap),
        }
    }
}

} // verus!

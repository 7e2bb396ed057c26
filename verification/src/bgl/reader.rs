//! A read position over the bytes of a container, and the little-endian
//! fields read at it.

use byteorder::{LittleEndian, ReadBytesExt};
use vstd::prelude::*;

verus! {

#[verifier::external_type_specification]
#[verifier::external_body]
pub struct ExIoError(std::io::Error);

/// Why decoding a container stopped.
#[derive(Clone, Copy, Debug, PartialEq, Eq, Structural)]
pub enum BglError {
    /// A field lies, wholly or in part, past the end of the data: the
    /// container is truncated, or an offset in it points outside.
    UnexpectedEof,
    /// The container does not start with the magic number that was asked for.
    BadMagic,
}

/// The unsigned 16-bit value stored little-endian at `at`.
pub open spec fn le_u16(s: Seq<u8>, at: int) -> u16 {
    (s[at] as int + 0x100 * (s[at + 1] as int)) as u16
}

/// The unsigned 32-bit value stored little-endian at `at`.
pub open spec fn le_u32(s: Seq<u8>, at: int) -> u32 {
    (s[at] as int + 0x100 * (s[at + 1] as int) + 0x1_0000 * (s[at + 2] as int) + 0x100_0000 * (s[at
        + 3] as int)) as u32
}

/// The signed 32-bit value stored little-endian, in two's complement, at `at`.
pub open spec fn le_i32(s: Seq<u8>, at: int) -> i32 {
    if le_u32(s, at) < 0x8000_0000 {
        le_u32(s, at) as i32
    } else {
        (le_u32(s, at) - 0x1_0000_0000) as i32
    }
}

/// `ReadBytesExt::read_u8` on the bytes from `at` on: the byte at `at`, or an
/// error where no byte is left.
#[verifier::external_body]
fn read_u8_at(bytes: &[u8], at: usize) -> (r: Result<u8, std::io::Error>)
    requires
        at <= bytes@.len(),
    ensures
        at + 1 <= bytes@.len() ==> r is Ok && r->Ok_0 == bytes@[at as int],
        at + 1 > bytes@.len() ==> r is Err,
{
    let mut rest: &[u8] = &bytes[at..];
    rest.read_u8()
}

/// `ReadBytesExt::read_u16::<LittleEndian>` on the bytes from `at` on: the
/// little-endian value of the next two bytes, or an error where fewer are
/// left.
#[verifier::external_body]
fn read_u16_at(bytes: &[u8], at: usize) -> (r: Result<u16, std::io::Error>)
    requires
        at <= bytes@.len(),
    ensures
        at + 2 <= bytes@.len() ==> r is Ok && r->Ok_0 == le_u16(bytes@, at as int),
        at + 2 > bytes@.len() ==> r is Err,
{
    let mut rest: &[u8] = &bytes[at..];
    rest.read_u16::<LittleEndian>()
}

/// `ReadBytesExt::read_u32::<LittleEndian>` on the bytes from `at` on: the
/// little-endian value of the next four bytes, or an error where fewer are
/// left.
#[verifier::external_body]
fn read_u32_at(bytes: &[u8], at: usize) -> (r: Result<u32, std::io::Error>)
    requires
        at <= bytes@.len(),
    ensures
        at + 4 <= bytes@.len() ==> r is Ok && r->Ok_0 == le_u32(bytes@, at as int),
        at + 4 > bytes@.len() ==> r is Err,
{
    let mut rest: &[u8] = &bytes[at..];
    rest.read_u32::<LittleEndian>()
}

/// `ReadBytesExt::read_i32::<LittleEndian>` on the bytes from `at` on: the
/// next four bytes read little-endian as a two's complement value, or an error
/// where fewer are left.
#[verifier::external_body]
fn read_i32_at(bytes: &[u8], at: usize) -> (r: Result<i32, std::io::Error>)
    requires
        at <= bytes@.len(),
    ensures
        at + 4 <= bytes@.len() ==> r is Ok && r->Ok_0 == le_i32(bytes@, at as int),
        at + 4 > bytes@.len() ==> r is Err,
{
    let mut rest: &[u8] = &bytes[at..];
    rest.read_i32::<LittleEndian>()
}

/// The length of a slice is a `usize`.
pub proof fn lemma_len_fits(bytes: &[u8])
    ensures
        bytes@.len() <= usize::MAX,
{
    assert(vstd::slice::spec_slice_len(bytes) == bytes@.len());
}

/// A position in the bytes of one container. The position may lie past the
/// end, as a file position may: only a read there fails.
pub struct ByteReader<'a> {
    pub bytes: &'a [u8],
    pub pos: u64,
}

impl<'a> ByteReader<'a> {
    /// Whether `n` bytes can be read at the current position.
    pub open spec fn has(&self, n: int) -> bool {
        self.pos + n <= self.bytes@.len()
    }

    /// A reader at the start of `bytes`.
    pub fn new(bytes: &'a [u8]) -> (reader: ByteReader<'a>)
        ensures
            reader.bytes == bytes,
            reader.pos == 0,
    {
        ByteReader { bytes, pos: 0 }
    }

    /// Moves to the absolute position `pos`.
    pub fn seek(&mut self, pos: u64)
        ensures
            final(self).bytes == old(self).bytes,
            final(self).pos == pos,
    {
        self.pos = pos;
    }

    /// Moves `n` bytes forward without reading them.
    pub fn skip(&mut self, n: u64)
        requires
            old(self).pos + n <= u64::MAX,
        ensures
            final(self).bytes == old(self).bytes,
            final(self).pos == old(self).pos + n,
    {
        self.pos = self.pos + n;
    }

    /// The index of the current position, where it lies within the bytes.
    fn index(&self) -> (at: Option<usize>)
        ensures
            self.bytes@.len() <= usize::MAX,
            self.pos <= self.bytes@.len() ==> at == Some(self.pos as usize),
            self.pos > self.bytes@.len() ==> at is None,
    {
        if self.pos > self.bytes.len() as u64 {
            None
        } else {
            Some(self.pos as usize)
        }
    }

    /// Reads one byte and moves past it.
    pub fn read_u8(&mut self) -> (r: Result<u8, BglError>)
        ensures
            final(self).bytes == old(self).bytes,
            old(self).has(1) ==> r == Ok::<u8, BglError>(old(self).bytes@[old(self).pos as int])
                && final(self).pos == old(self).pos + 1,
            !old(self).has(1) ==> r == Err::<u8, BglError>(BglError::UnexpectedEof) && final(self).pos == old(self).pos,
    {
        let at = match self.index() {
            Some(at) => at,
            None => return Err(BglError::UnexpectedEof),
        };
        match read_u8_at(self.bytes, at) {
            Ok(value) => {
                self.pos = self.pos + 1;
                Ok(value)
            },
            Err(_) => Err(BglError::UnexpectedEof),
        }
    }

    /// Reads a little-endian `u16` and moves past it.
    pub fn read_u16(&mut self) -> (r: Result<u16, BglError>)
        ensures
            final(self).bytes == old(self).bytes,
            old(self).has(2) ==> r == Ok::<u16, BglError>(
                le_u16(old(self).bytes@, old(self).pos as int),
            ) && final(self).pos == old(self).pos + 2,
            !old(self).has(2) ==> r == Err::<u16, BglError>(BglError::UnexpectedEof) && final(self).pos == old(self).pos,
    {
        let at = match self.index() {
            Some(at) => at,
            None => return Err(BglError::UnexpectedEof),
        };
        match read_u16_at(self.bytes, at) {
            Ok(value) => {
                self.pos = self.pos + 2;
                Ok(value)
            },
            Err(_) => Err(BglError::UnexpectedEof),
        }
    }

    /// Reads a little-endian `u32` and moves past it.
    pub fn read_u32(&mut self) -> (r: Result<u32, BglError>)
        ensures
            final(self).bytes == old(self).bytes,
            old(self).has(4) ==> r == Ok::<u32, BglError>(
                le_u32(old(self).bytes@, old(self).pos as int),
            ) && final(self).pos == old(self).pos + 4,
            !old(self).has(4) ==> r == Err::<u32, BglError>(BglError::UnexpectedEof) && final(self).pos == old(self).pos,
    {
        let at = match self.index() {
            Some(at) => at,
            None => return Err(BglError::UnexpectedEof),
        };
        match read_u32_at(self.bytes, at) {
            Ok(value) => {
                self.pos = self.pos + 4;
                Ok(value)
            },
            Err(_) => Err(BglError::UnexpectedEof),
        }
    }

    /// Reads a little-endian, two's complement `i32` and moves past it.
    pub fn read_i32(&mut self) -> (r: Result<i32, BglError>)
        ensures
            final(self).bytes == old(self).bytes,
            old(self).has(4) ==> r == Ok::<i32, BglError>(
                le_i32(old(self).bytes@, old(self).pos as int),
            ) && final(self).pos == old(self).pos + 4,
            !old(self).has(4) ==> r == Err::<i32, BglError>(BglError::UnexpectedEof) && final(self).pos == old(self).pos,
    {
        let at = match self.index() {
            Some(at) => at,
            None => return Err(BglError::UnexpectedEof),
        };
        match read_i32_at(self.bytes, at) {
            Ok(value) => {
                self.pos = self.pos + 4;
                Ok(value)
            },
            Err(_) => Err(BglError::UnexpectedEof),
        }
    }
}

} // verus!

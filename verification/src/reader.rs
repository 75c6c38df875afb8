//! A cursor over the bytes of a binary.

use crate::bytes::{read_u16_at, read_u32_at, read_u64_at, u16_of, u32_of, u64_of};
use crate::leb128::{decode_signed, decode_signed_64, decode_unsigned, read_signed, read_signed_64, read_unsigned, Leb128Error};
use crate::wasm::error::WasmParseError;
use vstd::prelude::*;
use vstd::slice::{slice_subrange, slice_to_vec};

verus! {

/// What a read can fail with.
#[derive(Debug, Clone, Copy, PartialEq, Eq, Structural)]
pub enum ReaderError {
    OutOfBounds,
    UnexpectedEndOfFile,
    InvalidLEB128Encoding,
}

impl From<Leb128Error> for ReaderError {
    fn from(value: Leb128Error) -> (r: ReaderError) {
        match value {
            Leb128Error::InvalidEncoding => ReaderError::InvalidLEB128Encoding,
            Leb128Error::IncompleteEncoding => ReaderError::UnexpectedEndOfFile,
        }
    }
}

impl vstd::std_specs::convert::FromSpecImpl<Leb128Error> for ReaderError {
    open spec fn obeys_from_spec() -> bool {
        true
    }

    open spec fn from_spec(value: Leb128Error) -> ReaderError {
        match value {
            Leb128Error::InvalidEncoding => ReaderError::InvalidLEB128Encoding,
            Leb128Error::IncompleteEncoding => ReaderError::UnexpectedEndOfFile,
        }
    }
}

impl ReaderError {
    /// The error of the decoder that stands for this one.
    pub open spec fn raised(self) -> WasmParseError {
        match self {
            ReaderError::OutOfBounds => WasmParseError::OutOfBounds,
            ReaderError::UnexpectedEndOfFile => WasmParseError::UnexpectedEndOfFile,
            ReaderError::InvalidLEB128Encoding => WasmParseError::InvalidLEB128Encoding,
        }
    }

    /// The error of the decoder that stands for this one.
    pub fn raise(self) -> (r: WasmParseError)
        ensures
            r == self.raised(),
    {
        match self {
            ReaderError::OutOfBounds => WasmParseError::OutOfBounds,
            ReaderError::UnexpectedEndOfFile => WasmParseError::UnexpectedEndOfFile,
            ReaderError::InvalidLEB128Encoding => WasmParseError::InvalidLEB128Encoding,
        }
    }
}

/// What reading at a position gives: the value and the position behind it,
/// or the error.
pub type Parsed<T> = Result<(T, int), WasmParseError>;

/// The byte at `pos`.
pub open spec fn byte_at(bytes: Seq<u8>, pos: int) -> Parsed<u8> {
    if 0 <= pos < bytes.len() {
        Ok((bytes[pos], pos + 1))
    } else {
        Err(WasmParseError::UnexpectedEndOfFile)
    }
}

/// The `n` bytes from `pos` on.
pub open spec fn range_at(bytes: Seq<u8>, pos: int, n: int) -> Parsed<Seq<u8>> {
    if 0 <= pos && 0 <= n && pos + n <= bytes.len() {
        Ok((bytes.subrange(pos, pos + n), pos + n))
    } else {
        Err(WasmParseError::UnexpectedEndOfFile)
    }
}

/// The little-endian 16-bit integer at `pos`.
pub open spec fn u16_at(bytes: Seq<u8>, pos: int) -> Parsed<u16> {
    match range_at(bytes, pos, 2) {
        Ok((field, next)) => Ok((u16_of(field), next)),
        Err(e) => Err(e),
    }
}

/// The little-endian 32-bit integer at `pos`.
pub open spec fn u32_at(bytes: Seq<u8>, pos: int) -> Parsed<u32> {
    match range_at(bytes, pos, 4) {
        Ok((field, next)) => Ok((u32_of(field), next)),
        Err(e) => Err(e),
    }
}

/// The little-endian 64-bit integer at `pos`.
pub open spec fn u64_at(bytes: Seq<u8>, pos: int) -> Parsed<u64> {
    match range_at(bytes, pos, 8) {
        Ok((field, next)) => Ok((u64_of(field), next)),
        Err(e) => Err(e),
    }
}

/// The error of the decoder for an error of the integer encoding.
pub open spec fn leb_error(e: Leb128Error) -> WasmParseError {
    match e {
        Leb128Error::InvalidEncoding => WasmParseError::InvalidLEB128Encoding,
        Leb128Error::IncompleteEncoding => WasmParseError::UnexpectedEndOfFile,
    }
}

/// The unsigned LEB128 integer at `pos`. A zero byte after the first is
/// refused.
pub open spec fn leb_u32_at(bytes: Seq<u8>, pos: int) -> Parsed<u32> {
    match decode_unsigned(bytes.subrange(pos, bytes.len() as int)) {
        Ok((value, used)) => Ok((value, pos + used)),
        Err((e, _)) => Err(leb_error(e)),
    }
}

/// The signed LEB128 integer at `pos`.
pub open spec fn leb_i32_at(bytes: Seq<u8>, pos: int) -> Parsed<i32> {
    match decode_signed(bytes.subrange(pos, bytes.len() as int)) {
        Ok((value, used)) => Ok((value, pos + used)),
        Err((e, _)) => Err(leb_error(e)),
    }
}

/// The signed LEB128 integer of at most 64 bits at `pos`.
pub open spec fn leb_i64_at(bytes: Seq<u8>, pos: int) -> Parsed<i64> {
    match decode_signed_64(bytes.subrange(pos, bytes.len() as int)) {
        Ok((value, used)) => Ok((value, pos + used)),
        Err((e, _)) => Err(leb_error(e)),
    }
}

/// The position that a seek by `offset` from `pos` leads to.
pub open spec fn sought(pos: int, offset: int) -> int {
    pos + offset
}

/// A cursor over bytes that are read in sequence.
pub struct ByteReader<'a> {
    data: &'a [u8],
    pos: usize,
}

impl<'a> ByteReader<'a> {
    #[verifier::type_invariant]
    closed spec fn in_bounds(self) -> bool {
        self.pos <= self.data@.len()
    }

    /// The bytes that are read.
    pub closed spec fn bytes(self) -> Seq<u8> {
        self.data@
    }

    /// The position of the byte that is read next.
    pub closed spec fn position(self) -> int {
        self.pos as int
    }

    fn length(&self) -> (r: usize)
        ensures
            r == self.bytes().len(),
    {
        self.data.len()
    }

    /// The position of the byte that is read next.
    pub fn pos(&self) -> (r: usize)
        ensures
            r == self.position(),
            r <= self.bytes().len(),
    {
        proof {
            use_type_invariant(self);
        }
        self.pos
    }

    /// A cursor at the first of the bytes `data`.
    pub fn new(data: &'a [u8]) -> (r: Self)
        ensures
            r.bytes() == data@,
            r.position() == 0,
    {
        ByteReader { data, pos: 0 }
    }

    /// Reads one byte.
    pub fn read_u8(&mut self) -> (r: Result<u8, WasmParseError>)
        ensures
            final(self).bytes() == old(self).bytes(),
            match r {
                Ok(v) => byte_at(old(self).bytes(), old(self).position()) == Ok::<
                    (u8, int),
                    WasmParseError,
                >((v, final(self).position())),
                Err(e) => byte_at(old(self).bytes(), old(self).position()) == Err::<
                    (u8, int),
                    WasmParseError,
                >(e) && final(self).position() == old(self).position(),
            },
    {
        proof {
            use_type_invariant(&*self);
        }
        if self.pos >= self.length() {
            return Err(WasmParseError::UnexpectedEndOfFile);
        }
        let res = self.data[self.pos];
        self.pos += 1;
        Ok(res)
    }

    /// Reads a little-endian 16-bit integer.
    pub fn read_u16(&mut self) -> (r: Result<u16, WasmParseError>)
        ensures
            final(self).bytes() == old(self).bytes(),
            match r {
                Ok(v) => u16_at(old(self).bytes(), old(self).position()) == Ok::<
                    (u16, int),
                    WasmParseError,
                >((v, final(self).position())),
                Err(e) => u16_at(old(self).bytes(), old(self).position()) == Err::<
                    (u16, int),
                    WasmParseError,
                >(e) && final(self).position() == old(self).position(),
            },
    {
        proof {
            use_type_invariant(&*self);
        }
        if self.length() - self.pos < 2 {
            return Err(WasmParseError::UnexpectedEndOfFile);
        }
        let res = read_u16_at(self.data, self.pos);
        self.pos += 2;
        Ok(res)
    }

    /// Reads a little-endian 32-bit integer.
    pub fn read_u32(&mut self) -> (r: Result<u32, WasmParseError>)
        ensures
            final(self).bytes() == old(self).bytes(),
            match r {
                Ok(v) => u32_at(old(self).bytes(), old(self).position()) == Ok::<
                    (u32, int),
                    WasmParseError,
                >((v, final(self).position())),
                Err(e) => u32_at(old(self).bytes(), old(self).position()) == Err::<
                    (u32, int),
                    WasmParseError,
                >(e) && final(self).position() == old(self).position(),
            },
    {
        proof {
            use_type_invariant(&*self);
        }
        if self.length() - self.pos < 4 {
            return Err(WasmParseError::UnexpectedEndOfFile);
        }
        let res = read_u32_at(self.data, self.pos);
        self.pos += 4;
        Ok(res)
    }

    /// Reads an unsigned LEB128 integer of at most 32 bits. After an error
    /// the cursor stands behind the bytes that were read.
    pub fn read_leb128_u32(&mut self) -> (r: Result<u32, WasmParseError>)
        ensures
            final(self).bytes() == old(self).bytes(),
            match r {
                Ok(v) => leb_u32_at(old(self).bytes(), old(self).position()) == Ok::<
                    (u32, int),
                    WasmParseError,
                >((v, final(self).position())),
                Err(e) => {
                    let rest = old(self).bytes().subrange(
                        old(self).position(),
                        old(self).bytes().len() as int,
                    );
                    &&& leb_u32_at(old(self).bytes(), old(self).position()) == Err::<
                        (u32, int),
                        WasmParseError,
                    >(e)
                    &&& decode_unsigned(rest) is Err
                    &&& final(self).position() == old(self).position() + decode_unsigned(
                        rest,
                    )->Err_0.1
                },
            },
    {
        proof {
            use_type_invariant(&*self);
        }
        let rest = slice_subrange(self.data, self.pos, self.length());
        match read_unsigned(rest) {
            Ok((value, used)) => {
                proof {
                    crate::leb128::lemma_unsigned_used(rest@);
                }
                self.pos += used;
                Ok(value)
            },
            Err((e, used)) => {
                proof {
                    crate::leb128::lemma_unsigned_used(rest@);
                }
                self.pos += used;
                match e {
                    Leb128Error::InvalidEncoding => Err(WasmParseError::InvalidLEB128Encoding),
                    Leb128Error::IncompleteEncoding => Err(WasmParseError::UnexpectedEndOfFile),
                }
            },
        }
    }

    /// Reads a signed LEB128 integer of at most 32 bits. After an error the
    /// cursor stands behind the bytes that were read.
    pub fn read_leb128_i32(&mut self) -> (r: Result<i32, WasmParseError>)
        ensures
            final(self).bytes() == old(self).bytes(),
            match r {
                Ok(v) => leb_i32_at(old(self).bytes(), old(self).position()) == Ok::<
                    (i32, int),
                    WasmParseError,
                >((v, final(self).position())),
                Err(e) => {
                    let rest = old(self).bytes().subrange(
                        old(self).position(),
                        old(self).bytes().len() as int,
                    );
                    &&& leb_i32_at(old(self).bytes(), old(self).position()) == Err::<
                        (i32, int),
                        WasmParseError,
                    >(e)
                    &&& decode_signed(rest) is Err
                    &&& final(self).position() == old(self).position() + decode_signed(rest)->Err_0.1
                },
            },
    {
        proof {
            use_type_invariant(&*self);
        }
        let rest = slice_subrange(self.data, self.pos, self.length());
        match read_signed(rest) {
            Ok((value, used)) => {
                proof {
                    crate::leb128::lemma_signed_used(rest@);
                }
                self.pos += used;
                Ok(value)
            },
            Err((e, used)) => {
                proof {
                    crate::leb128::lemma_signed_used(rest@);
                }
                self.pos += used;
                match e {
                    Leb128Error::InvalidEncoding => Err(WasmParseError::InvalidLEB128Encoding),
                    Leb128Error::IncompleteEncoding => Err(WasmParseError::UnexpectedEndOfFile),
                }
            },
        }
    }

    /// Reads a signed LEB128 integer of at most 64 bits. After an error the
    /// cursor stands behind the bytes that were read.
    pub fn read_leb128_i64(&mut self) -> (r: Result<i64, WasmParseError>)
        ensures
            final(self).bytes() == old(self).bytes(),
            match r {
                Ok(v) => leb_i64_at(old(self).bytes(), old(self).position()) == Ok::<
                    (i64, int),
                    WasmParseError,
                >((v, final(self).position())),
                Err(e) => {
                    let rest = old(self).bytes().subrange(
                        old(self).position(),
                        old(self).bytes().len() as int,
                    );
                    &&& leb_i64_at(old(self).bytes(), old(self).position()) == Err::<
                        (i64, int),
                        WasmParseError,
                    >(e)
                    &&& decode_signed_64(rest) is Err
                    &&& final(self).position() == old(self).position() + decode_signed_64(
                        rest,
                    )->Err_0.1
                },
            },
    {
        proof {
            use_type_invariant(&*self);
        }
        let rest = slice_subrange(self.data, self.pos, self.length());
        proof {
            crate::leb128::lemma_signed64_used(rest@);
        }
        match read_signed_64(rest) {
            Ok((value, used)) => {
                self.pos += used;
                Ok(value)
            },
            Err((e, used)) => {
                self.pos += used;
                match e {
                    Leb128Error::InvalidEncoding => Err(WasmParseError::InvalidLEB128Encoding),
                    Leb128Error::IncompleteEncoding => Err(WasmParseError::UnexpectedEndOfFile),
                }
            },
        }
    }

    /// Reads a little-endian 64-bit integer.
    pub fn read_u64(&mut self) -> (r: Result<u64, WasmParseError>)
        ensures
            final(self).bytes() == old(self).bytes(),
            match r {
                Ok(v) => u64_at(old(self).bytes(), old(self).position()) == Ok::<
                    (u64, int),
                    WasmParseError,
                >((v, final(self).position())),
                Err(e) => u64_at(old(self).bytes(), old(self).position()) == Err::<
                    (u64, int),
                    WasmParseError,
                >(e) && final(self).position() == old(self).position(),
            },
    {
        proof {
            use_type_invariant(&*self);
        }
        if self.length() - self.pos < 8 {
            return Err(WasmParseError::UnexpectedEndOfFile);
        }
        let res = read_u64_at(self.data, self.pos);
        self.pos += 8;
        Ok(res)
    }

    /// Reads `len` bytes.
    pub fn read_range(&mut self, len: usize) -> (r: Result<Vec<u8>, WasmParseError>)
        ensures
            final(self).bytes() == old(self).bytes(),
            match r {
                Ok(v) => range_at(old(self).bytes(), old(self).position(), len as int) == Ok::<
                    (Seq<u8>, int),
                    WasmParseError,
                >((v@, final(self).position())),
                Err(e) => range_at(old(self).bytes(), old(self).position(), len as int) == Err::<
                    (Seq<u8>, int),
                    WasmParseError,
                >(e) && final(self).position() == old(self).position(),
            },
    {
        proof {
            use_type_invariant(&*self);
        }
        if self.length() - self.pos < len {
            return Err(WasmParseError::UnexpectedEndOfFile);
        }
        let result = slice_to_vec(slice_subrange(self.data, self.pos, self.pos + len));
        self.pos += len;
        Ok(result)
    }

    /// Moves the cursor by `offset`, forwards or backwards. A move to
    /// before the first byte or to behind the end of the bytes fails and
    /// leaves the cursor where it was.
    pub fn seek(&mut self, offset: isize) -> (r: Result<usize, WasmParseError>)
        ensures
            final(self).bytes() == old(self).bytes(),
            match r {
                Ok(p) => {
                    &&& p == sought(old(self).position(), offset as int)
                    &&& p == final(self).position()
                    &&& 0 <= p <= old(self).bytes().len()
                },
                Err(e) => {
                    &&& e == WasmParseError::OutOfBounds
                    &&& final(self).position() == old(self).position()
                    &&& !(0 <= sought(old(self).position(), offset as int) <= old(
                        self,
                    ).bytes().len())
                },
            },
    {
        proof {
            use_type_invariant(&*self);
        }
        let limit = self.length();
        let target = if offset < 0 {
            let back: usize = if offset == isize::MIN {
                (isize::MAX as usize) + 1
            } else {
                (-offset) as usize
            };
            self.pos.checked_sub(back)
        } else {
            self.pos.checked_add(offset as usize)
        };
        match target {
            Some(new_pos) => {
                if new_pos > limit {
                    Err(WasmParseError::OutOfBounds)
                } else {
                    self.pos = new_pos;
                    Ok(new_pos)
                }
            },
            None => Err(WasmParseError::OutOfBounds),
        }
    }

    /// Whether every byte was read.
    pub fn eof(&self) -> (r: bool)
        ensures
            r == (self.position() >= self.bytes().len()),
    {
        self.pos >= self.length()
    }
}

} // verus!

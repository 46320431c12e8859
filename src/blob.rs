use vstd::prelude::*;

verus! {

/// Why a signature could not be decoded: the metadata is not shaped the way its producer writes it.
#[derive(Clone, Copy, PartialEq, Eq, Debug, Structural)]
pub enum DecodeError {
    /// The blob ended before the value being read.
    UnexpectedEnd,
    /// A compressed integer whose first byte starts with the bits `111`.
    InvalidInteger,
    /// A coded index that selects a table that cannot stand there, or a row past a table's end.
    InvalidIndex,
    /// An element-type code outside the supported signature shapes.
    UnknownCode,
    /// A generic variable past the end of the enclosing generic arguments.
    GenericOutOfRange,
    /// A type definition whose category cannot stand where it was found.
    InvalidCategory,
    /// Signatures nested deeper than `MAX_DEPTH`.
    TooDeep,
    /// The parameter count in a method blob differs from the number of parameter rows.
    ParamCountMismatch,
}

/// The compressed unsigned integer that starts at `pos`, with the position after it.
pub open spec fn compressed_at(data: Seq<u8>, pos: int) -> Result<(u32, int), DecodeError> {
    if pos < 0 || pos >= data.len() {
        Err(DecodeError::UnexpectedEnd)
    } else if data[pos] < 0x80 {
        Ok((data[pos] as u32, pos + 1))
    } else if data[pos] < 0xC0 {
        if pos + 2 > data.len() {
            Err(DecodeError::UnexpectedEnd)
        } else {
            Ok((((data[pos] - 0x80) * 0x100 + data[pos + 1]) as u32, pos + 2))
        }
    } else if data[pos] < 0xE0 {
        if pos + 4 > data.len() {
            Err(DecodeError::UnexpectedEnd)
        } else {
            Ok((
                ((data[pos] - 0xC0) * 0x100_0000 + data[pos + 1] * 0x1_0000 + data[pos + 2] * 0x100
                    + data[pos + 3]) as u32,
                pos + 4,
            ))
        }
    } else {
        Err(DecodeError::InvalidInteger)
    }
}

/// A read position within a signature blob.
#[derive(Debug)]
pub struct Blob {
    pub data: Vec<u8>,
    pub pos: usize,
}

impl Blob {
    pub fn new(data: Vec<u8>) -> (r: Blob)
        ensures
            r.data@ == data@,
            r.pos == 0,
    {
        Blob { data, pos: 0 }
    }

    /// Reads one compressed unsigned integer (one, two or four bytes) and moves past it.
    /// On failure the position is left where it was.
    pub fn read_unsigned(&mut self) -> (r: Result<u32, DecodeError>)
        ensures
            final(self).data@ == old(self).data@,
            match compressed_at(old(self).data@, old(self).pos as int) {
                Ok((v, p)) => r == Ok::<u32, DecodeError>(v) && final(self).pos == p,
                Err(e) => r == Err::<u32, DecodeError>(e) && final(self).pos == old(self).pos,
            },
    {
        let n = self.data.len();
        let pos = self.pos;
        if pos >= n {
            return Err(DecodeError::UnexpectedEnd);
        }
        let b0 = self.data[pos];
        if b0 < 0x80 {
            self.pos = pos + 1;
            Ok(b0 as u32)
        } else if b0 < 0xC0 {
            if n - pos < 2 {
                return Err(DecodeError::UnexpectedEnd);
            }
            let v = (b0 - 0x80) as u32 * 0x100 + self.data[pos + 1] as u32;
            self.pos = pos + 2;
            Ok(v)
        } else if b0 < 0xE0 {
            if n - pos < 4 {
                return Err(DecodeError::UnexpectedEnd);
            }
            let v = (b0 - 0xC0) as u32 * 0x100_0000 + self.data[pos + 1] as u32 * 0x1_0000
                + self.data[pos + 2] as u32 * 0x100 + self.data[pos + 3] as u32;
            self.pos = pos + 4;
            Ok(v)
        } else {
            Err(DecodeError::InvalidInteger)
        }
    }
}

} // verus!

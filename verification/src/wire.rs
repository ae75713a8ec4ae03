//! Reading from a byte buffer: the cursor that record decoders consume, and
//! the errors they report.

use vstd::prelude::*;

verus! {

/// The length that a record's payload is required to have.
#[derive(PartialEq, Eq, Structural, Debug, Copy, Clone)]
pub enum MandatedLength {
    /// The payload must be exactly this many bytes long.
    Exactly(u16),
}

/// Something that can go wrong while decoding a record.
#[derive(PartialEq, Eq, Structural, Debug, Copy, Clone)]
pub enum WireError {
    /// The buffer ended before a required field could be read.
    IO,
    /// The enclosing record states a payload length that this record type
    /// does not allow.
    WrongRecordLength { stated_length: u16, mandated_length: MandatedLength },
    /// The payload announces an encoding version newer than the supported one.
    WrongVersion { stated_version: u8, maximum_supported_version: u8 },
}

/// The unsigned 32-bit integer whose big-endian encoding is the first four
/// bytes of `bytes`.
pub open spec fn u32_from_be_bytes(bytes: Seq<u8>) -> u32
    recommends
        bytes.len() >= 4,
{
    (bytes[0] * 0x100_0000 + bytes[1] * 0x1_0000 + bytes[2] * 0x100 + bytes[3]) as u32
}

/// A reader over a borrowed byte buffer that remembers how far it has read.
///
/// Its view is the sequence of bytes that have not been read yet.
pub struct Cursor<'a> {
    bytes: &'a [u8],
    position: usize,
}

impl<'a> View for Cursor<'a> {
    type V = Seq<u8>;

    closed spec fn view(&self) -> Seq<u8> {
        self.bytes@.skip(self.position as int)
    }
}

impl<'a> Cursor<'a> {
    #[verifier::type_invariant]
    spec fn in_bounds(self) -> bool {
        self.position <= self.bytes@.len()
    }

    /// A cursor at the start of `bytes`.
    pub fn new(bytes: &'a [u8]) -> (c: Self)
        ensures
            c@ == bytes@,
    {
        Cursor { bytes, position: 0 }
    }

    /// The number of bytes that have not been read yet.
    pub fn remaining_len(&self) -> (n: usize)
        ensures
            n == self@.len(),
    {
        proof {
            use_type_invariant(self);
        }
        self.bytes.len() - self.position
    }

    /// Reads one byte. At the end of the buffer nothing is consumed and the
    /// read fails with [`WireError::IO`].
    pub fn read_u8(&mut self) -> (r: Result<u8, WireError>)
        ensures
            old(self)@.len() >= 1 ==> r == Ok::<u8, WireError>(old(self)@[0]) && final(self)@
                == old(self)@.skip(1),
            old(self)@.len() < 1 ==> r == Err::<u8, WireError>(WireError::IO) && final(self)@
                == old(self)@,
    {
        proof {
            use_type_invariant(&*self);
        }
        if self.bytes.len() - self.position < 1 {
            return Err(WireError::IO);
        }
        let byte = self.bytes[self.position];
        self.position = self.position + 1;
        Ok(byte)
    }

    /// Reads four bytes as a big-endian unsigned integer. With fewer than
    /// four bytes left nothing is consumed and the read fails with
    /// [`WireError::IO`].
    pub fn read_u32_be(&mut self) -> (r: Result<u32, WireError>)
        ensures
            old(self)@.len() >= 4 ==> r == Ok::<u32, WireError>(u32_from_be_bytes(old(self)@))
                && final(self)@ == old(self)@.skip(4),
            old(self)@.len() < 4 ==> r == Err::<u32, WireError>(WireError::IO) && final(self)@
                == old(self)@,
    {
        proof {
            use_type_invariant(&*self);
        }
        if self.bytes.len() - self.position < 4 {
            return Err(WireError::IO);
        }
        let b0: u32 = self.bytes[self.position] as u32;
        let b1: u32 = self.bytes[self.position + 1] as u32;
        let b2: u32 = self.bytes[self.position + 2] as u32;
        let b3: u32 = self.bytes[self.position + 3] as u32;
        self.position = self.position + 4;
        Ok(b0 * 0x100_0000 + b1 * 0x1_0000 + b2 * 0x100 + b3)
    }
}

} // verus!

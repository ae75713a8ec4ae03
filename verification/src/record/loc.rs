//! The **LOC** record: a location on Earth, given by latitude, longitude
//! and altitude, together with the size and precision of the entity there.
//!
//! # References
//!
//! - [RFC 1876](https://tools.ietf.org/html/rfc1876) — A Means for Expressing
//!   Location Information in the Domain Name System (January 1996)

use crate::decimal::{decimal, push_decimal, push_zero_padded3, zero_padded3};
use crate::wire::{u32_from_be_bytes, Cursor, MandatedLength, WireError};
use vstd::prelude::*;

verus! {

/// The encoded coordinate that stands for the equator or the prime meridian.
pub const ORIGIN: u32 = 0x8000_0000;

/// The number of bytes in the payload of a LOC record.
pub const PAYLOAD_LENGTH: u16 = 16;

/// One of the directions a position could be in, relative to the equator or
/// prime meridian.
#[derive(PartialEq, Eq, Structural, Debug, Copy, Clone)]
pub enum Direction {
    North,
    East,
    South,
    West,
}

/// A **LOC** _(location)_ record, which points to a location on Earth using
/// its latitude, longitude, and altitude.
#[derive(PartialEq, Eq, Structural, Debug, Copy, Clone)]
pub struct LOC {
    /// The diameter of a sphere enclosing the entity at the location, as a
    /// measure of its size, measured in centimetres.
    pub size: Size,
    /// The diameter of the “circle of error” that this location could be in,
    /// measured in centimetres.
    pub horizontal_precision: u8,
    /// The amount of vertical space that this location could be in, measured
    /// in centimetres.
    pub vertical_precision: u8,
    /// The latitude of the centre of the sphere.
    pub latitude: Position,
    /// The longitude of the centre of the sphere.
    pub longitude: Position,
    /// The altitude of the centre of the sphere, measured in centimetres
    /// above a base of 100,000 metres below the GPS reference spheroid.
    pub altitude: u32,
}

/// A measure of size, in centimetres, represented by a base and an exponent.
#[derive(PartialEq, Eq, Structural, Debug, Copy, Clone)]
pub struct Size {
    pub base: u8,
    pub power_of_ten: u8,
}

/// A position on one of the world’s axes.
#[derive(PartialEq, Eq, Structural, Debug, Copy, Clone)]
pub struct Position {
    pub degrees: u32,
    pub arcminutes: u32,
    pub arcseconds: u32,
    pub milliarcseconds: u32,
    pub direction: Direction,
}

impl LOC {
    /// The name of this record type.
    pub const NAME: &'static str = "LOC";

    /// The number that identifies this record type on the wire.
    pub const RR_TYPE: u16 = 29;

    /// Whether both sizes and positions are well-formed and each position
    /// lies on its own axis.
    pub open spec fn wf(self) -> bool {
        &&& self.size.wf()
        &&& self.latitude.wf()
        &&& self.longitude.wf()
        &&& (self.latitude.direction == Direction::North || self.latitude.direction
            == Direction::South)
        &&& (self.longitude.direction == Direction::East || self.longitude.direction
            == Direction::West)
    }

    /// The record that the sixteen bytes at the start of `bytes` encode.
    pub open spec fn spec_decode(bytes: Seq<u8>) -> LOC
        recommends
            bytes.len() >= 16,
    {
        LOC {
            size: Size::spec_from_u8(bytes[1]),
            horizontal_precision: bytes[2],
            vertical_precision: bytes[3],
            latitude: Position::spec_from_u32(u32_from_be_bytes(bytes.subrange(4, 8)), true),
            longitude: Position::spec_from_u32(u32_from_be_bytes(bytes.subrange(8, 12)), false),
            altitude: u32_from_be_bytes(bytes.subrange(12, 16)),
        }
    }

    /// The outcome of reading a record with the stated payload length from
    /// the unread bytes `bytes`. The version is judged before the stated
    /// length, and the stated length before the rest of the payload.
    pub open spec fn spec_read(stated_length: u16, bytes: Seq<u8>) -> Result<LOC, WireError> {
        if bytes.len() < 1 {
            Err(WireError::IO)
        } else if bytes[0] != 0 {
            Err(WireError::WrongVersion { stated_version: bytes[0], maximum_supported_version: 0 })
        } else if stated_length != PAYLOAD_LENGTH {
            Err(
                WireError::WrongRecordLength {
                    stated_length,
                    mandated_length: MandatedLength::Exactly(PAYLOAD_LENGTH),
                },
            )
        } else if bytes.len() < 16 {
            Err(WireError::IO)
        } else {
            Ok(Self::spec_decode(bytes))
        }
    }

    /// The number of bytes that reading a record consumes from the unread
    /// bytes `bytes`: every field that could be read whole, up to the first
    /// failure.
    pub open spec fn spec_read_len(stated_length: u16, bytes: Seq<u8>) -> nat {
        if bytes.len() < 1 {
            0
        } else if bytes[0] != 0 || stated_length != PAYLOAD_LENGTH {
            1
        } else if bytes.len() < 4 {
            bytes.len()
        } else if bytes.len() < 16 {
            (bytes.len() / 4 * 4) as nat
        } else {
            16
        }
    }

    /// Reads a record from the cursor. `stated_length` is the payload length
    /// that the enclosing record declares.
    pub fn read(stated_length: u16, c: &mut Cursor<'_>) -> (r: Result<LOC, WireError>)
        ensures
            r == Self::spec_read(stated_length, old(c)@),
            final(c)@ == old(c)@.skip(Self::spec_read_len(stated_length, old(c)@) as int),
            r is Ok <==> old(c)@.len() >= 16 && old(c)@[0] == 0 && stated_length == 16,
            r is Ok ==> r->Ok_0.wf(),
    {
        let version = c.read_u8()?;

        if version != 0 {
            return Err(
                WireError::WrongVersion { stated_version: version, maximum_supported_version: 0 },
            );
        }
        if stated_length != PAYLOAD_LENGTH {
            let mandated_length = MandatedLength::Exactly(PAYLOAD_LENGTH);
            return Err(WireError::WrongRecordLength { stated_length, mandated_length });
        }
        let size = Size::from_u8(c.read_u8()?);
        let horizontal_precision = c.read_u8()?;
        let vertical_precision = c.read_u8()?;
        let latitude = Position::from_u32(c.read_u32_be()?, true);
        let longitude = Position::from_u32(c.read_u32_be()?, false);
        let altitude = c.read_u32_be()?;

        Ok(LOC { size, horizontal_precision, vertical_precision, latitude, longitude, altitude })
    }

    /// Reading succeeds exactly where the payload announces version zero,
    /// the stated length is sixteen and sixteen bytes are left to read. Each
    /// error has its own inputs: a newer version wherever the first byte is
    /// not zero, whatever the stated length and however few bytes follow; a
    /// wrong length wherever the version is zero and the stated length is
    /// not sixteen, whatever follows; and an exhausted buffer otherwise.
    pub proof fn lemma_read_outcomes(stated_length: u16, bytes: Seq<u8>)
        ensures
            Self::spec_read(stated_length, bytes) is Ok <==> bytes.len() >= 16 && bytes[0] == 0
                && stated_length == 16,
            Self::spec_read(stated_length, bytes) is Ok ==> Self::spec_read(stated_length, bytes)
                == Ok::<LOC, WireError>(Self::spec_decode(bytes)),
            bytes.len() >= 1 && bytes[0] != 0 <==> Self::spec_read(stated_length, bytes) == Err::<
                LOC,
                WireError,
            >(WireError::WrongVersion { stated_version: bytes[0], maximum_supported_version: 0 }),
            bytes.len() >= 1 && bytes[0] == 0 && stated_length != 16 <==> Self::spec_read(
                stated_length,
                bytes,
            ) == Err::<LOC, WireError>(
                WireError::WrongRecordLength {
                    stated_length,
                    mandated_length: MandatedLength::Exactly(16),
                },
            ),
            bytes.len() == 0 || (bytes[0] == 0 && stated_length == 16 && bytes.len() < 16)
                <==> Self::spec_read(stated_length, bytes) == Err::<LOC, WireError>(WireError::IO),
    {
    }

    /// A record is decoded from the first sixteen unread bytes alone: what
    /// follows them changes neither the outcome nor how much is consumed.
    pub proof fn lemma_read_ignores_rest(stated_length: u16, a: Seq<u8>, b: Seq<u8>)
        requires
            a.len() >= 16,
            b.len() >= 16,
            a.subrange(0, 16) == b.subrange(0, 16),
        ensures
            Self::spec_read(stated_length, a) == Self::spec_read(stated_length, b),
            Self::spec_read_len(stated_length, a) == Self::spec_read_len(stated_length, b),
            Self::spec_read_len(stated_length, a) <= 16,
    {
        assert forall|i: int| 0 <= i < 16 implies a[i] == b[i] by {
            assert(a[i] == a.subrange(0, 16)[i]);
            assert(b[i] == b.subrange(0, 16)[i]);
        }
        assert(a.subrange(4, 8) =~= b.subrange(4, 8));
        assert(a.subrange(8, 12) =~= b.subrange(8, 12));
        assert(a.subrange(12, 16) =~= b.subrange(12, 16));
    }

    /// Every decoded record is well-formed.
    pub proof fn lemma_decode_wf(bytes: Seq<u8>)
        ensures
            Self::spec_decode(bytes).wf(),
    {
    }
}

impl Size {
    /// Whether base and exponent each fit in four bits.
    pub open spec fn wf(self) -> bool {
        self.base < 16 && self.power_of_ten < 16
    }

    /// The size that the byte `bits` encodes: the base in its high four
    /// bits, the exponent in its low four bits.
    pub open spec fn spec_from_u8(bits: u8) -> Size {
        Size { base: bits / 16, power_of_ten: bits % 16 }
    }

    /// Splits a byte into base and exponent. Neither is held to the range
    /// of a decimal digit.
    pub fn from_u8(bits: u8) -> (size: Self)
        ensures
            size == Self::spec_from_u8(bits),
            size.wf(),
    {
        let base = bits >> 4;
        let power_of_ten = bits & 0b_0000_1111;
        assert(bits >> 4 == bits / 16) by (bit_vector);
        assert(bits & 0b_0000_1111 == bits % 16) by (bit_vector);
        Size { base, power_of_ten }
    }

    /// The text of a size: base and exponent as they are, with an `e`
    /// between them.
    pub open spec fn text(self) -> Seq<char> {
        decimal(self.base as nat) + seq!['e'] + decimal(self.power_of_ten as nat)
    }

    /// Renders the size as text.
    pub fn to_string(&self) -> (s: String)
        ensures
            s@ == self.text(),
    {
        let mut s = String::new();
        push_decimal(&mut s, self.base as u32);
        s.append("e");
        push_decimal(&mut s, self.power_of_ten as u32);
        proof {
            reveal_strlit("e");
        }
        s
    }
}

impl Direction {
    /// The letter that names the direction.
    pub open spec fn letter(self) -> char {
        match self {
            Direction::North => 'N',
            Direction::East => 'E',
            Direction::South => 'S',
            Direction::West => 'W',
        }
    }

    /// The text of a direction: its letter alone.
    pub open spec fn text(self) -> Seq<char> {
        seq![self.letter()]
    }

    /// Renders the direction as text.
    pub fn to_string(&self) -> (s: String)
        ensures
            s@ == self.text(),
    {
        proof {
            reveal_strlit("N");
            reveal_strlit("E");
            reveal_strlit("S");
            reveal_strlit("W");
        }
        let letter: &str = match self {
            Direction::North => "N",
            Direction::East => "E",
            Direction::South => "S",
            Direction::West => "W",
        };
        String::from_str(letter)
    }

    /// The direction on the given axis that lies on the side of the
    /// origin where encoded coordinates are at least [`ORIGIN`], or on the
    /// other side.
    pub open spec fn of_axis(vertical: bool, at_or_above_origin: bool) -> Direction {
        if at_or_above_origin {
            if vertical {
                Direction::North
            } else {
                Direction::East
            }
        } else {
            if vertical {
                Direction::South
            } else {
                Direction::West
            }
        }
    }
}

impl Position {
    /// Whether every field smaller than the degree lies within its unit.
    pub open spec fn wf(self) -> bool {
        &&& self.arcminutes < 60
        &&& self.arcseconds < 60
        &&& self.milliarcseconds < 1000
    }

    /// The distance from the origin of the axis, in milliarcseconds.
    pub open spec fn offset(self) -> nat {
        (((self.degrees * 60 + self.arcminutes) * 60 + self.arcseconds) * 1000
            + self.milliarcseconds) as nat
    }

    /// The distance of the encoded coordinate `input` from [`ORIGIN`].
    pub open spec fn spec_offset_of(input: u32) -> nat {
        if input >= ORIGIN {
            (input - ORIGIN) as nat
        } else {
            (ORIGIN - input) as nat
        }
    }

    /// The position that the encoded coordinate `input` stands for.
    pub open spec fn spec_from_u32(input: u32, vertical: bool) -> Position {
        let offset = Self::spec_offset_of(input);
        Position {
            degrees: (offset / 3_600_000) as u32,
            arcminutes: (offset / 60_000 % 60) as u32,
            arcseconds: (offset / 1000 % 60) as u32,
            milliarcseconds: (offset % 1000) as u32,
            direction: Direction::of_axis(vertical, input >= ORIGIN),
        }
    }

    /// Converts a number into the position it represents. The input number is
    /// measured in thousandths of an arcsecond (milliarcseconds), with 2^31
    /// as the equator or prime meridian.
    pub fn from_u32(input: u32, vertical: bool) -> (pos: Self)
        ensures
            pos == Self::spec_from_u32(input, vertical),
            pos.wf(),
            pos.offset() == Self::spec_offset_of(input),
            vertical ==> (pos.direction == Direction::North <==> input >= ORIGIN),
            vertical ==> (pos.direction == Direction::South <==> input < ORIGIN),
            !vertical ==> (pos.direction == Direction::East <==> input >= ORIGIN),
            !vertical ==> (pos.direction == Direction::West <==> input < ORIGIN),
    {
        let offset: u32 = if input >= ORIGIN {
            input - ORIGIN
        } else {
            ORIGIN - input
        };
        let direction = if input >= ORIGIN {
            if vertical {
                Direction::North
            } else {
                Direction::East
            }
        } else {
            if vertical {
                Direction::South
            } else {
                Direction::West
            }
        };

        let milliarcseconds: u32 = offset % 1000;
        let total_arcseconds: u32 = offset / 1000;

        let arcseconds: u32 = total_arcseconds % 60;
        let total_arcminutes: u32 = total_arcseconds / 60;

        let arcminutes: u32 = total_arcminutes % 60;
        let degrees: u32 = total_arcminutes / 60;

        Position { degrees, arcminutes, arcseconds, milliarcseconds, direction }
    }

    /// The text of a position: degrees, arcminutes and arcseconds, each
    /// followed by its mark, then a space and the letter of the direction.
    /// Milliarcseconds stand as three decimals before the mark of the
    /// arcseconds, and are left out where they are zero.
    pub open spec fn text(self) -> Seq<char> {
        decimal(self.degrees as nat) + seq!['°'] + decimal(self.arcminutes as nat) + seq!['′']
            + decimal(self.arcseconds as nat) + (if self.milliarcseconds != 0 {
            seq!['.'] + zero_padded3(self.milliarcseconds as nat)
        } else {
            Seq::<char>::empty()
        }) + seq!['″', ' '] + self.direction.text()
    }

    /// Renders the position as text.
    pub fn to_string(&self) -> (s: String)
        ensures
            s@ == self.text(),
    {
        proof {
            reveal_strlit("°");
            reveal_strlit("′");
            reveal_strlit(".");
            reveal_strlit("″ ");
        }
        let mut s = String::new();
        push_decimal(&mut s, self.degrees);
        s.append("°");
        push_decimal(&mut s, self.arcminutes);
        s.append("′");
        push_decimal(&mut s, self.arcseconds);
        if self.milliarcseconds != 0 {
            s.append(".");
            push_zero_padded3(&mut s, self.milliarcseconds);
        }
        s.append("″ ");
        let letter = self.direction.to_string();
        s.append(letter.as_str());
        s
    }

    /// On either axis, an encoded coordinate stands for the direction of
    /// growing numbers exactly where it is at least [`ORIGIN`].
    pub proof fn lemma_hemisphere(input: u32, vertical: bool)
        ensures
            vertical ==> (Self::spec_from_u32(input, vertical).direction == Direction::North
                <==> input >= ORIGIN),
            vertical ==> (Self::spec_from_u32(input, vertical).direction == Direction::South
                <==> input < ORIGIN),
            !vertical ==> (Self::spec_from_u32(input, vertical).direction == Direction::East
                <==> input >= ORIGIN),
            !vertical ==> (Self::spec_from_u32(input, vertical).direction == Direction::West
                <==> input < ORIGIN),
    {
    }

    /// The position of an encoded coordinate is well-formed, lies no more
    /// than 596 degrees from the origin, and its fields add up to the
    /// distance of the coordinate from [`ORIGIN`].
    pub proof fn lemma_from_u32_offset(input: u32, vertical: bool)
        ensures
            Self::spec_from_u32(input, vertical).wf(),
            Self::spec_from_u32(input, vertical).degrees <= 596,
            Self::spec_from_u32(input, vertical).offset() == Self::spec_offset_of(input),
    {
    }

    /// Different encoded coordinates stand for different positions.
    pub proof fn lemma_from_u32_injective(a: u32, b: u32, vertical: bool)
        requires
            Self::spec_from_u32(a, vertical) == Self::spec_from_u32(b, vertical),
        ensures
            a == b,
    {
    }

    /// Two encoded coordinates at the same distance from [`ORIGIN`], one on
    /// each side, stand for positions that differ in direction alone.
    pub proof fn lemma_mirrored(distance: u32, vertical: bool)
        requires
            0 < distance < ORIGIN,
        ensures
            Self::spec_from_u32((ORIGIN - distance) as u32, vertical) == (Position {
                direction: Direction::of_axis(vertical, false),
                ..Self::spec_from_u32((ORIGIN + distance) as u32, vertical)
            }),
    {
    }
}

} // verus!

//! The eight bytes that open every savegame: a four-byte magic that names the
//! compression, then the format version and the flags, both big-endian.
use vstd::prelude::*;

use crate::endian::{be_uint, BigEndianReader};
use crate::error::CoreError;
use crate::text::{lossy_text, text_lossy};
use crate::types::CompressionType;

verus! {

/// The failures of parsing a file header.
#[derive(Debug)]
pub enum SavegameError {
    /// The header is cut short.
    Core(CoreError),
    /// The first four bytes name no known compression; the text is those
    /// bytes read as UTF-8, invalid sequences replaced.
    InvalidMagic(String),
}

impl CoreError {
    /// The message that describes this error.
    pub fn to_string(&self) -> (r: String)
        ensures
            r@ == self.message(),
    {
        match self {
            CoreError::UnexpectedEof => String::from_str("unexpected end of input"),
            CoreError::InvalidData(d) => {
                let mut s = String::from_str("invalid data: ");
                s.append(d.as_str());
                s
            },
        }
    }

    pub open spec fn message(&self) -> Seq<char> {
        match self {
            CoreError::UnexpectedEof => "unexpected end of input"@,
            CoreError::InvalidData(d) => "invalid data: "@ + d@,
        }
    }
}

impl SavegameError {
    /// The message that describes this error.
    pub fn to_string(&self) -> (r: String)
        ensures
            r@ == self.message(),
    {
        match self {
            SavegameError::Core(e) => {
                let mut s = String::from_str("core error: ");
                let inner = e.to_string();
                s.append(inner.as_str());
                s
            },
            SavegameError::InvalidMagic(m) => {
                let mut s = String::from_str("invalid magic: ");
                s.append(m.as_str());
                s
            },
        }
    }

    pub open spec fn message(&self) -> Seq<char> {
        match self {
            SavegameError::Core(e) => "core error: "@ + e.message(),
            SavegameError::InvalidMagic(m) => "invalid magic: "@ + m@,
        }
    }
}

/// The global file header.
#[derive(Debug, Clone, Copy, PartialEq, Eq, Structural)]
pub struct SavegameHeader {
    pub compression: CompressionType,
    pub version: u16,
    pub flags: u16,
}

/// The magic that names each compression: `OTTD`, `OTTN`, `OTTZ`, `OTTX`.
pub open spec fn magic_bytes(c: CompressionType) -> Seq<u8> {
    match c {
        CompressionType::Lzo => seq![0x4Fu8, 0x54, 0x54, 0x44],
        CompressionType::Uncompressed => seq![0x4Fu8, 0x54, 0x54, 0x4E],
        CompressionType::Zlib => seq![0x4Fu8, 0x54, 0x54, 0x5A],
        CompressionType::Lzma => seq![0x4Fu8, 0x54, 0x54, 0x58],
    }
}

/// The compression that the magic `m` names, if any.
pub open spec fn compression_for_magic(m: Seq<u8>) -> Option<CompressionType> {
    if m == magic_bytes(CompressionType::Lzo) {
        Some(CompressionType::Lzo)
    } else if m == magic_bytes(CompressionType::Uncompressed) {
        Some(CompressionType::Uncompressed)
    } else if m == magic_bytes(CompressionType::Zlib) {
        Some(CompressionType::Zlib)
    } else if m == magic_bytes(CompressionType::Lzma) {
        Some(CompressionType::Lzma)
    } else {
        None
    }
}

/// The two bytes of `v`, most significant first.
pub open spec fn u16_be(v: u16) -> Seq<u8> {
    seq![(v / 0x100) as u8, (v % 0x100) as u8]
}

/// The eight bytes that stand for `h` on disk.
pub open spec fn header_bytes(h: SavegameHeader) -> Seq<u8> {
    magic_bytes(h.compression) + u16_be(h.version) + u16_be(h.flags)
}

/// The header at the front of `b`, or `None` where `b` is too short or its
/// magic is unknown.
pub open spec fn header_parsed(b: Seq<u8>) -> Option<SavegameHeader> {
    if b.len() < 8 {
        None
    } else {
        match compression_for_magic(b.take(4)) {
            None => None,
            Some(c) => Some(
                SavegameHeader {
                    compression: c,
                    version: be_uint(b.subrange(4, 6)) as u16,
                    flags: be_uint(b.subrange(6, 8)) as u16,
                },
            ),
        }
    }
}

/// Parsing the bytes that a header is written as gives that header back.
pub proof fn lemma_header_round_trip(h: SavegameHeader)
    ensures
        header_parsed(header_bytes(h)) == Some(h),
{
    let b = header_bytes(h);
    assert(b.take(4) =~= magic_bytes(h.compression));
    assert(b.subrange(4, 6) =~= u16_be(h.version));
    assert(b.subrange(6, 8) =~= u16_be(h.flags));
    lemma_u16_be(h.version);
    lemma_u16_be(h.flags);
}

proof fn lemma_u16_be(v: u16)
    ensures
        be_uint(u16_be(v)) == v,
{
    let s = u16_be(v);
    assert(s.drop_last().drop_last() =~= Seq::<u8>::empty());
    reveal_with_fuel(be_uint, 3);
}

impl SavegameHeader {
    /// Reads the header at the front of `buf`.
    pub fn parse(buf: &[u8]) -> (r: Result<Self, SavegameError>)
        ensures
            r is Ok <==> header_parsed(buf@) is Some,
            r is Ok ==> r->Ok_0 == header_parsed(buf@)->0,
            buf@.len() >= 4 && compression_for_magic(buf@.take(4)) is None ==> r is Err
                && r->Err_0 is InvalidMagic && r->Err_0->InvalidMagic_0@ == lossy_text(
                buf@.take(4),
            ),
            buf@.len() < 4 || (buf@.len() < 8 && compression_for_magic(buf@.take(4)) is Some)
                ==> r is Err && r->Err_0 is Core && r->Err_0->Core_0 is UnexpectedEof,
    {
        let mut reader = BigEndianReader::new(buf);
        let magic = match reader.read_exact::<4>() {
            Ok(m) => m,
            Err(e) => return Err(SavegameError::Core(e)),
        };
        proof {
            assert(magic@ =~= buf@.take(4));
        }
        if magic[0] != 0x4F || magic[1] != 0x54 || magic[2] != 0x54 {
            return Err(SavegameError::InvalidMagic(text_lossy(&magic)));
        }
        let compression = if magic[3] == 0x44 {
            CompressionType::Lzo
        } else if magic[3] == 0x4E {
            CompressionType::Uncompressed
        } else if magic[3] == 0x5A {
            CompressionType::Zlib
        } else if magic[3] == 0x58 {
            CompressionType::Lzma
        } else {
            return Err(SavegameError::InvalidMagic(text_lossy(&magic)));
        };
        proof {
            assert(magic@ =~= magic_bytes(compression));
        }
        let version = match reader.read_u16() {
            Ok(v) => v,
            Err(e) => return Err(SavegameError::Core(e)),
        };
        let flags = match reader.read_u16() {
            Ok(v) => v,
            Err(e) => return Err(SavegameError::Core(e)),
        };
        Ok(SavegameHeader { compression, version, flags })
    }

    /// The eight bytes that stand for this header on disk.
    pub fn write(&self) -> (r: Vec<u8>)
        ensures
            r@ == header_bytes(*self),
    {
        let mut buf: Vec<u8> = Vec::with_capacity(8);
        buf.push(0x4F);
        buf.push(0x54);
        buf.push(0x54);
        let last: u8 = match self.compression {
            CompressionType::Lzo => 0x44,
            CompressionType::Uncompressed => 0x4E,
            CompressionType::Zlib => 0x5A,
            CompressionType::Lzma => 0x58,
        };
        buf.push(last);
        buf.push((self.version / 0x100) as u8);
        buf.push((self.version % 0x100) as u8);
        buf.push((self.flags / 0x100) as u8);
        buf.push((self.flags % 0x100) as u8);
        proof {
            assert(buf@ =~= header_bytes(*self));
        }
        buf
    }

    /// The size of the header on disk.
    pub fn size() -> (r: usize)
        ensures
            r == 8,
    {
        8
    }
}

} // verus!

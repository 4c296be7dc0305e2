//! The chunks of the decompressed stream: the five-byte chunk header and the
//! bodies of the five chunk encodings.
//!
//! Every encoding but RIFF is a run of records. Each record opens with the
//! gamma code of its size plus one, so that a code of zero can end the run;
//! the sparse encodings then give the record's index as a second gamma code,
//! while the others count records from zero.
use vstd::prelude::*;
use vstd::slice::{slice_subrange, slice_to_vec};

use crate::endian::{be_uint, BigEndianReader};
use crate::error::{CoreError, Fault};
use crate::gamma::{decode_gamma, gamma_decoded};
use crate::text::{ascii_chars, is_ascii_bytes, lossy_text, text_from_utf8, text_lossy, utf8_text};

verus! {

/// The encoding of a chunk body, held in the low four bits of its mode byte.
#[derive(Debug, Clone, Copy, PartialEq, Eq, Structural)]
pub enum ChunkType {
    /// One length-prefixed binary blob.
    Riff,
    /// Records with implicit indices (deprecated).
    Array,
    /// Records with explicit indices (deprecated).
    SparseArray,
    /// A field table, then records with implicit indices.
    Table,
    /// A field table, then records with explicit indices.
    SparseTable,
}

/// The chunk type that the low four bits of `b` name, if any.
pub open spec fn chunk_type_of(b: u8) -> Option<ChunkType> {
    let n = b % 16;
    if n == 0 {
        Some(ChunkType::Riff)
    } else if n == 1 {
        Some(ChunkType::Array)
    } else if n == 2 {
        Some(ChunkType::SparseArray)
    } else if n == 3 {
        Some(ChunkType::Table)
    } else if n == 4 {
        Some(ChunkType::SparseTable)
    } else {
        None
    }
}

impl ChunkType {
    /// The chunk type that the low four bits of `value` name, if any.
    pub fn from_mode_byte(value: u8) -> (r: Option<ChunkType>)
        ensures
            r == chunk_type_of(value),
    {
        let n = value % 16;
        if n == 0 {
            Some(ChunkType::Riff)
        } else if n == 1 {
            Some(ChunkType::Array)
        } else if n == 2 {
            Some(ChunkType::SparseArray)
        } else if n == 3 {
            Some(ChunkType::Table)
        } else if n == 4 {
            Some(ChunkType::SparseTable)
        } else {
            None
        }
    }
}

impl TryFrom<u8> for ChunkType {
    type Error = CoreError;

    fn try_from(value: u8) -> (r: Result<Self, Self::Error>)
        ensures
            r is Ok <==> chunk_type_of(value) is Some,
            r is Ok ==> r->Ok_0 == chunk_type_of(value)->0,
            r is Err ==> r->Err_0 is InvalidData,
    {
        match ChunkType::from_mode_byte(value) {
            Some(t) => Ok(t),
            None => Err(CoreError::InvalidData(String::from_str("Invalid chunk type"))),
        }
    }
}

impl vstd::std_specs::convert::TryFromSpecImpl<u8> for ChunkType {
    open spec fn obeys_try_from_spec() -> bool {
        false
    }

    open spec fn try_from_spec(v: u8) -> Result<Self, CoreError> {
        arbitrary()
    }
}

/// The five bytes that open a chunk: its tag and its mode byte.
#[derive(Debug, Clone, PartialEq, Eq)]
pub struct ChunkHeader {
    /// The chunk's name, four ASCII bytes; four zero bytes end the stream.
    pub tag: [u8; 4],
    pub chunk_type: ChunkType,
    /// The low four bits give the chunk type; the rest depend on it.
    pub mode_byte: u8,
}

/// The tag of four zero bytes that ends the chunk stream.
pub open spec fn is_end_tag(t: Seq<u8>) -> bool {
    t == seq![0u8, 0, 0, 0]
}

/// What a chunk header at the front of `b` says: its tag, its type and its
/// mode byte. The end marker reads as a RIFF chunk with mode byte zero.
pub open spec fn chunk_header_parsed(b: Seq<u8>) -> Result<(Seq<u8>, ChunkType, u8), Fault> {
    if b.len() < 5 {
        Err(Fault::Truncated)
    } else if is_end_tag(b.take(4)) {
        Ok((b.take(4), ChunkType::Riff, 0u8))
    } else {
        match chunk_type_of(b[4]) {
            None => Err(Fault::Malformed),
            Some(t) => Ok((b.take(4), t, b[4])),
        }
    }
}

impl ChunkHeader {
    /// Reads the chunk header at the front of `buf`; it always takes five
    /// bytes.
    pub fn parse(buf: &[u8]) -> (r: Result<(Self, usize), CoreError>)
        ensures
            match chunk_header_parsed(buf@) {
                Ok((tag, t, mode)) => r is Ok && r->Ok_0.0.tag@ == tag && r->Ok_0.0.chunk_type
                    == t && r->Ok_0.0.mode_byte == mode && r->Ok_0.1 == 5,
                Err(f) => r is Err && r->Err_0.fault() == f,
            },
    {
        if buf.len() < 5 {
            return Err(CoreError::UnexpectedEof);
        }
        let mut tag = [0u8; 4];
        tag[0] = buf[0];
        tag[1] = buf[1];
        tag[2] = buf[2];
        tag[3] = buf[3];
        proof {
            assert(tag@ =~= buf@.take(4));
        }
        if tag[0] == 0 && tag[1] == 0 && tag[2] == 0 && tag[3] == 0 {
            proof {
                assert(buf@.take(4) =~= seq![0u8, 0, 0, 0]);
            }
            return Ok((ChunkHeader { tag, chunk_type: ChunkType::Riff, mode_byte: 0 }, 5));
        }
        proof {
            assert(!is_end_tag(buf@.take(4))) by {
                if is_end_tag(buf@.take(4)) {
                    assert(tag@[0] == 0 && tag@[1] == 0 && tag@[2] == 0 && tag@[3] == 0);
                }
            }
        }
        let mode_byte = buf[4];
        match ChunkType::from_mode_byte(mode_byte) {
            Some(chunk_type) => Ok((ChunkHeader { tag, chunk_type, mode_byte }, 5)),
            None => Err(CoreError::InvalidData(String::from_str("Invalid chunk type"))),
        }
    }

    pub fn is_end_marker(&self) -> (r: bool)
        ensures
            r == is_end_tag(self.tag@),
    {
        let r = self.tag[0] == 0 && self.tag[1] == 0 && self.tag[2] == 0 && self.tag[3] == 0;
        proof {
            if r {
                assert(self.tag@ =~= seq![0u8, 0, 0, 0]);
            }
        }
        r
    }

    /// The tag as text, invalid UTF-8 replaced.
    pub fn tag_string(&self) -> (r: String)
        ensures
            r@ == lossy_text(self.tag@),
            is_ascii_bytes(self.tag@) ==> r@ == ascii_chars(self.tag@),
    {
        text_lossy(&self.tag)
    }
}

/// The type of one field of a table.
#[derive(Debug, Clone, Copy, PartialEq, Eq, Structural)]
pub enum DataType {
    I8,
    U8,
    I16,
    U16,
    I32,
    U32,
    I64,
    U64,
    StringId,
    String,
    Struct,
}

/// The data type that the low four bits of `b` name, if any (codes 1 to 11).
pub open spec fn data_type_of(b: u8) -> Option<DataType> {
    let n = b % 16;
    if n == 1 {
        Some(DataType::I8)
    } else if n == 2 {
        Some(DataType::U8)
    } else if n == 3 {
        Some(DataType::I16)
    } else if n == 4 {
        Some(DataType::U16)
    } else if n == 5 {
        Some(DataType::I32)
    } else if n == 6 {
        Some(DataType::U32)
    } else if n == 7 {
        Some(DataType::I64)
    } else if n == 8 {
        Some(DataType::U64)
    } else if n == 9 {
        Some(DataType::StringId)
    } else if n == 10 {
        Some(DataType::String)
    } else if n == 11 {
        Some(DataType::Struct)
    } else {
        None
    }
}

impl DataType {
    /// The data type that the low four bits of `value` name, if any.
    pub fn from_type_byte(value: u8) -> (r: Option<DataType>)
        ensures
            r == data_type_of(value),
    {
        let n = value % 16;
        if n == 1 {
            Some(DataType::I8)
        } else if n == 2 {
            Some(DataType::U8)
        } else if n == 3 {
            Some(DataType::I16)
        } else if n == 4 {
            Some(DataType::U16)
        } else if n == 5 {
            Some(DataType::I32)
        } else if n == 6 {
            Some(DataType::U32)
        } else if n == 7 {
            Some(DataType::I64)
        } else if n == 8 {
            Some(DataType::U64)
        } else if n == 9 {
            Some(DataType::StringId)
        } else if n == 10 {
            Some(DataType::String)
        } else if n == 11 {
            Some(DataType::Struct)
        } else {
            None
        }
    }
}

impl TryFrom<u8> for DataType {
    type Error = CoreError;

    fn try_from(value: u8) -> (r: Result<Self, Self::Error>)
        ensures
            r is Ok <==> data_type_of(value) is Some,
            r is Ok ==> r->Ok_0 == data_type_of(value)->0,
            r is Err ==> r->Err_0 is InvalidData,
    {
        match DataType::from_type_byte(value) {
            Some(t) => Ok(t),
            None => Err(CoreError::InvalidData(String::from_str("Invalid data type"))),
        }
    }
}

impl vstd::std_specs::convert::TryFromSpecImpl<u8> for DataType {
    open spec fn obeys_try_from_spec() -> bool {
        false
    }

    open spec fn try_from_spec(v: u8) -> Result<Self, CoreError> {
        arbitrary()
    }
}

/// One field of a table header.
#[derive(Debug, Clone)]
pub struct TableField {
    pub data_type: DataType,
    pub key: String,
    /// Set by the bit `0x10` of the type byte.
    pub is_list: bool,
}

/// The fields of a table, in the order that binds each record's payload.
#[derive(Debug, Clone)]
pub struct TableHeader {
    pub fields: Vec<TableField>,
}

/// A field as the contracts see it: its type, its key and its list flag.
pub type FieldModel = (DataType, Seq<char>, bool);

/// A record as the contracts see it: its index and its bytes.
pub type RecordModel = (usize, Seq<u8>);

pub open spec fn field_view(f: TableField) -> FieldModel {
    (f.data_type, f.key@, f.is_list)
}

pub open spec fn fields_view(fs: Seq<TableField>) -> Seq<FieldModel> {
    fs.map_values(|f: TableField| field_view(f))
}

pub open spec fn records_view(rs: Seq<(usize, Vec<u8>)>) -> Seq<RecordModel> {
    rs.map_values(|p: (usize, Vec<u8>)| (p.0, p.1@))
}

/// The field list of a table header, read from `pos` up to `end` in `b`: it
/// stops early at a zero type byte, which it takes. Gives the fields and the
/// position after them.
pub open spec fn fields_from(b: Seq<u8>, pos: nat, end: int) -> Result<
    (Seq<FieldModel>, nat),
    Fault,
>
    decreases b.len() - pos,
{
    if pos >= end {
        Ok((Seq::empty(), pos))
    } else if pos >= b.len() {
        Err(Fault::Truncated)
    } else if b[pos as int] == 0 {
        Ok((Seq::empty(), pos + 1))
    } else {
        let t = b[pos as int];
        match data_type_of(t) {
            None => Err(Fault::Malformed),
            Some(dt) => {
                let at1 = pos + 1;
                match gamma_decoded(b.skip(at1 as int)) {
                    Err(f) => Err(f),
                    Ok((kl, w)) => {
                        let at2 = at1 + w;
                        if at2 + kl > b.len() {
                            Err(Fault::Truncated)
                        } else {
                            match utf8_text(b.subrange(at2 as int, (at2 + kl) as int)) {
                                None => Err(Fault::Malformed),
                                Some(key) => match fields_from(b, at2 + kl, end) {
                                    Err(f) => Err(f),
                                    Ok((rest, e)) => Ok(
                                        (seq![(dt, key, (t / 16) % 2 == 1)] + rest, e),
                                    ),
                                },
                            }
                        }
                    },
                }
            },
        }
    }
}

/// The table header at the front of `b`: the gamma code of its size plus
/// one (zero is refused), then its fields. Gives the fields and the number
/// of bytes read.
pub open spec fn table_header_parsed(b: Seq<u8>) -> Result<(Seq<FieldModel>, nat), Fault> {
    match gamma_decoded(b) {
        Err(f) => Err(f),
        Ok((hs, w)) => if hs == 0 {
            Err(Fault::Malformed)
        } else {
            fields_from(b, w, w + hs - 1)
        },
    }
}

/// How the record loop advances its counter of implicit indices past one
/// record: sparse runs do not count; the others count every record, an empty
/// one included, once.
pub open spec fn next_implicit(next: usize, sparse: bool) -> usize {
    if sparse {
        next
    } else {
        next.wrapping_add(1)
    }
}

/// The index of a record whose index part starts at `pos`, and the position
/// after it: a gamma code in a sparse run, the counter `next` otherwise.
pub open spec fn record_index(b: Seq<u8>, pos: nat, sparse: bool, next: usize) -> Result<
    (usize, nat),
    Fault,
> {
    if sparse {
        match gamma_decoded(b.skip(pos as int)) {
            Err(f) => Err(f),
            Ok((i, w)) => Ok((i as usize, pos + w)),
        }
    } else {
        Ok((next, pos))
    }
}

/// The run of records that starts at `pos` in `b`, up to and including the
/// zero that ends it; `next` is the next implicit index. Gives the records of
/// non-zero size, in file order, and the position after the run.
pub open spec fn records_from(b: Seq<u8>, pos: nat, sparse: bool, next: usize) -> Result<
    (Seq<RecordModel>, nat),
    Fault,
>
    decreases b.len() - pos,
{
    if pos >= b.len() {
        Err(Fault::Truncated)
    } else {
        match gamma_decoded(b.skip(pos as int)) {
            Err(f) => Err(f),
            Ok((sp1, w)) => {
                let at1 = pos + w;
                if sp1 == 0 {
                    Ok((Seq::empty(), at1))
                } else {
                    let size = (sp1 - 1) as nat;
                    match record_index(b, at1, sparse, next) {
                        Err(f) => Err(f),
                        Ok((idx, at2)) => if at2 + size > b.len() {
                            Err(Fault::Truncated)
                        } else {
                            let at3 = at2 + size;
                            match records_from(
                                b,
                                at3,
                                sparse,
                                next_implicit(next, sparse),
                            ) {
                                Err(f) => Err(f),
                                Ok((rest, e)) => Ok(
                                    (
                                        if size > 0 {
                                            seq![(idx, b.subrange(at2 as int, at3 as int))] + rest
                                        } else {
                                            rest
                                        },
                                        e,
                                    ),
                                ),
                            }
                        },
                    }
                }
            },
        }
    }
}

/// Puts `items` in front of the records of a parse that went on from there.
pub open spec fn after_records(
    items: Seq<RecordModel>,
    r: Result<(Seq<RecordModel>, nat), Fault>,
) -> Result<(Seq<RecordModel>, nat), Fault> {
    match r {
        Ok((s, e)) => Ok((items + s, e)),
        Err(f) => Err(f),
    }
}

/// The body of a RIFF chunk whose mode byte is `mode`: a three-byte length,
/// whose bits 24 to 27 come from the high half of the mode byte, then that
/// many bytes. Gives the bytes and the number of bytes read.
pub open spec fn riff_parsed(mode: u8, b: Seq<u8>) -> Result<(Seq<u8>, nat), Fault> {
    if b.len() < 3 {
        Err(Fault::Truncated)
    } else {
        let len = be_uint(b.take(3)) + (mode / 16) as nat * 0x100_0000;
        if 3 + len > b.len() {
            Err(Fault::Truncated)
        } else {
            Ok((b.subrange(3, (3 + len) as int), (3 + len) as nat))
        }
    }
}

/// The body of a table chunk: its table header, then its run of records.
pub open spec fn table_parsed(b: Seq<u8>, sparse: bool) -> Result<
    (Seq<FieldModel>, Seq<RecordModel>, nat),
    Fault,
> {
    match table_header_parsed(b) {
        Err(f) => Err(f),
        Ok((fields, p)) => match records_from(b, p, sparse, 0) {
            Err(f) => Err(f),
            Ok((items, e)) => Ok((fields, items, e)),
        },
    }
}

pub(crate) proof fn lemma_records_step_bound(b: Seq<u8>, pos: nat, sparse: bool, next: usize)
    ensures
        records_from(b, pos, sparse, next) is Ok ==> pos < records_from(
            b,
            pos,
            sparse,
            next,
        )->Ok_0.1 <= b.len(),
    decreases b.len() - pos,
{
    if pos < b.len() {
        match gamma_decoded(b.skip(pos as int)) {
            Err(_) => {},
            Ok((sp1, w)) => {
                if sp1 != 0 {
                    let size = (sp1 - 1) as nat;
                    match record_index(b, pos + w, sparse, next) {
                        Err(_) => {},
                        Ok((idx, at2)) => {
                            if at2 + size <= b.len() {
                                lemma_records_step_bound(
                                    b,
                                    at2 + size,
                                    sparse,
                                    next_implicit(next, sparse),
                                );
                            }
                        },
                    }
                }
            },
        }
    }
}

/// The run of records from `start` in `buf`.
#[verifier::rlimit(40)]
fn parse_records(buf: &[u8], start: usize, sparse: bool) -> (r: Result<
    (Vec<(usize, Vec<u8>)>, usize),
    CoreError,
>)
    requires
        start <= buf@.len(),
    ensures
        match records_from(buf@, start as nat, sparse, 0) {
            Ok((items, end)) => r is Ok && records_view(r->Ok_0.0@) == items && r->Ok_0.1
                == end,
            Err(f) => r is Err && r->Err_0.fault() == f,
        },
{
    let mut offset = start;
    let mut items: Vec<(usize, Vec<u8>)> = Vec::new();
    let mut implicit_index: usize = 0;
    loop
        invariant
            start <= offset <= buf@.len(),
            records_from(buf@, start as nat, sparse, 0) == after_records(
                records_view(items@),
                records_from(buf@, offset as nat, sparse, implicit_index),
            ),
        decreases buf@.len() - offset,
    {
        let ghost before = records_from(buf@, offset as nat, sparse, implicit_index);
        let rest = slice_subrange(buf, offset, buf.len());
        let (size_plus_one, n1) = match decode_gamma(rest) {
            Ok(p) => p,
            Err(e) => return Err(e),
        };
        let offset1 = offset + n1;
        if size_plus_one == 0 {
            proof {
                assert(records_view(items@) + Seq::<RecordModel>::empty() =~= records_view(
                    items@,
                ));
            }
            return Ok((items, offset1));
        }
        let size = size_plus_one - 1;
        let index: usize = if sparse {
            proof {
                assert(buf@.subrange(offset1 as int, buf@.len() as int) =~= buf@.skip(
                    offset1 as int,
                ));
            }
            let (idx, n2) = match decode_gamma(slice_subrange(buf, offset1, buf.len())) {
                Ok(p) => p,
                Err(e) => return Err(e),
            };
            let ghost o1 = offset1;
            offset = offset1 + n2;
            proof {
                assert(record_index(buf@, o1 as nat, sparse, implicit_index) == Ok::<
                    (usize, nat),
                    Fault,
                >((idx as usize, offset as nat)));
            }
            idx as usize
        } else {
            offset = offset1;
            implicit_index
        };
        let remaining = buf.len() - offset;
        if (remaining as u64) < size {
            return Err(CoreError::UnexpectedEof);
        }
        let size = size as usize;
        let ghost items_before = records_view(items@);
        if size > 0 {
            let data = slice_to_vec(slice_subrange(buf, offset, offset + size));
            items.push((index, data));
            proof {
                assert(records_view(items@) =~= items_before.push(
                    (index, buf@.subrange(offset as int, offset + size)),
                ));
            }
        }
        let ghost old_next = implicit_index;
        if !sparse {
            implicit_index = implicit_index.wrapping_add(1);
        }
        offset = offset + size;
        proof {
            assert(implicit_index == next_implicit(old_next, sparse));
            let after = records_from(buf@, offset as nat, sparse, implicit_index);
            match after {
                Ok((s, e)) => {
                    if size > 0 {
                        assert(items_before + (seq![
                            (index, buf@.subrange(offset - size, offset as int)),
                        ] + s) =~= records_view(items@) + s);
                    }
                },
                Err(_) => {},
            }
        }
    }
}

impl TableHeader {
    /// Reads the table header at the front of `buf`: the gamma code of its
    /// size plus one, then fields until that size is used up or a zero type
    /// byte comes. Gives the header and the number of bytes read.
    pub fn parse(buf: &[u8]) -> (r: Result<(Self, usize), CoreError>)
        ensures
            match table_header_parsed(buf@) {
                Ok((fields, n)) => r is Ok && fields_view(r->Ok_0.0.fields@) == fields
                    && r->Ok_0.1 == n,
                Err(f) => r is Err && r->Err_0.fault() == f,
            },
    {
        let (header_size, n) = match decode_gamma(buf) {
            Ok(p) => p,
            Err(e) => return Err(e),
        };
        if header_size == 0 {
            return Err(CoreError::InvalidData(String::from_str("Table has no header")));
        }
        let start = n;
        let limit = header_size - 1;
        let ghost end: int = start + limit;
        let mut offset = start;
        let mut fields: Vec<TableField> = Vec::new();
        assert(table_header_parsed(buf@) == fields_from(buf@, start as nat, end));
        while ((offset - start) as u64) < limit
            invariant
                start <= offset <= buf@.len(),
                end == start + limit,
                table_header_parsed(buf@) == fields_from(buf@, start as nat, end),
                fields_from(buf@, start as nat, end) == after_fields(
                    fields_view(fields@),
                    fields_from(buf@, offset as nat, end),
                ),
            decreases buf@.len() - offset,
        {
            assert(offset < end);
            if offset >= buf.len() {
                assert(fields_from(buf@, offset as nat, end) == Err::<
                    (Seq<FieldModel>, nat),
                    Fault,
                >(Fault::Truncated));
                return Err(CoreError::UnexpectedEof);
            }
            let type_byte = buf[offset];
            if type_byte == 0 {
                proof {
                    assert(fields_from(buf@, offset as nat, end) == Ok::<
                        (Seq<FieldModel>, nat),
                        Fault,
                    >((Seq::empty(), (offset + 1) as nat)));
                    assert(fields_view(fields@) + Seq::<FieldModel>::empty() =~= fields_view(
                        fields@,
                    ));
                }
                return Ok((TableHeader { fields }, offset + 1));
            }
            let is_list = (type_byte / 16) % 2 == 1;
            let data_type = match DataType::from_type_byte(type_byte) {
                Some(t) => t,
                None => {
                    return Err(CoreError::InvalidData(String::from_str("Invalid data type")));
                },
            };
            let offset1 = offset + 1;
            proof {
                assert(buf@.subrange(offset1 as int, buf@.len() as int) =~= buf@.skip(
                    offset1 as int,
                ));
            }
            let (key_length, n1) = match decode_gamma(slice_subrange(buf, offset1, buf.len())) {
                Ok(p) => p,
                Err(e) => return Err(e),
            };
            let offset2 = offset1 + n1;
            if ((buf.len() - offset2) as u64) < key_length {
                return Err(CoreError::UnexpectedEof);
            }
            let kl = key_length as usize;
            let key_bytes = slice_to_vec(slice_subrange(buf, offset2, offset2 + kl));
            let key = match text_from_utf8(key_bytes) {
                Ok(k) => k,
                Err(msg) => return Err(CoreError::InvalidData(msg)),
            };
            let ghost before = fields_view(fields@);
            fields.push(TableField { data_type, key, is_list });
            offset = offset2 + kl;
            proof {
                let f = (data_type, key@, is_list);
                assert(fields_view(fields@) =~= before.push(f));
                match fields_from(buf@, offset as nat, end) {
                    Ok((s, e)) => {
                        assert(before + (seq![f] + s) =~= fields_view(fields@) + s);
                    },
                    Err(_) => {},
                }
            }
        }
        proof {
            assert(fields_view(fields@) + Seq::<FieldModel>::empty() =~= fields_view(fields@));
        }
        Ok((TableHeader { fields }, offset))
    }
}

/// Puts `items` in front of the fields of a parse that went on from there.
pub open spec fn after_fields(
    items: Seq<FieldModel>,
    r: Result<(Seq<FieldModel>, nat), Fault>,
) -> Result<(Seq<FieldModel>, nat), Fault> {
    match r {
        Ok((s, e)) => Ok((items + s, e)),
        Err(f) => Err(f),
    }
}

/// Reads the body of a RIFF chunk with the header `header`. Gives the blob
/// and the number of bytes read.
pub fn parse_riff_chunk(header: &ChunkHeader, buf: &[u8]) -> (r: Result<(Vec<u8>, usize), CoreError>)
    ensures
        match riff_parsed(header.mode_byte, buf@) {
            Ok((data, n)) => r is Ok && r->Ok_0.0@ == data && r->Ok_0.1 == n,
            Err(f) => r is Err && r->Err_0.fault() == f,
        },
{
    let mut reader = BigEndianReader::new(buf);
    let length_low = match reader.read_u24() {
        Ok(v) => v,
        Err(e) => return Err(e),
    };
    proof {
        assert(buf@.subrange(0, 3) =~= buf@.take(3));
    }
    let length = length_low as usize + (header.mode_byte / 16) as usize * 0x100_0000;
    if buf.len() - 3 < length {
        return Err(CoreError::UnexpectedEof);
    }
    let data = slice_to_vec(slice_subrange(buf, 3, 3 + length));
    Ok((data, 3 + length))
}

/// Reads the body of an Array or SparseArray chunk: explicit indices where
/// the header says SparseArray, else indices counted from zero, an empty
/// record taking its index without being listed. Gives the records of
/// non-zero size in file order and the number of bytes read.
pub fn parse_array_chunk(header: &ChunkHeader, buf: &[u8]) -> (r: Result<
    (Vec<(usize, Vec<u8>)>, usize),
    CoreError,
>)
    ensures
        match records_from(
            buf@,
            0,
            header.chunk_type == ChunkType::SparseArray,
            0,
        ) {
            Ok((items, n)) => r is Ok && records_view(r->Ok_0.0@) == items && r->Ok_0.1 == n,
            Err(f) => r is Err && r->Err_0.fault() == f,
        },
{
    parse_records(
        buf,
        0,
        header.chunk_type == ChunkType::SparseArray,
    )
}

/// Reads the body of a Table or SparseTable chunk: its table header, then
/// its records as `parse_array_chunk` reads them (explicit indices for
/// SparseTable, counted ones otherwise).
pub fn parse_table_chunk(header: &ChunkHeader, buf: &[u8]) -> (r: Result<
    (TableHeader, Vec<(usize, Vec<u8>)>, usize),
    CoreError,
>)
    ensures
        match table_parsed(
            buf@,
            header.chunk_type == ChunkType::SparseTable,
        ) {
            Ok((fields, items, n)) => r is Ok && fields_view(r->Ok_0.0.fields@) == fields
                && records_view(r->Ok_0.1@) == items && r->Ok_0.2 == n,
            Err(f) => r is Err && r->Err_0.fault() == f,
        },
{
    let (table_header, n) = match TableHeader::parse(buf) {
        Ok(p) => p,
        Err(e) => return Err(e),
    };
    proof {
        lemma_table_header_bound(buf@);
    }
    match parse_records(
        buf,
        n,
        header.chunk_type == ChunkType::SparseTable,
    ) {
        Ok((items, end)) => Ok((table_header, items, end)),
        Err(e) => Err(e),
    }
}

proof fn lemma_fields_bound(b: Seq<u8>, pos: nat, end: int)
    requires
        pos <= b.len(),
    ensures
        fields_from(b, pos, end) is Ok ==> fields_from(b, pos, end)->Ok_0.1 <= b.len(),
    decreases b.len() - pos,
{
    if pos < end && pos < b.len() && b[pos as int] != 0 {
        let t = b[pos as int];
        if let Some(dt) = data_type_of(t) {
            let at1 = pos + 1;
            if let Ok((kl, w)) = gamma_decoded(b.skip(at1 as int)) {
                let at2 = at1 + w;
                if at2 + kl <= b.len() {
                    lemma_fields_bound(b, at2 + kl, end);
                }
            }
        }
    }
}

pub(crate) proof fn lemma_table_header_bound(b: Seq<u8>)
    ensures
        table_header_parsed(b) is Ok ==> table_header_parsed(b)->Ok_0.1 <= b.len(),
{
    if let Ok((hs, w)) = gamma_decoded(b) {
        if hs != 0 {
            lemma_fields_bound(b, w, w + hs - 1);
        }
    }
}

} // verus!

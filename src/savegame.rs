//! Whole savegames: the reader that strips the header and the compression and
//! walks the chunk stream, and the writer that builds a file of RIFF chunks.
use vstd::prelude::*;
use vstd::slice::{slice_subrange, slice_to_vec};

use crate::chunk::{
    chunk_header_parsed, fields_view, is_end_tag, lemma_records_step_bound,
    lemma_table_header_bound, parse_array_chunk, parse_riff_chunk, parse_table_chunk,
    records_from, records_view, riff_parsed, table_parsed, ChunkHeader, ChunkType,
    FieldModel, RecordModel, TableHeader,
};
use crate::compression::{
    contains_ff_run, has_ff_run, xz_compress, xz_decompress, xz_deflated, xz_inflated, zlib_compress, zlib_decompress,
    zlib_deflated, zlib_inflated,
};
use crate::error::{CoreError, Fault};
use crate::header;
use crate::header::{
    compression_for_magic, header_bytes, header_parsed, lemma_header_round_trip, SavegameHeader,
};
use crate::text::lossy_text;
use crate::types::CompressionType;

verus! {

/// The failures of reading or writing a savegame.
#[derive(Debug)]
pub enum SavegameError {
    /// A chunk is cut short or malformed.
    Core(CoreError),
    /// The file header is cut short or its magic is unknown.
    Header(header::SavegameError),
    /// zlib or the XZ compressor failed.
    Io(std::io::Error),
    /// The XZ container could not be unpacked.
    Lzma(lzma_rs::error::Error),
    /// The XZ container holds four `0xFF` bytes in a row, which the XZ
    /// decoder may take for a footer size that it cannot handle; it is
    /// refused before decoding.
    UnreadableXz,
    /// The compression is known but not supported (LZO).
    UnsupportedCompression(CompressionType),
    /// The savegame cannot be laid out: a RIFF chunk of 2^28 bytes or more.
    InvalidFormat,
}

/// A parsed chunk.
#[derive(Debug)]
pub struct Chunk {
    /// The tag as text, invalid UTF-8 replaced.
    pub tag: String,
    pub chunk_type: ChunkType,
    pub data: ChunkData,
}

/// The body of a chunk.
#[derive(Debug)]
pub enum ChunkData {
    /// The blob of a RIFF chunk.
    Riff(Vec<u8>),
    /// The records of an Array or SparseArray chunk: index and bytes.
    Array(Vec<(usize, Vec<u8>)>),
    /// The table header and the records of a Table or SparseTable chunk.
    Table { header: TableHeader, records: Vec<(usize, Vec<u8>)> },
}

/// A chunk body as the contracts see it.
pub enum ContentModel {
    Riff(Seq<u8>),
    Array(Seq<RecordModel>),
    Table(Seq<FieldModel>, Seq<RecordModel>),
}

/// A chunk as the contracts see it.
pub struct ChunkModel {
    pub tag: Seq<char>,
    pub chunk_type: ChunkType,
    pub content: ContentModel,
}

pub open spec fn content_view(d: ChunkData) -> ContentModel {
    match d {
        ChunkData::Riff(b) => ContentModel::Riff(b@),
        ChunkData::Array(items) => ContentModel::Array(records_view(items@)),
        ChunkData::Table { header, records } => ContentModel::Table(
            fields_view(header.fields@),
            records_view(records@),
        ),
    }
}

pub open spec fn chunk_view(c: Chunk) -> ChunkModel {
    ChunkModel { tag: c.tag@, chunk_type: c.chunk_type, content: content_view(c.data) }
}

pub open spec fn chunks_view(cs: Seq<Chunk>) -> Seq<ChunkModel> {
    cs.map_values(|c: Chunk| chunk_view(c))
}

/// The body of a chunk of type `t` with mode byte `mode`, at the front of
/// `b`, and the number of bytes it takes.
#[verifier::opaque]
pub open spec fn body_parsed(t: ChunkType, mode: u8, b: Seq<u8>) -> Result<
    (ContentModel, nat),
    Fault,
> {
    match t {
        ChunkType::Riff => match riff_parsed(mode, b) {
            Err(f) => Err(f),
            Ok((d, n)) => Ok((ContentModel::Riff(d), n)),
        },
        ChunkType::Array | ChunkType::SparseArray => match records_from(
            b,
            0,
            t == ChunkType::SparseArray,
            0,
        ) {
            Err(f) => Err(f),
            Ok((items, n)) => Ok((ContentModel::Array(items), n)),
        },
        _ => match table_parsed(b, t == ChunkType::SparseTable) {
            Err(f) => Err(f),
            Ok((fields, items, n)) => Ok((ContentModel::Table(fields, items), n)),
        },
    }
}

/// The chunks of the decompressed stream `b`, in file order. The stream ends
/// at the end marker, or quietly where fewer than five bytes are left.
#[verifier::opaque]
pub open spec fn chunks_of(b: Seq<u8>) -> Result<Seq<ChunkModel>, Fault>
    decreases b.len(),
{
    if b.len() < 5 {
        Ok(Seq::empty())
    } else {
        match chunk_header_parsed(b) {
            Err(f) => Err(f),
            Ok((tag, t, mode)) => if is_end_tag(tag) {
                Ok(Seq::empty())
            } else {
                match body_parsed(t, mode, b.skip(5)) {
                    Err(f) => Err(f),
                    Ok((content, n)) => if 5 + n > b.len() {
                        Err(Fault::Truncated)
                    } else {
                        match chunks_of(b.skip((5 + n) as int)) {
                            Err(f) => Err(f),
                            Ok(rest) => Ok(
                                seq![
                                    ChunkModel {
                                        tag: lossy_text(tag),
                                        chunk_type: t,
                                        content,
                                    },
                                ] + rest,
                            ),
                        }
                    },
                }
            },
        }
    }
}

proof fn lemma_body_bound(t: ChunkType, mode: u8, b: Seq<u8>)
    ensures
        body_parsed(t, mode, b) is Ok ==> body_parsed(t, mode, b)->Ok_0.1 <= b.len(),
{
    reveal(body_parsed);
    match t {
        ChunkType::Riff => {},
        ChunkType::Array | ChunkType::SparseArray => {
            lemma_records_step_bound(b, 0, t == ChunkType::SparseArray, 0);
        },
        _ => {
            lemma_table_header_bound(b);
            if let Ok((_, p)) = crate::chunk::table_header_parsed(b) {
                lemma_records_step_bound(
                    b,
                    p,
                    t == ChunkType::SparseTable,
                    0,
                );
            }
        },
    }
}

/// The five zero bytes that end the chunk stream.
pub open spec fn end_marker() -> Seq<u8> {
    seq![0u8, 0, 0, 0, 0]
}

/// The mode byte of a RIFF chunk of `len` bytes (below 2^28): type RIFF in
/// the low four bits, bits 24 to 27 of the length in the high four.
pub open spec fn riff_mode(len: nat) -> u8 {
    ((len / 0x100_0000) * 16) as u8
}

/// The bytes of a RIFF chunk with tag `tag` and body `data`.
pub open spec fn riff_chunk_bytes(tag: Seq<u8>, data: Seq<u8>) -> Seq<u8> {
    let len = data.len();
    tag + seq![
        riff_mode(len),
        (len / 0x1_0000 % 0x100) as u8,
        (len / 0x100 % 0x100) as u8,
        (len % 0x100) as u8,
    ] + data
}

/// The chunk stream of the RIFF chunks with tags `tags` and bodies `datas`,
/// in that order, without the end marker.
pub open spec fn riff_stream(tags: Seq<Seq<u8>>, datas: Seq<Seq<u8>>) -> Seq<u8>
    decreases tags.len(),
{
    if tags.len() == 0 || datas.len() == 0 {
        Seq::empty()
    } else {
        riff_chunk_bytes(tags[0], datas[0]) + riff_stream(tags.drop_first(), datas.drop_first())
    }
}

/// The chunks that reading back `riff_stream(tags, datas)` gives.
pub open spec fn riff_models(tags: Seq<Seq<u8>>, datas: Seq<Seq<u8>>) -> Seq<ChunkModel>
    decreases tags.len(),
{
    if tags.len() == 0 || datas.len() == 0 {
        Seq::empty()
    } else {
        seq![
            ChunkModel {
                tag: lossy_text(tags[0]),
                chunk_type: ChunkType::Riff,
                content: ContentModel::Riff(datas[0]),
            },
        ] + riff_models(tags.drop_first(), datas.drop_first())
    }
}

/// What a RIFF chunk may hold: a four-byte tag that is not the end marker,
/// and fewer than 2^28 bytes.
pub open spec fn riff_chunk_ok(tag: Seq<u8>, data: Seq<u8>) -> bool {
    tag.len() == 4 && !is_end_tag(tag) && data.len() < 0x1000_0000
}

/// Reading back a stream of RIFF chunks followed by the end marker gives
/// those chunks, with their tags, types and bodies, in the order in which
/// they were written.
pub proof fn lemma_riff_stream_round_trip(tags: Seq<Seq<u8>>, datas: Seq<Seq<u8>>)
    requires
        tags.len() == datas.len(),
        forall|i: int| 0 <= i < tags.len() ==> riff_chunk_ok(#[trigger] tags[i], datas[i]),
    ensures
        chunks_of(riff_stream(tags, datas) + end_marker()) == Ok::<Seq<ChunkModel>, Fault>(
            riff_models(tags, datas),
        ),
    decreases tags.len(),
{
    let s = riff_stream(tags, datas) + end_marker();
    if tags.len() == 0 {
        assert(s =~= end_marker());
        assert(s.take(4) =~= seq![0u8, 0, 0, 0]);
        lemma_chunks_stop(s);
    } else {
        let rest = riff_stream(tags.drop_first(), datas.drop_first()) + end_marker();
        assert(s =~= riff_chunk_bytes(tags[0], datas[0]) + rest);
        assert(riff_chunk_ok(tags[0], datas[0]));
        lemma_riff_chunk_read(tags[0], datas[0], rest);
        assert forall|i: int| 0 <= i < tags.drop_first().len() implies riff_chunk_ok(
            #[trigger] tags.drop_first()[i],
            datas.drop_first()[i],
        ) by {
            assert(riff_chunk_ok(tags[i + 1], datas[i + 1]));
        }
        lemma_riff_stream_round_trip(tags.drop_first(), datas.drop_first());
    }
}

/// One step of `chunks_of`: a chunk that is not the end marker, then the rest.
proof fn lemma_chunks_step(b: Seq<u8>, tag: Seq<u8>, t: ChunkType, mode: u8, content: ContentModel, n: nat)
    requires
        b.len() >= 5,
        chunk_header_parsed(b) == Ok::<(Seq<u8>, ChunkType, u8), Fault>((tag, t, mode)),
        !is_end_tag(tag),
        body_parsed(t, mode, b.skip(5)) == Ok::<(ContentModel, nat), Fault>((content, n)),
        5 + n <= b.len(),
    ensures
        chunks_of(b) == after_chunks(
            seq![ChunkModel { tag: lossy_text(tag), chunk_type: t, content }],
            chunks_of(b.skip((5 + n) as int)),
        ),
{
    reveal(chunks_of);
}

/// Where `chunks_of` stops: fewer than five bytes, or the end marker.
proof fn lemma_chunks_stop(b: Seq<u8>)
    requires
        b.len() < 5 || (chunk_header_parsed(b) is Ok && is_end_tag(chunk_header_parsed(b)->Ok_0.0)),
    ensures
        chunks_of(b) == Ok::<Seq<ChunkModel>, Fault>(Seq::empty()),
{
    reveal(chunks_of);
}

/// Where `chunks_of` fails: a bad chunk header, or a bad body.
proof fn lemma_chunks_fail(b: Seq<u8>)
    requires
        b.len() >= 5,
    ensures
        chunk_header_parsed(b) is Err ==> chunks_of(b) == Err::<Seq<ChunkModel>, Fault>(
            chunk_header_parsed(b)->Err_0,
        ),
        chunk_header_parsed(b) is Ok && !is_end_tag(chunk_header_parsed(b)->Ok_0.0) && body_parsed(
            chunk_header_parsed(b)->Ok_0.1,
            chunk_header_parsed(b)->Ok_0.2,
            b.skip(5),
        ) is Err ==> chunks_of(b) == Err::<Seq<ChunkModel>, Fault>(
            body_parsed(
                chunk_header_parsed(b)->Ok_0.1,
                chunk_header_parsed(b)->Ok_0.2,
                b.skip(5),
            )->Err_0,
        ),
{
    reveal(chunks_of);
}

/// Reading back one RIFF chunk in front of `rest` gives that chunk, then
/// what `rest` reads as.
proof fn lemma_riff_chunk_read(tag: Seq<u8>, data: Seq<u8>, rest: Seq<u8>)
    requires
        riff_chunk_ok(tag, data),
    ensures
        chunks_of(riff_chunk_bytes(tag, data) + rest) == after_chunks(
            seq![
                ChunkModel {
                    tag: lossy_text(tag),
                    chunk_type: ChunkType::Riff,
                    content: ContentModel::Riff(data),
                },
            ],
            chunks_of(rest),
        ),
{
    let s = riff_chunk_bytes(tag, data) + rest;
    let len = data.len();
    assert(s.take(4) =~= tag);
    assert(s[4] == riff_mode(len));
    assert(riff_mode(len) % 16 == 0 && riff_mode(len) / 16 == len / 0x100_0000) by {
        assert((len / 0x100_0000) < 16);
    }
    assert(chunk_header_parsed(s) == Ok::<(Seq<u8>, ChunkType, u8), Fault>(
        (tag, ChunkType::Riff, riff_mode(len)),
    ));
    let b = s.skip(5);
    assert(b.take(3) =~= seq![
        (len / 0x1_0000 % 0x100) as u8,
        (len / 0x100 % 0x100) as u8,
        (len % 0x100) as u8,
    ]);
    lemma_len24(len);
    assert(len % 0x100_0000 + (len / 0x100_0000) * 0x100_0000 == len) by (nonlinear_arith);
    assert(b.subrange(3, (3 + len) as int) =~= data);
    assert(riff_parsed(riff_mode(len), b) == Ok::<(Seq<u8>, nat), Fault>((data, (3 + len) as nat)));
    assert(s.skip((5 + 3 + len) as int) =~= rest);
    reveal(body_parsed);
    lemma_chunks_step(s, tag, ChunkType::Riff, riff_mode(len), ContentModel::Riff(data), (3 + len) as nat);
}

/// The low 24 bits of `len`, as the three length bytes of a RIFF chunk spell
/// them.
spec fn be_len(len: nat) -> nat {
    crate::endian::be_uint(
        seq![(len / 0x1_0000 % 0x100) as u8, (len / 0x100 % 0x100) as u8, (len % 0x100) as u8],
    )
}

proof fn lemma_len24(len: nat)
    ensures
        be_len(len) == len % 0x100_0000,
{
    let s = seq![(len / 0x1_0000 % 0x100) as u8, (len / 0x100 % 0x100) as u8, (len % 0x100) as u8];
    assert(s.drop_last() =~= seq![(len / 0x1_0000 % 0x100) as u8, (len / 0x100 % 0x100) as u8]);
    assert(s.drop_last().drop_last() =~= seq![(len / 0x1_0000 % 0x100) as u8]);
    assert(s.drop_last().drop_last().drop_last() =~= Seq::<u8>::empty());
    reveal_with_fuel(crate::endian::be_uint, 4);
    assert(((len / 0x1_0000 % 0x100) * 0x100 + len / 0x100 % 0x100) * 0x100 + len % 0x100 == len
        % 0x100_0000) by (nonlinear_arith);
}

/// A file written without compression reads back as the header it was
/// written with and the RIFF chunks it holds, in order.
pub proof fn lemma_file_round_trip(h: SavegameHeader, tags: Seq<Seq<u8>>, datas: Seq<Seq<u8>>)
    requires
        h.compression == CompressionType::Uncompressed,
        tags.len() == datas.len(),
        forall|i: int| 0 <= i < tags.len() ==> riff_chunk_ok(#[trigger] tags[i], datas[i]),
    ensures
        ({
            let file = header_bytes(h) + (riff_stream(tags, datas) + end_marker());
            &&& header_parsed(file) == Some(h)
            &&& chunks_of(file.skip(8)) == Ok::<Seq<ChunkModel>, Fault>(riff_models(tags, datas))
        }),
{
    let s = riff_stream(tags, datas) + end_marker();
    let file = header_bytes(h) + s;
    lemma_header_round_trip(h);
    assert(file.take(4) =~= header_bytes(h).take(4));
    assert(file.subrange(4, 6) =~= header_bytes(h).subrange(4, 6));
    assert(file.subrange(6, 8) =~= header_bytes(h).subrange(6, 8));
    assert(file.skip(8) =~= s);
    lemma_riff_stream_round_trip(tags, datas);
}

/// Reads the body of a chunk with the header `header` at the front of `buf`,
/// by the parser of its chunk type.
fn parse_body(header: &ChunkHeader, buf: &[u8]) -> (r: Result<(ChunkData, usize), CoreError>)
    ensures
        match body_parsed(header.chunk_type, header.mode_byte, buf@) {
            Ok((c, n)) => r is Ok && content_view(r->Ok_0.0) == c && r->Ok_0.1 == n,
            Err(f) => r is Err && r->Err_0.fault() == f,
        },
{
    proof {
        reveal(body_parsed);
    }
    match header.chunk_type {
        ChunkType::Riff => match parse_riff_chunk(header, buf) {
            Ok((d, k)) => Ok((ChunkData::Riff(d), k)),
            Err(e) => Err(e),
        },
        ChunkType::Array | ChunkType::SparseArray => match parse_array_chunk(header, buf) {
            Ok((items, k)) => Ok((ChunkData::Array(items), k)),
            Err(e) => Err(e),
        },
        ChunkType::Table | ChunkType::SparseTable => match parse_table_chunk(header, buf) {
            Ok((table_header, records, k)) => Ok(
                (ChunkData::Table { header: table_header, records }, k),
            ),
            Err(e) => Err(e),
        },
    }
}

/// Reads a whole savegame held in memory.
pub struct SavegameReader {
    header: SavegameHeader,
    decompressed_data: Vec<u8>,
}

impl SavegameReader {
    /// The file header.
    pub closed spec fn file_header(&self) -> SavegameHeader {
        self.header
    }

    /// The chunk stream, decompressed.
    pub closed spec fn payload(&self) -> Seq<u8> {
        self.decompressed_data@
    }

    /// Parses the header of `data` and decompresses the rest at once.
    pub fn new(data: &[u8]) -> (r: Result<Self, SavegameError>)
        ensures
            header_parsed(data@) is None ==> r is Err && r->Err_0 is Header,
            data@.len() >= 4 && compression_for_magic(data@.take(4)) is None ==> r is Err
                && r->Err_0 is Header && r->Err_0->Header_0 is InvalidMagic
                && r->Err_0->Header_0->InvalidMagic_0@ == lossy_text(data@.take(4)),
            data@.len() < 4 || (data@.len() < 8 && compression_for_magic(data@.take(4)) is Some)
                ==> r is Err && r->Err_0 is Header && r->Err_0->Header_0 is Core
                && r->Err_0->Header_0->Core_0 is UnexpectedEof,
            header_parsed(data@) is Some ==> {
                let h = header_parsed(data@)->0;
                let body = data@.skip(8);
                &&& r is Ok ==> r->Ok_0.file_header() == h
                &&& match h.compression {
                    CompressionType::Uncompressed => r is Ok && r->Ok_0.payload() == body,
                    CompressionType::Zlib => (r is Ok <==> zlib_inflated(body) is Some) && (r is Ok
                        ==> r->Ok_0.payload() == zlib_inflated(body)->0) && (r is Err
                        ==> r->Err_0 is Io),
                    CompressionType::Lzma => if has_ff_run(body) {
                        r is Err && r->Err_0 is UnreadableXz
                    } else {
                        (r is Ok <==> xz_inflated(body) is Some) && (r is Ok ==> r->Ok_0.payload()
                            == xz_inflated(body)->0) && (r is Err ==> r->Err_0 is Lzma)
                    },
                    CompressionType::Lzo => r is Err && r->Err_0 is UnsupportedCompression
                        && r->Err_0->UnsupportedCompression_0 == CompressionType::Lzo,
                }
            },
    {
        let header = match SavegameHeader::parse(data) {
            Ok(h) => h,
            Err(e) => return Err(SavegameError::Header(e)),
        };
        if data.len() < 8 {
            return Err(SavegameError::InvalidFormat);
        }
        let compressed_data = slice_subrange(data, 8, data.len());
        let decompressed_data = match header.compression {
            CompressionType::Uncompressed => slice_to_vec(compressed_data),
            CompressionType::Zlib => match zlib_decompress(compressed_data) {
                Ok(d) => d,
                Err(e) => return Err(SavegameError::Io(e)),
            },
            CompressionType::Lzma => {
                if contains_ff_run(compressed_data) {
                    return Err(SavegameError::UnreadableXz);
                }
                match xz_decompress(compressed_data) {
                    Ok(d) => d,
                    Err(e) => return Err(SavegameError::Lzma(e)),
                }
            },
            CompressionType::Lzo => {
                return Err(SavegameError::UnsupportedCompression(CompressionType::Lzo));
            },
        };
        Ok(SavegameReader { header, decompressed_data })
    }

    /// The file header.
    pub fn header(&self) -> (r: &SavegameHeader)
        ensures
            *r == self.file_header(),
    {
        &self.header
    }

    /// Reads the chunks of the stream, in file order, up to the end marker.
    pub fn read_chunks(&self) -> (r: Result<Vec<Chunk>, SavegameError>)
        ensures
            match chunks_of(self.payload()) {
                Ok(cs) => r is Ok && chunks_view(r->Ok_0@) == cs,
                Err(f) => r is Err && r->Err_0 is Core && r->Err_0->Core_0.fault() == f,
            },
    {
        let mut chunks: Vec<Chunk> = Vec::new();
        let mut offset: usize = 0;
        let data = &self.decompressed_data;
        let ghost all = data@;
        proof {
            assert(all.skip(0) =~= all);
            assert(chunks_view(chunks@) =~= Seq::<ChunkModel>::empty());
            if let Ok(cs) = chunks_of(all) {
                assert(Seq::<ChunkModel>::empty() + cs =~= cs);
            }
        }
        loop
            invariant
                offset <= data@.len(),
                all == data@,
                data@ == self.payload(),
                chunks_of(all) == after_chunks(chunks_view(chunks@), chunks_of(all.skip(offset as int))),
            decreases data@.len() - offset,
        {
            let ghost b = all.skip(offset as int);
            if data.len() - offset < 5 {
                proof {
                    lemma_chunks_stop(b);
                    assert(chunks_view(chunks@) + Seq::<ChunkModel>::empty() =~= chunks_view(chunks@));
                }
                return Ok(chunks);
            }
            let rest = slice_subrange(data.as_slice(), offset, data.len());
            assert(rest@ =~= b);
            proof {
                lemma_chunks_fail(b);
            }
            let (header, n) = match ChunkHeader::parse(rest) {
                Ok(p) => p,
                Err(e) => return Err(SavegameError::Core(e)),
            };
            if header.is_end_marker() {
                proof {
                    lemma_chunks_stop(b);
                    assert(chunks_view(chunks@) + Seq::<ChunkModel>::empty() =~= chunks_view(chunks@));
                }
                return Ok(chunks);
            }
            let start = offset + n;
            let body = slice_subrange(data.as_slice(), start, data.len());
            assert(body@ =~= b.skip(5));
            let (chunk_data, used) = match parse_body(&header, body) {
                Ok(p) => p,
                Err(e) => return Err(SavegameError::Core(e)),
            };
            proof {
                lemma_body_bound(header.chunk_type, header.mode_byte, b.skip(5));
                assert(b.skip(5 + used) =~= all.skip(start + used));
                lemma_chunks_step(
                    b,
                    header.tag@,
                    header.chunk_type,
                    header.mode_byte,
                    content_view(chunk_data),
                    used as nat,
                );
            }
            let tag = header.tag_string();
            let ghost prev = chunks_view(chunks@);
            let chunk = Chunk { tag, chunk_type: header.chunk_type, data: chunk_data };
            chunks.push(chunk);
            offset = start + used;
            proof {
                assert(chunks_view(chunks@) =~= prev.push(chunk_view(chunk)));
                match chunks_of(all.skip(offset as int)) {
                    Ok(s) => {
                        assert(prev + (seq![chunk_view(chunk)] + s) =~= chunks_view(chunks@) + s);
                    },
                    Err(_) => {},
                }
            }
        }
    }
}

/// Puts `items` in front of the chunks of a parse that went on from there.
pub open spec fn after_chunks(
    items: Seq<ChunkModel>,
    r: Result<Seq<ChunkModel>, Fault>,
) -> Result<Seq<ChunkModel>, Fault> {
    match r {
        Ok(s) => Ok(items + s),
        Err(f) => Err(f),
    }
}

/// Builds a savegame of RIFF chunks in memory.
pub struct SavegameWriter {
    header: SavegameHeader,
    chunks: Vec<u8>,
}

impl SavegameWriter {
    /// The header that the file will open with.
    pub closed spec fn file_header(&self) -> SavegameHeader {
        self.header
    }

    /// The chunk stream written so far, without the end marker.
    pub closed spec fn stream(&self) -> Seq<u8> {
        self.chunks@
    }

    /// A writer for a savegame of format version `version`, with flags zero.
    pub fn new(version: u16, compression: CompressionType) -> (r: Self)
        ensures
            r.file_header() == (SavegameHeader { compression, version, flags: 0 }),
            r.stream() == Seq::<u8>::empty(),
    {
        SavegameWriter {
            header: SavegameHeader { compression, version, flags: 0 },
            chunks: Vec::new(),
        }
    }

    /// Appends a RIFF chunk with tag `tag` and body `data`. A body of 2^28
    /// bytes or more does not fit the three length bytes and the four bits
    /// of the mode byte: it gives `InvalidFormat` and writes nothing.
    pub fn add_riff_chunk(&mut self, tag: &[u8; 4], data: &[u8]) -> (r: Result<(), SavegameError>)
        ensures
            final(self).file_header() == old(self).file_header(),
            data@.len() < 0x1000_0000 ==> r is Ok && final(self).stream() == old(self).stream()
                + riff_chunk_bytes(tag@, data@),
            data@.len() >= 0x1000_0000 ==> r is Err && r->Err_0 is InvalidFormat
                && final(self).stream() == old(self).stream(),
    {
        let length = data.len();
        if length >= 0x1000_0000 {
            return Err(SavegameError::InvalidFormat);
        }
        let ghost before = self.chunks@;
        self.chunks.push(tag[0]);
        self.chunks.push(tag[1]);
        self.chunks.push(tag[2]);
        self.chunks.push(tag[3]);
        let mode_byte = ((length / 0x100_0000) * 16) as u8;
        self.chunks.push(mode_byte);
        self.chunks.push((length / 0x1_0000 % 0x100) as u8);
        self.chunks.push((length / 0x100 % 0x100) as u8);
        self.chunks.push((length % 0x100) as u8);
        let ghost mid = self.chunks@;
        let mut i: usize = 0;
        while i < length
            invariant
                i <= length == data@.len(),
                self.chunks@ == mid + data@.take(i as int),
                self.header == old(self).header,
            decreases length - i,
        {
            self.chunks.push(data[i]);
            i = i + 1;
            proof {
                assert(data@.take(i as int) =~= data@.take(i - 1).push(data@[i - 1]));
            }
        }
        proof {
            assert(data@.take(length as int) =~= data@);
            assert(tag@.len() == 4);
            assert(self.chunks@ =~= before + riff_chunk_bytes(tag@, data@));
        }
        Ok(())
    }

    /// Ends the stream with the end marker, compresses it as the header says
    /// and puts the header in front: the bytes of the whole file.
    pub fn finalize(self) -> (r: Result<Vec<u8>, SavegameError>)
        ensures
            ({
                let h = self.file_header();
                let s = self.stream() + end_marker();
                match h.compression {
                    CompressionType::Uncompressed => r is Ok && r->Ok_0@ == header_bytes(h) + s,
                    CompressionType::Zlib => r is Ok && r->Ok_0@ == header_bytes(h) + zlib_deflated(
                        s,
                    ),
                    CompressionType::Lzma => r is Ok && r->Ok_0@ == header_bytes(h) + xz_deflated(
                        s,
                    ),
                    CompressionType::Lzo => r is Err && r->Err_0 is UnsupportedCompression
                        && r->Err_0->UnsupportedCompression_0 == CompressionType::Lzo,
                }
            }),
    {
        let mut chunks = self.chunks;
        let ghost before = chunks@;
        chunks.push(0);
        chunks.push(0);
        chunks.push(0);
        chunks.push(0);
        chunks.push(0);
        proof {
            assert(chunks@ =~= before + end_marker());
        }
        let mut result = self.header.write();
        let compressed = match self.header.compression {
            CompressionType::Uncompressed => chunks,
            CompressionType::Zlib => match zlib_compress(chunks.as_slice()) {
                Ok(c) => c,
                Err(e) => return Err(SavegameError::Io(e)),
            },
            CompressionType::Lzma => match xz_compress(chunks.as_slice()) {
                Ok(c) => c,
                Err(e) => return Err(SavegameError::Io(e)),
            },
            CompressionType::Lzo => {
                return Err(SavegameError::UnsupportedCompression(CompressionType::Lzo));
            },
        };
        let ghost head = result@;
        let mut i: usize = 0;
        while i < compressed.len()
            invariant
                i <= compressed@.len(),
                result@ == head + compressed@.take(i as int),
            decreases compressed@.len() - i,
        {
            result.push(compressed[i]);
            i = i + 1;
            proof {
                assert(compressed@.take(i as int) =~= compressed@.take(i - 1).push(
                    compressed@[i - 1],
                ));
            }
        }
        proof {
            assert(compressed@.take(i as int) =~= compressed@);
        }
        Ok(result)
    }
}

} // verus!

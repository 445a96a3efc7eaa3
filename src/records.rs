use crate::blob::{le_u32, Blob};
use crate::codec::{
    bz2_decoded, bz2_decompress, decode_md5, hex_decoded, is_lower_hex, lz4_decoded, lz4_decompress,
};
use crate::cursor::{framed_at, framed_body, framed_end, le_time, Cursor};
use crate::error::BagError;
use crate::fields::{
    check_op, fold_fields, is_name, name_is, op_step, opt_str_view, read_fields, set_field_str,
    set_field_time, set_field_u32, set_field_u64, set_str, set_time, set_u32, set_u64,
    unknown_field, HeaderFields,
};
use vstd::prelude::*;

verus! {

pub const MESSAGE_DATA_OP: u8 = 0x02;
pub const INDEX_DATA_OP: u8 = 0x04;
pub const CHUNK_OP: u8 = 0x05;
pub const CHUNK_INFO_OP: u8 = 0x06;
pub const CONNECTION_OP: u8 = 0x07;

/// Two errors agree: equal, or raised by the same decoder whatever its
/// message.
pub open spec fn same_error(a: BagError, b: BagError) -> bool {
    match (a, b) {
        (BagError::Bzip2DecompressionError(_), BagError::Bzip2DecompressionError(_)) => true,
        (BagError::Lz4DecompressionError(_), BagError::Lz4DecompressionError(_)) => true,
        _ => a == b,
    }
}

/// A read of a record's data: the value and the position after it, or the
/// error.
pub open spec fn read_matches<T: View>(
    r: Result<T, BagError>,
    s: Result<(T::V, int), BagError>,
    end: int,
) -> bool {
    match s {
        Ok((v, e)) => r is Ok && r->Ok_0@ == v && end == e,
        Err(e) => r is Err && same_error(r->Err_0, e),
    }
}

// ---------------------------------------------------------------- MessageData

/// Message data for a connection: its id, the time it was received, and the
/// message serialized.
pub struct MessageData {
    /// Id of the connection on which the message arrived.
    pub conn_id: u32,
    /// Time at which the message was received, in nanoseconds of the UNIX
    /// epoch.
    pub time: u64,
    /// The message in the ROS serialization format.
    pub data: Blob,
}

pub struct MessageDataView {
    pub conn_id: u32,
    pub time: u64,
    pub data: Seq<u8>,
}

impl View for MessageData {
    type V = MessageDataView;

    open spec fn view(&self) -> MessageDataView {
        MessageDataView { conn_id: self.conn_id, time: self.time, data: self.data@ }
    }
}

#[derive(Clone, Copy)]
pub struct MessageDataHeader {
    pub conn_id: Option<u32>,
    pub time: Option<u64>,
}

impl View for MessageDataHeader {
    type V = MessageDataHeader;

    open spec fn view(&self) -> MessageDataHeader {
        *self
    }
}

impl HeaderFields for MessageDataHeader {
    open spec fn spec_empty() -> MessageDataHeader {
        MessageDataHeader { conn_id: None, time: None }
    }

    open spec fn spec_step(h: MessageDataHeader, name: Seq<u8>, val: Seq<u8>) -> Result<
        MessageDataHeader,
        BagError,
    > {
        if is_name(name, "op") {
            op_step(h, val, MESSAGE_DATA_OP)
        } else if is_name(name, "conn") {
            match set_u32(h.conn_id, val) {
                Ok(f) => Ok(MessageDataHeader { conn_id: f, ..h }),
                Err(e) => Err(e),
            }
        } else if is_name(name, "time") {
            match set_time(h.time, val) {
                Ok(f) => Ok(MessageDataHeader { time: f, ..h }),
                Err(e) => Err(e),
            }
        } else {
            Ok(h)
        }
    }

    fn empty() -> (r: MessageDataHeader) {
        MessageDataHeader { conn_id: None, time: None }
    }

    fn process_field(&mut self, name: &Blob, val: &Blob) -> (r: Result<(), BagError>) {
        if name_is(name, "op") {
            check_op(val, MESSAGE_DATA_OP)
        } else if name_is(name, "conn") {
            set_field_u32(&mut self.conn_id, val)
        } else if name_is(name, "time") {
            set_field_time(&mut self.time, val)
        } else {
            unknown_field(name, val);
            Ok(())
        }
    }
}

/// The data part of a message data record at `p`, read under header `h`.
pub open spec fn message_data_spec(h: MessageDataHeader, b: Seq<u8>, p: int) -> Result<
    (MessageDataView, int),
    BagError,
> {
    if h.conn_id is None || h.time is None {
        Err(BagError::InvalidHeader)
    } else if !framed_at(b, p) {
        Err(BagError::OutOfBounds)
    } else {
        Ok(
            (
                MessageDataView {
                    conn_id: h.conn_id->Some_0,
                    time: h.time->Some_0,
                    data: framed_body(b, p),
                },
                framed_end(b, p),
            ),
        )
    }
}

impl MessageData {
    pub fn read_data(c: &mut Cursor, header: MessageDataHeader) -> (r: Result<MessageData, BagError>)
        ensures
            final(c).bytes() == old(c).bytes(),
            read_matches(r, message_data_spec(header, old(c).bytes(), old(c).at()), final(c).at()),
    {
        let conn_id = match header.conn_id {
            Some(v) => v,
            None => return Err(BagError::InvalidHeader),
        };
        let time = match header.time {
            Some(v) => v,
            None => return Err(BagError::InvalidHeader),
        };
        let data = c.next_chunk()?;
        Ok(MessageData { conn_id, time, data })
    }
}

// ------------------------------------------------------------------ IndexData

/// Index of the messages of one connection in the chunk before it.
pub struct IndexData {
    /// Record version; only 1 is read.
    pub ver: u32,
    /// Id of the connection.
    pub conn_id: u32,
    data: Blob,
}

pub struct IndexDataView {
    pub ver: u32,
    pub conn_id: u32,
    pub data: Seq<u8>,
}

impl View for IndexData {
    type V = IndexDataView;

    closed spec fn view(&self) -> IndexDataView {
        IndexDataView { ver: self.ver, conn_id: self.conn_id, data: self.data@ }
    }
}

#[derive(Clone, Copy)]
pub struct IndexDataHeader {
    pub ver: Option<u32>,
    pub conn_id: Option<u32>,
    pub count: Option<u32>,
}

impl View for IndexDataHeader {
    type V = IndexDataHeader;

    open spec fn view(&self) -> IndexDataHeader {
        *self
    }
}

impl HeaderFields for IndexDataHeader {
    open spec fn spec_empty() -> IndexDataHeader {
        IndexDataHeader { ver: None, conn_id: None, count: None }
    }

    open spec fn spec_step(h: IndexDataHeader, name: Seq<u8>, val: Seq<u8>) -> Result<
        IndexDataHeader,
        BagError,
    > {
        if is_name(name, "op") {
            op_step(h, val, INDEX_DATA_OP)
        } else if is_name(name, "ver") {
            match set_u32(h.ver, val) {
                Ok(f) => Ok(IndexDataHeader { ver: f, ..h }),
                Err(e) => Err(e),
            }
        } else if is_name(name, "conn") {
            match set_u32(h.conn_id, val) {
                Ok(f) => Ok(IndexDataHeader { conn_id: f, ..h }),
                Err(e) => Err(e),
            }
        } else if is_name(name, "count") {
            match set_u32(h.count, val) {
                Ok(f) => Ok(IndexDataHeader { count: f, ..h }),
                Err(e) => Err(e),
            }
        } else {
            Ok(h)
        }
    }

    fn empty() -> (r: IndexDataHeader) {
        IndexDataHeader { ver: None, conn_id: None, count: None }
    }

    fn process_field(&mut self, name: &Blob, val: &Blob) -> (r: Result<(), BagError>) {
        if name_is(name, "op") {
            check_op(val, INDEX_DATA_OP)
        } else if name_is(name, "ver") {
            set_field_u32(&mut self.ver, val)
        } else if name_is(name, "conn") {
            set_field_u32(&mut self.conn_id, val)
        } else if name_is(name, "count") {
            set_field_u32(&mut self.count, val)
        } else {
            unknown_field(name, val);
            Ok(())
        }
    }
}

/// A block of `count` entries of `width` bytes each, framed by its length,
/// at `p`: the checks made on it and the bytes it holds.
pub open spec fn entries_spec(b: Seq<u8>, p: int, count: u32, width: int) -> Result<
    (Seq<u8>, int),
    BagError,
> {
    if p + 4 > b.len() {
        Err(BagError::OutOfBounds)
    } else if le_u32(b.subrange(p, p + 4)) % width != 0 || le_u32(b.subrange(p, p + 4)) / width
        != count {
        Err(BagError::InvalidRecord)
    } else if !framed_at(b, p) {
        Err(BagError::OutOfBounds)
    } else {
        Ok((framed_body(b, p), framed_end(b, p)))
    }
}

/// Reads a block of `count` entries of `width` bytes each, framed by its
/// length.
fn read_entries(c: &mut Cursor, count: u32, width: u32) -> (r: Result<Blob, BagError>)
    requires
        width > 0,
    ensures
        final(c).bytes() == old(c).bytes(),
        match entries_spec(old(c).bytes(), old(c).at(), count, width as int) {
            Ok((d, e)) => r is Ok && r->Ok_0@ == d && final(c).at() == e,
            Err(e) => r == Err::<Blob, BagError>(e),
        },
{
    let ghost b = c.bytes();
    let ghost p = c.at();
    let n = match c.next_u32() {
        Ok(n) => n,
        Err(e) => return Err(e),
    };
    if n % width != 0 || n / width != count {
        return Err(BagError::InvalidRecord);
    }
    let r = c.next_bytes(n as u64);
    r
}

/// The data part of an index data record at `p`, read under header `h`.
pub open spec fn index_data_spec(h: IndexDataHeader, b: Seq<u8>, p: int) -> Result<
    (IndexDataView, int),
    BagError,
> {
    if h.ver is None || h.conn_id is None || h.count is None {
        Err(BagError::InvalidHeader)
    } else if h.ver->Some_0 != 1 {
        Err(BagError::UnsupportedVersion)
    } else {
        match entries_spec(b, p, h.count->Some_0, 12) {
            Ok((d, e)) => Ok(
                (IndexDataView { ver: h.ver->Some_0, conn_id: h.conn_id->Some_0, data: d }, e),
            ),
            Err(e) => Err(e),
        }
    }
}

impl IndexData {
    /// Record version.
    pub fn ver(&self) -> (r: u32)
        ensures
            r == self@.ver,
    {
        self.ver
    }

    /// Id of the connection whose messages the record indexes.
    pub fn conn_id(&self) -> (r: u32)
        ensures
            r == self@.conn_id,
    {
        self.conn_id
    }

    pub fn read_data(c: &mut Cursor, header: IndexDataHeader) -> (r: Result<IndexData, BagError>)
        ensures
            final(c).bytes() == old(c).bytes(),
            read_matches(r, index_data_spec(header, old(c).bytes(), old(c).at()), final(c).at()),
    {
        let ver = match header.ver {
            Some(v) => v,
            None => return Err(BagError::InvalidHeader),
        };
        let conn_id = match header.conn_id {
            Some(v) => v,
            None => return Err(BagError::InvalidHeader),
        };
        let count = match header.count {
            Some(v) => v,
            None => return Err(BagError::InvalidHeader),
        };
        if ver != 1 {
            return Err(BagError::UnsupportedVersion);
        }
        let data = read_entries(c, count, 12)?;
        Ok(IndexData { ver, conn_id, data })
    }
}

// ------------------------------------------------------------------ ChunkInfo

/// Index of one chunk: where it is, the times it spans and how many messages
/// of each connection it holds.
pub struct ChunkInfo {
    /// Record version; only 1 is read.
    pub ver: u32,
    /// Offset of the chunk record from the start of the file.
    pub chunk_pos: u64,
    /// Time of the earliest message in the chunk, in nanoseconds of the UNIX
    /// epoch.
    pub start_time: u64,
    /// Time of the latest message in the chunk, in nanoseconds of the UNIX
    /// epoch.
    pub end_time: u64,
    data: Blob,
}

pub struct ChunkInfoView {
    pub ver: u32,
    pub chunk_pos: u64,
    pub start_time: u64,
    pub end_time: u64,
    pub data: Seq<u8>,
}

impl View for ChunkInfo {
    type V = ChunkInfoView;

    closed spec fn view(&self) -> ChunkInfoView {
        ChunkInfoView {
            ver: self.ver,
            chunk_pos: self.chunk_pos,
            start_time: self.start_time,
            end_time: self.end_time,
            data: self.data@,
        }
    }
}

#[derive(Clone, Copy)]
pub struct ChunkInfoHeader {
    pub ver: Option<u32>,
    pub chunk_pos: Option<u64>,
    pub start_time: Option<u64>,
    pub end_time: Option<u64>,
    pub count: Option<u32>,
}

impl View for ChunkInfoHeader {
    type V = ChunkInfoHeader;

    open spec fn view(&self) -> ChunkInfoHeader {
        *self
    }
}

impl HeaderFields for ChunkInfoHeader {
    open spec fn spec_empty() -> ChunkInfoHeader {
        ChunkInfoHeader { ver: None, chunk_pos: None, start_time: None, end_time: None, count: None }
    }

    open spec fn spec_step(h: ChunkInfoHeader, name: Seq<u8>, val: Seq<u8>) -> Result<
        ChunkInfoHeader,
        BagError,
    > {
        if is_name(name, "op") {
            op_step(h, val, CHUNK_INFO_OP)
        } else if is_name(name, "ver") {
            match set_u32(h.ver, val) {
                Ok(f) => Ok(ChunkInfoHeader { ver: f, ..h }),
                Err(e) => Err(e),
            }
        } else if is_name(name, "chunk_pos") {
            match set_u64(h.chunk_pos, val) {
                Ok(f) => Ok(ChunkInfoHeader { chunk_pos: f, ..h }),
                Err(e) => Err(e),
            }
        } else if is_name(name, "start_time") {
            match set_time(h.start_time, val) {
                Ok(f) => Ok(ChunkInfoHeader { start_time: f, ..h }),
                Err(e) => Err(e),
            }
        } else if is_name(name, "end_time") {
            match set_time(h.end_time, val) {
                Ok(f) => Ok(ChunkInfoHeader { end_time: f, ..h }),
                Err(e) => Err(e),
            }
        } else if is_name(name, "count") {
            match set_u32(h.count, val) {
                Ok(f) => Ok(ChunkInfoHeader { count: f, ..h }),
                Err(e) => Err(e),
            }
        } else {
            Ok(h)
        }
    }

    fn empty() -> (r: ChunkInfoHeader) {
        ChunkInfoHeader { ver: None, chunk_pos: None, start_time: None, end_time: None, count: None }
    }

    fn process_field(&mut self, name: &Blob, val: &Blob) -> (r: Result<(), BagError>) {
        if name_is(name, "op") {
            check_op(val, CHUNK_INFO_OP)
        } else if name_is(name, "ver") {
            set_field_u32(&mut self.ver, val)
        } else if name_is(name, "chunk_pos") {
            set_field_u64(&mut self.chunk_pos, val)
        } else if name_is(name, "start_time") {
            set_field_time(&mut self.start_time, val)
        } else if name_is(name, "end_time") {
            set_field_time(&mut self.end_time, val)
        } else if name_is(name, "count") {
            set_field_u32(&mut self.count, val)
        } else {
            unknown_field(name, val);
            Ok(())
        }
    }
}

/// The data part of a chunk info record at `p`, read under header `h`.
pub open spec fn chunk_info_spec(h: ChunkInfoHeader, b: Seq<u8>, p: int) -> Result<
    (ChunkInfoView, int),
    BagError,
> {
    if h.ver is None || h.chunk_pos is None || h.start_time is None || h.end_time is None
        || h.count is None {
        Err(BagError::InvalidHeader)
    } else if h.ver->Some_0 != 1 {
        Err(BagError::UnsupportedVersion)
    } else {
        match entries_spec(b, p, h.count->Some_0, 8) {
            Ok((d, e)) => Ok(
                (
                    ChunkInfoView {
                        ver: h.ver->Some_0,
                        chunk_pos: h.chunk_pos->Some_0,
                        start_time: h.start_time->Some_0,
                        end_time: h.end_time->Some_0,
                        data: d,
                    },
                    e,
                ),
            ),
            Err(e) => Err(e),
        }
    }
}

impl ChunkInfo {
    /// Record version.
    pub fn ver(&self) -> (r: u32)
        ensures
            r == self@.ver,
    {
        self.ver
    }

    /// File position of the chunk record.
    pub fn chunk_pos(&self) -> (r: u64)
        ensures
            r == self@.chunk_pos,
    {
        self.chunk_pos
    }

    /// Time of the earliest message in the chunk.
    pub fn start_time(&self) -> (r: u64)
        ensures
            r == self@.start_time,
    {
        self.start_time
    }

    /// Time of the latest message in the chunk.
    pub fn end_time(&self) -> (r: u64)
        ensures
            r == self@.end_time,
    {
        self.end_time
    }

    pub fn read_data(c: &mut Cursor, header: ChunkInfoHeader) -> (r: Result<ChunkInfo, BagError>)
        ensures
            final(c).bytes() == old(c).bytes(),
            read_matches(r, chunk_info_spec(header, old(c).bytes(), old(c).at()), final(c).at()),
    {
        let ver = match header.ver {
            Some(v) => v,
            None => return Err(BagError::InvalidHeader),
        };
        let chunk_pos = match header.chunk_pos {
            Some(v) => v,
            None => return Err(BagError::InvalidHeader),
        };
        let start_time = match header.start_time {
            Some(v) => v,
            None => return Err(BagError::InvalidHeader),
        };
        let end_time = match header.end_time {
            Some(v) => v,
            None => return Err(BagError::InvalidHeader),
        };
        let count = match header.count {
            Some(v) => v,
            None => return Err(BagError::InvalidHeader),
        };
        if ver != 1 {
            return Err(BagError::UnsupportedVersion);
        }
        let data = read_entries(c, count, 8)?;
        Ok(ChunkInfo { ver, chunk_pos, start_time, end_time, data })
    }
}

// ---------------------------------------------------------------------- Chunk

/// Compression of a chunk's data.
#[derive(Clone, Copy, Debug, PartialEq, Eq, Structural)]
#[non_exhaustive]
pub enum Compression {
    /// bzip2 compression.
    Bzip2,
    /// lz4 frame compression.
    Lz4,
    /// No compression.
    Uncompressed,
}

/// The bytes that decompressing `data` gives, told to expect `size` bytes.
///
/// The bzip2 decoder is given room for one byte more than `size`, so that a
/// longer stream shows in the length; a stream that stops before its end
/// marker without filling `size` bytes is a decoder error.
pub open spec fn decompressed(c: Compression, data: Seq<u8>, size: u32) -> Result<
    Seq<u8>,
    BagError,
> {
    match c {
        Compression::Uncompressed => Ok(data),
        Compression::Bzip2 => match bz2_decoded(data, (size + 1) as nat) {
            Some((v, ended)) => if !ended && v.len() <= size {
                Err(BagError::Bzip2DecompressionError(arbitrary()))
            } else {
                Ok(v)
            },
            None => Err(BagError::Bzip2DecompressionError(arbitrary())),
        },
        Compression::Lz4 => match lz4_decoded(data) {
            Some(v) => Ok(v),
            None => Err(BagError::Lz4DecompressionError(arbitrary())),
        },
    }
}

impl Compression {
    /// Decompresses a chunk's data, which is expected to give `size` bytes.
    pub fn decompress(self, data: &Blob, size: u32) -> (r: Result<Blob, BagError>)
        ensures
            match decompressed(self, data@, size) {
                Ok(v) => r is Ok && r->Ok_0@ == v,
                Err(e) => r is Err && same_error(r->Err_0, e),
            },
    {
        match self {
            Compression::Bzip2 => match bz2_decompress(data.as_slice(), size as u64 + 1) {
                Ok((v, ended)) => {
                    if !ended && v.len() <= size as usize {
                        Err(BagError::Bzip2DecompressionError("bzip2: truncated stream".to_string()))
                    } else {
                        Ok(Blob::from_vec(v))
                    }
                },
                Err(m) => Err(BagError::Bzip2DecompressionError(m)),
            },
            Compression::Lz4 => match lz4_decompress(data.as_slice()) {
                Ok(v) => Ok(Blob::from_vec(v)),
                Err(m) => Err(BagError::Lz4DecompressionError(m)),
            },
            Compression::Uncompressed => Ok(data.share()),
        }
    }
}

/// Bulk storage of messages and connections, possibly compressed. It holds
/// its data decompressed.
pub struct Chunk {
    /// Compression of the data as stored in the file.
    pub compression: Compression,
    data: Blob,
}

pub struct ChunkView {
    pub compression: Compression,
    pub data: Seq<u8>,
}

impl View for Chunk {
    type V = ChunkView;

    closed spec fn view(&self) -> ChunkView {
        ChunkView { compression: self.compression, data: self.data@ }
    }
}

impl Chunk {
    /// Compression of the data as stored in the file.
    pub fn compression(&self) -> (r: Compression)
        ensures
            r == self@.compression,
    {
        self.compression
    }

    /// The decompressed data: the records inside the chunk.
    pub fn data(&self) -> (r: Blob)
        ensures
            r@ == self@.data,
    {
        self.data.share()
    }
}

#[derive(Clone, Copy)]
pub struct ChunkHeader {
    pub compression: Option<Compression>,
    pub size: Option<u32>,
}

impl View for ChunkHeader {
    type V = ChunkHeader;

    open spec fn view(&self) -> ChunkHeader {
        *self
    }
}

/// The compression that a `compression` field's value names.
pub open spec fn compression_named(val: Seq<u8>) -> Option<Compression> {
    if is_name(val, "none") {
        Some(Compression::Uncompressed)
    } else if is_name(val, "bz2") {
        Some(Compression::Bzip2)
    } else if is_name(val, "lz4") {
        Some(Compression::Lz4)
    } else {
        None
    }
}

impl HeaderFields for ChunkHeader {
    open spec fn spec_empty() -> ChunkHeader {
        ChunkHeader { compression: None, size: None }
    }

    open spec fn spec_step(h: ChunkHeader, name: Seq<u8>, val: Seq<u8>) -> Result<
        ChunkHeader,
        BagError,
    > {
        if is_name(name, "op") {
            op_step(h, val, CHUNK_OP)
        } else if is_name(name, "compression") {
            if h.compression is Some || compression_named(val) is None {
                Err(BagError::InvalidHeader)
            } else {
                Ok(ChunkHeader { compression: compression_named(val), ..h })
            }
        } else if is_name(name, "size") {
            match set_u32(h.size, val) {
                Ok(f) => Ok(ChunkHeader { size: f, ..h }),
                Err(e) => Err(e),
            }
        } else {
            Ok(h)
        }
    }

    fn empty() -> (r: ChunkHeader) {
        ChunkHeader { compression: None, size: None }
    }

    fn process_field(&mut self, name: &Blob, val: &Blob) -> (r: Result<(), BagError>) {
        if name_is(name, "op") {
            check_op(val, CHUNK_OP)
        } else if name_is(name, "compression") {
            if self.compression.is_some() {
                return Err(BagError::InvalidHeader);
            }
            let c = if name_is(val, "none") {
                Compression::Uncompressed
            } else if name_is(val, "bz2") {
                Compression::Bzip2
            } else if name_is(val, "lz4") {
                Compression::Lz4
            } else {
                return Err(BagError::InvalidHeader);
            };
            self.compression = Some(c);
            Ok(())
        } else if name_is(name, "size") {
            set_field_u32(&mut self.size, val)
        } else {
            unknown_field(name, val);
            Ok(())
        }
    }
}

/// The data part of a chunk record at `p`, read under header `h`.
pub open spec fn chunk_spec(h: ChunkHeader, b: Seq<u8>, p: int) -> Result<
    (ChunkView, int),
    BagError,
> {
    if h.compression is None || h.size is None {
        Err(BagError::InvalidHeader)
    } else if !framed_at(b, p) {
        Err(BagError::OutOfBounds)
    } else {
        match decompressed(h.compression->Some_0, framed_body(b, p), h.size->Some_0) {
            Err(e) => Err(e),
            Ok(d) => if d.len() != h.size->Some_0 {
                Err(BagError::InvalidRecord)
            } else {
                Ok((ChunkView { compression: h.compression->Some_0, data: d }, framed_end(b, p)))
            },
        }
    }
}

impl Chunk {
    pub fn read_data(c: &mut Cursor, header: ChunkHeader) -> (r: Result<Chunk, BagError>)
        ensures
            final(c).bytes() == old(c).bytes(),
            read_matches(r, chunk_spec(header, old(c).bytes(), old(c).at()), final(c).at()),
    {
        let compression = match header.compression {
            Some(v) => v,
            None => return Err(BagError::InvalidHeader),
        };
        let size = match header.size {
            Some(v) => v,
            None => return Err(BagError::InvalidHeader),
        };
        let raw = c.next_chunk()?;
        let data = compression.decompress(&raw, size)?;
        if data.len() != size as usize {
            return Err(BagError::InvalidRecord);
        }
        Ok(Chunk { compression, data })
    }
}

// ----------------------------------------------------------------- Connection

/// A connection: the topic and message type of the messages that carry its
/// id.
///
/// A message may be stored on a topic other than the one it was published
/// on, hence `storage_topic` beside `topic`.
pub struct Connection {
    /// Unique connection id.
    pub id: u32,
    /// Topic on which the messages are stored.
    pub storage_topic: String,
    /// Topic the subscriber connects to.
    pub topic: String,
    /// Message type.
    pub tp: String,
    /// MD5 sum of the message type.
    pub md5sum: [u8; 16],
    /// Full text of the message definition.
    pub message_definition: String,
    /// Name of the node sending the data; may be empty.
    pub caller_id: String,
    /// Whether the publisher latches, sending its last message to new
    /// subscribers.
    pub latching: bool,
}

pub struct ConnectionView {
    pub id: u32,
    pub storage_topic: Seq<char>,
    pub topic: Seq<char>,
    pub tp: Seq<char>,
    pub md5sum: Seq<u8>,
    pub message_definition: Seq<char>,
    pub caller_id: Seq<char>,
    pub latching: bool,
}

impl View for Connection {
    type V = ConnectionView;

    open spec fn view(&self) -> ConnectionView {
        ConnectionView {
            id: self.id,
            storage_topic: self.storage_topic@,
            topic: self.topic@,
            tp: self.tp@,
            md5sum: self.md5sum@,
            message_definition: self.message_definition@,
            caller_id: self.caller_id@,
            latching: self.latching,
        }
    }
}

/// The fields of a connection record's own header.
pub struct ConnectionHeader {
    pub id: Option<u32>,
    pub storage_topic: Option<String>,
}

pub struct ConnectionHeaderView {
    pub id: Option<u32>,
    pub storage_topic: Option<Seq<char>>,
}

impl View for ConnectionHeader {
    type V = ConnectionHeaderView;

    open spec fn view(&self) -> ConnectionHeaderView {
        ConnectionHeaderView { id: self.id, storage_topic: opt_str_view(self.storage_topic) }
    }
}

impl HeaderFields for ConnectionHeader {
    open spec fn spec_empty() -> ConnectionHeaderView {
        ConnectionHeaderView { id: None, storage_topic: None }
    }

    open spec fn spec_step(h: ConnectionHeaderView, name: Seq<u8>, val: Seq<u8>) -> Result<
        ConnectionHeaderView,
        BagError,
    > {
        if is_name(name, "op") {
            op_step(h, val, CONNECTION_OP)
        } else if is_name(name, "topic") {
            match set_str(h.storage_topic, val) {
                Ok(f) => Ok(ConnectionHeaderView { storage_topic: f, ..h }),
                Err(e) => Err(e),
            }
        } else if is_name(name, "conn") {
            match set_u32(h.id, val) {
                Ok(f) => Ok(ConnectionHeaderView { id: f, ..h }),
                Err(e) => Err(e),
            }
        } else {
            Ok(h)
        }
    }

    fn empty() -> (r: ConnectionHeader) {
        ConnectionHeader { id: None, storage_topic: None }
    }

    fn process_field(&mut self, name: &Blob, val: &Blob) -> (r: Result<(), BagError>) {
        if name_is(name, "op") {
            check_op(val, CONNECTION_OP)
        } else if name_is(name, "topic") {
            set_field_str(&mut self.storage_topic, val)
        } else if name_is(name, "conn") {
            set_field_u32(&mut self.id, val)
        } else {
            unknown_field(name, val);
            Ok(())
        }
    }
}

/// The fields of the header that a connection record holds as its data.
pub struct ConnectionFields {
    pub topic: Option<String>,
    pub tp: Option<String>,
    pub md5sum: Option<[u8; 16]>,
    pub message_definition: Option<String>,
    pub caller_id: Option<String>,
    pub latching: bool,
}

pub struct ConnectionFieldsView {
    pub topic: Option<Seq<char>>,
    pub tp: Option<Seq<char>>,
    pub md5sum: Option<Seq<u8>>,
    pub message_definition: Option<Seq<char>>,
    pub caller_id: Option<Seq<char>>,
    pub latching: bool,
}

pub open spec fn opt_md5_view(f: Option<[u8; 16]>) -> Option<Seq<u8>> {
    match f {
        Some(m) => Some(m@),
        None => None,
    }
}

impl View for ConnectionFields {
    type V = ConnectionFieldsView;

    open spec fn view(&self) -> ConnectionFieldsView {
        ConnectionFieldsView {
            topic: opt_str_view(self.topic),
            tp: opt_str_view(self.tp),
            md5sum: opt_md5_view(self.md5sum),
            message_definition: opt_str_view(self.message_definition),
            caller_id: opt_str_view(self.caller_id),
            latching: self.latching,
        }
    }
}

impl HeaderFields for ConnectionFields {
    open spec fn spec_empty() -> ConnectionFieldsView {
        ConnectionFieldsView {
            topic: None,
            tp: None,
            md5sum: None,
            message_definition: None,
            caller_id: None,
            latching: false,
        }
    }

    open spec fn spec_step(h: ConnectionFieldsView, name: Seq<u8>, val: Seq<u8>) -> Result<
        ConnectionFieldsView,
        BagError,
    > {
        if is_name(name, "topic") {
            match set_str(h.topic, val) {
                Ok(f) => Ok(ConnectionFieldsView { topic: f, ..h }),
                Err(e) => Err(e),
            }
        } else if is_name(name, "type") {
            match set_str(h.tp, val) {
                Ok(f) => Ok(ConnectionFieldsView { tp: f, ..h }),
                Err(e) => Err(e),
            }
        } else if is_name(name, "md5sum") {
            if h.md5sum is Some || val.len() != 32 || !is_lower_hex(val) {
                Err(BagError::InvalidHeader)
            } else {
                Ok(ConnectionFieldsView { md5sum: Some(hex_decoded(val)), ..h })
            }
        } else if is_name(name, "message_definition") {
            match set_str(h.message_definition, val) {
                Ok(f) => Ok(ConnectionFieldsView { message_definition: f, ..h }),
                Err(e) => Err(e),
            }
        } else if is_name(name, "callerid") {
            match set_str(h.caller_id, val) {
                Ok(f) => Ok(ConnectionFieldsView { caller_id: f, ..h }),
                Err(e) => Err(e),
            }
        } else if is_name(name, "latching") {
            if val.len() == 1 && val[0] == 49 {
                Ok(ConnectionFieldsView { latching: true, ..h })
            } else if val.len() == 1 && val[0] == 48 {
                Ok(ConnectionFieldsView { latching: false, ..h })
            } else {
                Err(BagError::InvalidRecord)
            }
        } else {
            Ok(h)
        }
    }

    fn empty() -> (r: ConnectionFields) {
        ConnectionFields {
            topic: None,
            tp: None,
            md5sum: None,
            message_definition: None,
            caller_id: None,
            latching: false,
        }
    }

    fn process_field(&mut self, name: &Blob, val: &Blob) -> (r: Result<(), BagError>) {
        if name_is(name, "topic") {
            set_field_str(&mut self.topic, val)
        } else if name_is(name, "type") {
            set_field_str(&mut self.tp, val)
        } else if name_is(name, "md5sum") {
            if self.md5sum.is_some() || val.len() != 32 {
                return Err(BagError::InvalidHeader);
            }
            match decode_md5(val.as_slice()) {
                Some(m) => {
                    self.md5sum = Some(m);
                    Ok(())
                },
                None => Err(BagError::InvalidHeader),
            }
        } else if name_is(name, "message_definition") {
            set_field_str(&mut self.message_definition, val)
        } else if name_is(name, "callerid") {
            set_field_str(&mut self.caller_id, val)
        } else if name_is(name, "latching") {
            if val.len() == 1 && val.get(0) == 49 {
                self.latching = true;
                Ok(())
            } else if val.len() == 1 && val.get(0) == 48 {
                self.latching = false;
                Ok(())
            } else {
                Err(BagError::InvalidRecord)
            }
        } else {
            unknown_field(name, val);
            Ok(())
        }
    }
}

/// The data part of a connection record at `p`, read under header `h`.
pub open spec fn connection_spec(h: ConnectionHeaderView, b: Seq<u8>, p: int) -> Result<
    (ConnectionView, int),
    BagError,
> {
    if h.id is None || h.storage_topic is None {
        Err(BagError::InvalidHeader)
    } else if !framed_at(b, p) {
        Err(BagError::OutOfBounds)
    } else {
        match fold_fields::<ConnectionFields>(ConnectionFields::spec_empty(), framed_body(b, p)) {
            Err(e) => Err(e),
            Ok(f) => if f.topic is None || f.tp is None || f.md5sum is None
                || f.message_definition is None {
                Err(BagError::InvalidHeader)
            } else {
                Ok(
                    (
                        ConnectionView {
                            id: h.id->Some_0,
                            storage_topic: h.storage_topic->Some_0,
                            topic: f.topic->Some_0,
                            tp: f.tp->Some_0,
                            md5sum: f.md5sum->Some_0,
                            message_definition: f.message_definition->Some_0,
                            caller_id: match f.caller_id {
                                Some(s) => s,
                                None => Seq::empty(),
                            },
                            latching: f.latching,
                        },
                        framed_end(b, p),
                    ),
                )
            },
        }
    }
}

impl Connection {
    pub fn read_data(c: &mut Cursor, header: ConnectionHeader) -> (r: Result<Connection, BagError>)
        ensures
            final(c).bytes() == old(c).bytes(),
            read_matches(r, connection_spec(header@, old(c).bytes(), old(c).at()), final(c).at()),
    {
        let id = match header.id {
            Some(v) => v,
            None => return Err(BagError::InvalidHeader),
        };
        let storage_topic = match header.storage_topic {
            Some(v) => v,
            None => return Err(BagError::InvalidHeader),
        };
        let buf = c.next_chunk()?;
        let f = read_fields::<ConnectionFields>(&buf)?;
        let topic = match f.topic {
            Some(v) => v,
            None => return Err(BagError::InvalidHeader),
        };
        let tp = match f.tp {
            Some(v) => v,
            None => return Err(BagError::InvalidHeader),
        };
        let md5sum = match f.md5sum {
            Some(v) => v,
            None => return Err(BagError::InvalidHeader),
        };
        let message_definition = match f.message_definition {
            Some(v) => v,
            None => return Err(BagError::InvalidHeader),
        };
        let caller_id = match f.caller_id {
            Some(v) => v,
            None => String::new(),
        };
        Ok(
            Connection {
                id,
                storage_topic,
                topic,
                tp,
                md5sum,
                message_definition,
                caller_id,
                latching: f.latching,
            },
        )
    }
}

// -------------------------------------------------------------------- entries

/// One entry of an index data record: a message's time and where its record
/// starts in the decompressed data of the chunk.
#[derive(Clone, Copy, Debug, PartialEq, Eq, Structural)]
pub struct IndexDataEntry {
    /// Time at which the message was received, in nanoseconds of the UNIX
    /// epoch.
    pub time: u64,
    /// Offset of the message data record in the chunk's decompressed data.
    pub offset: u32,
}

/// The `i`-th entry of an index data record's data.
pub open spec fn index_entry_at(d: Seq<u8>, i: int) -> IndexDataEntry {
    IndexDataEntry {
        time: le_time(d.subrange(12 * i, 12 * i + 8)) as u64,
        offset: le_u32(d.subrange(12 * i + 8, 12 * i + 12)) as u32,
    }
}

impl IndexData {
    /// The entries of the record, in file order.
    pub fn entries(&self) -> (r: Vec<IndexDataEntry>)
        ensures
            r@.len() == self@.data.len() / 12,
            forall|i: int| 0 <= i < r@.len() ==> r@[i] == index_entry_at(self@.data, i),
    {
        let mut c = Cursor::new(self.data.share());
        let mut out: Vec<IndexDataEntry> = Vec::new();
        let n = c.len();
        let mut p: u64 = 0;
        while c.left() >= 12
            invariant
                c.bytes() == self@.data,
                n == c.bytes().len(),
                c.at() == p,
                p == 12 * out@.len(),
                p <= n,
                forall|i: int| 0 <= i < out@.len() ==> out@[i] == index_entry_at(self@.data, i),
            decreases n - p,
        {
            let time = c.next_time();
            let offset = c.next_u32();
            if let (Ok(time), Ok(offset)) = (time, offset) {
                out.push(IndexDataEntry { time, offset });
            }
            p = p + 12;
        }
        proof {
            let k = out@.len() as int;
            assert(k == n / 12) by (nonlinear_arith)
                requires
                    p == 12 * k,
                    p <= n,
                    n - p < 12,
            ;
        }
        out
    }
}

/// One entry of a chunk info record: how many messages of a connection the
/// chunk holds.
#[derive(Clone, Copy, Debug, PartialEq, Eq, Structural)]
pub struct ChunkInfoEntry {
    /// Connection id.
    pub conn_id: u32,
    /// Number of messages of the connection in the chunk.
    pub count: u32,
}

/// The `i`-th entry of a chunk info record's data.
pub open spec fn chunk_info_entry_at(d: Seq<u8>, i: int) -> ChunkInfoEntry {
    ChunkInfoEntry {
        conn_id: le_u32(d.subrange(8 * i, 8 * i + 4)) as u32,
        count: le_u32(d.subrange(8 * i + 4, 8 * i + 8)) as u32,
    }
}

impl ChunkInfo {
    /// The entries of the record, in file order.
    pub fn entries(&self) -> (r: Vec<ChunkInfoEntry>)
        ensures
            r@.len() == self@.data.len() / 8,
            forall|i: int| 0 <= i < r@.len() ==> r@[i] == chunk_info_entry_at(self@.data, i),
    {
        let mut c = Cursor::new(self.data.share());
        let mut out: Vec<ChunkInfoEntry> = Vec::new();
        let n = c.len();
        let mut p: u64 = 0;
        while c.left() >= 8
            invariant
                c.bytes() == self@.data,
                n == c.bytes().len(),
                c.at() == p,
                p == 8 * out@.len(),
                p <= n,
                forall|i: int| 0 <= i < out@.len() ==> out@[i] == chunk_info_entry_at(self@.data, i),
            decreases n - p,
        {
            let conn_id = c.next_u32();
            let count = c.next_u32();
            if let (Ok(conn_id), Ok(count)) = (conn_id, count) {
                out.push(ChunkInfoEntry { conn_id, count });
            }
            p = p + 8;
        }
        proof {
            let k = out@.len() as int;
            assert(k == n / 8) by (nonlinear_arith)
                requires
                    p == 8 * k,
                    p <= n,
                    n - p < 8,
            ;
        }
        out
    }
}

} // verus!

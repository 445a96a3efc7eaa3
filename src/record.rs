use crate::blob::Blob;
use crate::cursor::{framed_at, framed_body, framed_end, Cursor};
use crate::error::{BagError, RecordKind};
use crate::fields::{find_op, fold_fields, read_fields, read_op, HeaderFields};
use crate::records::{
    chunk_info_spec, chunk_spec, connection_spec, index_data_spec, message_data_spec, read_matches,
    Chunk, ChunkHeader, ChunkInfo, ChunkInfoHeader, ChunkInfoView, ChunkView,
    Connection, ConnectionHeader, ConnectionView, IndexData, IndexDataHeader, IndexDataView,
    MessageData, MessageDataHeader, MessageDataView, CHUNK_INFO_OP, CHUNK_OP, CONNECTION_OP,
    INDEX_DATA_OP, MESSAGE_DATA_OP,
};
use vstd::prelude::*;

verus! {

/// A record of any of the five kinds.
pub enum Record {
    Chunk(Chunk),
    Connection(Connection),
    MessageData(MessageData),
    IndexData(IndexData),
    ChunkInfo(ChunkInfo),
}

pub enum RecordView {
    Chunk(ChunkView),
    Connection(ConnectionView),
    MessageData(MessageDataView),
    IndexData(IndexDataView),
    ChunkInfo(ChunkInfoView),
}

impl View for Record {
    type V = RecordView;

    open spec fn view(&self) -> RecordView {
        match self {
            Record::Chunk(v) => RecordView::Chunk(v@),
            Record::Connection(v) => RecordView::Connection(v@),
            Record::MessageData(v) => RecordView::MessageData(v@),
            Record::IndexData(v) => RecordView::IndexData(v@),
            Record::ChunkInfo(v) => RecordView::ChunkInfo(v@),
        }
    }
}

pub open spec fn kind_of(v: RecordView) -> RecordKind {
    match v {
        RecordView::Chunk(_) => RecordKind::Chunk,
        RecordView::Connection(_) => RecordKind::Connection,
        RecordView::MessageData(_) => RecordKind::MessageData,
        RecordView::IndexData(_) => RecordKind::IndexData,
        RecordView::ChunkInfo(_) => RecordKind::ChunkInfo,
    }
}

/// A record of kind `H` whose header is `hb` and whose data starts at `p`.
pub open spec fn read_spec<H: HeaderFields, V>(
    hb: Seq<u8>,
    data: spec_fn(H::V) -> Result<(V, int), BagError>,
) -> Result<(V, int), BagError> {
    match fold_fields::<H>(H::spec_empty(), hb) {
        Err(e) => Err(e),
        Ok(h) => data(h),
    }
}

pub open spec fn message_data_at(hb: Seq<u8>, b: Seq<u8>, p: int) -> Result<
    (MessageDataView, int),
    BagError,
> {
    read_spec::<MessageDataHeader, MessageDataView>(hb, |h| message_data_spec(h, b, p))
}

pub open spec fn index_data_at(hb: Seq<u8>, b: Seq<u8>, p: int) -> Result<
    (IndexDataView, int),
    BagError,
> {
    read_spec::<IndexDataHeader, IndexDataView>(hb, |h| index_data_spec(h, b, p))
}

pub open spec fn chunk_info_at(hb: Seq<u8>, b: Seq<u8>, p: int) -> Result<
    (ChunkInfoView, int),
    BagError,
> {
    read_spec::<ChunkInfoHeader, ChunkInfoView>(hb, |h| chunk_info_spec(h, b, p))
}

pub open spec fn chunk_at(hb: Seq<u8>, b: Seq<u8>, p: int) -> Result<(ChunkView, int), BagError> {
    read_spec::<ChunkHeader, ChunkView>(hb, |h| chunk_spec(h, b, p))
}

pub open spec fn connection_at(hb: Seq<u8>, b: Seq<u8>, p: int) -> Result<
    (ConnectionView, int),
    BagError,
> {
    read_spec::<ConnectionHeader, ConnectionView>(hb, |h| connection_spec(h, b, p))
}

/// Wraps the outcome of reading one kind of record as a record.
pub open spec fn lift<V>(s: Result<(V, int), BagError>, f: spec_fn(V) -> RecordView) -> Result<
    (RecordView, int),
    BagError,
> {
    match s {
        Ok((v, e)) => Ok((f(v), e)),
        Err(e) => Err(e),
    }
}

/// The record that starts at `p` in `b` and the position after it, or the
/// error met reading it.
///
/// A record is a length-prefixed header, whose `op` field picks the kind,
/// followed by the kind's data.
pub open spec fn record_at(b: Seq<u8>, p: int) -> Result<(RecordView, int), BagError> {
    if !framed_at(b, p) {
        Err(BagError::OutOfBounds)
    } else {
        let hb = framed_body(b, p);
        let q = framed_end(b, p);
        match find_op(hb) {
            Err(e) => Err(e),
            Ok(None) => Err(BagError::InvalidRecord),
            Ok(Some(op)) => if op == INDEX_DATA_OP {
                lift(index_data_at(hb, b, q), |v| RecordView::IndexData(v))
            } else if op == CHUNK_OP {
                lift(chunk_at(hb, b, q), |v| RecordView::Chunk(v))
            } else if op == CHUNK_INFO_OP {
                lift(chunk_info_at(hb, b, q), |v| RecordView::ChunkInfo(v))
            } else if op == CONNECTION_OP {
                lift(connection_at(hb, b, q), |v| RecordView::Connection(v))
            } else if op == MESSAGE_DATA_OP {
                lift(message_data_at(hb, b, q), |v| RecordView::MessageData(v))
            } else {
                Err(BagError::InvalidRecord)
            },
        }
    }
}

impl MessageData {
    /// Reads a message data record whose header is `header`; `c` stands at
    /// its data.
    pub fn read(header: &Blob, c: &mut Cursor) -> (r: Result<MessageData, BagError>)
        ensures
            final(c).bytes() == old(c).bytes(),
            read_matches(r, message_data_at(header@, old(c).bytes(), old(c).at()), final(c).at()),
    {
        let h = read_fields::<MessageDataHeader>(header)?;
        MessageData::read_data(c, h)
    }
}

impl IndexData {
    /// Reads an index data record whose header is `header`; `c` stands at
    /// its data.
    pub fn read(header: &Blob, c: &mut Cursor) -> (r: Result<IndexData, BagError>)
        ensures
            final(c).bytes() == old(c).bytes(),
            read_matches(r, index_data_at(header@, old(c).bytes(), old(c).at()), final(c).at()),
    {
        let h = read_fields::<IndexDataHeader>(header)?;
        IndexData::read_data(c, h)
    }
}

impl ChunkInfo {
    /// Reads a chunk info record whose header is `header`; `c` stands at its
    /// data.
    pub fn read(header: &Blob, c: &mut Cursor) -> (r: Result<ChunkInfo, BagError>)
        ensures
            final(c).bytes() == old(c).bytes(),
            read_matches(r, chunk_info_at(header@, old(c).bytes(), old(c).at()), final(c).at()),
    {
        let h = read_fields::<ChunkInfoHeader>(header)?;
        ChunkInfo::read_data(c, h)
    }
}

impl Chunk {
    /// Reads a chunk record whose header is `header`; `c` stands at its data.
    pub fn read(header: &Blob, c: &mut Cursor) -> (r: Result<Chunk, BagError>)
        ensures
            final(c).bytes() == old(c).bytes(),
            read_matches(r, chunk_at(header@, old(c).bytes(), old(c).at()), final(c).at()),
    {
        let h = read_fields::<ChunkHeader>(header)?;
        Chunk::read_data(c, h)
    }
}

impl Connection {
    /// Reads a connection record whose header is `header`; `c` stands at its
    /// data.
    pub fn read(header: &Blob, c: &mut Cursor) -> (r: Result<Connection, BagError>)
        ensures
            final(c).bytes() == old(c).bytes(),
            read_matches(r, connection_at(header@, old(c).bytes(), old(c).at()), final(c).at()),
    {
        let h = read_fields::<ConnectionHeader>(header)?;
        Connection::read_data(c, h)
    }
}

impl Record {
    /// Reads the record at the cursor's position and moves past it.
    pub fn next_record(c: &mut Cursor) -> (r: Result<Record, BagError>)
        ensures
            final(c).bytes() == old(c).bytes(),
            read_matches(r, record_at(old(c).bytes(), old(c).at()), final(c).at()),
    {
        let header = c.next_chunk()?;
        let op = read_op(&header)?;
        match op {
            Some(INDEX_DATA_OP) => Ok(Record::IndexData(IndexData::read(&header, c)?)),
            Some(CHUNK_OP) => Ok(Record::Chunk(Chunk::read(&header, c)?)),
            Some(CHUNK_INFO_OP) => Ok(Record::ChunkInfo(ChunkInfo::read(&header, c)?)),
            Some(CONNECTION_OP) => Ok(Record::Connection(Connection::read(&header, c)?)),
            Some(MESSAGE_DATA_OP) => Ok(Record::MessageData(MessageData::read(&header, c)?)),
            _ => Err(BagError::InvalidRecord),
        }
    }

    /// The kind of the record.
    pub fn kind(&self) -> (r: RecordKind)
        ensures
            r == kind_of(self@),
    {
        match self {
            Record::Chunk(_) => RecordKind::Chunk,
            Record::Connection(_) => RecordKind::Connection,
            Record::MessageData(_) => RecordKind::MessageData,
            Record::IndexData(_) => RecordKind::IndexData,
            Record::ChunkInfo(_) => RecordKind::ChunkInfo,
        }
    }

    /// Name of the record's kind.
    pub fn get_type(&self) -> (r: &'static str)
        ensures
            r@ == crate::error::record_kind_name(kind_of(self@))@,
    {
        self.kind().name()
    }
}

} // verus!

use crate::blob::Blob;
use crate::cursor::Cursor;
use crate::error::BagError;
use crate::record::{kind_of, record_at, Record, RecordView};
use crate::records::{
    same_error, Chunk, ChunkInfo, ChunkInfoView, ChunkView, Connection, ConnectionView, IndexData,
    IndexDataView, MessageData, MessageDataView,
};
use vstd::prelude::*;

verus! {

/// An item that an iterator yields, against the outcome that the model
/// gives: the same value, or an error of the same kind.
pub open spec fn item_matches<T: View>(r: Result<T, BagError>, s: Result<T::V, BagError>) -> bool {
    match s {
        Ok(v) => r is Ok && r->Ok_0@ == v,
        Err(e) => r is Err && same_error(r->Err_0, e),
    }
}

/// Where a section iterator stands after a seek to the file position `pos`,
/// for a section of `len` bytes at file offset `offset`: `None` when the
/// position is outside the section.
pub open spec fn seek_target(len: int, offset: int, pos: int) -> Option<int> {
    if pos < offset || pos - offset > len {
        None
    } else {
        Some(pos - offset)
    }
}

// -------------------------------------------------------------- chunk section

/// A record that the chunk section may hold.
pub enum ChunkRecord {
    Chunk(Chunk),
    IndexData(IndexData),
}

pub enum ChunkRecordView {
    Chunk(ChunkView),
    IndexData(IndexDataView),
}

impl View for ChunkRecord {
    type V = ChunkRecordView;

    open spec fn view(&self) -> ChunkRecordView {
        match self {
            ChunkRecord::Chunk(v) => ChunkRecordView::Chunk(v@),
            ChunkRecord::IndexData(v) => ChunkRecordView::IndexData(v@),
        }
    }
}

/// A record read in the chunk section: one of its two kinds, or the error
/// naming the kind found.
pub open spec fn chunk_section_item(v: RecordView) -> Result<ChunkRecordView, BagError> {
    match v {
        RecordView::Chunk(c) => Ok(ChunkRecordView::Chunk(c)),
        RecordView::IndexData(i) => Ok(ChunkRecordView::IndexData(i)),
        _ => Err(BagError::UnexpectedChunkSectionRecord(kind_of(v))),
    }
}

/// What reading the record at `p` of the section `b` yields, and where the
/// iterator stands after it when that is known.
pub open spec fn section_next_ok<T: View>(
    r: Option<Result<T, BagError>>,
    b: Seq<u8>,
    p: int,
    end: int,
    item: spec_fn(RecordView) -> Result<T::V, BagError>,
) -> bool {
    if p >= b.len() {
        r is None && end == p
    } else {
        r is Some && match record_at(b, p) {
            Ok((v, e)) => item_matches(r->Some_0, item(v)) && end == e,
            Err(e) => r->Some_0 is Err && same_error(r->Some_0->Err_0, e),
        }
    }
}

/// `after` is `before` sought with success to the file position `pos`.
pub open spec fn chunk_sought(
    before: ChunkRecordsIterator,
    after: ChunkRecordsIterator,
    pos: u64,
) -> bool {
    &&& after.bytes() == before.bytes()
    &&& after.offset() == before.offset()
    &&& seek_target(before.bytes().len() as int, before.offset(), pos as int) == Some(after.at())
}

/// Iterator over the records of the chunk section of a bag file.
pub struct ChunkRecordsIterator {
    cursor: Cursor,
    offset: u64,
}

impl ChunkRecordsIterator {
    /// The position lies within the bytes.
    pub open spec fn at_valid(&self) -> bool {
        0 <= self.at() <= self.bytes().len()
    }

    /// The bytes of the section.
    pub closed spec fn bytes(&self) -> Seq<u8> {
        self.cursor.bytes()
    }

    /// The position of the next record, from the start of the section.
    pub closed spec fn at(&self) -> int {
        self.cursor.at()
    }

    /// File position of the start of the section.
    pub closed spec fn offset(&self) -> int {
        self.offset as int
    }

    /// An iterator over the section `data`, which starts at file position
    /// `offset`.
    pub fn new(data: Blob, offset: u64) -> (r: ChunkRecordsIterator)
        ensures
            r.bytes() == data@,
            r.at() == 0,
            r.at_valid(),
            r.offset() == offset,
    {
        ChunkRecordsIterator { cursor: Cursor::new(data), offset }
    }

    /// Jumps to the file position `pos`.
    ///
    /// `pos` should be the start of a record, such as one that a chunk info
    /// record gives: elsewhere the next read fails.
    pub fn seek(&mut self, pos: u64) -> (r: Result<(), BagError>)
        ensures
            r is Ok ==> chunk_sought(*old(self), *final(self), pos),
            final(self).bytes() == old(self).bytes(),
            final(self).at_valid(),
            final(self).offset() == old(self).offset(),
            match seek_target(old(self).bytes().len() as int, old(self).offset(), pos as int) {
                Some(p) => r is Ok && final(self).at() == p,
                None => r == Err::<(), BagError>(BagError::OutOfBounds) && final(self).at()
                    == old(self).at(),
            },
    {
        if pos < self.offset {
            let _ = self.cursor.pos();
            return Err(BagError::OutOfBounds);
        }
        self.cursor.seek(pos - self.offset)
    }

    /// The next record of the section, or `None` at its end.
    pub fn next(&mut self) -> (r: Option<Result<ChunkRecord, BagError>>)
        ensures
            final(self).bytes() == old(self).bytes(),
            final(self).at_valid(),
            final(self).offset() == old(self).offset(),
            section_next_ok(
                r,
                old(self).bytes(),
                old(self).at(),
                final(self).at(),
                |v| chunk_section_item(v),
            ),
    {
        if self.cursor.left() == 0 {
            let _ = self.cursor.pos();
            return None;
        }
        let res = match Record::next_record(&mut self.cursor) {
            Ok(Record::Chunk(v)) => Ok(ChunkRecord::Chunk(v)),
            Ok(Record::IndexData(v)) => Ok(ChunkRecord::IndexData(v)),
            Ok(v) => Err(BagError::UnexpectedChunkSectionRecord(v.kind())),
            Err(e) => Err(e),
        };
        let _ = self.cursor.pos();
        Some(res)
    }
}

// -------------------------------------------------------------- index section

/// A record that the index section may hold.
pub enum IndexRecord {
    IndexData(IndexData),
    Connection(Connection),
    ChunkInfo(ChunkInfo),
}

pub enum IndexRecordView {
    IndexData(IndexDataView),
    Connection(ConnectionView),
    ChunkInfo(ChunkInfoView),
}

impl View for IndexRecord {
    type V = IndexRecordView;

    open spec fn view(&self) -> IndexRecordView {
        match self {
            IndexRecord::IndexData(v) => IndexRecordView::IndexData(v@),
            IndexRecord::Connection(v) => IndexRecordView::Connection(v@),
            IndexRecord::ChunkInfo(v) => IndexRecordView::ChunkInfo(v@),
        }
    }
}

/// A record read in the index section: one of its three kinds, or the error
/// naming the kind found.
pub open spec fn index_section_item(v: RecordView) -> Result<IndexRecordView, BagError> {
    match v {
        RecordView::IndexData(i) => Ok(IndexRecordView::IndexData(i)),
        RecordView::Connection(c) => Ok(IndexRecordView::Connection(c)),
        RecordView::ChunkInfo(c) => Ok(IndexRecordView::ChunkInfo(c)),
        _ => Err(BagError::UnexpectedIndexSectionRecord(kind_of(v))),
    }
}

/// Iterator over the records of the index section of a bag file.
pub struct IndexRecordsIterator {
    cursor: Cursor,
    offset: u64,
}

impl IndexRecordsIterator {
    /// The position lies within the bytes.
    pub open spec fn at_valid(&self) -> bool {
        0 <= self.at() <= self.bytes().len()
    }

    /// The bytes of the section.
    pub closed spec fn bytes(&self) -> Seq<u8> {
        self.cursor.bytes()
    }

    /// The position of the next record, from the start of the section.
    pub closed spec fn at(&self) -> int {
        self.cursor.at()
    }

    /// File position of the start of the section.
    pub closed spec fn offset(&self) -> int {
        self.offset as int
    }

    /// An iterator over the section `data`, which starts at file position
    /// `offset`.
    pub fn new(data: Blob, offset: u64) -> (r: IndexRecordsIterator)
        ensures
            r.bytes() == data@,
            r.at() == 0,
            r.at_valid(),
            r.offset() == offset,
    {
        IndexRecordsIterator { cursor: Cursor::new(data), offset }
    }

    /// Jumps to the file position `pos`, which should be the start of a
    /// record: elsewhere the next read fails.
    pub fn seek(&mut self, pos: u64) -> (r: Result<(), BagError>)
        ensures
            final(self).bytes() == old(self).bytes(),
            final(self).at_valid(),
            final(self).offset() == old(self).offset(),
            match seek_target(old(self).bytes().len() as int, old(self).offset(), pos as int) {
                Some(p) => r is Ok && final(self).at() == p,
                None => r == Err::<(), BagError>(BagError::OutOfBounds) && final(self).at()
                    == old(self).at(),
            },
    {
        if pos < self.offset {
            let _ = self.cursor.pos();
            return Err(BagError::OutOfBounds);
        }
        self.cursor.seek(pos - self.offset)
    }

    /// The next record of the section, or `None` at its end.
    pub fn next(&mut self) -> (r: Option<Result<IndexRecord, BagError>>)
        ensures
            final(self).bytes() == old(self).bytes(),
            final(self).at_valid(),
            final(self).offset() == old(self).offset(),
            section_next_ok(
                r,
                old(self).bytes(),
                old(self).at(),
                final(self).at(),
                |v| index_section_item(v),
            ),
    {
        if self.cursor.left() == 0 {
            let _ = self.cursor.pos();
            return None;
        }
        let res = match Record::next_record(&mut self.cursor) {
            Ok(Record::IndexData(v)) => Ok(IndexRecord::IndexData(v)),
            Ok(Record::Connection(v)) => Ok(IndexRecord::Connection(v)),
            Ok(Record::ChunkInfo(v)) => Ok(IndexRecord::ChunkInfo(v)),
            Ok(v) => Err(BagError::UnexpectedIndexSectionRecord(v.kind())),
            Err(e) => Err(e),
        };
        let _ = self.cursor.pos();
        Some(res)
    }
}

// ------------------------------------------------------------ inside a chunk

/// A record that a chunk may hold.
pub enum MessageRecord {
    MessageData(MessageData),
    Connection(Connection),
}

pub enum MessageRecordView {
    MessageData(MessageDataView),
    Connection(ConnectionView),
}

impl View for MessageRecord {
    type V = MessageRecordView;

    open spec fn view(&self) -> MessageRecordView {
        match self {
            MessageRecord::MessageData(v) => MessageRecordView::MessageData(v@),
            MessageRecord::Connection(v) => MessageRecordView::Connection(v@),
        }
    }
}

/// A record read inside a chunk: one of its two kinds, or the error naming
/// the kind found.
pub open spec fn message_item(v: RecordView) -> Result<MessageRecordView, BagError> {
    match v {
        RecordView::MessageData(m) => Ok(MessageRecordView::MessageData(m)),
        RecordView::Connection(c) => Ok(MessageRecordView::Connection(c)),
        _ => Err(BagError::UnexpectedMessageRecord(kind_of(v))),
    }
}

/// Iterator over the records inside a chunk.
pub struct MessageRecordsIterator {
    cursor: Cursor,
}

impl MessageRecordsIterator {
    /// The position lies within the bytes.
    pub open spec fn at_valid(&self) -> bool {
        0 <= self.at() <= self.bytes().len()
    }

    /// The decompressed data of the chunk.
    pub closed spec fn bytes(&self) -> Seq<u8> {
        self.cursor.bytes()
    }

    /// The position of the next record in the chunk's data.
    pub closed spec fn at(&self) -> int {
        self.cursor.at()
    }

    /// An iterator over the chunk data `data`.
    pub fn new(data: Blob) -> (r: MessageRecordsIterator)
        ensures
            r.bytes() == data@,
            r.at() == 0,
            r.at_valid(),
    {
        MessageRecordsIterator { cursor: Cursor::new(data) }
    }

    /// Jumps to `offset` bytes from the start of the chunk's data.
    ///
    /// Offsets come from the index data records that follow the chunk;
    /// another offset makes the next read fail.
    pub fn seek(&mut self, offset: u32) -> (r: Result<(), BagError>)
        ensures
            final(self).bytes() == old(self).bytes(),
            final(self).at_valid(),
            match seek_target(old(self).bytes().len() as int, 0, offset as int) {
                Some(p) => r is Ok && final(self).at() == p,
                None => r == Err::<(), BagError>(BagError::OutOfBounds) && final(self).at()
                    == old(self).at(),
            },
    {
        self.cursor.seek(offset as u64)
    }

    /// The next record of the chunk, or `None` at its end.
    pub fn next(&mut self) -> (r: Option<Result<MessageRecord, BagError>>)
        ensures
            final(self).bytes() == old(self).bytes(),
            final(self).at_valid(),
            section_next_ok(
                r,
                old(self).bytes(),
                old(self).at(),
                final(self).at(),
                |v| message_item(v),
            ),
    {
        if self.cursor.left() == 0 {
            let _ = self.cursor.pos();
            return None;
        }
        let res = match Record::next_record(&mut self.cursor) {
            Ok(Record::MessageData(v)) => Ok(MessageRecord::MessageData(v)),
            Ok(Record::Connection(v)) => Ok(MessageRecord::Connection(v)),
            Ok(v) => Err(BagError::UnexpectedMessageRecord(v.kind())),
            Err(e) => Err(e),
        };
        let _ = self.cursor.pos();
        Some(res)
    }
}

impl Chunk {
    /// Iterator over the records inside the chunk.
    pub fn messages(&self) -> (r: MessageRecordsIterator)
        ensures
            r.bytes() == self@.data,
            r.at() == 0,
            r.at_valid(),
    {
        MessageRecordsIterator::new(self.data())
    }
}

} // verus!

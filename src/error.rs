use vstd::prelude::*;

verus! {

/// The five kinds of record that a bag file holds.
#[derive(Clone, Copy, Debug, PartialEq, Eq, Structural)]
pub enum RecordKind {
    Chunk,
    Connection,
    MessageData,
    IndexData,
    ChunkInfo,
}

impl RecordKind {
    /// Name of the record kind, as it appears in messages.
    pub fn name(&self) -> (r: &'static str)
        ensures
            r@ == record_kind_name(*self)@,
    {
        match self {
            RecordKind::Chunk => "Chunk",
            RecordKind::Connection => "Connection",
            RecordKind::MessageData => "MessageData",
            RecordKind::IndexData => "IndexData",
            RecordKind::ChunkInfo => "ChunkInfo",
        }
    }
}

pub open spec fn record_kind_name(k: RecordKind) -> &'static str {
    match k {
        RecordKind::Chunk => "Chunk",
        RecordKind::Connection => "Connection",
        RecordKind::MessageData => "MessageData",
        RecordKind::IndexData => "IndexData",
        RecordKind::ChunkInfo => "ChunkInfo",
    }
}

/// Errors raised while reading a bag file.
#[derive(Clone, Debug, PartialEq, Eq)]
pub enum BagError {
    /// A read would go past the end of the available bytes.
    OutOfBounds,
    /// Bad magic, a missing, duplicate or malformed header field.
    InvalidHeader,
    /// A record whose framing or contents break the format's rules.
    InvalidRecord,
    /// An index record of a version other than 1.
    UnsupportedVersion,
    /// A record of the given kind where the chunk section allows none.
    UnexpectedChunkSectionRecord(RecordKind),
    /// A record of the given kind where the index section allows none.
    UnexpectedIndexSectionRecord(RecordKind),
    /// A record of the given kind inside a chunk.
    UnexpectedMessageRecord(RecordKind),
    /// The bzip2 decoder refused the chunk data.
    Bzip2DecompressionError(String),
    /// The lz4 decoder refused the chunk data.
    Lz4DecompressionError(String),
}

} // verus!

//! Reading of ROS bag files, format version 2.0: record framing, the three
//! section iterators and seeking by offsets taken from the index.
//!
//! The library does no I/O. A caller reads the first bytes of a file and the
//! header of its first record to open a [`RosBag`], then reads the byte range
//! of a section and hands it to the section's iterator.
pub mod bag;
pub mod blob;
pub mod codec;
pub mod cursor;
pub mod error;
pub mod fields;
pub mod laws;
pub mod record;
pub mod records;
pub mod sections;

pub use bag::{check_magic, parse_bag_header, BagHeader, RosBag, ROSBAG_HEADER_SIZE, VERSION_LEN};
pub use blob::Blob;
pub use cursor::Cursor;
pub use error::{BagError, RecordKind};
pub use fields::{check_op, read_field, unknown_field};
pub use record::Record;
pub use records::{
    Chunk, ChunkInfo, ChunkInfoEntry, Compression, Connection, IndexData, IndexDataEntry,
    MessageData,
};
pub use sections::{
    ChunkRecord, ChunkRecordsIterator, IndexRecord, IndexRecordsIterator, MessageRecord,
    MessageRecordsIterator,
};

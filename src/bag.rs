use crate::blob::Blob;
use crate::error::BagError;
use crate::fields::{
    check_op, fold_fields, is_name, name_is, op_ok, read_fields, set_field_u32, set_field_u64,
    set_u32, set_u64, unknown_field, HeaderFields,
};
use crate::sections::{ChunkRecordsIterator, IndexRecordsIterator};
use vstd::prelude::*;

verus! {

/// The magic text at the start of every bag file of format 2.0.
pub const VERSION_STRING: &'static str = "#ROSBAG V2.0\n";

/// Length of the magic text.
pub const VERSION_LEN: u64 = 13;

/// File position of the first record of the chunk section: the magic and the
/// bag header record fill the bytes before it.
pub const ROSBAG_HEADER_SIZE: u64 = 4096;

pub const ROSBAG_HEADER_OP: u8 = 0x03;

/// Checks the magic text that opens a bag file.
pub fn check_magic(prefix: &Blob) -> (r: Result<(), BagError>)
    ensures
        is_name(prefix@, VERSION_STRING) ==> r is Ok,
        !is_name(prefix@, VERSION_STRING) ==> r == Err::<(), BagError>(BagError::InvalidHeader),
{
    if name_is(prefix, VERSION_STRING) {
        Ok(())
    } else {
        Err(BagError::InvalidHeader)
    }
}

/// The fields of a bag header record.
#[derive(Clone, Copy)]
pub struct BagHeaderFields {
    pub index_pos: Option<u64>,
    pub conn_count: Option<u32>,
    pub chunk_count: Option<u32>,
    pub op: bool,
}

impl View for BagHeaderFields {
    type V = BagHeaderFields;

    open spec fn view(&self) -> BagHeaderFields {
        *self
    }
}

impl HeaderFields for BagHeaderFields {
    open spec fn spec_empty() -> BagHeaderFields {
        BagHeaderFields { index_pos: None, conn_count: None, chunk_count: None, op: false }
    }

    open spec fn spec_step(h: BagHeaderFields, name: Seq<u8>, val: Seq<u8>) -> Result<
        BagHeaderFields,
        BagError,
    > {
        if is_name(name, "op") {
            if h.op {
                Err(BagError::InvalidHeader)
            } else if !op_ok(val, ROSBAG_HEADER_OP) {
                Err(BagError::InvalidRecord)
            } else {
                Ok(BagHeaderFields { op: true, ..h })
            }
        } else if is_name(name, "index_pos") {
            match set_u64(h.index_pos, val) {
                Ok(f) => Ok(BagHeaderFields { index_pos: f, ..h }),
                Err(e) => Err(e),
            }
        } else if is_name(name, "conn_count") {
            match set_u32(h.conn_count, val) {
                Ok(f) => Ok(BagHeaderFields { conn_count: f, ..h }),
                Err(e) => Err(e),
            }
        } else if is_name(name, "chunk_count") {
            match set_u32(h.chunk_count, val) {
                Ok(f) => Ok(BagHeaderFields { chunk_count: f, ..h }),
                Err(e) => Err(e),
            }
        } else {
            Ok(h)
        }
    }

    fn empty() -> (r: BagHeaderFields) {
        BagHeaderFields { index_pos: None, conn_count: None, chunk_count: None, op: false }
    }

    fn process_field(&mut self, name: &Blob, val: &Blob) -> (r: Result<(), BagError>) {
        if name_is(name, "op") {
            if self.op {
                return Err(BagError::InvalidHeader);
            }
            check_op(val, ROSBAG_HEADER_OP)?;
            self.op = true;
            Ok(())
        } else if name_is(name, "index_pos") {
            set_field_u64(&mut self.index_pos, val)
        } else if name_is(name, "conn_count") {
            set_field_u32(&mut self.conn_count, val)
        } else if name_is(name, "chunk_count") {
            set_field_u32(&mut self.chunk_count, val)
        } else {
            unknown_field(name, val);
            Ok(())
        }
    }
}

/// Metadata of a bag file, from its first record.
#[derive(Clone, Copy, Debug, PartialEq, Eq, Structural)]
pub struct BagHeader {
    /// File position of the first record of the index section.
    pub index_pos: u64,
    /// Number of distinct connections in the file.
    pub conn_count: u32,
    /// Number of chunk records in the file.
    pub chunk_count: u32,
}

/// The bag header that the header buffer `hb` of the first record states:
/// `op`, `index_pos`, `conn_count` and `chunk_count`, each exactly once.
pub open spec fn bag_header_spec(hb: Seq<u8>) -> Result<BagHeader, BagError> {
    match fold_fields::<BagHeaderFields>(BagHeaderFields::spec_empty(), hb) {
        Err(e) => Err(e),
        Ok(h) => if h.index_pos is None || h.conn_count is None || h.chunk_count is None || !h.op {
            Err(BagError::InvalidHeader)
        } else {
            Ok(
                BagHeader {
                    index_pos: h.index_pos->Some_0,
                    conn_count: h.conn_count->Some_0,
                    chunk_count: h.chunk_count->Some_0,
                },
            )
        },
    }
}

/// Reads the header buffer of a bag file's first record.
pub fn parse_bag_header(header: &Blob) -> (r: Result<BagHeader, BagError>)
    ensures
        r == bag_header_spec(header@),
{
    let h = read_fields::<BagHeaderFields>(header)?;
    match (h.index_pos, h.conn_count, h.chunk_count, h.op) {
        (Some(index_pos), Some(conn_count), Some(chunk_count), true) => Ok(
            BagHeader { index_pos, conn_count, chunk_count },
        ),
        _ => Err(BagError::InvalidHeader),
    }
}

/// An open bag file: where its two sections lie and its counts. The bytes
/// of a section are read by the caller and handed to the section's
/// iterator.
pub struct RosBag {
    start_pos: u64,
    index_pos: u64,
    file_len: u64,
    conn_count: u32,
    chunk_count: u32,
}

impl RosBag {
    pub closed spec fn spec_start_pos(&self) -> int {
        self.start_pos as int
    }

    pub closed spec fn spec_index_pos(&self) -> int {
        self.index_pos as int
    }

    pub closed spec fn spec_file_len(&self) -> int {
        self.file_len as int
    }

    pub closed spec fn spec_conn_count(&self) -> u32 {
        self.conn_count
    }

    pub closed spec fn spec_chunk_count(&self) -> u32 {
        self.chunk_count
    }

    /// Opens a bag from its first bytes, `magic`, the header buffer of its
    /// first record, `header`, and the length of the file.
    pub fn new(magic: &Blob, header: &Blob, file_len: u64) -> (r: Result<RosBag, BagError>)
        ensures
            !is_name(magic@, VERSION_STRING) ==> r == Err::<RosBag, BagError>(
                BagError::InvalidHeader,
            ),
            is_name(magic@, VERSION_STRING) ==> match bag_header_spec(header@) {
                Ok(h) => r is Ok && r->Ok_0.spec_start_pos() == ROSBAG_HEADER_SIZE
                    && r->Ok_0.spec_index_pos() == h.index_pos && r->Ok_0.spec_file_len()
                    == file_len && r->Ok_0.spec_conn_count() == h.conn_count
                    && r->Ok_0.spec_chunk_count() == h.chunk_count,
                Err(e) => r == Err::<RosBag, BagError>(e),
            },
    {
        check_magic(magic)?;
        let h = parse_bag_header(header)?;
        Ok(
            RosBag {
                start_pos: ROSBAG_HEADER_SIZE,
                index_pos: h.index_pos,
                file_len,
                conn_count: h.conn_count,
                chunk_count: h.chunk_count,
            },
        )
    }

    /// Connection count of the bag.
    pub fn get_conn_count(&self) -> (r: u32)
        ensures
            r == self.spec_conn_count(),
    {
        self.conn_count
    }

    /// Chunk count of the bag.
    pub fn get_chunk_count(&self) -> (r: u32)
        ensures
            r == self.spec_chunk_count(),
    {
        self.chunk_count
    }

    /// File position and length of the chunk section: from the end of the
    /// bag header up to `index_pos`.
    pub fn chunk_section(&self) -> (r: Result<(u64, u64), BagError>)
        ensures
            self.spec_start_pos() <= self.spec_index_pos() <= self.spec_file_len() ==> r
                == Ok::<(u64, u64), BagError>(
                (
                    self.spec_start_pos() as u64,
                    (self.spec_index_pos() - self.spec_start_pos()) as u64,
                ),
            ),
            !(self.spec_start_pos() <= self.spec_index_pos() <= self.spec_file_len()) ==> r
                == Err::<(u64, u64), BagError>(BagError::OutOfBounds),
    {
        if self.start_pos <= self.index_pos && self.index_pos <= self.file_len {
            Ok((self.start_pos, self.index_pos - self.start_pos))
        } else {
            Err(BagError::OutOfBounds)
        }
    }

    /// File position and length of the index section: from `index_pos` to
    /// the end of the file.
    pub fn index_section(&self) -> (r: Result<(u64, u64), BagError>)
        ensures
            self.spec_index_pos() <= self.spec_file_len() ==> r == Ok::<(u64, u64), BagError>(
                (self.spec_index_pos() as u64, (self.spec_file_len() - self.spec_index_pos()) as u64),
            ),
            self.spec_index_pos() > self.spec_file_len() ==> r == Err::<(u64, u64), BagError>(
                BagError::OutOfBounds,
            ),
    {
        if self.index_pos <= self.file_len {
            Ok((self.index_pos, self.file_len - self.index_pos))
        } else {
            Err(BagError::OutOfBounds)
        }
    }

    /// Iterator over the chunk section, whose bytes are `data`.
    pub fn chunk_records(&self, data: Blob) -> (r: ChunkRecordsIterator)
        requires
            self.spec_start_pos() <= self.spec_index_pos(),
            data@.len() == self.spec_index_pos() - self.spec_start_pos(),
        ensures
            r.bytes() == data@,
            r.at() == 0,
            r.at_valid(),
            r.offset() == self.spec_start_pos(),
    {
        ChunkRecordsIterator::new(data, self.start_pos)
    }

    /// Iterator over the index section, whose bytes are `data`.
    pub fn index_records(&self, data: Blob) -> (r: IndexRecordsIterator)
        requires
            self.spec_index_pos() <= self.spec_file_len(),
            data@.len() == self.spec_file_len() - self.spec_index_pos(),
        ensures
            r.bytes() == data@,
            r.at() == 0,
            r.at_valid(),
            r.offset() == self.spec_index_pos(),
    {
        IndexRecordsIterator::new(data, self.index_pos)
    }
}

} // verus!

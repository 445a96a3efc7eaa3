use rosbag_reader::{
    check_magic, read_field, BagError, Blob, ChunkRecord, ChunkRecordsIterator, Compression,
    Cursor, IndexRecord, IndexRecordsIterator, MessageRecord, Record, RecordKind, RosBag,
};
use std::io::Write;

fn field(name: &str, val: &[u8]) -> Vec<u8> {
    let mut v = ((name.len() + 1 + val.len()) as u32).to_le_bytes().to_vec();
    v.extend_from_slice(name.as_bytes());
    v.push(b'=');
    v.extend_from_slice(val);
    v
}

fn record(fields: &[Vec<u8>], data: &[u8]) -> Vec<u8> {
    let header: Vec<u8> = fields.concat();
    let mut v = (header.len() as u32).to_le_bytes().to_vec();
    v.extend_from_slice(&header);
    v.extend_from_slice(&(data.len() as u32).to_le_bytes());
    v.extend_from_slice(data);
    v
}

fn time(s: u32, ns: u32) -> Vec<u8> {
    let mut v = s.to_le_bytes().to_vec();
    v.extend_from_slice(&ns.to_le_bytes());
    v
}

const MD5: &str = "0123456789abcdef0123456789abcdef";

fn connection(id: u32, topic: &str, extra: &[Vec<u8>]) -> Vec<u8> {
    let mut data = vec![
        field("topic", topic.as_bytes()),
        field("type", b"std_msgs/Int32"),
        field("md5sum", MD5.as_bytes()),
        field("message_definition", b"int32 v"),
    ];
    data.extend_from_slice(extra);
    record(
        &[field("op", &[0x07]), field("conn", &id.to_le_bytes()), field("topic", topic.as_bytes())],
        &data.concat(),
    )
}

fn message(conn: u32, s: u32, ns: u32, data: &[u8]) -> Vec<u8> {
    record(&[field("op", &[0x02]), field("conn", &conn.to_le_bytes()), field("time", &time(s, ns))], data)
}

fn chunk(compression: &str, size: u32, data: &[u8]) -> Vec<u8> {
    record(
        &[field("op", &[0x05]), field("compression", compression.as_bytes()), field("size", &size.to_le_bytes())],
        data,
    )
}

fn index_data(conn: u32, count: u32, data: &[u8]) -> Vec<u8> {
    record(
        &[
            field("op", &[0x04]),
            field("ver", &1u32.to_le_bytes()),
            field("conn", &conn.to_le_bytes()),
            field("count", &count.to_le_bytes()),
        ],
        data,
    )
}

fn chunk_info(ver: u32, chunk_pos: u64, count: u32, data: &[u8]) -> Vec<u8> {
    record(
        &[
            field("op", &[0x06]),
            field("ver", &ver.to_le_bytes()),
            field("chunk_pos", &chunk_pos.to_le_bytes()),
            field("start_time", &time(1, 0)),
            field("end_time", &time(2, 0)),
            field("count", &count.to_le_bytes()),
        ],
        data,
    )
}

fn chunk_iter(bytes: Vec<u8>) -> ChunkRecordsIterator {
    ChunkRecordsIterator::new(Blob::from_vec(bytes), 4096)
}

fn bag_file(index_pos: u64, tail: &[u8]) -> Vec<u8> {
    let header = [
        field("op", &[0x03]),
        field("index_pos", &index_pos.to_le_bytes()),
        field("conn_count", &0u32.to_le_bytes()),
        field("chunk_count", &0u32.to_le_bytes()),
    ]
    .concat();
    let mut v = b"#ROSBAG V2.0\n".to_vec();
    v.extend_from_slice(&(header.len() as u32).to_le_bytes());
    v.extend_from_slice(&header);
    let pad = 4096 - (v.len() + 4);
    v.extend_from_slice(&(pad as u32).to_le_bytes());
    v.extend(std::iter::repeat(b' ').take(pad));
    assert_eq!(v.len(), 4096);
    v.extend_from_slice(tail);
    v
}

/// Opens a bag held in memory the way a caller reading a file does.
fn open(file: &[u8]) -> Result<RosBag, BagError> {
    let blob = Blob::from_vec(file.to_vec());
    let magic = blob.slice(0, 13);
    check_magic(&magic)?;
    let n = u32::from_le_bytes(file[13..17].try_into().unwrap()) as usize;
    let header = blob.slice(17, 17 + n);
    RosBag::new(&magic, &header, file.len() as u64)
}

fn section(file: &[u8], range: (u64, u64)) -> Blob {
    Blob::from_vec(file[range.0 as usize..(range.0 + range.1) as usize].to_vec())
}

fn bz2(data: &[u8]) -> Vec<u8> {
    let mut enc = bzip2::write::BzEncoder::new(Vec::new(), bzip2::Compression::default());
    enc.write_all(data).unwrap();
    enc.finish().unwrap()
}

fn lz4(data: &[u8]) -> Vec<u8> {
    let mut enc = lz4::EncoderBuilder::new().build(Vec::new()).unwrap();
    enc.write_all(data).unwrap();
    let (out, res) = enc.finish();
    res.unwrap();
    out
}

#[test]
fn magic_mismatch() {
    let mut file = bag_file(4096, &[]);
    file[..13].copy_from_slice(b"#ROSBAG V1.2\n");
    assert_eq!(open(&file).err(), Some(BagError::InvalidHeader));
    let blob = Blob::from_vec(file.clone());
    let header = blob.slice(17, 17 + u32::from_le_bytes(file[13..17].try_into().unwrap()) as usize);
    assert_eq!(RosBag::new(&blob.slice(0, 13), &header, 4096).err(), Some(BagError::InvalidHeader));
}

#[test]
fn minimal_valid_bag() {
    let file = bag_file(4096, &[]);
    let bag = open(&file).unwrap();
    assert_eq!(bag.get_conn_count(), 0);
    assert_eq!(bag.get_chunk_count(), 0);
    let range = bag.chunk_section().unwrap();
    assert_eq!(range, (4096, 0));
    assert!(bag.chunk_records(section(&file, range)).next().is_none());
    let range = bag.index_section().unwrap();
    assert_eq!(range, (4096, 0));
    assert!(bag.index_records(section(&file, range)).next().is_none());
}

#[test]
fn bag_header_needs_every_field() {
    let header = [field("op", &[0x03]), field("index_pos", &4096u64.to_le_bytes()), field("conn_count", &0u32.to_le_bytes())]
        .concat();
    let magic = Blob::from_vec(b"#ROSBAG V2.0\n".to_vec());
    assert_eq!(RosBag::new(&magic, &Blob::from_vec(header), 4096).err(), Some(BagError::InvalidHeader));
    let header = [
        field("op", &[0x03]),
        field("index_pos", &4096u64.to_le_bytes()),
        field("conn_count", &0u32.to_le_bytes()),
        field("conn_count", &0u32.to_le_bytes()),
        field("chunk_count", &0u32.to_le_bytes()),
    ]
    .concat();
    assert_eq!(RosBag::new(&magic, &Blob::from_vec(header), 4096).err(), Some(BagError::InvalidHeader));
}

#[test]
fn index_pos_past_end_is_out_of_bounds() {
    let file = bag_file(5000, &[]);
    let bag = open(&file).unwrap();
    assert_eq!(bag.chunk_section(), Err(BagError::OutOfBounds));
    assert_eq!(bag.index_section(), Err(BagError::OutOfBounds));
}

#[test]
fn one_uncompressed_chunk_one_message() {
    let inner = [connection(7, "/a", &[]), message(7, 1, 500_000_000, &[0x2A, 0, 0, 0])].concat();
    let mut it = chunk_iter(chunk("none", inner.len() as u32, &inner));
    let c = match it.next() {
        Some(Ok(ChunkRecord::Chunk(c))) => c,
        _ => panic!("expected a chunk"),
    };
    assert!(matches!(c.compression, Compression::Uncompressed));
    let mut msgs = c.messages();
    match msgs.next() {
        Some(Ok(MessageRecord::Connection(conn))) => {
            assert_eq!(conn.id, 7);
            assert_eq!(conn.storage_topic, "/a");
            assert_eq!(conn.topic, "/a");
            assert_eq!(conn.tp, "std_msgs/Int32");
            assert_eq!(conn.message_definition, "int32 v");
            assert_eq!(conn.caller_id, "");
            assert!(!conn.latching);
            assert_eq!(
                conn.md5sum,
                [0x01, 0x23, 0x45, 0x67, 0x89, 0xab, 0xcd, 0xef, 0x01, 0x23, 0x45, 0x67, 0x89, 0xab, 0xcd, 0xef]
            );
        }
        _ => panic!("expected a connection"),
    }
    match msgs.next() {
        Some(Ok(MessageRecord::MessageData(m))) => {
            assert_eq!(m.conn_id, 7);
            assert_eq!(m.time, 1_500_000_000);
            assert_eq!(m.data.to_vec(), vec![0x2A, 0, 0, 0]);
        }
        _ => panic!("expected message data"),
    }
    assert!(msgs.next().is_none());
    assert!(it.next().is_none());
}

#[test]
fn bz2_chunk_size_mismatch() {
    let payload = vec![7u8; 99];
    let mut it = chunk_iter(chunk("bz2", 100, &bz2(&payload)));
    assert_eq!(it.next().unwrap().err(), Some(BagError::InvalidRecord));
}

#[test]
fn bz2_chunk_decompresses() {
    let inner = message(3, 2, 5, b"hello");
    let mut it = chunk_iter(chunk("bz2", inner.len() as u32, &bz2(&inner)));
    let c = match it.next() {
        Some(Ok(ChunkRecord::Chunk(c))) => c,
        _ => panic!("expected a chunk"),
    };
    assert!(matches!(c.compression, Compression::Bzip2));
    assert_eq!(c.data().to_vec(), inner);
    match c.messages().next() {
        Some(Ok(MessageRecord::MessageData(m))) => {
            assert_eq!(m.time, 2_000_000_005);
            assert_eq!(m.data.to_vec(), b"hello".to_vec());
        }
        _ => panic!("expected message data"),
    }
}

#[test]
fn lz4_chunk_decompresses() {
    let inner = message(3, 0, 9, b"abc");
    let mut it = chunk_iter(chunk("lz4", inner.len() as u32, &lz4(&inner)));
    let c = match it.next() {
        Some(Ok(ChunkRecord::Chunk(c))) => c,
        _ => panic!("expected a chunk"),
    };
    assert!(matches!(c.compression, Compression::Lz4));
    assert_eq!(c.data().to_vec(), inner);
}

#[test]
fn bad_compressed_data_is_a_decoder_error() {
    let mut it = chunk_iter(chunk("bz2", 10, b"not bzip2 data"));
    assert!(matches!(it.next(), Some(Err(BagError::Bzip2DecompressionError(_)))));
    let mut it = chunk_iter(chunk("lz4", 10, b"not lz4 data"));
    assert!(matches!(it.next(), Some(Err(BagError::Lz4DecompressionError(_)))));
}

#[test]
fn unknown_compression_is_invalid_header() {
    let mut it = chunk_iter(chunk("zip", 0, &[]));
    assert_eq!(it.next().unwrap().err(), Some(BagError::InvalidHeader));
}

#[test]
fn index_data_count_mismatch() {
    let mut it = chunk_iter(index_data(1, 3, &[0u8; 32]));
    assert_eq!(it.next().unwrap().err(), Some(BagError::InvalidRecord));
}

#[test]
fn chunk_info_in_chunk_section() {
    let mut it = chunk_iter(chunk_info(1, 4096, 0, &[]));
    assert_eq!(it.next().unwrap().err(), Some(BagError::UnexpectedChunkSectionRecord(RecordKind::ChunkInfo)));
    assert_eq!(RecordKind::ChunkInfo.name(), "ChunkInfo");
}

#[test]
fn chunk_in_index_section() {
    let mut it = IndexRecordsIterator::new(Blob::from_vec(chunk("none", 0, &[])), 100);
    assert_eq!(it.next().unwrap().err(), Some(BagError::UnexpectedIndexSectionRecord(RecordKind::Chunk)));
}

#[test]
fn index_data_inside_chunk() {
    let inner = index_data(1, 0, &[]);
    let mut it = chunk_iter(chunk("none", inner.len() as u32, &inner));
    let c = match it.next() {
        Some(Ok(ChunkRecord::Chunk(c))) => c,
        _ => panic!("expected a chunk"),
    };
    assert_eq!(c.messages().next().unwrap().err(), Some(BagError::UnexpectedMessageRecord(RecordKind::IndexData)));
}

#[test]
fn empty_chunk_section() {
    let mut it = chunk_iter(Vec::new());
    assert!(it.next().is_none());
}

#[test]
fn empty_uncompressed_chunk() {
    let mut it = chunk_iter(chunk("none", 0, &[]));
    let c = match it.next() {
        Some(Ok(ChunkRecord::Chunk(c))) => c,
        _ => panic!("expected a chunk"),
    };
    assert!(c.messages().next().is_none());
}

#[test]
fn index_data_without_entries() {
    let mut it = chunk_iter(index_data(4, 0, &[]));
    match it.next() {
        Some(Ok(ChunkRecord::IndexData(i))) => {
            assert_eq!(i.conn_id, 4);
            assert!(i.entries().is_empty());
        }
        _ => panic!("expected index data"),
    }
}

#[test]
fn index_data_entries_in_order() {
    let data = [time(1, 2), 40u32.to_le_bytes().to_vec(), time(3, 4), 90u32.to_le_bytes().to_vec()].concat();
    let mut it = IndexRecordsIterator::new(Blob::from_vec(index_data(4, 2, &data)), 0);
    match it.next() {
        Some(Ok(IndexRecord::IndexData(i))) => {
            let e = i.entries();
            assert_eq!(e.len(), 2);
            assert_eq!((e[0].time, e[0].offset), (1_000_000_002, 40));
            assert_eq!((e[1].time, e[1].offset), (3_000_000_004, 90));
        }
        _ => panic!("expected index data"),
    }
}

#[test]
fn chunk_info_entries_in_order() {
    let data = [5u32.to_le_bytes(), 10u32.to_le_bytes(), 6u32.to_le_bytes(), 1u32.to_le_bytes()].concat();
    let mut it = IndexRecordsIterator::new(Blob::from_vec(chunk_info(1, 4096, 2, &data)), 0);
    match it.next() {
        Some(Ok(IndexRecord::ChunkInfo(ci))) => {
            assert_eq!(ci.chunk_pos, 4096);
            assert_eq!(ci.start_time, 1_000_000_000);
            assert_eq!(ci.end_time, 2_000_000_000);
            let e = ci.entries();
            assert_eq!(e.len(), 2);
            assert_eq!((e[0].conn_id, e[0].count), (5, 10));
            assert_eq!((e[1].conn_id, e[1].count), (6, 1));
        }
        _ => panic!("expected chunk info"),
    }
}

#[test]
fn unsupported_version() {
    let mut it = IndexRecordsIterator::new(Blob::from_vec(chunk_info(2, 0, 0, &[])), 0);
    assert_eq!(it.next().unwrap().err(), Some(BagError::UnsupportedVersion));
}

#[test]
fn seek_to_section_end_and_past() {
    let bytes = index_data(1, 0, &[]);
    let len = bytes.len() as u64;
    let mut it = chunk_iter(bytes);
    assert_eq!(it.seek(4096 + len), Ok(()));
    assert!(it.next().is_none());
    assert_eq!(it.seek(4096 + len + 1), Err(BagError::OutOfBounds));
    assert_eq!(it.seek(4095), Err(BagError::OutOfBounds));
    assert_eq!(it.seek(4096), Ok(()));
    assert!(matches!(it.next(), Some(Ok(ChunkRecord::IndexData(_)))));
}

#[test]
fn seek_then_iterate_is_repeatable() {
    let first = index_data(1, 0, &[]);
    let bytes = [first.clone(), index_data(2, 0, &[]), index_data(3, 0, &[])].concat();
    let mut it = chunk_iter(bytes);
    let pos = 4096 + first.len() as u64;
    let ids = |it: &mut ChunkRecordsIterator| {
        let mut v = Vec::new();
        while let Some(r) = it.next() {
            match r {
                Ok(ChunkRecord::IndexData(i)) => v.push(i.conn_id),
                _ => panic!("expected index data"),
            }
        }
        v
    };
    it.seek(pos).unwrap();
    let a = ids(&mut it);
    it.seek(pos).unwrap();
    it.seek(pos).unwrap();
    let b = ids(&mut it);
    assert_eq!(a, vec![2, 3]);
    assert_eq!(a, b);
}

#[test]
fn message_seek_by_index_offset() {
    let conn = connection(7, "/a", &[]);
    let inner = [conn.clone(), message(7, 4, 6, b"x")].concat();
    let mut it = chunk_iter(chunk("none", inner.len() as u32, &inner));
    let c = match it.next() {
        Some(Ok(ChunkRecord::Chunk(c))) => c,
        _ => panic!("expected a chunk"),
    };
    let mut msgs = c.messages();
    msgs.seek(conn.len() as u32).unwrap();
    match msgs.next() {
        Some(Ok(MessageRecord::MessageData(m))) => {
            assert_eq!(m.conn_id, 7);
            assert_eq!(m.time, 4_000_000_006);
        }
        _ => panic!("expected message data"),
    }
    assert_eq!(msgs.seek(inner.len() as u32 + 1), Err(BagError::OutOfBounds));
}

#[test]
fn record_spans_both_prefixes() {
    let bytes = message(1, 0, 0, b"12345");
    let header_len = u32::from_le_bytes(bytes[0..4].try_into().unwrap()) as u64;
    let mut c = Cursor::new(Blob::from_vec(bytes.clone()));
    let r = Record::next_record(&mut c).unwrap();
    assert_eq!(r.kind(), RecordKind::MessageData);
    assert_eq!(r.get_type(), "MessageData");
    assert_eq!(c.pos(), 4 + header_len + 4 + 5);
    assert_eq!(c.pos(), bytes.len() as u64);
}

#[test]
fn time_round_trip() {
    let bytes = message(1, 1_234, 999_999_999, &[]);
    let mut c = Cursor::new(Blob::from_vec(bytes));
    match Record::next_record(&mut c).unwrap() {
        Record::MessageData(m) => {
            assert_eq!(m.time, 1_234_999_999_999);
            assert_eq!(m.time / 1_000_000_000, 1_234);
            assert_eq!(m.time % 1_000_000_000, 999_999_999);
        }
        _ => panic!("expected message data"),
    }
    let mut c = Cursor::new(Blob::from_vec(time(u32::MAX, 5)));
    assert_eq!(c.next_time(), Ok(u32::MAX as u64 * 1_000_000_000 + 5));
    assert_eq!(c.next_time(), Err(BagError::OutOfBounds));
}

#[test]
fn fields_reassemble_the_header() {
    let header = [field("op", &[0x02]), field("a=b", b"c=d"), field("time", &time(1, 2))].concat();
    let mut rest = Blob::from_vec(header.clone());
    let mut again = Vec::new();
    let mut names = Vec::new();
    while !rest.is_empty() {
        let (name, val, r) = read_field(&rest).unwrap();
        names.push(name.to_vec());
        let mut f = ((name.len() + 1 + val.len()) as u32).to_le_bytes().to_vec();
        f.extend(name.to_vec());
        f.push(b'=');
        f.extend(val.to_vec());
        again.extend(f);
        rest = r;
    }
    assert_eq!(again, header);
    assert_eq!(names, vec![b"op".to_vec(), b"a".to_vec(), b"time".to_vec()]);
}

#[test]
fn malformed_fields_are_invalid_header() {
    let no_eq = [4u32.to_le_bytes().to_vec(), b"abcd".to_vec()].concat();
    assert_eq!(read_field(&Blob::from_vec(no_eq)).err(), Some(BagError::InvalidHeader));
    let truncated = [9u32.to_le_bytes().to_vec(), b"op=1".to_vec()].concat();
    assert_eq!(read_field(&Blob::from_vec(truncated)).err(), Some(BagError::InvalidHeader));
    let bad_name = [4u32.to_le_bytes().to_vec(), vec![0xff, b'=', 1, 2]].concat();
    assert_eq!(read_field(&Blob::from_vec(bad_name)).err(), Some(BagError::InvalidHeader));
    assert_eq!(read_field(&Blob::from_vec(vec![1, 0])).err(), Some(BagError::InvalidHeader));
}

#[test]
fn unknown_op_and_missing_op_are_invalid_record() {
    let mut c = Cursor::new(Blob::from_vec(record(&[field("op", &[0x09])], &[])));
    assert_eq!(Record::next_record(&mut c).err(), Some(BagError::InvalidRecord));
    let mut c = Cursor::new(Blob::from_vec(record(&[field("conn", &[1, 0, 0, 0])], &[])));
    assert_eq!(Record::next_record(&mut c).err(), Some(BagError::InvalidRecord));
    let mut c = Cursor::new(Blob::from_vec(record(&[field("op", &[0x02, 0x02])], &[])));
    assert_eq!(Record::next_record(&mut c).err(), Some(BagError::InvalidRecord));
}

#[test]
fn truncated_record_is_out_of_bounds() {
    let mut bytes = message(1, 0, 0, b"12345");
    bytes.pop();
    let mut c = Cursor::new(Blob::from_vec(bytes));
    assert_eq!(Record::next_record(&mut c).err(), Some(BagError::OutOfBounds));
    let mut c = Cursor::new(Blob::from_vec(vec![200, 0, 0, 0, 1]));
    assert_eq!(Record::next_record(&mut c).err(), Some(BagError::OutOfBounds));
}

#[test]
fn missing_or_repeated_field_is_invalid_header() {
    let bytes = record(&[field("op", &[0x02]), field("conn", &1u32.to_le_bytes())], &[]);
    let mut c = Cursor::new(Blob::from_vec(bytes));
    assert_eq!(Record::next_record(&mut c).err(), Some(BagError::InvalidHeader));
    let bytes = record(
        &[field("op", &[0x02]), field("conn", &1u32.to_le_bytes()), field("conn", &1u32.to_le_bytes()), field("time", &time(0, 0))],
        &[],
    );
    let mut c = Cursor::new(Blob::from_vec(bytes));
    assert_eq!(Record::next_record(&mut c).err(), Some(BagError::InvalidHeader));
    let bytes = record(&[field("op", &[0x02]), field("conn", &[1, 0]), field("time", &time(0, 0))], &[]);
    let mut c = Cursor::new(Blob::from_vec(bytes));
    assert_eq!(Record::next_record(&mut c).err(), Some(BagError::InvalidHeader));
}

#[test]
fn connection_optional_fields() {
    let bytes = connection(3, "/b", &[field("callerid", b"/node"), field("latching", b"1"), field("extra", b"x")]);
    let mut it = IndexRecordsIterator::new(Blob::from_vec(bytes), 0);
    match it.next() {
        Some(Ok(IndexRecord::Connection(c))) => {
            assert_eq!(c.caller_id, "/node");
            assert!(c.latching);
        }
        _ => panic!("expected a connection"),
    }
    let bytes = connection(3, "/b", &[field("latching", b"2")]);
    let mut it = IndexRecordsIterator::new(Blob::from_vec(bytes), 0);
    assert_eq!(it.next().unwrap().err(), Some(BagError::InvalidRecord));
}

#[test]
fn malformed_md5sum_is_invalid_header() {
    let bad = record(
        &[field("op", &[0x07]), field("conn", &1u32.to_le_bytes()), field("topic", b"/a")],
        &[
            field("topic", b"/a"),
            field("type", b"t"),
            field("md5sum", b"0123456789ABCDEF0123456789abcdef"),
            field("message_definition", b"d"),
        ]
        .concat(),
    );
    let mut it = IndexRecordsIterator::new(Blob::from_vec(bad), 0);
    assert_eq!(it.next().unwrap().err(), Some(BagError::InvalidHeader));
}

#[test]
fn general_use() {
    let inner = [connection(7, "/a", &[]), message(7, 1, 0, &[1])].concat();
    let chunk_rec = chunk("none", inner.len() as u32, &inner);
    let idx = [time(1, 0), (inner.len() as u32 - message(7, 1, 0, &[1]).len() as u32).to_le_bytes().to_vec()].concat();
    let chunk_section = [chunk_rec.clone(), index_data(7, 1, &idx)].concat();
    let index_pos = 4096 + chunk_section.len() as u64;
    let info = [7u32.to_le_bytes(), 1u32.to_le_bytes()].concat();
    let index_section = [connection(7, "/a", &[]), chunk_info(1, 4096, 1, &info)].concat();
    let file = bag_file(index_pos, &[chunk_section, index_section].concat());
    let bag = open(&file).unwrap();
    let mut kinds = Vec::new();
    let mut it = bag.chunk_records(section(&file, bag.chunk_section().unwrap()));
    while let Some(r) = it.next() {
        match r.unwrap() {
            ChunkRecord::Chunk(c) => {
                let mut msgs = c.messages();
                while let Some(m) = msgs.next() {
                    match m.unwrap() {
                        MessageRecord::MessageData(_) => kinds.push("Message Data"),
                        MessageRecord::Connection(_) => kinds.push("Connection"),
                    }
                }
            }
            ChunkRecord::IndexData(_) => kinds.push("IndexData"),
        }
    }
    let mut it = bag.index_records(section(&file, bag.index_section().unwrap()));
    while let Some(r) = it.next() {
        match r.unwrap() {
            IndexRecord::IndexData(_) => kinds.push("IIR::IndexData"),
            IndexRecord::Connection(_) => kinds.push("IIR::Connection"),
            IndexRecord::ChunkInfo(ci) => {
                kinds.push("ChunkInfo");
                let mut chunks = chunk_iter(file[4096..index_pos as usize].to_vec());
                chunks.seek(ci.chunk_pos).unwrap();
                assert!(matches!(chunks.next(), Some(Ok(ChunkRecord::Chunk(_)))));
            }
        }
    }
    assert_eq!(kinds, vec!["Connection", "Message Data", "IndexData", "IIR::Connection", "ChunkInfo"]);
}

#[test]
fn latching_must_be_one_byte() {
    for v in [&b"1x"[..], &b"0x"[..], &b""[..]] {
        let bytes = connection(3, "/b", &[field("latching", v)]);
        let mut it = IndexRecordsIterator::new(Blob::from_vec(bytes), 0);
        assert_eq!(it.next().unwrap().err(), Some(BagError::InvalidRecord));
    }
    let bytes = connection(3, "/b", &[field("latching", b"0")]);
    let mut it = IndexRecordsIterator::new(Blob::from_vec(bytes), 0);
    match it.next() {
        Some(Ok(IndexRecord::Connection(c))) => assert!(!c.latching),
        _ => panic!("expected a connection"),
    }
}

#[test]
fn bz2_chunk_longer_than_size() {
    let payload = vec![7u8; 101];
    let mut it = chunk_iter(chunk("bz2", 100, &bz2(&payload)));
    assert_eq!(it.next().unwrap().err(), Some(BagError::InvalidRecord));
}

#[test]
fn bz2_truncated_stream_is_a_decoder_error() {
    let payload = vec![7u8; 100];
    let mut data = bz2(&payload);
    data.truncate(data.len() - 6);
    let mut it = chunk_iter(chunk("bz2", 100, &data));
    assert!(matches!(it.next(), Some(Err(BagError::Bzip2DecompressionError(_)))));
}

#[test]
fn record_getters_match_fields() {
    let mut it = IndexRecordsIterator::new(Blob::from_vec(chunk_info(1, 777, 0, &[])), 0);
    match it.next() {
        Some(Ok(IndexRecord::ChunkInfo(ci))) => {
            assert_eq!((ci.ver(), ci.chunk_pos(), ci.start_time(), ci.end_time()), (1, 777, 1_000_000_000, 2_000_000_000));
        }
        _ => panic!("expected chunk info"),
    }
    let mut it = chunk_iter([index_data(9, 0, &[]), chunk("none", 0, &[])].concat());
    match it.next() {
        Some(Ok(ChunkRecord::IndexData(i))) => assert_eq!((i.ver(), i.conn_id()), (1, 9)),
        _ => panic!("expected index data"),
    }
    match it.next() {
        Some(Ok(ChunkRecord::Chunk(c))) => assert!(matches!(c.compression(), Compression::Uncompressed)),
        _ => panic!("expected a chunk"),
    }
}

use std::collections::HashMap;
use std::rc::Rc;

use chrome_cache_parser::block_file::{BufferSlice, DataFiles, Fetch, LazyBlockFile, BLOCK_MAGIC};
use chrome_cache_parser::cache_address::CacheAddr;
use chrome_cache_parser::entry::{
    BlockCacheEntryState, BlockCacheEntryStateField, LazyBlockFileCacheEntry,
    LazyBlockFileCacheEntryIterator,
};
use chrome_cache_parser::error::CCPError;
use chrome_cache_parser::stream::{external_file_name, BlockFileStreamReader, StreamReader};

const HEADER: usize = 8192;

fn put_u32(buf: &mut [u8], off: usize, v: u32) {
    buf[off..off + 4].copy_from_slice(&v.to_le_bytes());
}

fn block_file(entry_size: u32, blocks: usize) -> Vec<u8> {
    let mut buf = vec![0u8; HEADER + entry_size as usize * blocks];
    put_u32(&mut buf, 0, BLOCK_MAGIC);
    put_u32(&mut buf, 4, 0x20000);
    put_u32(&mut buf, 12, entry_size);
    buf
}

fn block256(file: u32, block: u32) -> u32 {
    0x8000_0000 | (2 << 28) | (file << 16) | block
}

fn entry_offset(block: usize) -> usize {
    HEADER + 256 * block
}

fn collect(files: &mut DataFiles, iter: &mut LazyBlockFileCacheEntryIterator) -> Vec<u32> {
    let mut hashes = Vec::new();
    loop {
        match iter.next(files) {
            Fetch::Ready(Some(e)) => hashes.push(e.get().unwrap().hash),
            Fetch::Ready(None) => return hashes,
            Fetch::Load(n) => panic!("file {} is not loaded", n),
        }
    }
}

#[test]
fn single_entry_chain_yields_one_item() {
    let mut data = block_file(256, 2);
    put_u32(&mut data, entry_offset(0), 0x1234);
    let mut files = DataFiles::new(HashMap::new());
    files.insert(1, data);
    let mut iter = LazyBlockFileCacheEntryIterator::new(CacheAddr::from(block256(1, 0)));
    assert_eq!(collect(&mut files, &mut iter), vec![0x1234]);
    assert!(matches!(iter.next(&files), Fetch::Ready(None)));
}

#[test]
fn chain_crosses_block_files_in_order() {
    let mut first = block_file(256, 2);
    put_u32(&mut first, entry_offset(1), 0xAAAA);
    put_u32(&mut first, entry_offset(1) + 4, block256(2, 3));
    let mut second = block_file(256, 4);
    put_u32(&mut second, entry_offset(3), 0xBBBB);
    let mut files = DataFiles::new(HashMap::new());
    files.insert(1, first);
    files.insert(2, second);
    let mut iter = LazyBlockFileCacheEntryIterator::new(CacheAddr::from(block256(1, 1)));
    assert_eq!(collect(&mut files, &mut iter), vec![0xAAAA, 0xBBBB]);
}

#[test]
fn chain_asks_for_missing_file_and_resumes() {
    let mut first = block_file(256, 1);
    put_u32(&mut first, entry_offset(0), 0x1);
    put_u32(&mut first, entry_offset(0) + 4, block256(3, 0));
    let mut third = block_file(256, 1);
    put_u32(&mut third, entry_offset(0), 0x3);
    let mut files = DataFiles::new(HashMap::new());
    let mut iter = LazyBlockFileCacheEntryIterator::new(CacheAddr::from(block256(1, 0)));
    assert!(matches!(iter.next(&files), Fetch::Load(1)));
    files.insert(1, first);
    assert!(matches!(iter.next(&files), Fetch::Ready(Some(_))));
    assert!(matches!(iter.next(&files), Fetch::Load(3)));
    files.insert(3, third);
    match iter.next(&files) {
        Fetch::Ready(Some(e)) => assert_eq!(e.get().unwrap().hash, 0x3),
        _ => panic!("expected the entry in file 3"),
    }
    assert!(matches!(iter.next(&files), Fetch::Ready(None)));
}

#[test]
fn cyclic_chain_ends() {
    let mut data = block_file(256, 2);
    put_u32(&mut data, entry_offset(0), 0x10);
    put_u32(&mut data, entry_offset(0) + 4, block256(1, 1));
    put_u32(&mut data, entry_offset(1), 0x11);
    put_u32(&mut data, entry_offset(1) + 4, block256(1, 0));
    let mut files = DataFiles::new(HashMap::new());
    files.insert(1, data);
    let mut iter = LazyBlockFileCacheEntryIterator::new(CacheAddr::from(block256(1, 0)));
    assert_eq!(collect(&mut files, &mut iter), vec![0x10, 0x11]);
}

#[test]
fn chain_ends_at_corrupt_address() {
    let mut data = block_file(256, 1);
    put_u32(&mut data, entry_offset(0), 0x10);
    put_u32(&mut data, entry_offset(0) + 4, block256(1, 40));
    let mut files = DataFiles::new(HashMap::new());
    files.insert(1, data);
    let mut iter = LazyBlockFileCacheEntryIterator::new(CacheAddr::from(block256(1, 0)));
    assert_eq!(collect(&mut files, &mut iter), vec![0x10]);
}

#[test]
fn wrong_magic_is_invalid_data() {
    let mut data = block_file(256, 1);
    put_u32(&mut data, 0, 0xDEAD_BEEF);
    let file = LazyBlockFile::new(Rc::new(data));
    assert!(matches!(file.header(), Err(CCPError::InvalidData(_))));
    assert!(matches!(
        file.get_buffer(&CacheAddr::from(block256(1, 0))),
        Err(CCPError::InvalidData(_))
    ));
}

#[test]
fn short_block_file_is_misaligned() {
    let file = LazyBlockFile::new(Rc::new(vec![0u8; 100]));
    assert!(matches!(file.header(), Err(CCPError::DataMisalignment(_))));
}

#[test]
fn header_fields_are_read() {
    let mut data = block_file(36, 1);
    put_u32(&mut data, 28, 9);
    put_u32(&mut data, 60 + 16, 0xFFFF_FFFF);
    put_u32(&mut data, 80, 0b101);
    put_u32(&mut data, 8188, 0x8000_0000);
    let file = LazyBlockFile::new(Rc::new(data));
    let header = file.header().unwrap();
    assert_eq!(header.magic, BLOCK_MAGIC);
    assert_eq!(header.version, 0x20000);
    assert_eq!(header.entry_size, 36);
    assert_eq!(header.empty, [0, 9, 0, 0]);
    assert_eq!(header.user[4], -1);
    assert_eq!(header.allocation_map.len(), 2028);
    assert_eq!(header.allocation_map[0], 0b101);
    assert_eq!(header.allocation_map[2027], 0x8000_0000);
}

#[test]
fn record_offset_uses_entry_size() {
    let mut data = block_file(36, 4);
    data[HEADER + 2 * 36] = 0x77;
    let file = LazyBlockFile::new(Rc::new(data));
    let slice = file.get_buffer(&CacheAddr::from(0x9000_0002)).unwrap();
    assert_eq!(slice.start(), HEADER + 72);
    assert_eq!(slice.get().len(), 36);
    assert_eq!(slice.get()[0], 0x77);
}

#[test]
fn record_past_end_is_misaligned() {
    let file = LazyBlockFile::new(Rc::new(block_file(256, 1)));
    assert!(matches!(
        file.get_buffer(&CacheAddr::from(block256(1, 1))),
        Err(CCPError::DataMisalignment(_))
    ));
}

#[test]
fn loading_twice_keeps_first_contents() {
    let mut files = DataFiles::new(HashMap::new());
    assert!(!files.is_loaded(5));
    files.insert(5, block_file(256, 1));
    assert!(files.is_loaded(5));
    files.insert(5, vec![1, 2, 3]);
    assert_eq!(files.get(5).unwrap().bytes().len(), HEADER + 256);
    assert!(files.get(6).is_none());
}

#[test]
fn get_entry_asks_for_unloaded_file() {
    let files = DataFiles::new(HashMap::new());
    assert!(matches!(files.get_entry(&CacheAddr::from(block256(7, 0))), Ok(Fetch::Load(7))));
}

#[test]
fn entry_fields_and_state() {
    let mut data = block_file(256, 1);
    let off = entry_offset(0);
    put_u32(&mut data, off, 0xCAFE);
    put_u32(&mut data, off + 20, 1);
    data[off + 24..off + 32].copy_from_slice(&13_360_111_021_811_283u64.to_le_bytes());
    put_u32(&mut data, off + 32, 3);
    data[off + 96..off + 99].copy_from_slice(b"abc");
    let buffer = BufferSlice::new(Rc::new(data), off, 256);
    let entry = LazyBlockFileCacheEntry::new(buffer).get().unwrap();
    assert_eq!(entry.hash, 0xCAFE);
    assert_eq!(entry.state.kind(), BlockCacheEntryState::Evicted);
    assert_eq!(entry.creation_time.0, 13_360_111_021_811_283);
    assert_eq!(entry.key_len, 3);
    assert_eq!(entry.key.trimmed(), b"abc".to_vec());
    assert_eq!(entry.key.raw().len(), 160);
    assert!(!entry.next.is_initialized());
}

#[test]
fn unknown_state_values_decode_to_unknown() {
    assert_eq!(BlockCacheEntryStateField(0).kind(), BlockCacheEntryState::Normal);
    assert_eq!(BlockCacheEntryStateField(2).kind(), BlockCacheEntryState::Doomed);
    assert_eq!(BlockCacheEntryStateField(3).kind(), BlockCacheEntryState::Unknown);
    assert_eq!(BlockCacheEntryStateField(-1).kind(), BlockCacheEntryState::Unknown);
}

#[test]
fn short_entry_is_misaligned() {
    let buffer = BufferSlice::new(Rc::new(vec![0u8; 100]), 0, 100);
    let entry = LazyBlockFileCacheEntry::new(buffer);
    assert!(matches!(entry.get(), Err(CCPError::DataMisalignment(_))));
    assert!(matches!(entry.stream_readers(), Err(CCPError::InvalidState(_))));
}

fn entry_with_streams(addrs: [u32; 4], sizes: [i32; 4]) -> LazyBlockFileCacheEntry {
    let mut data = vec![0u8; 256];
    for i in 0..4 {
        data[40 + 4 * i..44 + 4 * i].copy_from_slice(&sizes[i].to_le_bytes());
        put_u32(&mut data, 56 + 4 * i, addrs[i]);
    }
    LazyBlockFileCacheEntry::new(BufferSlice::new(Rc::new(data), 0, 256))
}

#[test]
fn stream_readers_dispatch_on_file_type() {
    let external = 0x8000_00AB;
    let block = 0xB001_0002;
    let rankings = 0x9001_0000;
    let entry = entry_with_streams([external, block, rankings, 0], [10, 300, 5, 0]);
    let readers = entry.stream_readers().unwrap();
    assert_eq!(readers.len(), 4);
    match &readers[0] {
        Ok(StreamReader::External(a)) => assert_eq!(a.file_number(), 0xAB),
        other => panic!("unexpected {:?}", other),
    }
    match &readers[1] {
        Ok(StreamReader::Block(r)) => {
            assert_eq!(r.addr.value, block);
            assert_eq!(r.size, 300);
            assert_eq!(r.read_offset, 0);
        }
        other => panic!("unexpected {:?}", other),
    }
    assert!(matches!(&readers[2], Err(CCPError::InvalidState(_))));
    assert!(matches!(&readers[3], Ok(StreamReader::External(_))));
}

#[test]
fn block_stream_reads_until_size() {
    let mut data = vec![0u8; HEADER + 1024 * 4];
    put_u32(&mut data, 0, BLOCK_MAGIC);
    for i in 0..10 {
        data[HEADER + 2 * 1024 + i] = i as u8 + 1;
    }
    let mut files = DataFiles::new(HashMap::new());
    files.insert(1, data);
    let mut reader = BlockFileStreamReader::new(CacheAddr::from(0xB001_0002), 10);
    let first = match reader.read(&files, 4).unwrap() {
        Fetch::Ready(v) => v,
        Fetch::Load(_) => panic!("loaded"),
    };
    assert_eq!(first, vec![1, 2, 3, 4]);
    let second = match reader.read(&files, 100).unwrap() {
        Fetch::Ready(v) => v,
        Fetch::Load(_) => panic!("loaded"),
    };
    assert_eq!(second, vec![5, 6, 7, 8, 9, 10]);
    match reader.read(&files, 100).unwrap() {
        Fetch::Ready(v) => assert!(v.is_empty()),
        Fetch::Load(_) => panic!("loaded"),
    }
}

#[test]
fn block_stream_asks_for_its_file() {
    let files = DataFiles::new(HashMap::new());
    let mut reader = BlockFileStreamReader::new(CacheAddr::from(0xA004_0000), 10);
    assert!(matches!(reader.read(&files, 4), Ok(Fetch::Load(4))));
    assert_eq!(reader.read_offset, 0);
}

#[test]
fn block_stream_past_end_is_misaligned() {
    let mut files = DataFiles::new(HashMap::new());
    files.insert(1, block_file(256, 1));
    let mut reader = BlockFileStreamReader::new(CacheAddr::from(0xA001_0000), 1000);
    assert!(matches!(reader.read(&files, 1000), Err(CCPError::DataMisalignment(_))));
}

#[test]
fn block_stream_without_block_size_is_invalid_data() {
    let mut files = DataFiles::new(HashMap::new());
    files.insert(1, block_file(36, 1));
    let mut reader = BlockFileStreamReader::new(CacheAddr::from(0x9001_0000), 10);
    assert!(matches!(reader.read(&files, 4), Err(CCPError::InvalidData(_))));
}

#[test]
fn rankings_node_is_resolved_through_files() {
    let mut entries = block_file(256, 1);
    put_u32(&mut entries, entry_offset(0) + 8, 0x9002_0001);
    let mut rankings = block_file(36, 2);
    let off = HEADER + 36;
    rankings[off..off + 8].copy_from_slice(&42u64.to_le_bytes());
    put_u32(&mut rankings, off + 24, block256(1, 0));
    put_u32(&mut rankings, off + 28, 1);
    let mut files = DataFiles::new(HashMap::new());
    files.insert(1, entries);
    let mut iter = LazyBlockFileCacheEntryIterator::new(CacheAddr::from(block256(1, 0)));
    let entry = match iter.next(&files) {
        Fetch::Ready(Some(e)) => e,
        _ => panic!("expected an entry"),
    };
    assert!(matches!(entry.get_rankings_node(&files), Ok(Fetch::Load(2))));
    files.insert(2, rankings);
    let node = match entry.get_rankings_node(&files).unwrap() {
        Fetch::Ready(n) => n.get().unwrap(),
        Fetch::Load(_) => panic!("loaded"),
    };
    assert_eq!(node.last_used.0, 42);
    assert_eq!(node.contents.value, block256(1, 0));
    assert_eq!(node.dirty, 1);
}

#[test]
fn unset_rankings_address_is_invalid_data() {
    let entry = entry_with_streams([0; 4], [0; 4]);
    let files = DataFiles::new(HashMap::new());
    assert!(matches!(entry.get_rankings_node(&files), Err(CCPError::InvalidData(_))));
}

#[test]
fn checked_walk_reports_loop_and_corrupt_address() {
    let mut data = block_file(256, 1);
    put_u32(&mut data, entry_offset(0), 0x10);
    put_u32(&mut data, entry_offset(0) + 4, block256(1, 0));
    let mut files = DataFiles::new(HashMap::new());
    files.insert(1, data);
    let mut iter = LazyBlockFileCacheEntryIterator::new(CacheAddr::from(block256(1, 0)));
    assert!(matches!(iter.next_checked(&files), Ok(Fetch::Ready(Some(_)))));
    assert!(matches!(iter.next_checked(&files), Err(CCPError::InvalidData(_))));
    assert!(matches!(iter.next_checked(&files), Ok(Fetch::Ready(None))));

    let mut iter = LazyBlockFileCacheEntryIterator::new(CacheAddr::from(block256(1, 9)));
    assert!(matches!(iter.next_checked(&files), Err(CCPError::DataMisalignment(_))));
    assert!(matches!(iter.next_checked(&files), Ok(Fetch::Ready(None))));
}

#[test]
fn chain_ends_at_next_without_flag_bit() {
    let mut data = block_file(256, 2);
    put_u32(&mut data, entry_offset(0), 0x10);
    put_u32(&mut data, entry_offset(0) + 4, block256(1, 1) & 0x7FFF_FFFF);
    put_u32(&mut data, entry_offset(1), 0x11);
    let mut files = DataFiles::new(HashMap::new());
    files.insert(1, data);
    let mut iter = LazyBlockFileCacheEntryIterator::new(CacheAddr::from(block256(1, 0)));
    assert_eq!(collect(&mut files, &mut iter), vec![0x10]);
}

#[test]
fn error_messages_name_start_and_magic() {
    let entry = LazyBlockFileCacheEntry::new(BufferSlice::new(Rc::new(vec![0u8; 300]), 120, 100));
    match entry.get() {
        Err(CCPError::DataMisalignment(m)) => assert_eq!(m, "block file cache entry at 120"),
        other => panic!("unexpected {:?}", other.map(|e| e.hash)),
    }
    let mut data = block_file(256, 1);
    put_u32(&mut data, 0, 0xDEAD_BEEF);
    match LazyBlockFile::new(Rc::new(data)).header() {
        Err(CCPError::InvalidData(m)) => assert_eq!(m, "expected block magic c104cac3, got deadbeef"),
        other => panic!("unexpected {:?}", other.map(|h| h.magic)),
    }
}

#[test]
fn external_file_names_are_padded_hex() {
    assert_eq!(external_file_name(&CacheAddr::from(0x8000_00AB)), "f_0000ab");
    assert_eq!(external_file_name(&CacheAddr::from(0x8000_0000)), "f_000000");
    assert_eq!(external_file_name(&CacheAddr::from(0x8ABC_DEF1)), "f_abcdef1");
}

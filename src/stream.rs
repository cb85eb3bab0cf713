//! Readers for the content streams of an entry: ranges of block files, or
//! standalone external files.

use vstd::prelude::*;
use crate::block_file::{BLOCK_HEADER_SIZE, DataFiles, Fetch};
use crate::bytes::copy_range;
use crate::cache_address::{CacheAddr, FileType};
use crate::entry::{BlockFileCacheEntry, LazyBlockFileCacheEntry, ENTRY_SIZE, entry_fields};
use crate::error::{CCPError, CCPResult};
use crate::text::{hex_padded, push_hex_padded};
use vstd::string::StringExecFns;

verus! {

/// Reads a stream of `size` bytes that lies in the blocks of a block file.
#[derive(Debug, Clone, Copy, PartialEq, Eq, Structural)]
pub struct BlockFileStreamReader {
    pub addr: CacheAddr,
    pub size: usize,
    pub read_offset: usize,
}

/// Where byte `read_offset` of the stream at `addr` lies in its block file.
pub open spec fn stream_position(addr: CacheAddr, read_offset: int) -> int {
    BLOCK_HEADER_SIZE + addr.spec_start_block() * addr.spec_file_type().spec_block_size().unwrap()
        + read_offset
}

/// How many bytes a read of `len` bytes takes from `reader`.
pub open spec fn read_len(reader: BlockFileStreamReader, len: int) -> int {
    if reader.read_offset >= reader.size {
        0
    } else if len < reader.size - reader.read_offset {
        len
    } else {
        reader.size - reader.read_offset
    }
}

impl BlockFileStreamReader {
    /// A reader at the start of the `size` bytes at `addr`.
    pub fn new(addr: CacheAddr, size: usize) -> (r: BlockFileStreamReader)
        ensures
            r.addr == addr,
            r.size == size,
            r.read_offset == 0,
    {
        BlockFileStreamReader { addr, size, read_offset: 0 }
    }

    /// Reads up to `len` bytes of the stream. Gives no bytes at the end of the
    /// stream; otherwise `min(len, size - read_offset)` bytes from
    /// `BLOCK_HEADER_SIZE + start_block * block_size + read_offset`, and moves past them.
    pub fn read(&mut self, files: &DataFiles, len: usize) -> (r: CCPResult<Fetch<Vec<u8>>>)
        ensures
            ({
                let pre = *old(self);
                let n = pre.addr.spec_file_number();
                let k = read_len(pre, len as int);
                let bs = pre.addr.spec_file_type().spec_block_size();
                if pre.read_offset >= pre.size {
                    (r matches Ok(Fetch::Ready(v)) && v@.len() == 0) && *final(self) == pre
                } else if !files@.contains_key(n) {
                    (r matches Ok(Fetch::Load(m)) && m == n) && *final(self) == pre
                } else if bs is None {
                    (r matches Err(CCPError::InvalidData(_))) && *final(self) == pre
                } else if stream_position(pre.addr, pre.read_offset as int) + k > files@[n].len() {
                    (r matches Err(CCPError::DataMisalignment(_))) && *final(self) == pre
                } else {
                    &&& r matches Ok(Fetch::Ready(v))
                    &&& v@ == files@[n].subrange(
                        stream_position(pre.addr, pre.read_offset as int),
                        stream_position(pre.addr, pre.read_offset as int) + k,
                    )
                    &&& *final(self) == BlockFileStreamReader { read_offset: (pre.read_offset + k) as usize, ..pre }
                }
            }),
    {
        if self.read_offset >= self.size {
            return Ok(Fetch::Ready(Vec::new()));
        }
        let file_number = self.addr.file_number();
        let data_file = match files.get(file_number) {
            None => {
                return Ok(Fetch::Load(file_number));
            },
            Some(f) => f,
        };
        let block_size = match self.addr.file_type().block_size() {
            None => {
                return Err(CCPError::InvalidData("stream address has no block size".to_string()));
            },
            Some(b) => b,
        };
        let remaining = self.size - self.read_offset;
        let to_be_read = if len < remaining {
            len
        } else {
            remaining
        };
        let start_block = self.addr.start_block() as u64;
        assert(start_block * block_size <= 0xFFFF * 4096) by (nonlinear_arith)
            requires
                start_block <= 0xFFFF,
                block_size <= 4096,
        ;
        let base = BLOCK_HEADER_SIZE as u64 + start_block * block_size;
        let buffer: &[u8] = data_file.bytes();
        let buffer_len = buffer.len() as u64;
        if base > buffer_len || self.read_offset as u64 > buffer_len - base || to_be_read as u64
            > buffer_len - base - self.read_offset as u64 {
            return Err(CCPError::DataMisalignment("stream past the end of the block file".to_string()));
        }
        let start = (base + self.read_offset as u64) as usize;
        let bytes = copy_range(buffer, start, start + to_be_read);
        self.read_offset = self.read_offset + to_be_read;
        Ok(Fetch::Ready(bytes))
    }
}

/// A read gives fewer bytes than asked for only at the end of the stream: a
/// short read leaves the reader at the end, and an empty read for a non-empty
/// request happens only there.
pub proof fn lemma_short_read_only_at_end(reader: BlockFileStreamReader, len: int)
    requires
        0 <= len,
        reader.read_offset <= reader.size,
    ensures
        0 <= read_len(reader, len) <= len,
        read_len(reader, len) < len ==> reader.read_offset + read_len(reader, len) == reader.size,
        read_len(reader, len) == 0 && len > 0 ==> reader.read_offset == reader.size,
{
}

/// The name of the external file that holds the stream at `addr`: `f_` and the
/// file number in lowercase hexadecimal, at least six digits.
pub open spec fn external_file_name_of(addr: CacheAddr) -> Seq<char> {
    "f_"@ + hex_padded(addr.spec_file_number() as nat, 6)
}

/// The name of the external file, in the cache directory, that holds the stream at `addr`.
pub fn external_file_name(addr: &CacheAddr) -> (r: String)
    ensures
        r@ == external_file_name_of(*addr),
{
    let mut name = String::from_str("f_");
    push_hex_padded(&mut name, addr.file_number() as u64, 6);
    name
}

/// A reader for one content stream of an entry.
#[derive(Debug, Clone, Copy, PartialEq, Eq, Structural)]
pub enum StreamReader {
    /// The stream lies in blocks of a block file.
    Block(BlockFileStreamReader),
    /// The stream is the whole of the external file that this address names.
    External(CacheAddr),
}

/// What the stream slot `i` of the entry `e` gives.
pub open spec fn stream_slot_post(e: BlockFileCacheEntry, i: int, r: CCPResult<StreamReader>) -> bool {
    let addr = e.data_addr@[i];
    let size = e.data_size@[i];
    let t = addr.spec_file_type();
    &&& t == FileType::External ==> r == Ok::<StreamReader, CCPError>(StreamReader::External(addr))
    &&& t.is_content_block() && size >= 0 ==> r == Ok::<StreamReader, CCPError>(
        StreamReader::Block(BlockFileStreamReader { addr, size: size as usize, read_offset: 0 }),
    )
    &&& t.is_content_block() && size < 0 ==> (r matches Err(CCPError::InvalidState(_)))
    &&& t != FileType::External && !t.is_content_block() ==> (r matches Err(CCPError::InvalidState(_)))
}

/// The reader for stream slot `i` of `entry`.
fn stream_reader(entry: &BlockFileCacheEntry, i: usize) -> (r: CCPResult<StreamReader>)
    requires
        i < 4,
    ensures
        stream_slot_post(*entry, i as int, r),
{
    let addr = entry.data_addr[i];
    let size = entry.data_size[i];
    match addr.file_type() {
        FileType::External => Ok(StreamReader::External(addr)),
        FileType::Block256 | FileType::Block1k | FileType::Block4k => {
            if size < 0 {
                Err(CCPError::InvalidState("negative stream size".to_string()))
            } else {
                Ok(StreamReader::Block(BlockFileStreamReader::new(addr, size as usize)))
            }
        },
        _ => Err(CCPError::InvalidState("stream address of a non-content file type".to_string())),
    }
}

impl LazyBlockFileCacheEntry {
    /// Readers for the entry's four content streams, one result per slot: a slot
    /// whose address is not that of content fails alone, with `InvalidState`.
    pub fn stream_readers(&self) -> (r: CCPResult<Vec<CCPResult<StreamReader>>>)
        ensures
            self@.len() < ENTRY_SIZE ==> (r matches Err(CCPError::InvalidState(_))),
            self@.len() >= ENTRY_SIZE ==> (r matches Ok(v) && v@.len() == 4 && exists|e: BlockFileCacheEntry|
                entry_fields(self@, e) && forall|i: int| 0 <= i < 4 ==> stream_slot_post(e, i, #[trigger] v@[i])),
    {
        let entry = match self.get() {
            Ok(e) => e,
            Err(_) => {
                return Err(CCPError::InvalidState("unable to read entry".to_string()));
            },
        };
        let mut readers: Vec<CCPResult<StreamReader>> = Vec::new();
        let mut i: usize = 0;
        while i < 4
            invariant
                i <= 4,
                readers@.len() == i,
                forall|j: int| 0 <= j < i ==> stream_slot_post(entry, j, #[trigger] readers@[j]),
            decreases 4 - i,
        {
            readers.push(stream_reader(&entry, i));
            i = i + 1;
        }
        Ok(readers)
    }
}

} // verus!

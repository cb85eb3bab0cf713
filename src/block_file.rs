//! Block files, the slices of them that records are read from, and the
//! registry of loaded files that addresses are resolved against.

use vstd::prelude::*;
use std::collections::HashMap;
use std::rc::Rc;
use crate::bytes::{
    le_i16, le_i32, le_u32, read_i16, read_i32, read_i32_array4, read_i32_array5, read_u32,
    read_u32_words,
};
use crate::cache_address::CacheAddr;
use crate::error::{CCPError, CCPResult};
use crate::text::{hex, push_hex};
use vstd::string::StringExecFns;

verus! {

broadcast use vstd::std_specs::hash::group_hash_axioms;

/// The magic number that opens every block file.
pub const BLOCK_MAGIC: u32 = 0xc104cac3;
/// The size of the header in front of a block file's records.
pub const BLOCK_HEADER_SIZE: usize = 8192;
/// Where the allocation bitmap starts inside the header.
pub const ALLOC_MAP_OFFSET: usize = 80;
/// The number of 32-bit words in the allocation bitmap: the rest of the header.
pub const ALLOC_MAP_WORDS: usize = 2028;

/// The outcome of a step that may need a file that is not loaded yet.
#[derive(Debug)]
pub enum Fetch<T> {
    /// The step is done and gave this value.
    Ready(T),
    /// The step needs the block file with this number; load it and repeat the step.
    Load(u32),
}

/// A view of `size` bytes of a shared buffer, starting at `start`.
pub struct BufferSlice {
    buffer: Rc<Vec<u8>>,
    start: usize,
    size: usize,
}

impl BufferSlice {
    #[verifier::type_invariant]
    spec fn in_bounds(self) -> bool {
        self.start + self.size <= self.buffer@.len()
    }

    /// The whole buffer the slice points into.
    pub closed spec fn spec_buffer(self) -> Seq<u8> {
        self.buffer@
    }

    /// Where the slice starts in its buffer.
    pub closed spec fn spec_start(self) -> nat {
        self.start as nat
    }

    /// How many bytes the slice covers.
    pub closed spec fn spec_size(self) -> nat {
        self.size as nat
    }

    /// The bytes the slice covers.
    pub open spec fn view(self) -> Seq<u8> {
        self.spec_buffer().subrange(self.spec_start() as int, (self.spec_start() + self.spec_size()) as int)
    }

    pub fn new(buffer: Rc<Vec<u8>>, start: usize, size: usize) -> (r: BufferSlice)
        requires
            start + size <= buffer@.len(),
        ensures
            r.spec_buffer() == buffer@,
            r.spec_start() == start,
            r.spec_size() == size,
    {
        BufferSlice { buffer, start, size }
    }

    /// The bytes the slice covers.
    pub fn get(&self) -> (r: &[u8])
        ensures
            r@ == self.view(),
            r@.len() == self.spec_size(),
    {
        proof {
            use_type_invariant(self);
        }
        let all: &[u8] = self.buffer.as_slice();
        let n = all.len();
        assert(self.start + self.size <= n);
        &all[self.start..self.start + self.size]
    }

    /// Where the slice starts in its buffer.
    pub fn start(&self) -> (r: usize)
        ensures
            r == self.spec_start(),
    {
        self.start
    }
}

/// The fixed header at the front of a block file.
#[derive(Debug, Clone)]
pub struct BlockFileHeader {
    pub magic: u32,
    pub version: u32,
    pub this_file: i16,
    pub next_file: i16,
    pub entry_size: i32,
    pub num_entries: i32,
    pub max_entries: i32,
    pub empty: [i32; 4],
    pub hints: [i32; 4],
    pub updating: i32,
    pub user: [i32; 5],
    /// One bit per block: set where the block is in use.
    pub allocation_map: Vec<u32>,
}

/// The message for a block file that opens with `found` instead of the magic number.
pub open spec fn bad_magic_message(found: u32) -> Seq<char> {
    "expected block magic "@ + hex(BLOCK_MAGIC as nat) + ", got "@ + hex(found as nat)
}

fn bad_magic_text(found: u32) -> (r: String)
    ensures
        r@ == bad_magic_message(found),
{
    let mut m = String::from_str("expected block magic ");
    push_hex(&mut m, BLOCK_MAGIC as u64);
    m.append(", got ");
    push_hex(&mut m, found as u64);
    m
}

/// Whether `h` holds the header fields stored at the front of `s`.
pub open spec fn header_fields(s: Seq<u8>, h: BlockFileHeader) -> bool {
    &&& h.magic == le_u32(s, 0)
    &&& h.version == le_u32(s, 4)
    &&& h.this_file == le_i16(s, 8)
    &&& h.next_file == le_i16(s, 10)
    &&& h.entry_size == le_i32(s, 12)
    &&& h.num_entries == le_i32(s, 16)
    &&& h.max_entries == le_i32(s, 20)
    &&& forall|i: int| 0 <= i < 4 ==> #[trigger] h.empty@[i] == le_i32(s, 24 + 4 * i)
    &&& forall|i: int| 0 <= i < 4 ==> #[trigger] h.hints@[i] == le_i32(s, 40 + 4 * i)
    &&& h.updating == le_i32(s, 56)
    &&& forall|i: int| 0 <= i < 5 ==> #[trigger] h.user@[i] == le_i32(s, 60 + 4 * i)
    &&& h.allocation_map@.len() == ALLOC_MAP_WORDS
    &&& forall|i: int| 0 <= i < ALLOC_MAP_WORDS ==> #[trigger] h.allocation_map@[i] == le_u32(
        s,
        ALLOC_MAP_OFFSET + 4 * i,
    )
}

/// A file's header is usable: the file holds a whole header and it opens with the magic number.
pub open spec fn header_valid(s: Seq<u8>) -> bool {
    s.len() >= BLOCK_HEADER_SIZE && le_u32(s, 0) == BLOCK_MAGIC
}

/// The record size the header of `s` gives.
pub open spec fn entry_size_of(s: Seq<u8>) -> int {
    le_i32(s, 12) as int
}

/// Where the record that `addr` names starts in a file whose records are `entry_size` long.
pub open spec fn record_offset(addr: CacheAddr, entry_size: int) -> int {
    BLOCK_HEADER_SIZE + addr.spec_start_block() * entry_size
}

/// The record that `addr` names lies within the block file `s`.
pub open spec fn record_fits(s: Seq<u8>, addr: CacheAddr) -> bool {
    &&& header_valid(s)
    &&& entry_size_of(s) >= 0
    &&& record_offset(addr, entry_size_of(s)) + entry_size_of(s) <= s.len()
}

/// What reading the header of the block file `s` gives.
pub open spec fn header_post(s: Seq<u8>, r: CCPResult<BlockFileHeader>) -> bool {
    &&& s.len() < BLOCK_HEADER_SIZE ==> (r matches Err(CCPError::DataMisalignment(_)))
    &&& s.len() >= BLOCK_HEADER_SIZE && le_u32(s, 0) != BLOCK_MAGIC ==> (r matches Err(CCPError::InvalidData(m)) && m@
        == bad_magic_message(le_u32(s, 0)))
    &&& header_valid(s) ==> (r matches Ok(h) && header_fields(s, h))
}

/// What resolving `addr` in the block file `s` gives.
pub open spec fn get_buffer_post(s: Seq<u8>, addr: CacheAddr, r: CCPResult<BufferSlice>) -> bool {
    &&& s.len() < BLOCK_HEADER_SIZE ==> (r matches Err(CCPError::DataMisalignment(_)))
    &&& s.len() >= BLOCK_HEADER_SIZE && le_u32(s, 0) != BLOCK_MAGIC ==> (r matches Err(CCPError::InvalidData(m)) && m@
        == bad_magic_message(le_u32(s, 0)))
    &&& header_valid(s) && entry_size_of(s) < 0 ==> (r matches Err(CCPError::InvalidData(_)))
    &&& header_valid(s) && entry_size_of(s) >= 0 && !record_fits(s, addr) ==> (r matches Err(
        CCPError::DataMisalignment(_),
    ))
    &&& record_fits(s, addr) ==> (r matches Ok(b) && b.spec_buffer() == s && b.spec_start()
        == record_offset(addr, entry_size_of(s)) && b.spec_size() == entry_size_of(s))
}

/// A loaded block file: a header followed by records of one fixed size.
pub struct LazyBlockFile {
    buffer: Rc<Vec<u8>>,
}

impl LazyBlockFile {
    /// The file's bytes.
    pub closed spec fn view(self) -> Seq<u8> {
        self.buffer@
    }

    pub fn new(buffer: Rc<Vec<u8>>) -> (r: LazyBlockFile)
        ensures
            r@ == buffer@,
    {
        LazyBlockFile { buffer }
    }

    /// The file's bytes.
    pub fn bytes(&self) -> (r: &[u8])
        ensures
            r@ == self@,
    {
        self.buffer.as_slice()
    }

    /// Checks the header and gives the record size it declares.
    fn entry_size(&self) -> (r: CCPResult<i32>)
        ensures
            self@.len() < BLOCK_HEADER_SIZE ==> (r matches Err(CCPError::DataMisalignment(_))),
            self@.len() >= BLOCK_HEADER_SIZE && le_u32(self@, 0) != BLOCK_MAGIC ==> (r matches Err(
                CCPError::InvalidData(m),
            ) && m@ == bad_magic_message(le_u32(self@, 0))),
            header_valid(self@) ==> r == Ok::<i32, CCPError>(le_i32(self@, 12)),
    {
        let b: &[u8] = self.buffer.as_slice();
        if b.len() < BLOCK_HEADER_SIZE {
            return Err(CCPError::DataMisalignment("block file header".to_string()));
        }
        let magic = read_u32(b, 0);
        if magic != BLOCK_MAGIC {
            return Err(CCPError::InvalidData(bad_magic_text(magic)));
        }
        Ok(read_i32(b, 12))
    }

    /// Reads the header; fails on a short file or a wrong magic number.
    pub fn header(&self) -> (r: CCPResult<BlockFileHeader>)
        ensures
            header_post(self@, r),
    {
        let entry_size = self.entry_size()?;
        let b: &[u8] = self.buffer.as_slice();
        Ok(BlockFileHeader {
            magic: BLOCK_MAGIC,
            version: read_u32(b, 4),
            this_file: read_i16(b, 8),
            next_file: read_i16(b, 10),
            entry_size,
            num_entries: read_i32(b, 16),
            max_entries: read_i32(b, 20),
            empty: read_i32_array4(b, 24),
            hints: read_i32_array4(b, 40),
            updating: read_i32(b, 56),
            user: read_i32_array5(b, 60),
            allocation_map: read_u32_words(b, ALLOC_MAP_OFFSET, ALLOC_MAP_WORDS),
        })
    }

    /// The slice holding the record that `addr` names: `entry_size` bytes at
    /// `BLOCK_HEADER_SIZE + start_block * entry_size`.
    pub fn get_buffer(&self, addr: &CacheAddr) -> (r: CCPResult<BufferSlice>)
        ensures
            get_buffer_post(self@, *addr, r),
    {
        let entry_size = self.entry_size()?;
        if entry_size < 0 {
            return Err(CCPError::InvalidData("negative block file entry size".to_string()));
        }
        let entry_size = entry_size as u64;
        let start_block = addr.start_block() as u64;
        assert(start_block * entry_size <= 0xFFFF * 0x7FFF_FFFF) by (nonlinear_arith)
            requires
                start_block <= 0xFFFF,
                entry_size <= 0x7FFF_FFFF,
        ;
        let start = BLOCK_HEADER_SIZE as u64 + start_block * entry_size;
        let len = self.buffer.len();
        if start > len as u64 || entry_size > len as u64 - start {
            return Err(CCPError::DataMisalignment("record past the end of the block file".to_string()));
        }
        Ok(BufferSlice::new(Rc::clone(&self.buffer), start as usize, entry_size as usize))
    }
}

/// A block file with a wrong magic number is rejected with `InvalidData`, both
/// when its header is read and when any record of it is looked up.
pub proof fn lemma_wrong_magic_rejected(
    s: Seq<u8>,
    addr: CacheAddr,
    h: CCPResult<BlockFileHeader>,
    b: CCPResult<BufferSlice>,
)
    requires
        s.len() >= BLOCK_HEADER_SIZE,
        le_u32(s, 0) != BLOCK_MAGIC,
        header_post(s, h),
        get_buffer_post(s, addr, b),
    ensures
        h matches Err(CCPError::InvalidData(_)),
        b matches Err(CCPError::InvalidData(_)),
        !record_fits(s, addr),
{
}

/// What resolving `addr` against the loaded files `files` gives: a request to
/// load the file it names, or what its block file gives for it.
pub open spec fn get_entry_post(
    files: Map<u32, Seq<u8>>,
    addr: CacheAddr,
    r: CCPResult<Fetch<BufferSlice>>,
) -> bool {
    let n = addr.spec_file_number();
    &&& !files.contains_key(n) ==> (r matches Ok(Fetch::Load(m)) && m == n)
    &&& files.contains_key(n) ==> match r {
        Ok(Fetch::Ready(b)) => get_buffer_post(files[n], addr, Ok(b)),
        Ok(Fetch::Load(_)) => false,
        Err(e) => get_buffer_post(files[n], addr, Err(e)),
    }
}

/// The block files loaded so far, by file number.
pub struct DataFiles {
    data_files: HashMap<u32, LazyBlockFile>,
}

impl DataFiles {
    /// The contents of each loaded file, by file number.
    pub closed spec fn view(self) -> Map<u32, Seq<u8>> {
        self.data_files@.map_values(|f: LazyBlockFile| f@)
    }

    pub fn new(data_files: HashMap<u32, LazyBlockFile>) -> (r: DataFiles)
        ensures
            r@ == data_files@.map_values(|f: LazyBlockFile| f@),
    {
        DataFiles { data_files }
    }

    /// Whether the file with this number is loaded.
    pub fn is_loaded(&self, file_number: u32) -> (r: bool)
        ensures
            r == self@.contains_key(file_number),
    {
        self.data_files.contains_key(&file_number)
    }

    /// The loaded file with this number, if it is loaded.
    pub fn get(&self, file_number: u32) -> (r: Option<&LazyBlockFile>)
        ensures
            self@.contains_key(file_number) ==> (r matches Some(f) && f@ == self@[file_number]),
            !self@.contains_key(file_number) ==> r.is_none(),
    {
        self.data_files.get(&file_number)
    }

    /// Records the contents of a file that was just read. A file that is already
    /// loaded keeps the buffer it has, so each file is read at most once.
    pub fn insert(&mut self, file_number: u32, contents: Vec<u8>)
        ensures
            final(self)@ == insert_if_absent(old(self)@, file_number, contents@),
    {
        if !self.data_files.contains_key(&file_number) {
            let ghost before = self.data_files@;
            let file = LazyBlockFile::new(Rc::new(contents));
            self.data_files.insert(file_number, file);
            assert(self@ =~= before.map_values(|f: LazyBlockFile| f@).insert(file_number, contents@));
        }
    }

    /// Resolves `addr` to the slice holding its record, or asks for its file to be loaded.
    pub fn get_entry(&self, addr: &CacheAddr) -> (r: CCPResult<Fetch<BufferSlice>>)
        ensures
            get_entry_post(self@, *addr, r),
    {
        let file_number = addr.file_number();
        match self.data_files.get(&file_number) {
            None => Ok(Fetch::Load(file_number)),
            Some(file) => {
                let slice = file.get_buffer(addr)?;
                Ok(Fetch::Ready(slice))
            },
        }
    }
}

/// The loaded files after the contents `contents` of file `n` come in: a file
/// already there is kept as it is.
pub open spec fn insert_if_absent(files: Map<u32, Seq<u8>>, n: u32, contents: Seq<u8>) -> Map<u32, Seq<u8>> {
    if files.contains_key(n) {
        files
    } else {
        files.insert(n, contents)
    }
}

/// Once a file is loaded, resolving any address in it no longer asks for a load,
/// and handing in its contents again changes nothing: each file is read once.
pub proof fn lemma_load_once(
    files: Map<u32, Seq<u8>>,
    n: u32,
    first: Seq<u8>,
    second: Seq<u8>,
    addr: CacheAddr,
    r: CCPResult<Fetch<BufferSlice>>,
)
    requires
        addr.spec_file_number() == n,
        get_entry_post(insert_if_absent(files, n, first), addr, r),
    ensures
        insert_if_absent(files, n, first).contains_key(n),
        !(r matches Ok(Fetch::Load(_))),
        insert_if_absent(insert_if_absent(files, n, first), n, second) == insert_if_absent(files, n, first),
        !files.contains_key(n) ==> insert_if_absent(files, n, first)[n] == first,
{
}

} // verus!

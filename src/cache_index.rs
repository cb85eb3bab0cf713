//! The header of the cache's index file and the summary of its LRU lists.

use vstd::prelude::*;
use crate::bytes::{le_i32, le_u32, le_u64, read_i32, read_i32_array5, read_u32, read_u64};
use crate::cache_address::CacheAddr;
use crate::error::{CCPError, CCPResult};
use crate::time::WindowsEpochMicroseconds;

verus! {

/// The magic number that opens the index file.
pub const INDEX_MAGIC: u32 = 0xc103cac3;
/// The size of the index header.
pub const INDEX_HEADER_SIZE: usize = 368;
/// Where the LRU summary starts inside the index header.
pub const LRU_OFFSET: usize = 256;

/// The format versions of the cache.
#[derive(Debug, Clone, Copy, PartialEq, Eq, Structural)]
pub enum CacheVersion {
    Version2_0,
    Version2_1,
    Version3_0,
    Unknown(u32),
}

/// The raw version number stored in the index header.
#[derive(Debug, Clone, Copy, PartialEq, Eq, Structural)]
pub struct CacheVersionId(pub u32);

/// The version a raw version number stands for.
pub open spec fn version_of(id: u32) -> CacheVersion {
    if id == 0x20000 {
        CacheVersion::Version2_0
    } else if id == 0x20001 {
        CacheVersion::Version2_1
    } else if id == 0x30000 {
        CacheVersion::Version3_0
    } else {
        CacheVersion::Unknown(id)
    }
}

impl From<CacheVersionId> for CacheVersion {
    fn from(version: CacheVersionId) -> (r: CacheVersion) {
        match version.0 {
            0x20000 => CacheVersion::Version2_0,
            0x20001 => CacheVersion::Version2_1,
            0x30000 => CacheVersion::Version3_0,
            _ => CacheVersion::Unknown(version.0),
        }
    }
}

impl vstd::std_specs::convert::FromSpecImpl<CacheVersionId> for CacheVersion {
    open spec fn obeys_from_spec() -> bool {
        true
    }

    open spec fn from_spec(version: CacheVersionId) -> CacheVersion {
        version_of(version.0)
    }
}

/// The summary of the LRU lists kept in the index header.
#[derive(Debug, Clone, Copy)]
pub struct LruData {
    pub filled: i32,
    pub sizes: [i32; 5],
    pub heads: [CacheAddr; 5],
    pub tails: [CacheAddr; 5],
    pub transaction: CacheAddr,
    pub operation: i32,
    pub operation_list: i32,
}

/// The header of the index file.
#[derive(Debug, Clone, Copy)]
pub struct IndexHeader {
    pub magic: u32,
    pub version: CacheVersionId,
    pub num_entries: i32,
    pub num_bytes: i32,
    pub last_file: i32,
    pub this_id: i32,
    pub stats: CacheAddr,
    pub table_len: i32,
    pub crash: i32,
    pub experiment: i32,
    pub create_time: WindowsEpochMicroseconds,
    pub lru: LruData,
}

/// Whether `l` holds the LRU summary stored at `off` in `s`.
pub open spec fn lru_fields(s: Seq<u8>, off: int, l: LruData) -> bool {
    &&& l.filled == le_i32(s, off + 8)
    &&& forall|i: int| 0 <= i < 5 ==> #[trigger] l.sizes@[i] == le_i32(s, off + 12 + 4 * i)
    &&& forall|i: int| 0 <= i < 5 ==> (#[trigger] l.heads@[i]).value == le_u32(s, off + 32 + 4 * i)
    &&& forall|i: int| 0 <= i < 5 ==> (#[trigger] l.tails@[i]).value == le_u32(s, off + 52 + 4 * i)
    &&& l.transaction.value == le_u32(s, off + 72)
    &&& l.operation == le_i32(s, off + 76)
    &&& l.operation_list == le_i32(s, off + 80)
}

/// Whether `h` holds the index header stored at the front of `s`.
pub open spec fn index_header_fields(s: Seq<u8>, h: IndexHeader) -> bool {
    &&& h.magic == le_u32(s, 0)
    &&& h.version.0 == le_u32(s, 4)
    &&& h.num_entries == le_i32(s, 8)
    &&& h.num_bytes == le_i32(s, 12)
    &&& h.last_file == le_i32(s, 16)
    &&& h.this_id == le_i32(s, 20)
    &&& h.stats.value == le_u32(s, 24)
    &&& h.table_len == le_i32(s, 28)
    &&& h.crash == le_i32(s, 32)
    &&& h.experiment == le_i32(s, 36)
    &&& h.create_time.0 == le_u64(s, 40)
    &&& lru_fields(s, LRU_OFFSET as int, h.lru)
}

fn read_addr_array5(b: &[u8], off: usize) -> (r: [CacheAddr; 5])
    requires
        off + 20 <= b@.len(),
    ensures
        forall|i: int| 0 <= i < 5 ==> (#[trigger] r@[i]).value == le_u32(b@, off + 4 * i),
{
    let len = b.len();
    assert(off + 20 <= len);
    let r = [
        CacheAddr { value: read_u32(b, off) },
        CacheAddr { value: read_u32(b, off + 4) },
        CacheAddr { value: read_u32(b, off + 8) },
        CacheAddr { value: read_u32(b, off + 12) },
        CacheAddr { value: read_u32(b, off + 16) },
    ];
    assert forall|i: int| 0 <= i < 5 implies (#[trigger] r@[i]).value == le_u32(b@, off + 4 * i) by {
        assert(i == 0 || i == 1 || i == 2 || i == 3 || i == 4);
    }
    r
}

impl IndexHeader {
    /// Reads the index header at the front of `b`. Fails with `DataMisalignment`
    /// when `b` is shorter than the header, and with `InvalidData` when the magic
    /// number is wrong.
    pub fn parse(b: &[u8]) -> (r: CCPResult<IndexHeader>)
        ensures
            b@.len() < INDEX_HEADER_SIZE ==> (r matches Err(CCPError::DataMisalignment(_))),
            b@.len() >= INDEX_HEADER_SIZE && le_u32(b@, 0) != INDEX_MAGIC ==> (r matches Err(
                CCPError::InvalidData(_),
            )),
            b@.len() >= INDEX_HEADER_SIZE && le_u32(b@, 0) == INDEX_MAGIC ==> (r matches Ok(h)
                && index_header_fields(b@, h)),
    {
        if b.len() < INDEX_HEADER_SIZE {
            return Err(CCPError::DataMisalignment("index header".to_string()));
        }
        let magic = read_u32(b, 0);
        if magic != INDEX_MAGIC {
            return Err(CCPError::InvalidData("unexpected index magic".to_string()));
        }
        let lru = LruData {
            filled: read_i32(b, LRU_OFFSET + 8),
            sizes: read_i32_array5(b, LRU_OFFSET + 12),
            heads: read_addr_array5(b, LRU_OFFSET + 32),
            tails: read_addr_array5(b, LRU_OFFSET + 52),
            transaction: CacheAddr { value: read_u32(b, LRU_OFFSET + 72) },
            operation: read_i32(b, LRU_OFFSET + 76),
            operation_list: read_i32(b, LRU_OFFSET + 80),
        };
        Ok(IndexHeader {
            magic,
            version: CacheVersionId(read_u32(b, 4)),
            num_entries: read_i32(b, 8),
            num_bytes: read_i32(b, 12),
            last_file: read_i32(b, 16),
            this_id: read_i32(b, 20),
            stats: CacheAddr { value: read_u32(b, 24) },
            table_len: read_i32(b, 28),
            crash: read_i32(b, 32),
            experiment: read_i32(b, 36),
            create_time: WindowsEpochMicroseconds(read_u64(b, 40)),
            lru,
        })
    }

    /// The format version the header names.
    pub fn cache_version(&self) -> (r: CacheVersion)
        ensures
            r == version_of(self.version.0),
    {
        CacheVersion::from(self.version)
    }
}

} // verus!

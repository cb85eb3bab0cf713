//! The packed 32-bit cache address and the file types it can name.

use vstd::prelude::*;

verus! {

const INITIALIZED_MASK: u32 = 0x8000_0000;
const FILE_TYPE_MASK: u32 = 0x7000_0000;
const FILE_TYPE_OFFSET: u32 = 28;
const FILE_NAME_MASK: u32 = 0x0FFF_FFFF;
const FILE_SELECTOR_MASK: u32 = 0x00FF_0000;
const FILE_SELECTOR_OFFSET: u32 = 16;
const START_BLOCK_MASK: u32 = 0x0000_FFFF;
const NUM_BLOCKS_MASK: u32 = 0x0300_0000;
const NUM_BLOCKS_OFFSET: u32 = 24;

/// The kind of file an address points into, taken from bits 28 to 30.
#[derive(Debug, Clone, Copy, PartialEq, Eq, Structural)]
pub enum FileType {
    External,
    Rankings,
    Block256,
    Block1k,
    Block4k,
    BlockFiles,
    BlockEntries,
    BlockEvicted,
}

impl FileType {
    /// The three-bit tag that stands for this file type in an address.
    pub open spec fn tag(self) -> u32 {
        match self {
            FileType::External => 0,
            FileType::Rankings => 1,
            FileType::Block256 => 2,
            FileType::Block1k => 3,
            FileType::Block4k => 4,
            FileType::BlockFiles => 5,
            FileType::BlockEntries => 6,
            FileType::BlockEvicted => 7,
        }
    }

    /// The file type that a three-bit tag stands for.
    pub open spec fn from_tag(tag: u32) -> FileType {
        if tag == 0 {
            FileType::External
        } else if tag == 1 {
            FileType::Rankings
        } else if tag == 2 {
            FileType::Block256
        } else if tag == 3 {
            FileType::Block1k
        } else if tag == 4 {
            FileType::Block4k
        } else if tag == 5 {
            FileType::BlockFiles
        } else if tag == 6 {
            FileType::BlockEntries
        } else {
            FileType::BlockEvicted
        }
    }

    /// Whether this type names a block file holding content blocks.
    pub open spec fn is_content_block(self) -> bool {
        self == FileType::Block256 || self == FileType::Block1k || self == FileType::Block4k
    }

    /// The size in bytes of one block of a content block file.
    pub open spec fn spec_block_size(self) -> Option<u64> {
        match self {
            FileType::Block256 => Some(256),
            FileType::Block1k => Some(1024),
            FileType::Block4k => Some(4096),
            _ => None,
        }
    }

    /// The size in bytes of one block, for the three content block types.
    pub fn block_size(&self) -> (r: Option<u64>)
        ensures
            r == self.spec_block_size(),
    {
        match self {
            FileType::Block256 => Some(256),
            FileType::Block1k => Some(1024),
            FileType::Block4k => Some(4096),
            _ => None,
        }
    }
}

/// A packed address into the cache's files.
#[derive(Debug, Clone, Copy, PartialEq, Eq, Structural)]
pub struct CacheAddr {
    pub value: u32,
}

/// Bits 28 to 30 of a raw address.
pub open spec fn type_tag(value: u32) -> u32 {
    (value / 0x1000_0000) % 8
}

/// Bits 0 to 27 of a raw address.
pub open spec fn file_name_bits(value: u32) -> u32 {
    value % 0x1000_0000
}

/// Bits 16 to 23 of a raw address.
pub open spec fn selector_bits(value: u32) -> u32 {
    (value / 0x1_0000) % 0x100
}

/// Bits 0 to 15 of a raw address.
pub open spec fn start_block_bits(value: u32) -> u32 {
    value % 0x1_0000
}

/// Bits 24 and 25 of a raw address: the block count minus one.
pub open spec fn count_bits(value: u32) -> u32 {
    (value / 0x100_0000) % 4
}

impl CacheAddr {
    /// Bit 31 is the initialized flag.
    pub open spec fn spec_is_initialized(self) -> bool {
        self.value >= 0x8000_0000
    }

    pub open spec fn spec_file_type(self) -> FileType {
        FileType::from_tag(type_tag(self.value))
    }

    pub open spec fn spec_file_number(self) -> u32 {
        if type_tag(self.value) == 0 {
            file_name_bits(self.value)
        } else {
            selector_bits(self.value)
        }
    }

    pub open spec fn spec_start_block(self) -> u32 {
        start_block_bits(self.value)
    }

    pub open spec fn spec_num_blocks(self) -> int {
        count_bits(self.value) + 1
    }

    /// Wraps a raw 32-bit value.
    pub fn from(value: u32) -> (r: CacheAddr)
        ensures
            r.value == value,
    {
        CacheAddr { value }
    }

    /// An address is set when its initialized flag, bit 31, is set.
    pub fn is_initialized(&self) -> (r: bool)
        ensures
            r == self.spec_is_initialized(),
    {
        let v = self.value;
        assert((v & 0x8000_0000u32 != 0u32) == (v >= 0x8000_0000u32)) by (bit_vector);
        v & INITIALIZED_MASK != 0
    }

    /// The file type named by bits 28 to 30.
    pub fn file_type(&self) -> (r: FileType)
        ensures
            r == self.spec_file_type(),
            r.tag() == type_tag(self.value),
    {
        let v = self.value;
        let tag = (v & FILE_TYPE_MASK) >> FILE_TYPE_OFFSET;
        assert((v & 0x7000_0000u32) >> 28u32 == (v / 0x1000_0000u32) % 8u32) by (bit_vector);
        match tag {
            0 => FileType::External,
            1 => FileType::Rankings,
            2 => FileType::Block256,
            3 => FileType::Block1k,
            4 => FileType::Block4k,
            5 => FileType::BlockFiles,
            6 => FileType::BlockEntries,
            _ => FileType::BlockEvicted,
        }
    }

    /// The file number: the low 28 bits for an external file, else the selector in bits 16 to 23.
    pub fn file_number(&self) -> (r: u32)
        ensures
            r == self.spec_file_number(),
    {
        let v = self.value;
        assert((v & 0x0FFF_FFFFu32) == v % 0x1000_0000u32) by (bit_vector);
        assert((v & 0x00FF_0000u32) >> 16u32 == (v / 0x1_0000u32) % 0x100u32) by (bit_vector);
        match self.file_type() {
            FileType::External => v & FILE_NAME_MASK,
            _ => (v & FILE_SELECTOR_MASK) >> FILE_SELECTOR_OFFSET,
        }
    }

    /// The index of the first block, in bits 0 to 15.
    pub fn start_block(&self) -> (r: u32)
        ensures
            r == self.spec_start_block(),
    {
        let v = self.value;
        assert((v & 0x0000_FFFFu32) == v % 0x1_0000u32) by (bit_vector);
        v & START_BLOCK_MASK
    }

    /// The number of blocks, one more than the count in bits 24 and 25.
    pub fn num_blocks(&self) -> (r: u32)
        ensures
            r == self.spec_num_blocks(),
            1 <= r <= 4,
    {
        let v = self.value;
        assert((v & 0x0300_0000u32) >> 24u32 == (v / 0x100_0000u32) % 4u32) by (bit_vector);
        ((v & NUM_BLOCKS_MASK) >> NUM_BLOCKS_OFFSET) + 1
    }
}

/// Decoding a raw address never fails: its type tag is one of eight values, the
/// file type it decodes to carries that same tag back, and the address counts as
/// unset exactly when its initialized flag (bit 31) is clear, as it is for zero.
pub proof fn lemma_decode_total(a: CacheAddr)
    ensures
        type_tag(a.value) < 8,
        a.spec_file_type().tag() == type_tag(a.value),
        FileType::from_tag(a.spec_file_type().tag()) == a.spec_file_type(),
        !a.spec_is_initialized() <==> a.value < 0x8000_0000,
        a.value == 0 ==> !a.spec_is_initialized(),
{
}

/// Every file type survives a trip through its tag.
pub proof fn lemma_tag_round_trip(t: FileType)
    ensures
        t.tag() < 8,
        FileType::from_tag(t.tag()) == t,
{
}

/// The file number of an external address is its low 28 bits; for any other type
/// it is the selector in bits 16 to 23.
pub proof fn lemma_file_number_fields(a: CacheAddr)
    ensures
        a.spec_file_type() == FileType::External ==> a.spec_file_number() == a.value % 0x1000_0000,
        a.spec_file_type() != FileType::External ==> a.spec_file_number() == (a.value / 0x1_0000) % 0x100,
{
}

/// A block count field of `0b11` decodes to four blocks.
pub proof fn lemma_full_count_is_four_blocks(a: CacheAddr)
    requires
        count_bits(a.value) == 3,
    ensures
        a.spec_num_blocks() == 4,
{
}

} // verus!

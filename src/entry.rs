//! The records stored in block files: cache entries and rankings nodes, and the
//! lazy views that parse them out of a buffer slice.

use vstd::prelude::*;
use crate::block_file::{
    BufferSlice, DataFiles, Fetch, entry_size_of, get_buffer_post, get_entry_post, record_fits,
    record_offset,
};
use crate::bytes::{copy_range, le_i32, le_u32, le_u64, read_i32, read_u32, read_u64};
use crate::cache_address::CacheAddr;
use crate::error::{CCPError, CCPResult};
use crate::text::{decimal, push_decimal};
use vstd::string::StringExecFns;
use crate::time::WindowsEpochMicroseconds;

verus! {

/// The size of a cache entry record.
pub const ENTRY_SIZE: usize = 256;
/// The size of a rankings node record.
pub const RANKINGS_NODE_SIZE: usize = 36;
/// The size of the key buffer inside an entry.
pub const INLINE_KEY_SIZE: usize = 160;
/// Where the key buffer starts inside an entry.
const INLINE_KEY_OFFSET: usize = 96;

/// A key that is stored inside its entry, padded with NUL bytes.
#[derive(Debug, Clone)]
pub struct InlineCacheKey {
    key: Vec<u8>,
}

/// `s` without the NUL bytes at its end.
pub open spec fn trim_trailing_nuls(s: Seq<u8>) -> Seq<u8>
    decreases s.len(),
{
    if s.len() > 0 && s.last() == 0 {
        trim_trailing_nuls(s.drop_last())
    } else {
        s
    }
}

impl InlineCacheKey {
    /// The whole key buffer, padding included.
    pub closed spec fn view(self) -> Seq<u8> {
        self.key@
    }

    /// The whole key buffer, padding included.
    pub fn raw(&self) -> (r: &[u8])
        ensures
            r@ == self@,
    {
        self.key.as_slice()
    }

    /// The key without its NUL padding.
    pub fn trimmed(&self) -> (r: Vec<u8>)
        ensures
            r@ == trim_trailing_nuls(self@),
    {
        let b: &[u8] = self.key.as_slice();
        let mut end: usize = b.len();
        assert(b@.subrange(0, end as int) =~= b@);
        while end > 0 && b[end - 1] == 0
            invariant
                end <= b@.len(),
                trim_trailing_nuls(b@.subrange(0, end as int)) == trim_trailing_nuls(b@),
            decreases end,
        {
            assert(b@.subrange(0, end as int).drop_last() =~= b@.subrange(0, end - 1));
            end = end - 1;
        }
        assert(trim_trailing_nuls(b@.subrange(0, end as int)) == b@.subrange(0, end as int));
        copy_range(b, 0, end)
    }
}

/// The state an entry is in.
#[derive(Debug, Clone, Copy, PartialEq, Eq, Structural)]
pub enum BlockCacheEntryState {
    Normal,
    Evicted,
    Doomed,
    Unknown,
}

/// The state that a raw state value stands for; values past the known ones are `Unknown`.
pub open spec fn state_of(value: i32) -> BlockCacheEntryState {
    if value == 0 {
        BlockCacheEntryState::Normal
    } else if value == 1 {
        BlockCacheEntryState::Evicted
    } else if value == 2 {
        BlockCacheEntryState::Doomed
    } else {
        BlockCacheEntryState::Unknown
    }
}

impl From<i32> for BlockCacheEntryState {
    fn from(value: i32) -> (r: BlockCacheEntryState) {
        match value {
            0 => BlockCacheEntryState::Normal,
            1 => BlockCacheEntryState::Evicted,
            2 => BlockCacheEntryState::Doomed,
            _ => BlockCacheEntryState::Unknown,
        }
    }
}

impl vstd::std_specs::convert::FromSpecImpl<i32> for BlockCacheEntryState {
    open spec fn obeys_from_spec() -> bool {
        true
    }

    open spec fn from_spec(value: i32) -> BlockCacheEntryState {
        state_of(value)
    }
}

/// The raw state value of an entry, as stored.
#[derive(Debug, Clone, Copy, PartialEq, Eq, Structural)]
pub struct BlockCacheEntryStateField(pub i32);

impl BlockCacheEntryStateField {
    /// The state the raw value stands for; it never fails.
    pub fn kind(&self) -> (r: BlockCacheEntryState)
        ensures
            r == state_of(self.0),
    {
        BlockCacheEntryState::from(self.0)
    }
}

/// A cache entry: the record that heads each logical entry of the cache.
#[derive(Debug, Clone)]
pub struct BlockFileCacheEntry {
    pub hash: u32,
    pub next: CacheAddr,
    pub rankings_node: CacheAddr,
    pub reuse_count: i32,
    pub refetch_count: i32,
    pub state: BlockCacheEntryStateField,
    pub creation_time: WindowsEpochMicroseconds,
    pub key_len: i32,
    pub long_key: CacheAddr,
    pub data_size: [i32; 4],
    pub data_addr: [CacheAddr; 4],
    pub flags: u32,
    pub self_hash: u32,
    pub key: InlineCacheKey,
}

/// Whether `e` holds the fields of the entry record at the front of `s`.
pub open spec fn entry_fields(s: Seq<u8>, e: BlockFileCacheEntry) -> bool {
    &&& e.hash == le_u32(s, 0)
    &&& e.next.value == le_u32(s, 4)
    &&& e.rankings_node.value == le_u32(s, 8)
    &&& e.reuse_count == le_i32(s, 12)
    &&& e.refetch_count == le_i32(s, 16)
    &&& e.state.0 == le_i32(s, 20)
    &&& e.creation_time.0 == le_u64(s, 24)
    &&& e.key_len == le_i32(s, 32)
    &&& e.long_key.value == le_u32(s, 36)
    &&& forall|i: int| 0 <= i < 4 ==> #[trigger] e.data_size@[i] == le_i32(s, 40 + 4 * i)
    &&& forall|i: int| 0 <= i < 4 ==> (#[trigger] e.data_addr@[i]).value == le_u32(s, 56 + 4 * i)
    &&& e.flags == le_u32(s, 72)
    &&& e.self_hash == le_u32(s, 92)
    &&& e.key@ == s.subrange(96, 256)
}

/// Parses an entry record from the front of `b`.
fn parse_entry(b: &[u8]) -> (e: BlockFileCacheEntry)
    requires
        b@.len() >= ENTRY_SIZE,
    ensures
        entry_fields(b@, e),
{
    let e = BlockFileCacheEntry {
        hash: read_u32(b, 0),
        next: CacheAddr { value: read_u32(b, 4) },
        rankings_node: CacheAddr { value: read_u32(b, 8) },
        reuse_count: read_i32(b, 12),
        refetch_count: read_i32(b, 16),
        state: BlockCacheEntryStateField(read_i32(b, 20)),
        creation_time: WindowsEpochMicroseconds(read_u64(b, 24)),
        key_len: read_i32(b, 32),
        long_key: CacheAddr { value: read_u32(b, 36) },
        data_size: [read_i32(b, 40), read_i32(b, 44), read_i32(b, 48), read_i32(b, 52)],
        data_addr: [
            CacheAddr { value: read_u32(b, 56) },
            CacheAddr { value: read_u32(b, 60) },
            CacheAddr { value: read_u32(b, 64) },
            CacheAddr { value: read_u32(b, 68) },
        ],
        flags: read_u32(b, 72),
        self_hash: read_u32(b, 92),
        key: InlineCacheKey { key: copy_range(b, INLINE_KEY_OFFSET, ENTRY_SIZE) },
    };
    assert forall|i: int| 0 <= i < 4 implies #[trigger] e.data_size@[i] == le_i32(b@, 40 + 4 * i) by {
        assert(i == 0 || i == 1 || i == 2 || i == 3);
    }
    assert forall|i: int| 0 <= i < 4 implies (#[trigger] e.data_addr@[i]).value == le_u32(b@, 56 + 4 * i) by {
        assert(i == 0 || i == 1 || i == 2 || i == 3);
    }
    e
}

/// A rankings node: the entry's place in the cache's least-recently-used lists.
#[derive(Debug, Clone, Copy)]
pub struct RankingsNode {
    pub last_used: WindowsEpochMicroseconds,
    pub last_modified: WindowsEpochMicroseconds,
    pub next: CacheAddr,
    pub prev: CacheAddr,
    pub contents: CacheAddr,
    pub dirty: i32,
    pub self_hash: u32,
}

/// Whether `n` holds the fields of the rankings node at the front of `s`.
pub open spec fn rankings_fields(s: Seq<u8>, n: RankingsNode) -> bool {
    &&& n.last_used.0 == le_u64(s, 0)
    &&& n.last_modified.0 == le_u64(s, 8)
    &&& n.next.value == le_u32(s, 16)
    &&& n.prev.value == le_u32(s, 20)
    &&& n.contents.value == le_u32(s, 24)
    &&& n.dirty == le_i32(s, 28)
    &&& n.self_hash == le_u32(s, 32)
}

/// A rankings node that is parsed when asked for.
pub struct LazyRankingsNode {
    buffer: BufferSlice,
}

impl LazyRankingsNode {
    /// The bytes the node is read from.
    pub open spec fn view(self) -> Seq<u8> {
        self.spec_buffer()@
    }

    pub closed spec fn spec_buffer(self) -> BufferSlice {
        self.buffer
    }

    /// Parses the node; fails when the slice is shorter than a node.
    pub fn get(&self) -> (r: CCPResult<RankingsNode>)
        ensures
            self@.len() < RANKINGS_NODE_SIZE ==> (r matches Err(CCPError::DataMisalignment(m)) && m@
                == "rankings node at "@ + decimal(self.spec_buffer().spec_start())),
            self@.len() >= RANKINGS_NODE_SIZE ==> (r matches Ok(n) && rankings_fields(self@, n)),
    {
        let b: &[u8] = self.buffer.get();
        if b.len() < RANKINGS_NODE_SIZE {
            let mut m = String::from_str("rankings node at ");
            push_decimal(&mut m, self.buffer.start() as u64);
            return Err(CCPError::DataMisalignment(m));
        }
        Ok(RankingsNode {
            last_used: WindowsEpochMicroseconds(read_u64(b, 0)),
            last_modified: WindowsEpochMicroseconds(read_u64(b, 8)),
            next: CacheAddr { value: read_u32(b, 16) },
            prev: CacheAddr { value: read_u32(b, 20) },
            contents: CacheAddr { value: read_u32(b, 24) },
            dirty: read_i32(b, 28),
            self_hash: read_u32(b, 32),
        })
    }
}

/// The address a rankings node is looked up at, for an entry whose bytes are `s`.
pub open spec fn rankings_addr_of(s: Seq<u8>) -> CacheAddr {
    CacheAddr { value: le_u32(s, 8) }
}

/// The address that follows an entry whose bytes are `s` in its chain, if the
/// entry can be parsed and its `next` address has its initialized flag set.
pub open spec fn next_of(s: Seq<u8>) -> Option<CacheAddr> {
    if s.len() >= ENTRY_SIZE && (CacheAddr { value: le_u32(s, 4) }).spec_is_initialized() {
        Some(CacheAddr { value: le_u32(s, 4) })
    } else {
        None
    }
}

/// A cache entry that is parsed when asked for.
pub struct LazyBlockFileCacheEntry {
    buffer: BufferSlice,
}

impl LazyBlockFileCacheEntry {
    /// The bytes the entry is read from.
    pub open spec fn view(self) -> Seq<u8> {
        self.spec_buffer()@
    }

    pub closed spec fn spec_buffer(self) -> BufferSlice {
        self.buffer
    }

    pub fn new(buffer: BufferSlice) -> (r: LazyBlockFileCacheEntry)
        ensures
            r.spec_buffer() == buffer,
    {
        LazyBlockFileCacheEntry { buffer }
    }

    /// Parses the entry; fails when the slice is shorter than an entry.
    pub fn get(&self) -> (r: CCPResult<BlockFileCacheEntry>)
        ensures
            self@.len() < ENTRY_SIZE ==> (r matches Err(CCPError::DataMisalignment(m)) && m@
                == "block file cache entry at "@ + decimal(self.spec_buffer().spec_start())),
            self@.len() >= ENTRY_SIZE ==> (r matches Ok(e) && entry_fields(self@, e)),
    {
        let b: &[u8] = self.buffer.get();
        if b.len() < ENTRY_SIZE {
            let mut m = String::from_str("block file cache entry at ");
            push_decimal(&mut m, self.buffer.start() as u64);
            return Err(CCPError::DataMisalignment(m));
        }
        Ok(parse_entry(b))
    }

    /// Finds the entry's rankings node in the loaded files. Fails with
    /// `InvalidData` when the entry's rankings address is not set, and otherwise
    /// resolves that address like any other.
    pub fn get_rankings_node(&self, files: &DataFiles) -> (r: CCPResult<Fetch<LazyRankingsNode>>)
        ensures
            self@.len() < ENTRY_SIZE ==> (r matches Err(CCPError::DataMisalignment(_))),
            self@.len() >= ENTRY_SIZE && !rankings_addr_of(self@).spec_is_initialized() ==> (r matches Err(
                CCPError::InvalidData(_),
            )),
            self@.len() >= ENTRY_SIZE && rankings_addr_of(self@).spec_is_initialized() ==> get_entry_post(
                files@,
                rankings_addr_of(self@),
                match r {
                    Ok(Fetch::Ready(node)) => Ok(Fetch::Ready(node.spec_buffer())),
                    Ok(Fetch::Load(n)) => Ok(Fetch::Load(n)),
                    Err(e) => Err(e),
                },
            ),
    {
        let cache_entry = self.get()?;
        if !cache_entry.rankings_node.is_initialized() {
            return Err(CCPError::InvalidData("rankings node not initialized".to_string()));
        }
        match files.get_entry(&cache_entry.rankings_node)? {
            Fetch::Ready(buffer) => Ok(Fetch::Ready(LazyRankingsNode { buffer })),
            Fetch::Load(n) => Ok(Fetch::Load(n)),
        }
    }
}

/// Walks a chain of entries, following each entry's `next` address from one
/// block file to another. It stops at an unset address, at an address that cannot
/// be resolved or parsed, and at an address it has already visited, so a cyclic
/// chain ends too.
pub struct LazyBlockFileCacheEntryIterator {
    current: Option<CacheAddr>,
    visited: Vec<u32>,
}

impl LazyBlockFileCacheEntryIterator {
    /// The address of the entry that the next step yields, if any.
    pub closed spec fn spec_current(self) -> Option<CacheAddr> {
        self.current
    }

    /// The raw addresses of the entries yielded so far.
    pub closed spec fn spec_visited(self) -> Seq<u32> {
        self.visited@
    }

    /// Starts a walk at `start`.
    pub fn new(start: CacheAddr) -> (r: LazyBlockFileCacheEntryIterator)
        ensures
            r.spec_current() == Some(start),
            r.spec_visited() == Seq::<u32>::empty(),
    {
        LazyBlockFileCacheEntryIterator { current: Some(start), visited: Vec::new() }
    }

    /// One step of the walk that reports why it stops early. Gives
    /// `Ready(Some(entry))` for the next entry, `Ready(None)` at the end of the
    /// chain, or `Load(n)` when block file `n` must be loaded first (the walk is
    /// then left as it was). An address already visited fails with `InvalidData`,
    /// one that cannot be resolved with the error resolving it gave; the walk is
    /// over after either.
    pub fn next_checked(&mut self, files: &DataFiles) -> (r: CCPResult<Fetch<Option<LazyBlockFileCacheEntry>>>)
        ensures
            next_checked_post(*old(self), files@, *final(self), r),
    {
        let addr = match self.current {
            None => {
                return Ok(Fetch::Ready(None));
            },
            Some(addr) => addr,
        };
        if contains_value(&self.visited, addr.value) {
            self.current = None;
            return Err(CCPError::InvalidData("entry chain loops back on itself".to_string()));
        }
        let slice = match files.get_entry(&addr) {
            Err(e) => {
                self.current = None;
                return Err(e);
            },
            Ok(Fetch::Load(n)) => {
                return Ok(Fetch::Load(n));
            },
            Ok(Fetch::Ready(slice)) => slice,
        };
        self.visited.push(addr.value);
        let entry = LazyBlockFileCacheEntry::new(slice);
        self.current = None;
        if let Ok(parsed) = entry.get() {
            if parsed.next.is_initialized() {
                self.current = Some(parsed.next);
            }
        }
        Ok(Fetch::Ready(Some(entry)))
    }

    /// One step of the walk. Gives `Ready(Some(entry))` for the next entry,
    /// `Ready(None)` once the walk is over, or `Load(n)` when block file `n` must be
    /// loaded first; the step then leaves the walk as it was. Where the checked
    /// step fails, the walk simply ends, so one corrupt entry ends a listing
    /// without aborting it.
    pub fn next(&mut self, files: &DataFiles) -> (r: Fetch<Option<LazyBlockFileCacheEntry>>)
        ensures
            next_post(*old(self), files@, *final(self), r),
    {
        let c = self.next_checked(files);
        let r = match c {
            Ok(step) => step,
            Err(_) => Fetch::Ready(None),
        };
        assert(next_checked_post(*old(self), files@, *self, c) && r == settle(c));
        r
    }
}

/// What one checked step of a walk in state `pre` over the loaded files `files`
/// does: `post` is the walk after it, `r` what it gives.
pub open spec fn next_checked_post(
    pre: LazyBlockFileCacheEntryIterator,
    files: Map<u32, Seq<u8>>,
    post: LazyBlockFileCacheEntryIterator,
    r: CCPResult<Fetch<Option<LazyBlockFileCacheEntry>>>,
) -> bool {
    match pre.spec_current() {
        None => r == Ok::<Fetch<Option<LazyBlockFileCacheEntry>>, CCPError>(Fetch::Ready(None)) && post == pre,
        Some(a) => {
            let n = a.spec_file_number();
            if pre.spec_visited().contains(a.value) {
                &&& r matches Err(CCPError::InvalidData(_))
                &&& post.spec_current() is None
                &&& post.spec_visited() == pre.spec_visited()
            } else if !files.contains_key(n) {
                r == Ok::<Fetch<Option<LazyBlockFileCacheEntry>>, CCPError>(Fetch::Load(n)) && post == pre
            } else if !record_fits(files[n], a) {
                &&& r matches Err(e)
                &&& get_buffer_post(files[n], a, Err(e))
                &&& post.spec_current() is None
                &&& post.spec_visited() == pre.spec_visited()
            } else {
                &&& r matches Ok(Fetch::Ready(Some(e)))
                &&& e@ == files[n].subrange(
                    record_offset(a, entry_size_of(files[n])),
                    record_offset(a, entry_size_of(files[n])) + entry_size_of(files[n]),
                )
                &&& post.spec_current() == next_of(e@)
                &&& post.spec_visited() == pre.spec_visited().push(a.value)
            }
        },
    }
}

/// An entry whose `next` address is unset is the last one: the step after the
/// one that yields it ends the walk.
pub proof fn lemma_last_entry_ends_walk(
    pre: LazyBlockFileCacheEntryIterator,
    files: Map<u32, Seq<u8>>,
    mid: LazyBlockFileCacheEntryIterator,
    first: Fetch<Option<LazyBlockFileCacheEntry>>,
    post: LazyBlockFileCacheEntryIterator,
    second: Fetch<Option<LazyBlockFileCacheEntry>>,
)
    requires
        next_post(pre, files, mid, first),
        next_post(mid, files, post, second),
        first matches Fetch::Ready(Some(e)) && next_of(e@) is None,
    ensures
        second == Fetch::<Option<LazyBlockFileCacheEntry>>::Ready(None),
        post.spec_current() is None,
{
}

/// The walk follows `next` addresses across block files: after an entry whose
/// `next` names a record in another loaded file, the following step yields that
/// record, wherever it lies.
pub proof fn lemma_walk_follows_next(
    pre: LazyBlockFileCacheEntryIterator,
    files: Map<u32, Seq<u8>>,
    mid: LazyBlockFileCacheEntryIterator,
    first: Fetch<Option<LazyBlockFileCacheEntry>>,
    post: LazyBlockFileCacheEntryIterator,
    second: Fetch<Option<LazyBlockFileCacheEntry>>,
    b: CacheAddr,
)
    requires
        next_post(pre, files, mid, first),
        next_post(mid, files, post, second),
        first matches Fetch::Ready(Some(e)) && next_of(e@) == Some(b),
        !mid.spec_visited().contains(b.value),
        files.contains_key(b.spec_file_number()),
        record_fits(files[b.spec_file_number()], b),
    ensures
        second matches Fetch::Ready(Some(e2)) && e2@ == files[b.spec_file_number()].subrange(
            record_offset(b, entry_size_of(files[b.spec_file_number()])),
            record_offset(b, entry_size_of(files[b.spec_file_number()])) + entry_size_of(
                files[b.spec_file_number()],
            ),
        ),
{
}

/// A walk never yields the same address twice: each step that yields an entry
/// adds an address that was not yet visited, so the visited addresses stay distinct.
pub proof fn lemma_walk_visits_once(
    pre: LazyBlockFileCacheEntryIterator,
    files: Map<u32, Seq<u8>>,
    post: LazyBlockFileCacheEntryIterator,
    r: Fetch<Option<LazyBlockFileCacheEntry>>,
)
    requires
        next_post(pre, files, post, r),
        pre.spec_visited().no_duplicates(),
    ensures
        post.spec_visited().no_duplicates(),
        r matches Fetch::Ready(Some(_)) ==> post.spec_visited().len() == pre.spec_visited().len() + 1,
{
}

/// Whether `x` is among the values of `v`.
fn contains_value(v: &Vec<u32>, x: u32) -> (r: bool)
    ensures
        r == v@.contains(x),
{
    let mut i: usize = 0;
    while i < v.len()
        invariant
            i <= v@.len(),
            forall|j: int| 0 <= j < i ==> v@[j] != x,
        decreases v@.len() - i,
    {
        if v[i] == x {
            assert(v@[i as int] == x);
            return true;
        }
        i = i + 1;
    }
    false
}

/// What a plain step gives for the outcome `c` of a checked step: any failure
/// ends the walk.
pub open spec fn settle(c: CCPResult<Fetch<Option<LazyBlockFileCacheEntry>>>) -> Fetch<
    Option<LazyBlockFileCacheEntry>,
> {
    match c {
        Ok(step) => step,
        Err(_) => Fetch::Ready(None),
    }
}

/// What one step of a walk in state `pre` over the loaded files `files` does:
/// `post` is the walk after it, `r` what it gives. It is the checked step with
/// its failures turned into the end of the walk.
pub open spec fn next_post(
    pre: LazyBlockFileCacheEntryIterator,
    files: Map<u32, Seq<u8>>,
    post: LazyBlockFileCacheEntryIterator,
    r: Fetch<Option<LazyBlockFileCacheEntry>>,
) -> bool {
    exists|c: CCPResult<Fetch<Option<LazyBlockFileCacheEntry>>>|
        #[trigger] next_checked_post(pre, files, post, c) && r == settle(c)
}

} // verus!

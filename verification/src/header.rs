//! The control block at the start of the shared region.
//!
//! A fixed-layout header describing connectivity, the session document, the
//! variable catalog and the rotating data buffers. It is re-read on every
//! poll; all fields may change between polls because the producer owns the
//! region.

use vstd::prelude::*;
use crate::utils::{le_i32_at, le_u32_at, read_i32_le, read_u32_le};

verus! {

/// Size in bytes of the fixed-layout control block.
pub const HEADER_SIZE: usize = 112;

/// Number of rotating buffer slots the control block always describes.
pub const MAX_BUFFERS: usize = 4;

/// Descriptor of one rotating data buffer: the tick it was written under and
/// its byte offset from the start of the region.
#[derive(Debug, Clone, Copy, PartialEq, Eq, Structural)]
pub struct Buffer {
    pub tick_count: i32,
    pub offset: i32,
}

/// The decoded control block.
#[derive(Debug, Clone)]
pub struct Header {
    pub ver: i32,
    /// Connectivity bit-set; bit 0 means the producer is connected.
    pub status: u32,
    pub tick_rate: i32,
    /// Incremented by the producer whenever the session document changes.
    pub session_info_update: i32,
    pub session_info_len: i32,
    pub session_info_offset: i32,
    /// Number of slots in the variable catalog (the last one is a sentinel).
    pub num_vars: i32,
    pub var_header_offset: i32,
    pub num_buf: i32,
    pub buf_len: i32,
    /// All `MAX_BUFFERS` buffer slots, in descriptor order.
    pub buffers: Vec<Buffer>,
}

/// `i` is the index `most_recent_buffer` selects: it carries the maximum
/// tick, and every earlier slot carries a strictly smaller one.
pub open spec fn is_freshest_at(s: Seq<Buffer>, i: int) -> bool {
    &&& 0 <= i < s.len()
    &&& forall|j: int| 0 <= j < s.len() ==> s[j].tick_count <= s[i].tick_count
    &&& forall|j: int| 0 <= j < i ==> s[j].tick_count < s[i].tick_count
}

/// At most one index is the freshest one: selection is deterministic even
/// when several buffers tie on the maximum tick.
pub proof fn lemma_freshest_at_unique(s: Seq<Buffer>, i: int, j: int)
    requires
        is_freshest_at(s, i),
        is_freshest_at(s, j),
    ensures
        i == j,
{
    if i < j {
        assert(s[i].tick_count < s[j].tick_count);
        assert(s[j].tick_count <= s[i].tick_count);
    }
    if j < i {
        assert(s[j].tick_count < s[i].tick_count);
        assert(s[i].tick_count <= s[j].tick_count);
    }
}

impl Header {
    /// Decodes the control block from the first `HEADER_SIZE` bytes of the
    /// region. Every field is read independently; the producer may be
    /// mid-write, so no whole-struct consistency is assumed.
    pub fn from_bytes(bytes: &[u8]) -> (h: Header)
        requires
            bytes@.len() >= HEADER_SIZE,
        ensures
            h.ver == le_i32_at(bytes@, 0),
            h.status == le_u32_at(bytes@, 4),
            h.tick_rate == le_i32_at(bytes@, 8),
            h.session_info_update == le_i32_at(bytes@, 12),
            h.session_info_len == le_i32_at(bytes@, 16),
            h.session_info_offset == le_i32_at(bytes@, 20),
            h.num_vars == le_i32_at(bytes@, 24),
            h.var_header_offset == le_i32_at(bytes@, 28),
            h.num_buf == le_i32_at(bytes@, 32),
            h.buf_len == le_i32_at(bytes@, 36),
            h.buffers@.len() == MAX_BUFFERS,
            forall|i: int|
                0 <= i < MAX_BUFFERS ==> (#[trigger] h.buffers@[i]).tick_count == le_i32_at(
                    bytes@,
                    48 + 16 * i,
                ) && h.buffers@[i].offset == le_i32_at(bytes@, 52 + 16 * i),
    {
        let mut buffers: Vec<Buffer> = Vec::new();
        let mut i: usize = 0;
        while i < MAX_BUFFERS
            invariant
                0 <= i <= MAX_BUFFERS,
                bytes@.len() >= HEADER_SIZE,
                buffers@.len() == i,
                forall|k: int|
                    0 <= k < i ==> (#[trigger] buffers@[k]).tick_count == le_i32_at(
                        bytes@,
                        48 + 16 * k,
                    ) && buffers@[k].offset == le_i32_at(bytes@, 52 + 16 * k),
            decreases MAX_BUFFERS - i,
        {
            let tick_count = read_i32_le(bytes, 48 + 16 * i);
            let offset = read_i32_le(bytes, 52 + 16 * i);
            buffers.push(Buffer { tick_count, offset });
            i = i + 1;
        }
        Header {
            ver: read_i32_le(bytes, 0),
            status: read_u32_le(bytes, 4),
            tick_rate: read_i32_le(bytes, 8),
            session_info_update: read_i32_le(bytes, 12),
            session_info_len: read_i32_le(bytes, 16),
            session_info_offset: read_i32_le(bytes, 20),
            num_vars: read_i32_le(bytes, 24),
            var_header_offset: read_i32_le(bytes, 28),
            num_buf: read_i32_le(bytes, 32),
            buf_len: read_i32_le(bytes, 36),
            buffers,
        }
    }

    /// Whether the producer reports itself connected (bit 0 of the status
    /// bit-set).
    pub fn is_connected(&self) -> (c: bool)
        ensures
            c == (self.status & 1 == 1),
    {
        self.status & 1 == 1
    }

    /// The revision counter of the session document.
    pub fn session_info_update(&self) -> (t: i32)
        ensures
            t == self.session_info_update,
    {
        self.session_info_update
    }

    /// How many buffer slots the control block declares as live, clamped to
    /// the stored list.
    pub open spec fn declared_count(&self) -> int {
        if self.num_buf < 0 {
            0
        } else if self.num_buf > self.buffers@.len() {
            self.buffers@.len() as int
        } else {
            self.num_buf as int
        }
    }

    /// The buffer descriptors the control block declares as live: the first
    /// `num_buf` of the stored slots.
    pub open spec fn declared_buffers(&self) -> Seq<Buffer> {
        self.buffers@.take(self.declared_count())
    }

    /// Selects the freshest of the declared rotating buffers: the one with
    /// the maximum tick counter, ties resolved to the first such buffer in
    /// descriptor order. Undeclared trailing slots are ignored. Returns
    /// `None` only when the control block declares no buffers at all, which
    /// is fatal for the current connection.
    pub fn most_recent_buffer(&self) -> (r: Option<Buffer>)
        ensures
            r is None <==> self.declared_buffers().len() == 0,
            r matches Some(b) ==> exists|i: int|
                is_freshest_at(self.declared_buffers(), i) && b == self.declared_buffers()[i],
    {
        let total = self.buffers.len();
        let n: usize = if self.num_buf < 0 {
            0
        } else if self.num_buf as usize > total {
            total
        } else {
            self.num_buf as usize
        };
        proof {
            assert(n == self.declared_count());
        }
        if n == 0 {
            return None;
        }
        let mut best: usize = 0;
        let mut k: usize = 1;
        while k < n
            invariant
                0 <= best < k <= n,
                n <= self.buffers@.len(),
                forall|j: int|
                    0 <= j < k ==> (#[trigger] self.buffers@[j]).tick_count
                        <= self.buffers@[best as int].tick_count,
                forall|j: int|
                    0 <= j < best ==> (#[trigger] self.buffers@[j]).tick_count
                        < self.buffers@[best as int].tick_count,
            decreases n - k,
        {
            if self.buffers[k].tick_count > self.buffers[best].tick_count {
                best = k;
            }
            k = k + 1;
        }
        proof {
            assert(is_freshest_at(self.declared_buffers(), best as int));
        }
        Some(self.buffers[best])
    }
}

/// Law: when the tick counters are pairwise distinct, the freshest index
/// carries the strict maximum: every other buffer's tick is strictly
/// smaller, so the selected buffer is the unique one with the maximum tick.
pub proof fn lemma_freshest_is_strict_max(s: Seq<Buffer>, i: int)
    requires
        is_freshest_at(s, i),
        forall|a: int, b: int|
            0 <= a < s.len() && 0 <= b < s.len() && a != b ==> (#[trigger] s[a]).tick_count != (
            #[trigger] s[b]).tick_count,
    ensures
        forall|j: int|
            0 <= j < s.len() && j != i ==> (#[trigger] s[j]).tick_count < s[i].tick_count,
{
    assert forall|j: int| 0 <= j < s.len() && j != i implies (#[trigger] s[j]).tick_count
        < s[i].tick_count by {
        assert(s[j].tick_count <= s[i].tick_count);
        assert(s[j].tick_count != s[i].tick_count);
    }
}

} // verus!

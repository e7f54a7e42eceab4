//! Wire-level protocol: the fixed ioctl command vocabulary, the received
//! message descriptor, and the pool-offset arithmetic that bounds every
//! region a descriptor refers to.
//!
//! The kernel delivers a message as a fixed-size descriptor naming an
//! offset into the peer's read-only pool plus byte/handle/fd counts.  All
//! pool arithmetic is concentrated here and checked against the pool
//! length before any byte is read: a descriptor that does not fit is a
//! protocol defect, never an out-of-bounds access.

use vstd::prelude::*;
use vstd::slice::slice_subrange;
use vstd::bytes::spec_u32_from_le_bytes;
use vstd::bytes::spec_u64_from_le_bytes;
use vstd::bytes::u32_from_le_bytes;
use vstd::bytes::u64_from_le_bytes;

verus! {

// The fixed ioctl request numbers of the control channel's command set.
pub const CMD_PEER_DISCONNECT: u64 = 0xc0089600;

pub const CMD_PEER_QUERY: u64 = 0xc0209601;

pub const CMD_PEER_RESET: u64 = 0xc0209602;

pub const CMD_HANDLE_RELEASE: u64 = 0xc0089610;

pub const CMD_HANDLE_TRANSFER: u64 = 0xc0209611;

pub const CMD_NODES_DESTROY: u64 = 0xc0189620;

pub const CMD_SLICE_RELEASE: u64 = 0xc0089630;

pub const CMD_SEND: u64 = 0xc0509640;

pub const CMD_RECV: u64 = 0xc0489650;

// Message type tags of the received descriptor; the vocabulary is closed.
pub const MSG_NONE: u64 = 0;

pub const MSG_DATA: u64 = 1;

pub const MSG_NODE_DESTROY: u64 = 2;

pub const MSG_NODE_RELEASE: u64 = 3;

/// Flag bit of a data message that marks one part of a multi-part payload.
pub const MSG_FLAG_CONTINUE: u64 = 1;

/// Handle bit marking a node as managed by the kernel.
pub const HANDLE_FLAG_MANAGED: u64 = 1;

/// Handle bit marking a node that originated in another peer's namespace.
pub const HANDLE_FLAG_REMOTE: u64 = 2;

/// The fixed pool capacity a peer maps by default.
pub const DEFAULT_POOL_LEN: usize = 1 << 30;

/// Pool bytes occupied by one attached handle.
pub const HANDLE_SIZE: u64 = 8;

/// Pool bytes occupied by one attached file descriptor.
pub const FD_SIZE: u64 = 4;

/// `n` rounded up to the next multiple of 8, the alignment the kernel
/// gives the handle array that follows a payload.
pub open spec fn spec_align8(n: int) -> int {
    if n % 8 == 0 {
        n
    } else {
        n + (8 - n % 8)
    }
}

/// Law: for a non-negative count, `spec_align8` is the least multiple
/// of 8 that is not below it.
pub proof fn lemma_align8(n: int)
    requires
        0 <= n,
    ensures
        n <= spec_align8(n) < n + 8,
        spec_align8(n) % 8 == 0,
{
}

/// The fixed-size message descriptor returned by one receive command.
#[allow(non_camel_case_types)]
#[derive(Debug, Clone, Copy, PartialEq, Eq, Structural)]
pub struct msg {
    pub ty: u64,
    pub flags: u64,
    pub destination: u64,
    pub offset: u64,
    pub n_bytes: u64,
    pub n_handles: u64,
    pub n_fds: u64,
}

impl msg {
    /// First byte of the payload region.
    pub open spec fn payload_start(self) -> int {
        self.offset as int
    }

    /// One past the last payload byte.
    pub open spec fn payload_end(self) -> int {
        self.offset + self.n_bytes
    }

    /// First byte of the 8-byte-aligned handle array.
    pub open spec fn handles_start(self) -> int {
        self.offset + spec_align8(self.n_bytes as int)
    }

    /// One past the last byte of the handle array.
    pub open spec fn handles_end(self) -> int {
        self.handles_start() + HANDLE_SIZE * self.n_handles
    }

    /// First byte of the file-descriptor array, directly after the handles.
    pub open spec fn fds_start(self) -> int {
        self.handles_end()
    }

    /// One past the last byte of the file-descriptor array.
    pub open spec fn fds_end(self) -> int {
        self.fds_start() + FD_SIZE * self.n_fds
    }

    /// Every region this descriptor refers to lies inside a pool of
    /// `pool_len` bytes.
    pub open spec fn fits(self, pool_len: int) -> bool {
        self.fds_end() <= pool_len
    }

    /// Bounds check of the whole descriptor against the pool length;
    /// decides `fits` exactly, for every descriptor value.
    pub fn check(&self, pool_len: u64) -> (r: bool)
        ensures
            r == self.fits(pool_len as int),
    {
        let pad: u64 = if self.n_bytes % 8 == 0 {
            0
        } else {
            8 - self.n_bytes % 8
        };
        let total: u128 = self.offset as u128 + self.n_bytes as u128 + pad as u128
            + 8u128 * (self.n_handles as u128) + 4u128 * (self.n_fds as u128);
        proof {
            assert(self.n_bytes + pad == spec_align8(self.n_bytes as int));
            assert(total as int == self.fds_end());
        }
        total <= pool_len as u128
    }

    /// The `i`th attached handle, read little-endian from the pool bytes.
    pub open spec fn spec_handle_at(self, pool: Seq<u8>, i: int) -> u64 {
        spec_u64_from_le_bytes(
            pool.subrange(self.handles_start() + 8 * i, self.handles_start() + 8 * i + 8),
        )
    }

    /// The `i`th attached file descriptor, read little-endian from the
    /// pool bytes.
    pub open spec fn spec_fd_at(self, pool: Seq<u8>, i: int) -> i32 {
        spec_u32_from_le_bytes(
            pool.subrange(self.fds_start() + 4 * i, self.fds_start() + 4 * i + 4),
        ) as i32
    }

    /// The payload bytes, borrowed from the pool without copying.
    pub fn payload<'a>(&self, pool: &'a [u8]) -> (r: &'a [u8])
        requires
            self.fits(pool@.len() as int),
        ensures
            r@ == pool@.subrange(self.payload_start(), self.payload_end()),
    {
        let plen: usize = pool.len();
        proof {
            lemma_regions_within_pool(*self, plen as int);
        }
        let start: usize = self.offset as usize;
        let end: usize = start + self.n_bytes as usize;
        slice_subrange(pool, start, end)
    }

    /// The attached handles, decoded from the aligned array that follows
    /// the payload.
    pub fn handles(&self, pool: &[u8]) -> (r: Vec<u64>)
        requires
            self.fits(pool@.len() as int),
        ensures
            r@.len() == self.n_handles,
            forall|i: int| 0 <= i < self.n_handles ==> r@[i] == self.spec_handle_at(pool@, i),
    {
        let plen: usize = pool.len();
        proof {
            lemma_regions_within_pool(*self, plen as int);
        }
        let pad: usize = if self.n_bytes % 8 == 0 {
            0
        } else {
            (8 - self.n_bytes % 8) as usize
        };
        let hs: usize = self.offset as usize + self.n_bytes as usize + pad;
        let n: usize = self.n_handles as usize;
        proof {
            assert(hs as int == self.handles_start());
        }
        let mut out: Vec<u64> = Vec::new();
        let mut i: usize = 0;
        while i < n
            invariant
                self.fits(pool@.len() as int),
                plen == pool@.len(),
                hs as int == self.handles_start(),
                n == self.n_handles,
                i <= n,
                out@.len() == i,
                forall|j: int| 0 <= j < i ==> out@[j] == self.spec_handle_at(pool@, j),
            decreases n - i,
        {
            let lo: usize = hs + 8 * i;
            let chunk: &[u8] = slice_subrange(pool, lo, lo + 8);
            let v: u64 = u64_from_le_bytes(chunk);
            out.push(v);
            i = i + 1;
        }
        out
    }

    /// The attached file descriptors, decoded from the array that follows
    /// the handles.
    pub fn fds(&self, pool: &[u8]) -> (r: Vec<i32>)
        requires
            self.fits(pool@.len() as int),
        ensures
            r@.len() == self.n_fds,
            forall|i: int| 0 <= i < self.n_fds ==> r@[i] == self.spec_fd_at(pool@, i),
    {
        let plen: usize = pool.len();
        proof {
            lemma_regions_within_pool(*self, plen as int);
        }
        let pad: usize = if self.n_bytes % 8 == 0 {
            0
        } else {
            (8 - self.n_bytes % 8) as usize
        };
        let fs: usize = self.offset as usize + self.n_bytes as usize + pad
            + 8 * (self.n_handles as usize);
        let n: usize = self.n_fds as usize;
        proof {
            assert(fs as int == self.fds_start());
        }
        let mut out: Vec<i32> = Vec::new();
        let mut i: usize = 0;
        while i < n
            invariant
                self.fits(pool@.len() as int),
                plen == pool@.len(),
                fs as int == self.fds_start(),
                n == self.n_fds,
                i <= n,
                out@.len() == i,
                forall|j: int| 0 <= j < i ==> out@[j] == self.spec_fd_at(pool@, j),
            decreases n - i,
        {
            let lo: usize = fs + 4 * i;
            let chunk: &[u8] = slice_subrange(pool, lo, lo + 4);
            let v: u32 = u32_from_le_bytes(chunk);
            out.push(#[verifier::truncate] (v as i32));
            i = i + 1;
        }
        out
    }
}

/// One peer's control descriptor: the raw number of the open kernel
/// device.  Opening the device, issuing commands on it and closing it
/// are the surrounding binary's job; this library only carries the value
/// and writes it into command blocks.
#[allow(non_camel_case_types)]
#[derive(Debug, PartialEq, Eq, Structural)]
pub struct PeerDesc {
    pub lower: i32,
}

impl PeerDesc {
    /// A descriptor over an already opened raw device number.
    pub fn from_raw(lower: i32) -> (r: PeerDesc)
        ensures
            r.lower == lower,
    {
        PeerDesc { lower }
    }

    /// The raw device number.
    pub fn raw(&self) -> (r: i32)
        ensures
            r == self.lower,
    {
        self.lower
    }
}

/// The peer's read-only message pool, seen here through its fixed mapped
/// length; the kernel writes message bytes into it at offsets of its
/// choosing.  Mapping and unmapping the memory is the surrounding
/// binary's job.
#[derive(Debug)]
pub struct Pool {
    len: usize,
}

impl Pool {
    /// The fixed mapped length of the pool.
    pub closed spec fn spec_len(self) -> usize {
        self.len
    }

    /// A pool record for a mapping of `len` bytes.
    pub fn new(len: usize) -> (r: Pool)
        ensures
            r.spec_len() == len,
    {
        Pool { len }
    }

    pub fn len(&self) -> (r: usize)
        ensures
            r == self.spec_len(),
    {
        self.len
    }
}

/// Flags a caller may set on a send command.
#[derive(Debug, Copy, Clone, Eq, PartialEq, Structural)]
pub enum SendFlag {
    Seed,
    Continue,
}

/// Argument block of the peer-reset and peer-query commands: the
/// channel-wide limits.
#[allow(non_camel_case_types)]
#[derive(Debug, Clone, Copy, PartialEq, Eq, Structural)]
pub struct cmd_peer_reset {
    pub flags: u64,
    pub peer_flags: u64,
    pub max_slices: u32,
    pub max_handles: u32,
    pub max_inflight_bytes: u32,
    pub max_inflight_fds: u32,
}

impl cmd_peer_reset {
    /// A fresh argument block for the peer-query command: flags clear,
    /// limits zeroed for the kernel to fill in.
    pub fn query() -> (r: cmd_peer_reset)
        ensures
            r == (cmd_peer_reset {
                flags: 0,
                peer_flags: 0,
                max_slices: 0,
                max_handles: 0,
                max_inflight_bytes: 0,
                max_inflight_fds: 0,
            }),
    {
        cmd_peer_reset {
            flags: 0,
            peer_flags: 0,
            max_slices: 0,
            max_handles: 0,
            max_inflight_bytes: 0,
            max_inflight_fds: 0,
        }
    }
}

/// Argument block of the handle-transfer command.
#[allow(non_camel_case_types)]
#[derive(Debug, Clone, Copy, PartialEq, Eq, Structural)]
pub struct cmd_handle_transfer {
    pub flags: u64,
    pub src_handle: u64,
    pub dst_fd: u64,
    pub dst_handle: u64,
}

/// Argument block of the send command: addresses and counts of the
/// destination, payload-vector, handle and file-descriptor arrays.
#[allow(non_camel_case_types)]
#[derive(Debug, Clone, Copy, PartialEq, Eq, Structural)]
pub struct cmd_send {
    pub flags: u64,
    pub ptr_destinations: u64,
    pub ptr_errors: u64,
    pub n_destinations: u64,
    pub ptr_vecs: u64,
    pub n_vecs: u64,
    pub ptr_handles: u64,
    pub n_handles: u64,
    pub ptr_fds: u64,
    pub n_fds: u64,
}

impl cmd_send {
    /// One send command over the given array addresses and counts, with
    /// no flags and the per-destination error array unused.  Zero
    /// destinations, payload vectors, handles or file descriptors are
    /// all accepted.
    pub fn new(
        ptr_destinations: u64,
        n_destinations: u64,
        ptr_vecs: u64,
        n_vecs: u64,
        ptr_handles: u64,
        n_handles: u64,
        ptr_fds: u64,
        n_fds: u64,
    ) -> (r: cmd_send)
        ensures
            r == (cmd_send {
                flags: 0,
                ptr_destinations: ptr_destinations,
                ptr_errors: 0,
                n_destinations: n_destinations,
                ptr_vecs: ptr_vecs,
                n_vecs: n_vecs,
                ptr_handles: ptr_handles,
                n_handles: n_handles,
                ptr_fds: ptr_fds,
                n_fds: n_fds,
            }),
    {
        cmd_send {
            flags: 0,
            ptr_destinations: ptr_destinations,
            ptr_errors: 0,
            n_destinations: n_destinations,
            ptr_vecs: ptr_vecs,
            n_vecs: n_vecs,
            ptr_handles: ptr_handles,
            n_handles: n_handles,
            ptr_fds: ptr_fds,
            n_fds: n_fds,
        }
    }
}

/// Argument block of the receive command.
#[allow(non_camel_case_types)]
#[derive(Debug, Clone, Copy, PartialEq, Eq, Structural)]
pub struct cmd_recv {
    pub flags: u64,
    pub max_offset: u64,
    pub msg: msg,
}

impl cmd_recv {
    /// A fresh receive command bounded by `max_offset`, its descriptor
    /// zeroed for the kernel to fill in.
    pub fn new(max_offset: u64) -> (r: cmd_recv)
        ensures
            r.flags == 0,
            r.max_offset == max_offset,
            r.msg == (msg {
                ty: MSG_NONE,
                flags: 0,
                destination: 0,
                offset: 0,
                n_bytes: 0,
                n_handles: 0,
                n_fds: 0,
            }),
    {
        cmd_recv {
            flags: 0,
            max_offset: max_offset,
            msg: msg { ty: MSG_NONE, flags: 0, destination: 0, offset: 0, n_bytes: 0, n_handles: 0, n_fds: 0 },
        }
    }
}

/// Argument block of the nodes-destroy command.
#[allow(non_camel_case_types)]
#[derive(Debug, Clone, Copy, PartialEq, Eq, Structural)]
pub struct cmd_node_destroy {
    pub flags: u64,
    pub ptr_nodes: u64,
    pub n_nodes: u64,
}

impl cmd_node_destroy {
    /// One nodes-destroy command over the node array at `ptr_nodes`,
    /// with no flags.
    pub fn new(ptr_nodes: u64, n_nodes: u64) -> (r: cmd_node_destroy)
        ensures
            r == (cmd_node_destroy { flags: 0, ptr_nodes: ptr_nodes, n_nodes: n_nodes }),
    {
        cmd_node_destroy { flags: 0, ptr_nodes: ptr_nodes, n_nodes: n_nodes }
    }
}

/// Law: for a descriptor that fits in a pool of `pool_len` bytes, the
/// payload, handle and file-descriptor regions are pairwise
/// non-overlapping — each ends no later than the next begins — and all
/// lie within `[0, pool_len)`.
pub proof fn lemma_regions_within_pool(m: msg, pool_len: int)
    requires
        m.fits(pool_len),
    ensures
        0 <= m.payload_start() <= m.payload_end(),
        m.payload_end() <= m.handles_start(),
        m.handles_start() <= m.handles_end(),
        m.handles_end() == m.fds_start(),
        m.fds_start() <= m.fds_end(),
        m.fds_end() <= pool_len,
{
}

/// Law: the payload, handle and file-descriptor views of a message
/// depend only on the pool bytes inside the message's own region.  Two
/// pool states that agree on `[payload_start, fds_end)` give the same
/// views, so a message's views stay stable while it is alive, however
/// the kernel fills the rest of the pool with later deliveries.
pub proof fn lemma_views_stable(m: msg, p1: Seq<u8>, p2: Seq<u8>)
    requires
        m.fits(p1.len() as int),
        p1.len() == p2.len(),
        forall|i: int| m.payload_start() <= i < m.fds_end() ==> p1[i] == p2[i],
    ensures
        p1.subrange(m.payload_start(), m.payload_end()) == p2.subrange(
            m.payload_start(),
            m.payload_end(),
        ),
        forall|i: int|
            0 <= i < m.n_handles ==> m.spec_handle_at(p1, i) == m.spec_handle_at(p2, i),
        forall|i: int| 0 <= i < m.n_fds ==> m.spec_fd_at(p1, i) == m.spec_fd_at(p2, i),
{
    lemma_regions_within_pool(m, p1.len() as int);
    assert(p1.subrange(m.payload_start(), m.payload_end()) =~= p2.subrange(
        m.payload_start(),
        m.payload_end(),
    ));
    assert forall|i: int| 0 <= i < m.n_handles implies m.spec_handle_at(p1, i)
        == m.spec_handle_at(p2, i) by {
        assert(p1.subrange(m.handles_start() + 8 * i, m.handles_start() + 8 * i + 8)
            =~= p2.subrange(m.handles_start() + 8 * i, m.handles_start() + 8 * i + 8));
    }
    assert forall|i: int| 0 <= i < m.n_fds implies m.spec_fd_at(p1, i) == m.spec_fd_at(
        p2,
        i,
    ) by {
        assert(p1.subrange(m.fds_start() + 4 * i, m.fds_start() + 4 * i + 4) =~= p2.subrange(
            m.fds_start() + 4 * i,
            m.fds_start() + 4 * i + 4,
        ));
    }
}

} // verus!

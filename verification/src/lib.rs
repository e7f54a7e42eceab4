//! Client-side runtime for a kernel-mediated, capability-based message bus.
//!
//! A peer owns a control descriptor to the kernel service and a read-only
//! memory pool into which the kernel writes message payloads.  This crate
//! holds the protocol logic of that client: the wire command vocabulary,
//! the descriptor-to-message codec with its pool-bounds checks, and the
//! capability-handle encoding.  The system calls themselves (open, ioctl,
//! mmap) cannot stand here and are issued by the surrounding binary, which
//! hands the raw descriptors and pool bytes to this library as plain values.

use vstd::prelude::*;
use vstd::slice::slice_index_get;

pub mod sys;

verus! {

/// An opaque 64-bit capability reference to a kernel-side node.
///
/// Bit 0 marks the handle as kernel-managed, bit 1 as remote-origin; the
/// remaining bits are an index meaningful only to the kernel.
#[derive(Debug, Clone, Copy, PartialEq, Eq, Structural)]
pub struct Handle(pub u64);

impl Handle {
    /// The node behind this handle originated in another peer's namespace.
    pub open spec fn spec_is_remote(self) -> bool {
        self.0 & sys::HANDLE_FLAG_REMOTE != 0
    }

    /// The node behind this handle is managed by the kernel.
    pub open spec fn spec_is_managed(self) -> bool {
        self.0 & sys::HANDLE_FLAG_MANAGED != 0
    }

    pub fn is_remote(&self) -> (r: bool)
        ensures
            r == self.spec_is_remote(),
    {
        (self.0 & sys::HANDLE_FLAG_REMOTE) != 0
    }

    pub fn is_managed(&self) -> (r: bool)
        ensures
            r == self.spec_is_managed(),
    {
        (self.0 & sys::HANDLE_FLAG_MANAGED) != 0
    }
}

/// Law: the two flag predicates of a handle depend on its two low-order
/// bits alone — two handles that agree on those bits agree on both
/// predicates, whatever their index bits hold.
pub proof fn lemma_handle_flags_pure(a: Handle, b: Handle)
    requires
        a.0 & 3 == b.0 & 3,
    ensures
        a.spec_is_remote() == b.spec_is_remote(),
        a.spec_is_managed() == b.spec_is_managed(),
{
    let x = a.0;
    let y = b.0;
    assert((x & 2 != 0) == (y & 2 != 0) && (x & 1 != 0) == (y & 1 != 0)) by (bit_vector)
        requires
            x & 3 == y & 3,
    ;
}

/// The raw 64-bit values of a row of handles, in order.
pub open spec fn spec_bits_of(handles: Seq<Handle>) -> Seq<u64> {
    Seq::new(handles.len(), |i: int| handles[i].0)
}

/// The typed handles behind a row of raw 64-bit values, in order.
pub open spec fn spec_handles_of(bits: Seq<u64>) -> Seq<Handle> {
    Seq::new(bits.len(), |i: int| Handle(bits[i]))
}

/// The raw values of a row of handles, converted element by element for
/// bulk transfer to the kernel; nothing is assumed about the in-memory
/// layout of the typed wrapper.
pub fn handles_as_bits(handles: &[Handle]) -> (r: Vec<u64>)
    ensures
        r@ == spec_bits_of(handles@),
{
    let n: usize = handles.len();
    let mut out: Vec<u64> = Vec::new();
    let mut i: usize = 0;
    while i < n
        invariant
            n == handles@.len(),
            i <= n,
            out@.len() == i,
            forall|j: int| 0 <= j < i ==> out@[j] == handles@[j].0,
        decreases n - i,
    {
        out.push(slice_index_get(handles, i).0);
        i = i + 1;
    }
    proof {
        assert(out@ =~= spec_bits_of(handles@));
    }
    out
}

/// The typed handles behind a row of raw values handed over by the
/// kernel, converted element by element.
pub fn handles_from_bits(bits: &[u64]) -> (r: Vec<Handle>)
    ensures
        r@ == spec_handles_of(bits@),
{
    let n: usize = bits.len();
    let mut out: Vec<Handle> = Vec::new();
    let mut i: usize = 0;
    while i < n
        invariant
            n == bits@.len(),
            i <= n,
            out@.len() == i,
            forall|j: int| 0 <= j < i ==> out@[j] == Handle(bits@[j]),
        decreases n - i,
    {
        out.push(Handle(*slice_index_get(bits, i)));
        i = i + 1;
    }
    proof {
        assert(out@ =~= spec_handles_of(bits@));
    }
    out
}

/// Law: converting a row of handles to its raw values and back yields
/// the same handles, and a row of raw values survives the round trip in
/// the other direction as well.
pub proof fn lemma_handle_bits_round_trip(handles: Seq<Handle>, bits: Seq<u64>)
    ensures
        spec_handles_of(spec_bits_of(handles)) == handles,
        spec_bits_of(spec_handles_of(bits)) == bits,
{
    assert(spec_handles_of(spec_bits_of(handles)) =~= handles);
    assert(spec_bits_of(spec_handles_of(bits)) =~= bits);
}

/// A malformed received descriptor: a type tag outside the fixed
/// vocabulary, or a data region that does not fit in the pool.  Either
/// means a protocol or version mismatch with the kernel; the operation
/// cannot be safely continued, so callers treat this as a defect rather
/// than retry.
#[derive(Debug, Clone, Copy, PartialEq, Eq, Structural)]
pub enum DecodeError {
    /// The descriptor's type tag is not in the closed vocabulary.
    UnknownType,
    /// The descriptor's payload, handle or fd region falls outside the pool.
    OutOfBounds,
}

/// A decoded data message: its descriptor, validated against the pool
/// length recorded at decode time.  The accessors read pool bytes
/// through the validated regions only, so every view they hand out is a
/// pure function of the descriptor and the pool contents.  Releasing the
/// backing pool slice consumes the value, which makes a second release,
/// or a read after release, impossible to write.
#[derive(Debug)]
pub struct MessageData {
    msg: sys::msg,
    pool_len: usize,
}

impl MessageData {
    /// The descriptor this message was decoded from.
    pub closed spec fn spec_msg(self) -> sys::msg {
        self.msg
    }

    /// The pool length the descriptor was validated against.
    pub closed spec fn spec_pool_len(self) -> usize {
        self.pool_len
    }

    /// A well-formed data message: the tag is the data tag and every
    /// region lies inside the pool.
    pub open spec fn wf(self) -> bool {
        self.spec_msg().ty == sys::MSG_DATA && self.spec_msg().fits(self.spec_pool_len() as int)
    }

    /// The handle this message was addressed to.
    pub fn destination(&self) -> (r: Handle)
        ensures
            r == Handle(self.spec_msg().destination),
    {
        Handle(self.msg.destination)
    }

    /// True when the message is one part of a multi-part logical message.
    pub fn has_continue(&self) -> (r: bool)
        ensures
            r == (self.spec_msg().flags & sys::MSG_FLAG_CONTINUE != 0),
    {
        (self.msg.flags & sys::MSG_FLAG_CONTINUE) != 0
    }

    /// The length a pool view handed to the accessors must have.
    pub fn pool_len(&self) -> (r: usize)
        ensures
            r == self.spec_pool_len(),
    {
        self.pool_len
    }

    /// The payload bytes, borrowed from the pool without copying.
    pub fn payload<'a>(&self, pool: &'a [u8]) -> (r: &'a [u8])
        requires
            self.wf(),
            pool@.len() == self.spec_pool_len(),
        ensures
            r@ == pool@.subrange(self.spec_msg().payload_start(), self.spec_msg().payload_end()),
    {
        self.msg.payload(pool)
    }

    /// The handles attached to the message, decoded from the pool.
    pub fn handles(&self, pool: &[u8]) -> (r: Vec<Handle>)
        requires
            self.wf(),
            pool@.len() == self.spec_pool_len(),
        ensures
            r@.len() == self.spec_msg().n_handles,
            forall|i: int|
                0 <= i < self.spec_msg().n_handles ==> r@[i] == Handle(
                    self.spec_msg().spec_handle_at(pool@, i),
                ),
    {
        let bits: Vec<u64> = self.msg.handles(pool);
        handles_from_bits(bits.as_slice())
    }

    /// The file descriptors attached to the message, decoded from the
    /// pool.
    pub fn fds(&self, pool: &[u8]) -> (r: Vec<i32>)
        requires
            self.wf(),
            pool@.len() == self.spec_pool_len(),
        ensures
            r@.len() == self.spec_msg().n_fds,
            forall|i: int|
                0 <= i < self.spec_msg().n_fds ==> r@[i] == self.spec_msg().spec_fd_at(pool@, i),
    {
        self.msg.fds(pool)
    }

    /// Hand the message's pool region back: yields the offset for the
    /// slice-release command and consumes the message, so no view of it
    /// survives and no second release can be written.
    pub fn release(self) -> (r: u64)
        ensures
            r == self.spec_msg().offset,
    {
        self.msg.offset
    }
}

/// One received message: a data message bound to its pool region, or a
/// node lifecycle notification carrying only the affected handle.
#[derive(Debug)]
pub enum Message {
    Data(MessageData),
    NodeDestroy(Handle),
    NodeRelease(Handle),
}

/// A peer endpoint on the bus: its control descriptor and its mapped
/// pool.  The descriptor and the mapping themselves are owned by the
/// surrounding binary; the peer holds their plain values and carries the
/// protocol logic.
#[derive(Debug)]
pub struct Peer {
    desc: sys::PeerDesc,
    pool: sys::Pool,
}

impl Peer {
    pub closed spec fn spec_desc(self) -> sys::PeerDesc {
        self.desc
    }

    pub closed spec fn spec_pool(self) -> sys::Pool {
        self.pool
    }

    /// A peer over an already opened control descriptor and mapped pool.
    pub fn new(desc: sys::PeerDesc, pool: sys::Pool) -> (r: Peer)
        ensures
            r.spec_desc() == desc,
            r.spec_pool() == pool,
    {
        Peer { desc, pool }
    }

    /// The control descriptor, borrowed.
    pub fn as_desc(&self) -> (r: &sys::PeerDesc)
        ensures
            *r == self.spec_desc(),
    {
        &self.desc
    }

    /// The control descriptor; the pool record is dropped.
    pub fn into_desc(self) -> (r: sys::PeerDesc)
        ensures
            r == self.spec_desc(),
    {
        self.desc
    }

    /// The receive command to issue for this peer, bounded by the mapped
    /// pool length.
    pub fn recv_command(&self) -> (r: sys::cmd_recv)
        ensures
            r.flags == 0,
            r.max_offset == self.spec_pool().spec_len() as u64,
            r.msg == (sys::msg {
                ty: sys::MSG_NONE,
                flags: 0,
                destination: 0,
                offset: 0,
                n_bytes: 0,
                n_handles: 0,
                n_fds: 0,
            }),
    {
        sys::cmd_recv::new(self.pool.len() as u64)
    }

    /// Decode one received descriptor against this peer's pool.
    ///
    /// A data descriptor whose regions fit in the pool becomes a
    /// [`Message::Data`] validated for this pool's length; the two node
    /// notifications carry the affected handle; everything else is a
    /// defect: an out-of-bounds data region or a tag outside the closed
    /// vocabulary.
    pub fn recv(&self, m: sys::msg) -> (r: Result<Message, DecodeError>)
        ensures
            m.ty == sys::MSG_DATA && m.fits(self.spec_pool().spec_len() as int) ==> (r matches Ok(
                Message::Data(md),
            ) && md.spec_msg() == m && md.spec_pool_len() == self.spec_pool().spec_len()
                && md.wf()),
            m.ty == sys::MSG_DATA && !m.fits(self.spec_pool().spec_len() as int) ==> r
                == Err::<Message, DecodeError>(DecodeError::OutOfBounds),
            m.ty == sys::MSG_NODE_DESTROY ==> (r matches Ok(Message::NodeDestroy(h)) && h
                == Handle(m.destination)),
            m.ty == sys::MSG_NODE_RELEASE ==> (r matches Ok(Message::NodeRelease(h)) && h
                == Handle(m.destination)),
            m.ty == sys::MSG_NONE || m.ty > sys::MSG_NODE_RELEASE ==> r == Err::<
                Message,
                DecodeError,
            >(DecodeError::UnknownType),
    {
        if m.ty == sys::MSG_DATA {
            let plen: usize = self.pool.len();
            if m.check(plen as u64) {
                Ok(Message::Data(MessageData { msg: m, pool_len: plen }))
            } else {
                Err(DecodeError::OutOfBounds)
            }
        } else if m.ty == sys::MSG_NODE_DESTROY {
            Ok(Message::NodeDestroy(Handle(m.destination)))
        } else if m.ty == sys::MSG_NODE_RELEASE {
            Ok(Message::NodeRelease(Handle(m.destination)))
        } else {
            Err(DecodeError::UnknownType)
        }
    }

    /// The transfer command that asks the kernel to mint, in the
    /// destination peer's namespace, a handle to the node behind
    /// `src_handle`; the kernel writes the minted handle over the
    /// sentinel in `dst_handle`.
    pub fn transfer_handle(&self, src_handle: Handle, dst: &Peer) -> (r: sys::cmd_handle_transfer)
        ensures
            r == (sys::cmd_handle_transfer {
                flags: 0,
                src_handle: src_handle.0,
                dst_fd: dst.spec_desc().lower as u64,
                dst_handle: u64::MAX,
            }),
    {
        sys::cmd_handle_transfer {
            flags: 0,
            src_handle: src_handle.0,
            dst_fd: #[verifier::truncate] (dst.desc.lower as u64),
            dst_handle: u64::MAX,
        }
    }

    /// The raw argument of the handle-release command for `handle`.
    pub fn release_handle(&self, handle: Handle) -> (r: u64)
        ensures
            r == handle.0,
    {
        handle.0
    }

    /// The node array of the nodes-destroy command: the raw values of
    /// the given handles, in order.
    pub fn destroy_nodes(&self, handles: &[Handle]) -> (r: Vec<u64>)
        ensures
            r@ == spec_bits_of(handles@),
    {
        handles_as_bits(handles)
    }
}

} // verus!

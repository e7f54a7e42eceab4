use bus1::sys;
use bus1::DecodeError;
use bus1::Handle;
use bus1::Message;
use bus1::Peer;
use bus1::handles_as_bits;
use bus1::handles_from_bits;

fn data_msg(destination: u64, offset: u64, n_bytes: u64, n_handles: u64, n_fds: u64) -> sys::msg {
    sys::msg {
        ty: sys::MSG_DATA,
        flags: 0,
        destination,
        offset,
        n_bytes,
        n_handles,
        n_fds,
    }
}

fn peer_with_pool(fd: i32, pool_len: usize) -> Peer {
    Peer::new(sys::PeerDesc::from_raw(fd), sys::Pool::new(pool_len))
}

#[test]
fn handle_flag_bits() {
    assert!(!Handle(0).is_remote());
    assert!(!Handle(0).is_managed());
    assert!(Handle(sys::HANDLE_FLAG_MANAGED).is_managed());
    assert!(!Handle(sys::HANDLE_FLAG_MANAGED).is_remote());
    assert!(Handle(sys::HANDLE_FLAG_REMOTE).is_remote());
    assert!(!Handle(sys::HANDLE_FLAG_REMOTE).is_managed());
    assert!(Handle(3).is_remote());
    assert!(Handle(3).is_managed());
}

#[test]
fn handle_flags_ignore_index_bits() {
    // Same two low bits, wildly different index bits: same predicates.
    for index in [0u64, 1, 77, 1 << 40, u64::MAX >> 2] {
        let h = Handle((index << 2) | sys::HANDLE_FLAG_REMOTE);
        assert!(h.is_remote());
        assert!(!h.is_managed());
        let g = Handle((index << 2) | sys::HANDLE_FLAG_MANAGED);
        assert!(!g.is_remote());
        assert!(g.is_managed());
    }
}

#[test]
fn check_accepts_exact_fit_and_rejects_one_less() {
    // payload [8, 20), aligned to 24, handles [24, 40), fds [40, 44).
    let m = data_msg(7, 8, 12, 2, 1);
    assert!(m.check(44));
    assert!(!m.check(43));
    assert!(m.check(4096));
}

#[test]
fn check_empty_message() {
    let m = data_msg(1, 0, 0, 0, 0);
    assert!(m.check(0));
    assert!(m.check(1));
}

#[test]
fn check_rejects_overflowing_descriptor() {
    let m = data_msg(1, u64::MAX, u64::MAX, u64::MAX, u64::MAX);
    assert!(!m.check(u64::MAX));
    let m2 = data_msg(1, u64::MAX, 1, 0, 0);
    assert!(!m2.check(u64::MAX));
}

#[test]
fn recv_hello_world() {
    // Peer A receives a data message addressed to the handle it holds,
    // with a plain payload and nothing attached.
    let peer = peer_with_pool(3, 4096);
    let mut pool = vec![0u8; 4096];
    pool[40..52].copy_from_slice(b"hello, world");
    let m = data_msg(5, 40, 12, 0, 0);
    match peer.recv(m) {
        Ok(Message::Data(md)) => {
            assert_eq!(md.destination(), Handle(5));
            assert!(!md.has_continue());
            assert_eq!(md.pool_len(), 4096);
            assert_eq!(md.payload(&pool), b"hello, world");
            assert!(md.handles(&pool).is_empty());
            assert!(md.fds(&pool).is_empty());
            // Releasing consumes the message and yields the slice offset.
            assert_eq!(md.release(), 40);
        }
        _ => unreachable!(),
    }
}

#[test]
fn recv_decodes_handles_and_fds() {
    // payload [0, 3), aligned to 8; handles [8, 24); fds [24, 32).
    let peer = peer_with_pool(3, 64);
    let mut pool = vec![0u8; 64];
    pool[0..3].copy_from_slice(b"abc");
    pool[8..16].copy_from_slice(&0x0102030405060708u64.to_le_bytes());
    pool[16..24].copy_from_slice(&(sys::HANDLE_FLAG_REMOTE).to_le_bytes());
    pool[24..28].copy_from_slice(&42i32.to_le_bytes());
    pool[28..32].copy_from_slice(&(-1i32).to_le_bytes());
    let m = data_msg(9, 0, 3, 2, 2);
    match peer.recv(m) {
        Ok(Message::Data(md)) => {
            assert_eq!(md.payload(&pool), b"abc");
            let handles = md.handles(&pool);
            assert_eq!(handles, vec![Handle(0x0102030405060708), Handle(2)]);
            assert!(handles[1].is_remote());
            assert_eq!(md.fds(&pool), vec![42, -1]);
        }
        _ => unreachable!(),
    }
}

#[test]
fn views_unmoved_by_other_pool_writes() {
    // Later deliveries land elsewhere in the pool; a live message's
    // views read the same bytes as before.
    let peer = peer_with_pool(3, 128);
    let mut pool = vec![0u8; 128];
    pool[16..20].copy_from_slice(b"stay");
    let m = data_msg(1, 16, 4, 0, 0);
    match peer.recv(m) {
        Ok(Message::Data(md)) => {
            assert_eq!(md.payload(&pool), b"stay");
            for i in (0..16).chain(24..128) {
                pool[i] = 0xee;
            }
            assert_eq!(md.payload(&pool), b"stay");
        }
        _ => unreachable!(),
    }
}

#[test]
fn recv_continue_flag() {
    let peer = peer_with_pool(3, 64);
    let mut m = data_msg(1, 0, 0, 0, 0);
    m.flags = sys::MSG_FLAG_CONTINUE;
    match peer.recv(m) {
        Ok(Message::Data(md)) => assert!(md.has_continue()),
        _ => unreachable!(),
    }
}

#[test]
fn recv_node_notifications() {
    // A destroyed or released node arrives as a notification carrying
    // the affected handle, not as a data message.
    let peer = peer_with_pool(3, 64);
    let destroy = sys::msg {
        ty: sys::MSG_NODE_DESTROY,
        flags: 0,
        destination: 5,
        offset: 0,
        n_bytes: 0,
        n_handles: 0,
        n_fds: 0,
    };
    match peer.recv(destroy) {
        Ok(Message::NodeDestroy(h)) => assert_eq!(h, Handle(5)),
        _ => unreachable!(),
    }
    let release = sys::msg { ty: sys::MSG_NODE_RELEASE, ..destroy };
    match peer.recv(release) {
        Ok(Message::NodeRelease(h)) => assert_eq!(h, Handle(5)),
        _ => unreachable!(),
    }
}

#[test]
fn recv_rejects_unknown_type() {
    let peer = peer_with_pool(3, 64);
    let none = sys::msg {
        ty: sys::MSG_NONE,
        flags: 0,
        destination: 0,
        offset: 0,
        n_bytes: 0,
        n_handles: 0,
        n_fds: 0,
    };
    assert_eq!(peer.recv(none).unwrap_err(), DecodeError::UnknownType);
    let stray = sys::msg { ty: 9, ..none };
    assert_eq!(peer.recv(stray).unwrap_err(), DecodeError::UnknownType);
}

#[test]
fn recv_rejects_out_of_bounds_regions() {
    let peer = peer_with_pool(3, 16);
    // Payload fits but the handle array would cross the pool end.
    let m = data_msg(1, 0, 8, 2, 0);
    assert_eq!(peer.recv(m).unwrap_err(), DecodeError::OutOfBounds);
    // Payload alone already crosses the pool end.
    let m2 = data_msg(1, 8, 9, 0, 0);
    assert_eq!(peer.recv(m2).unwrap_err(), DecodeError::OutOfBounds);
}

#[test]
fn send_command_zero_destinations() {
    // A send to nobody is a well-formed command, not an error.
    let c = sys::cmd_send::new(0, 0, 0, 0, 0, 0, 0, 0);
    assert_eq!(c.flags, 0);
    assert_eq!(c.n_destinations, 0);
    assert_eq!(c.n_vecs, 0);
    assert_eq!(c.n_handles, 0);
    assert_eq!(c.n_fds, 0);
    assert_eq!(c.ptr_errors, 0);
}

#[test]
fn send_command_fields() {
    let c = sys::cmd_send::new(0x1000, 2, 0x2000, 3, 0x3000, 4, 0x4000, 5);
    assert_eq!(c.flags, 0);
    assert_eq!(c.ptr_destinations, 0x1000);
    assert_eq!(c.n_destinations, 2);
    assert_eq!(c.ptr_errors, 0);
    assert_eq!(c.ptr_vecs, 0x2000);
    assert_eq!(c.n_vecs, 3);
    assert_eq!(c.ptr_handles, 0x3000);
    assert_eq!(c.n_handles, 4);
    assert_eq!(c.ptr_fds, 0x4000);
    assert_eq!(c.n_fds, 5);
}

#[test]
fn transfer_handle_command() {
    // Peer A asks for a twin of its handle 0 in peer B's namespace; the
    // minted value comes back in place of the sentinel.
    let a = peer_with_pool(3, 64);
    let b = peer_with_pool(4, 64);
    let c = a.transfer_handle(Handle(0), &b);
    assert_eq!(c.flags, 0);
    assert_eq!(c.src_handle, 0);
    assert_eq!(c.dst_fd, 4);
    assert_eq!(c.dst_handle, u64::MAX);
}

#[test]
fn release_and_destroy_arguments() {
    let peer = peer_with_pool(3, 64);
    assert_eq!(peer.release_handle(Handle(0xdeadbeef)), 0xdeadbeef);
    let nodes = peer.destroy_nodes(&[Handle(1), Handle(4), Handle(0)]);
    assert_eq!(nodes, vec![1, 4, 0]);
    let c = sys::cmd_node_destroy::new(0x5000, 3);
    assert_eq!(c.flags, 0);
    assert_eq!(c.ptr_nodes, 0x5000);
    assert_eq!(c.n_nodes, 3);
}

#[test]
fn handle_bits_round_trip() {
    let handles = [Handle(0), Handle(3), Handle(u64::MAX), Handle(1 << 33)];
    let bits = handles_as_bits(&handles);
    assert_eq!(bits, vec![0, 3, u64::MAX, 1 << 33]);
    let back = handles_from_bits(&bits);
    assert_eq!(back, handles.to_vec());
}

#[test]
fn recv_command_bounded_by_pool() {
    let peer = peer_with_pool(3, 4096);
    let c = peer.recv_command();
    assert_eq!(c.flags, 0);
    assert_eq!(c.max_offset, 4096);
    assert_eq!(c.msg.ty, sys::MSG_NONE);
    assert_eq!(c.msg.n_bytes, 0);
}

#[test]
fn peer_query_argument() {
    let q = sys::cmd_peer_reset::query();
    assert_eq!(q.flags, 0);
    assert_eq!(q.peer_flags, 0);
    assert_eq!(q.max_slices, 0);
    assert_eq!(q.max_handles, 0);
    assert_eq!(q.max_inflight_bytes, 0);
    assert_eq!(q.max_inflight_fds, 0);
}

#[test]
fn peer_descriptor_round_trip() {
    let peer = peer_with_pool(7, 64);
    assert_eq!(peer.as_desc().raw(), 7);
    let desc = peer.into_desc();
    assert_eq!(desc.raw(), 7);
    assert_eq!(sys::PeerDesc::from_raw(-1).raw(), -1);
}

#[test]
fn pool_reports_fixed_length() {
    assert_eq!(sys::Pool::new(1 << 30).len(), 1 << 30);
    assert_eq!(sys::Pool::new(0).len(), 0);
}

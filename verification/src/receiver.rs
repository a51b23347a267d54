//! The receiver's half of the pipeline.
//!
//! A dedicated execution context runs a non-blocking receive loop on the
//! UDP socket. The socket work itself — binding, the reuse options, waiting
//! for readiness — happens outside the library; each loop iteration hands
//! this module what the socket reported, and this module decides: a
//! datagram is captured byte-for-byte into a fresh payload and appended to
//! the handoff queue (the embedding loop then wakes a waiting consumer),
//! while a receive error ends the loop — a fatal condition for the whole
//! system, with no automatic restart.

use vstd::prelude::*;

verus! {

use crate::queue::HandoffQueue;

/// What the socket reported in one iteration of the receive loop.
pub enum SocketEvent {
    /// A datagram arrived; the socket put its bytes at the front of the
    /// receive buffer and reported how many there are.
    Datagram(usize),
    /// The socket reported an I/O error.
    ReceiveError,
}

/// Copies the received bytes — exactly the first `size` bytes of the
/// receive buffer — into a fresh payload. The buffer is as large as the
/// configured maximum datagram size, so anything beyond it was already cut
/// off by the socket.
pub fn capture_payload(buf: &Vec<u8>, size: usize) -> (payload: Vec<u8>)
    requires
        size <= buf.len(),
    ensures
        payload@ == buf@.subrange(0, size as int),
{
    let mut payload: Vec<u8> = Vec::new();
    proof {
        assert(payload@ =~= buf@.subrange(0, 0));
    }
    let mut i: usize = 0;
    while i < size
        invariant
            i <= size,
            size <= buf.len(),
            payload@ == buf@.subrange(0, i as int),
        decreases size - i,
    {
        payload.push(buf[i]);
        proof {
            assert(payload@ =~= buf@.subrange(0, i as int + 1));
        }
        i += 1;
    }
    payload
}

/// Ingests one datagram: captures its bytes as a payload and appends it to
/// the handoff queue. Total in the queue state: however large the backlog,
/// the payload is accepted.
pub fn ingest_datagram(queue: &mut HandoffQueue, buf: &Vec<u8>, size: usize)
    requires
        size <= buf.len(),
    ensures
        final(queue)@ == old(queue)@.push(buf@.subrange(0, size as int)),
{
    let payload = capture_payload(buf, size);
    queue.push(payload);
}

/// One iteration of the receive loop: a datagram is ingested and the loop
/// goes on; a receive error leaves the queue untouched and ends the loop.
pub fn receiver_step(queue: &mut HandoffQueue, buf: &Vec<u8>, event: SocketEvent) -> (keep_running:
    bool)
    requires
        event matches SocketEvent::Datagram(size) ==> size <= buf.len(),
    ensures
        event matches SocketEvent::Datagram(size) ==> keep_running && final(queue)@ == old(
            queue,
        )@.push(buf@.subrange(0, size as int)),
        event is ReceiveError ==> !keep_running && final(queue)@ == old(queue)@,
{
    match event {
        SocketEvent::Datagram(size) => {
            ingest_datagram(queue, buf, size);
            true
        },
        SocketEvent::ReceiveError => false,
    }
}

} // verus!

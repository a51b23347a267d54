//! The error taxonomy of the pipeline.
//!
//! Only two things may bring the process down: a failure while setting the
//! system up, and a socket failure inside the receive loop — once the
//! receiver stops producing, nothing meaningful is left to run. Everything
//! else is recovered locally: a socket option that cannot be enabled is
//! logged and binding proceeds, a failed delivery discards one payload and
//! the worker keeps serving, and a wake on an empty queue is no error at
//! all.

use vstd::prelude::*;

verus! {

/// Everything that can go wrong while the pipeline runs.
pub enum Fault {
    /// An invalid bind address, or the socket bind itself failed, before
    /// any component ran.
    Setup,
    /// Address- or port-reuse could not be enabled on the socket being
    /// built.
    SocketOption,
    /// The receive loop hit a socket error after startup; the receiver
    /// stops producing.
    ReceiveLoop,
    /// One HTTP delivery failed; the payload is discarded.
    Delivery,
    /// A worker woke to an empty queue — a spurious wake or a race with
    /// another worker.
    SpuriousWake,
}

/// Whether a fault must abort the process. Exactly the setup and
/// receive-loop failures are fatal; every other fault is logged and
/// execution continues.
pub fn is_fatal(fault: &Fault) -> (fatal: bool)
    ensures
        fatal <==> (fault is Setup || fault is ReceiveLoop),
{
    match fault {
        Fault::Setup => true,
        Fault::ReceiveLoop => true,
        Fault::SocketOption => false,
        Fault::Delivery => false,
        Fault::SpuriousWake => false,
    }
}

/// The exit status for a fatal error: the OS error code when the failing
/// operation reported one, 1 otherwise.
pub fn fatal_exit_code(raw_os_error: Option<i32>) -> (code: i32)
    ensures
        match raw_os_error {
            Some(os_code) => code == os_code,
            None => code == 1,
        },
{
    match raw_os_error {
        Some(os_code) => os_code,
        None => 1,
    }
}

} // verus!

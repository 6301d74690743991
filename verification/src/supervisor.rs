//! Supervisor decisions: the one logical task of the device, racing "the
//! running capsule's call returns" against "new transfer data arrived".
//!
//! The decisions are pure: each event (a datagram, the run returning, the
//! outcome of an instantiation) maps the supervisor state to a successor
//! state and an action for the caller to perform. The caller owns the
//! datagram socket and the execution engine; cancellation of a running
//! capsule is by abandonment — the caller simply drops the run when told so —
//! which the fuel mechanism's forced yields make prompt.

use crate::transfer::{
    PacketKind, PacketProcessingError, TransferState, process_packet, raw_step, raw_step_fills,
    transfer_inv,
};
use crate::transfer::{WORD_BYTES, be_word, offset_of};
use vstd::prelude::*;

verus! {

/// What the supervisor asks its caller to do after an event.
#[derive(Debug, Clone, Copy, PartialEq, Eq, Structural)]
pub enum SupervisorAction {
    /// Nothing to perform; keep waiting for events.
    Continue,
    /// The buffer holds a complete binary: instantiate it and, on success,
    /// run it, reporting back through `on_start_result`.
    StartCapsule,
    /// A new transfer began: abandon the running capsule's call and keep
    /// feeding datagrams.
    CancelRun,
    /// The transport failed; there is no fallback. Fatal.
    Fatal,
}

/// The supervisor's state: whether a capsule run is in flight, and how far
/// the current transfer has come.
pub struct Supervisor {
    /// A capsule's entry call is being polled.
    pub running: bool,
    /// State of the transfer feeding the next capsule.
    pub transfer: TransferState,
}

impl Supervisor {
    /// While a capsule runs, no transfer is in progress: a size declaration
    /// cancels the run before any chunk is accepted.
    pub open spec fn wf(&self) -> bool {
        self.running ==> self.transfer is NotStarted
    }

    /// A fresh supervisor: no capsule, no transfer.
    pub fn new() -> (s: Supervisor)
        ensures
            s.wf(),
            !s.running,
            s.transfer is NotStarted,
    {
        Supervisor { running: false, transfer: TransferState::NotStarted }
    }

    /// Feeds one received datagram through the transfer protocol and decides
    /// what happens next.
    ///
    /// Idle, the datagram advances the reassembly: a completed buffer asks
    /// the caller to start the capsule, a protocol violation restarts the
    /// transfer from scratch. While a capsule runs, only a size declaration
    /// matters: it abandons the run and opens a transfer; everything else is
    /// ignored. A failed receive is fatal in either mode.
    pub fn on_datagram(
        &mut self,
        packet: Result<usize, ()>,
        recv_buffer: &[u8],
        wasm_buffer: &mut Vec<u8>,
    ) -> (action: SupervisorAction)
        requires
            old(self).wf(),
            packet matches Ok(n) ==> n <= recv_buffer@.len(),
            transfer_inv(old(self).transfer, old(wasm_buffer)@.len() as int),
        ensures
            final(self).wf(),
            transfer_inv(final(self).transfer, final(wasm_buffer)@.len() as int),
            final(wasm_buffer)@.len() == old(wasm_buffer)@.len(),
            (packet is Err ==> action == SupervisorAction::Fatal && *final(self) == *old(self)
                && final(wasm_buffer)@ == old(wasm_buffer)@),
            (packet matches Ok(n) ==> on_datagram_rel(
                *old(self),
                *final(self),
                raw_step(
                    old(self).transfer,
                    n,
                    be_word(recv_buffer@.take(WORD_BYTES as int)),
                    old(wasm_buffer)@.len() as int,
                ),
                action,
            )),
            (packet matches Ok(n) ==> (raw_step_fills(old(self).transfer, n)
                ==> final(wasm_buffer)@ == old(wasm_buffer)@.take(offset_of(old(self).transfer))
                + recv_buffer@.take(n as int) + old(wasm_buffer)@.skip(
                offset_of(old(self).transfer) + n,
            )) && (!raw_step_fills(old(self).transfer, n) ==> final(wasm_buffer)@ == old(
                wasm_buffer,
            )@)),
    {
        let r = process_packet(packet, recv_buffer, wasm_buffer, &mut self.transfer);
        if self.running {
            match r {
                Ok(PacketKind::DeclareSize) => {
                    self.running = false;
                    SupervisorAction::CancelRun
                },
                Err(PacketProcessingError::ReceiveError) => SupervisorAction::Fatal,
                _ => SupervisorAction::Continue,
            }
        } else {
            match r {
                Ok(PacketKind::BufferFiled) => SupervisorAction::StartCapsule,
                Ok(_) => SupervisorAction::Continue,
                Err(PacketProcessingError::ReceiveError) => SupervisorAction::Fatal,
                Err(_) => {
                    self.transfer = TransferState::NotStarted;
                    SupervisorAction::Continue
                },
            }
        }
    }

    /// The capsule's entry call returned (normally or with a trap): the
    /// supervisor goes back to waiting for the next transfer.
    pub fn on_run_finished(&mut self)
        requires
            old(self).wf(),
        ensures
            final(self).wf(),
            !final(self).running,
            final(self).transfer == old(self).transfer,
    {
        self.running = false;
    }

    /// The caller performed the requested instantiation: on success a new
    /// capsule run is in flight; either way the transfer starts over.
    pub fn on_start_result(&mut self, started: bool)
        ensures
            final(self).wf(),
            final(self).running == started,
            final(self).transfer is NotStarted,
    {
        self.transfer = TransferState::NotStarted;
        self.running = started;
    }
}

/// How one accepted datagram moves the supervisor, given the transfer step it
/// induced (`step` pairs the successor transfer state with the protocol's
/// classification).
///
/// While a capsule runs, a size declaration cancels the run and opens the
/// transfer; everything else leaves the supervisor untouched. Idle, the
/// transfer follows the protocol: completion asks for a start, a violation
/// other than a transport failure restarts from scratch.
pub open spec fn on_datagram_rel(
    pre: Supervisor,
    post: Supervisor,
    step: (TransferState, Result<PacketKind, PacketProcessingError>),
    action: SupervisorAction,
) -> bool {
    if pre.running {
        &&& (step.1 == Ok::<PacketKind, PacketProcessingError>(PacketKind::DeclareSize) ==> !post.running
            && post.transfer == step.0 && action == SupervisorAction::CancelRun)
        &&& (step.1 != Ok::<PacketKind, PacketProcessingError>(PacketKind::DeclareSize) ==> post
            == pre && action == SupervisorAction::Continue)
    } else {
        &&& !post.running
        &&& (step.1 == Ok::<PacketKind, PacketProcessingError>(PacketKind::BufferFiled) ==> post.transfer
            == step.0 && action == SupervisorAction::StartCapsule)
        &&& (step.1 matches Ok(k) && k != PacketKind::BufferFiled ==> post.transfer == step.0
            && action == SupervisorAction::Continue)
        &&& (step.1 is Err ==> post.transfer is NotStarted && action == SupervisorAction::Continue)
    }
}

/// Law: while a capsule runs, a well-formed size declaration always abandons
/// the run — the supervisor leaves running mode, asks the caller to cancel,
/// and the new transfer is open at offset zero.
pub proof fn lemma_declare_cancels_run(
    pre: Supervisor,
    post: Supervisor,
    n: usize,
    declared: int,
    cap: int,
    action: SupervisorAction,
)
    requires
        pre.wf(),
        pre.running,
        n == WORD_BYTES,
        0 <= declared <= cap,
        cap <= usize::MAX,
        on_datagram_rel(pre, post, raw_step(pre.transfer, n, declared, cap), action),
    ensures
        action == SupervisorAction::CancelRun,
        !post.running,
        post.transfer == TransferState::InProgress(0, declared as usize),
{
}

} // verus!

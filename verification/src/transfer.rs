//! Raw chunked transfer protocol: reassembles a capsule binary from a stream
//! of datagrams.
//!
//! The first datagram of a transfer carries the total size, big-endian encoded
//! in one platform word; every following datagram is a raw chunk appended in
//! order. A zero-length datagram is ignored while idle and aborts a transfer
//! in progress. Each datagram is classified by a pure function of the current
//! transfer state and the datagram's length.

use vstd::prelude::*;

verus! {

/// Number of bytes in the size-declaring datagram: one word of the 32-bit
/// target, big-endian.
pub const WORD_BYTES: usize = 4;

/// Progress of one transfer: either nothing has been declared yet, or
/// `InProgress(offset, remaining)` — `offset` bytes of the declared total are
/// in the buffer and `remaining` are still owed. `offset + remaining` is the
/// declared total and never changes while the transfer runs.
#[derive(Debug, Clone, Copy, PartialEq, Eq, Structural)]
pub enum TransferState {
    NotStarted,
    InProgress(usize, usize),
}

/// Classification of an accepted datagram.
#[derive(Debug, Clone, Copy, PartialEq, Eq, Structural)]
pub enum PacketKind {
    /// A well-formed size declaration: the transfer is now in progress.
    DeclareSize,
    /// A chunk was appended and more bytes are still owed.
    PartialFill,
    /// The final chunk arrived: the buffer holds the whole declared size.
    BufferFiled,
    /// A zero-length datagram while idle: nothing to do.
    Useless,
}

/// Classification of a rejected datagram or a failed receive.
#[derive(Debug, Clone, Copy, PartialEq, Eq, Structural)]
pub enum PacketProcessingError {
    /// A zero-length datagram arrived mid-transfer: the sender gave up.
    ProgressStopped,
    /// The socket itself failed; fatal to the caller.
    ReceiveError,
    /// The declared size exceeds the buffer, or a chunk exceeds what is owed.
    SizeTooBig,
    /// A non-declaration datagram arrived while no transfer was running.
    HadntStartedYet,
}

impl TransferState {
    /// True when a declared transfer is still being filled.
    pub fn in_progress(&self) -> (r: bool)
        ensures
            r == (*self is InProgress),
    {
        match self {
            TransferState::InProgress(_, _) => true,
            TransferState::NotStarted => false,
        }
    }
}

/// The declared total of a transfer state: what the size declaration promised.
pub open spec fn declared_total(s: TransferState) -> int {
    match s {
        TransferState::NotStarted => 0,
        TransferState::InProgress(offset, remaining) => offset + remaining,
    }
}

/// Well-formedness of a transfer state against a receive buffer of `cap`
/// bytes: everything declared fits in the buffer.
pub open spec fn transfer_inv(s: TransferState, cap: int) -> bool {
    s matches TransferState::InProgress(offset, remaining) ==> offset + remaining <= cap
}

/// The declared total is representable: what any state drawn from a real
/// buffer satisfies, since a buffer's length fits in `usize`.
pub open spec fn transfer_fits(s: TransferState) -> bool {
    declared_total(s) <= usize::MAX
}

/// The unsigned value of the four big-endian bytes at the front of `s`.
pub open spec fn be_word(s: Seq<u8>) -> int {
    s[0] * 0x100_0000 + s[1] * 0x1_0000 + s[2] * 0x100 + s[3]
}

/// Reads the size declaration: one big-endian word at the front of `b`.
pub fn decode_be_word(b: &[u8]) -> (r: u32)
    requires
        b@.len() >= WORD_BYTES,
    ensures
        r == be_word(b@.take(WORD_BYTES as int)),
{
    (b[0] as u32) * 0x100_0000 + (b[1] as u32) * 0x1_0000 + (b[2] as u32) * 0x100 + (b[3] as u32)
}

/// Bytes already accepted into the buffer by the transfer so far.
pub open spec fn offset_of(s: TransferState) -> int {
    match s {
        TransferState::NotStarted => 0,
        TransferState::InProgress(offset, _) => offset as int,
    }
}

/// The transfer step as a mathematical function of the current state, the
/// datagram length `n`, the value `declared` carried by a word-sized datagram,
/// and the buffer capacity `cap`: the successor state and the classification.
pub open spec fn raw_step(s: TransferState, n: usize, declared: int, cap: int) -> (
    TransferState,
    Result<PacketKind, PacketProcessingError>,
)
    recommends
        transfer_inv(s, cap),
        0 <= declared,
{
    if n == 0 {
        if s is InProgress {
            (s, Err(PacketProcessingError::ProgressStopped))
        } else {
            (s, Ok(PacketKind::Useless))
        }
    } else {
        match s {
            TransferState::InProgress(offset, remaining) => {
                if remaining < n {
                    (s, Err(PacketProcessingError::SizeTooBig))
                } else if remaining == n {
                    (
                        TransferState::InProgress((offset + n) as usize, 0),
                        Ok(PacketKind::BufferFiled),
                    )
                } else {
                    (
                        TransferState::InProgress((offset + n) as usize, (remaining - n) as usize),
                        Ok(PacketKind::PartialFill),
                    )
                }
            },
            TransferState::NotStarted => {
                if n != WORD_BYTES {
                    (s, Err(PacketProcessingError::HadntStartedYet))
                } else if declared > cap {
                    (s, Err(PacketProcessingError::SizeTooBig))
                } else {
                    (TransferState::InProgress(0, declared as usize), Ok(PacketKind::DeclareSize))
                }
            },
        }
    }
}

/// True when `raw_step` accepts the datagram as a chunk and copies it into the
/// buffer (the `PartialFill` and `BufferFiled` outcomes).
pub open spec fn raw_step_fills(s: TransferState, n: usize) -> bool {
    n > 0 && (s matches TransferState::InProgress(_, remaining) && n <= remaining)
}

/// Sum of a sequence of datagram lengths.
pub open spec fn seq_sum(ns: Seq<usize>) -> int
    decreases ns.len(),
{
    if ns.len() == 0 {
        0
    } else {
        ns[0] + seq_sum(ns.skip(1))
    }
}

/// The state after replaying a sequence of chunk datagrams. The declaration
/// arguments of [`raw_step`] are irrelevant to chunk handling (see
/// [`lemma_chunk_step_ignores_declare_args`]), so zeros stand in for them.
pub open spec fn replay_fills(s: TransferState, ns: Seq<usize>) -> TransferState
    decreases ns.len(),
{
    if ns.len() == 0 {
        s
    } else {
        replay_fills(raw_step(s, ns[0], 0, 0).0, ns.skip(1))
    }
}

/// True when every datagram of `ns`, replayed in order from `s`, is accepted
/// as a chunk.
pub open spec fn all_fill(s: TransferState, ns: Seq<usize>) -> bool
    decreases ns.len(),
{
    ns.len() == 0 || (raw_step_fills(s, ns[0]) && all_fill(raw_step(s, ns[0], 0, 0).0, ns.skip(1)))
}

/// While a transfer is in progress, a step does not depend on the declaration
/// arguments: only a declaration from idle reads them.
pub proof fn lemma_chunk_step_ignores_declare_args(
    s: TransferState,
    n: usize,
    d1: int,
    c1: int,
    d2: int,
    c2: int,
)
    requires
        s is InProgress,
    ensures
        raw_step(s, n, d1, c1) == raw_step(s, n, d2, c2),
{
}

/// Law: across any sequence of accepted chunks, the offset grows by exactly
/// the sum of the chunk lengths, and the declared total never changes.
pub proof fn lemma_accepted_bytes(s: TransferState, ns: Seq<usize>)
    requires
        transfer_fits(s),
        all_fill(s, ns),
    ensures
        offset_of(replay_fills(s, ns)) == offset_of(s) + seq_sum(ns),
        declared_total(replay_fills(s, ns)) == declared_total(s),
    decreases ns.len(),
{
    if ns.len() > 0 {
        lemma_accepted_bytes(raw_step(s, ns[0], 0, 0).0, ns.skip(1));
    }
}

/// Law: over any receive sequence — a size declaration followed by accepted
/// chunks — the transfer's offset counts exactly the chunk bytes, the
/// declared total never changes, and if the transfer completes (nothing is
/// owed any more) the accepted bytes sum to precisely the declared size.
pub proof fn lemma_transfer_accepts_declared_size(declared: int, cap: int, ns: Seq<usize>)
    requires
        0 <= declared <= cap,
        cap <= usize::MAX,
        all_fill(raw_step(TransferState::NotStarted, WORD_BYTES, declared, cap).0, ns),
    ensures
        ({
            let opened = raw_step(TransferState::NotStarted, WORD_BYTES, declared, cap).0;
            let end = replay_fills(opened, ns);
            &&& offset_of(end) == seq_sum(ns)
            &&& declared_total(end) == declared
            &&& (end matches TransferState::InProgress(_, remaining) && remaining == 0
                ==> seq_sum(ns) == declared)
        }),
{
    lemma_declare_from_idle(WORD_BYTES, declared, cap);
    lemma_accepted_bytes(raw_step(TransferState::NotStarted, WORD_BYTES, declared, cap).0, ns);
}

/// Law: the chunk that completes a transfer brings the accepted bytes to
/// exactly the declared total — so once `BufferFiled` is reached, the bytes
/// accepted since the declaration sum to the declared size.
pub proof fn lemma_filled_means_complete(s: TransferState, n: usize, declared: int, cap: int)
    requires
        transfer_fits(s),
        raw_step(s, n, declared, cap).1 == Ok::<PacketKind, PacketProcessingError>(
            PacketKind::BufferFiled,
        ),
    ensures
        offset_of(raw_step(s, n, declared, cap).0) == declared_total(s),
{
}

/// Law: an accepted chunk never extends past the declared total, so no write
/// targets an offset at or beyond the declared size.
pub proof fn lemma_writes_stay_in_declared(s: TransferState, n: usize)
    requires
        raw_step_fills(s, n),
    ensures
        offset_of(s) + n <= declared_total(s),
{
}

/// Law: from idle, a word-sized datagram whose declared total fits the buffer
/// is always accepted as a size declaration and opens the transfer at offset
/// zero.
pub proof fn lemma_declare_from_idle(n: usize, declared: int, cap: int)
    requires
        n == WORD_BYTES,
        0 <= declared <= cap,
        cap <= usize::MAX,
    ensures
        raw_step(TransferState::NotStarted, n, declared, cap) == (
            TransferState::InProgress(0, declared as usize),
            Ok::<PacketKind, PacketProcessingError>(PacketKind::DeclareSize),
        ),
{
}

/// Law: a size declaration is only ever recognised while no transfer is
/// running; mid-transfer, a word-sized datagram is an ordinary chunk.
pub proof fn lemma_no_declare_mid_transfer(s: TransferState, n: usize, declared: int, cap: int)
    requires
        s is InProgress,
    ensures
        raw_step(s, n, declared, cap).1 != Ok::<PacketKind, PacketProcessingError>(
            PacketKind::DeclareSize,
        ),
{
}

/// Classifies one received datagram and advances the transfer.
///
/// `packet` is the outcome of the receive: the datagram length, or the
/// transport's failure. `recv_buffer` holds the datagram's bytes;
/// `wasm_buffer` is the fixed-size buffer the binary is assembled into.
/// Accepted chunk bytes are copied to `wasm_buffer` at the current offset;
/// everything else leaves both buffer and state unchanged. The state and the
/// returned classification follow [`raw_step`] exactly.
pub fn process_packet(
    packet: Result<usize, ()>,
    recv_buffer: &[u8],
    wasm_buffer: &mut Vec<u8>,
    state: &mut TransferState,
) -> (r: Result<PacketKind, PacketProcessingError>)
    requires
        packet matches Ok(n) ==> n <= recv_buffer@.len(),
        transfer_inv(*old(state), old(wasm_buffer)@.len() as int),
    ensures
        final(wasm_buffer)@.len() == old(wasm_buffer)@.len(),
        transfer_inv(*final(state), final(wasm_buffer)@.len() as int),
        match packet {
            Err(_) => {
                &&& r == Err::<PacketKind, _>(PacketProcessingError::ReceiveError)
                &&& *final(state) == *old(state)
                &&& final(wasm_buffer)@ == old(wasm_buffer)@
            },
            Ok(n) => {
                let step = raw_step(
                    *old(state),
                    n,
                    be_word(recv_buffer@.take(WORD_BYTES as int)),
                    old(wasm_buffer)@.len() as int,
                );
                &&& *final(state) == step.0
                &&& r == step.1
                &&& if raw_step_fills(*old(state), n) {
                    final(wasm_buffer)@ == old(wasm_buffer)@.take(offset_of(*old(state)))
                        + recv_buffer@.take(n as int) + old(wasm_buffer)@.skip(
                        offset_of(*old(state)) + n,
                    )
                } else {
                    final(wasm_buffer)@ == old(wasm_buffer)@
                }
            },
        },
{
    match packet {
        Err(_) => Err(PacketProcessingError::ReceiveError),
        Ok(n) => {
            if n == 0 {
                if state.in_progress() {
                    Err(PacketProcessingError::ProgressStopped)
                } else {
                    Ok(PacketKind::Useless)
                }
            } else {
                match *state {
                    TransferState::InProgress(offset, remaining) => {
                        if remaining < n {
                            Err(PacketProcessingError::SizeTooBig)
                        } else {
                            let ghost orig: Seq<u8> = wasm_buffer@;
                            let cap = wasm_buffer.len();
                            let mut i: usize = 0;
                            while i < n
                                invariant
                                    i <= n,
                                    n <= recv_buffer@.len(),
                                    offset + n <= cap,
                                    wasm_buffer@.len() == cap,
                                    wasm_buffer@.len() == orig.len(),
                                    forall|j: int|
                                        offset <= j < offset + i ==> wasm_buffer@[j]
                                            == recv_buffer@[j - offset],
                                    forall|j: int|
                                        0 <= j < wasm_buffer@.len() && !(offset <= j < offset + i)
                                            ==> wasm_buffer@[j] == orig[j],
                                decreases n - i,
                            {
                                wasm_buffer.set(offset + i, recv_buffer[i]);
                                i = i + 1;
                            }
                            proof {
                                assert(wasm_buffer@ =~= orig.take(offset as int) + recv_buffer@.take(
                                    n as int,
                                ) + orig.skip(offset + n));
                            }
                            let new_offset = offset + n;
                            let new_remaining = remaining - n;
                            *state = TransferState::InProgress(new_offset, new_remaining);
                            if new_remaining == 0 {
                                Ok(PacketKind::BufferFiled)
                            } else {
                                Ok(PacketKind::PartialFill)
                            }
                        }
                    },
                    TransferState::NotStarted => {
                        if n != WORD_BYTES {
                            Err(PacketProcessingError::HadntStartedYet)
                        } else {
                            let declared = decode_be_word(recv_buffer) as usize;
                            if declared > wasm_buffer.len() {
                                Err(PacketProcessingError::SizeTooBig)
                            } else {
                                *state = TransferState::InProgress(0, declared);
                                Ok(PacketKind::DeclareSize)
                            }
                        }
                    },
                }
            }
        },
    }
}

} // verus!

//! CoAP Block1 control resource: block-wise upload of a new capsule binary,
//! and abort.
//!
//! A `PUT` carries one block of the binary, addressed by the Block1 option:
//! the option value packs a block number, a more-blocks flag and a size
//! exponent, with block size `2^(4 + szx)` and byte offset
//! `number * block_size`. The handler insists that each block lands exactly
//! at the end of what has been received — a gap or an overlap is rejected
//! with "request entity incomplete" — and an upload starting at offset zero
//! discards any earlier partial state. When the final block arrives the
//! manager is immediately re-instantiated from the assembled buffer. A
//! `DELETE` stops the running capsule and clears the report.

use crate::config::RuntimeConfig;
use crate::lifecycle::{
    CanInstantiate, CoapError, CoapServerGuest, ProgramError, StringRecord, WasmHandler, stop_rel,
};
use vstd::prelude::*;

verus! {

/// Request code of a CoAP PUT (0.03).
pub const CODE_PUT: u8 = 0x03;

/// Request code of a CoAP DELETE (0.04).
pub const CODE_DELETE: u8 = 0x04;

/// Response 2.02 Deleted.
pub const CODE_DELETED: u8 = 0x42;

/// Response 2.04 Changed: the final block was accepted and the capsule
/// replaced.
pub const CODE_CHANGED: u8 = 0x44;

/// Response 2.31 Continue: an intermediate block was accepted.
pub const CODE_CONTINUE: u8 = 0x5f;

/// Response 4.08 Request Entity Incomplete: the block does not continue the
/// received prefix.
pub const CODE_REQUEST_ENTITY_INCOMPLETE: u8 = 0x88;

/// The option number of Block1.
pub const BLOCK1_OPTION: u16 = 27;

/// Whether a CoAP option number marks a critical option: the low bit says
/// the request must be rejected rather than served with the option ignored.
pub open spec fn option_is_critical(number: u16) -> bool {
    number % 2 == 1
}

/// Whether a request's option set is acceptable to the control resource:
/// every critical option is one the resource recognises — Block1 is the only
/// one — while elective options are ignored, as CoAP asks.
pub open spec fn options_recognised(numbers: Seq<u16>) -> bool {
    forall|i: int|
        0 <= i < numbers.len() ==> (option_is_critical(#[trigger] numbers[i]) ==> numbers[i]
            == BLOCK1_OPTION)
}

/// Decides whether the request's options allow serving it: true unless some
/// critical option other than Block1 is present.
pub fn check_options(numbers: &[u16]) -> (r: bool)
    ensures
        r == options_recognised(numbers@),
{
    let n = numbers.len();
    let mut i: usize = 0;
    while i < n
        invariant
            i <= n,
            n == numbers@.len(),
            forall|j: int|
                0 <= j < i ==> (option_is_critical(#[trigger] numbers@[j]) ==> numbers@[j]
                    == BLOCK1_OPTION),
        decreases n - i,
    {
        if numbers[i] % 2 == 1 && numbers[i] != BLOCK1_OPTION {
            return false;
        }
        i = i + 1;
    }
    true
}

/// The size exponent packed into a Block1 option value.
pub open spec fn block1_szx(raw: u32) -> u32 {
    raw % 8
}

/// The more-blocks flag packed into a Block1 option value.
pub open spec fn block1_more(raw: u32) -> bool {
    (raw / 8) % 2 == 1
}

/// The block number packed into a Block1 option value.
pub open spec fn block1_number(raw: u32) -> u32 {
    raw / 16
}

/// The block size encoded by a Block1 option value: `2^(4 + szx)` bytes.
pub open spec fn block1_block_size(raw: u32) -> u32 {
    if block1_szx(raw) == 0 {
        16
    } else if block1_szx(raw) == 1 {
        32
    } else if block1_szx(raw) == 2 {
        64
    } else if block1_szx(raw) == 3 {
        128
    } else if block1_szx(raw) == 4 {
        256
    } else if block1_szx(raw) == 5 {
        512
    } else if block1_szx(raw) == 6 {
        1024
    } else {
        2048
    }
}

/// The byte offset a Block1 option value addresses.
pub open spec fn block1_offset(raw: u32) -> int {
    block1_number(raw) * block1_block_size(raw)
}

/// Unpacks a Block1 option value into block number, more-blocks flag, block
/// size and byte offset.
pub fn decode_block1(raw: u32) -> (r: (u32, bool, u32, u64))
    ensures
        r.0 == block1_number(raw),
        r.1 == block1_more(raw),
        r.2 == block1_block_size(raw),
        r.3 == block1_offset(raw),
{
    let szx = raw & 0x7;
    assert(raw & 0x7 == raw % 8) by (bit_vector);
    let more = raw & 0x8 == 0x8;
    assert((raw & 0x8 == 0x8) == ((raw / 8) % 2 == 1)) by (bit_vector);
    let number = raw >> 4;
    assert(raw >> 4 == raw / 16) by (bit_vector);
    let block_size: u32 = match szx {
        0 => 16,
        1 => 32,
        2 => 64,
        3 => 128,
        4 => 256,
        5 => 512,
        6 => 1024,
        _ => 2048,
    };
    let offset = (number as u64) * (block_size as u64);
    proof {
        assert(number * block_size <= 0x0fff_ffff * 2048) by (nonlinear_arith)
            requires
                number <= 0x0fff_ffff,
                block_size <= 2048,
        ;
    }
    (number, more, block_size, offset)
}

/// What accepting a block answers: an intermediate block is acknowledged with
/// 2.31 Continue and the manager stays idle; the final block re-instantiates
/// the capsule — 2.04 Changed when the engine accepts the assembled program,
/// a bad-request error (and an idle manager) when it refuses it.
pub open spec fn block_accept_outcome<T, G>(
    raw: u32,
    post: WasmHandler<T, G>,
    r: Result<(Option<u32>, u8), CoapError>,
) -> bool {
    if block1_more(raw) {
        r == Ok::<(Option<u32>, u8), CoapError>((Some(raw), CODE_CONTINUE)) && post.state
            is NotRunning
    } else {
        ||| (r == Ok::<(Option<u32>, u8), CoapError>((Some(raw), CODE_CHANGED)) && post.state
            is Running)
        ||| (r == Err::<(Option<u32>, u8), CoapError>(CoapError::BadRequest) && post.state
            is NotRunning)
    }
}

/// Everything a block upload does to the manager, as a relation between the
/// state before, the state after, and the response.
///
/// With a non-zero offset the block must continue the received prefix
/// exactly: while a capsule runs, or when the offset differs from the buffer
/// length, nothing changes and the answer is 4.08 Request Entity Incomplete.
/// With offset zero any prior state — a running capsule, its report, a
/// partial upload — is discarded first. An accepted block is appended, a
/// block that would overflow the fixed buffer is refused.
pub open spec fn put_rel<T, G>(
    pre: WasmHandler<T, G>,
    post: WasmHandler<T, G>,
    raw: u32,
    payload: Seq<u8>,
    r: Result<(Option<u32>, u8), CoapError>,
) -> bool {
    let off = block1_offset(raw);
    let cap = pre.program_capacity as int;
    let incomplete = Ok::<(Option<u32>, u8), CoapError>((None, CODE_REQUEST_ENTITY_INCOMPLETE));
    let overflow = Err::<(Option<u32>, u8), CoapError>(CoapError::InternalServerError);
    &&& post.program_capacity == pre.program_capacity
    &&& (off != 0 && pre.state is Running ==> r == incomplete && post == pre)
    &&& (off != 0 && !(pre.state is Running) && pre.program@.len() != off ==> r == incomplete
        && post == pre)
    &&& (off != 0 && !(pre.state is Running) && pre.program@.len() == off && pre.program@.len()
        + payload.len() > cap ==> r == overflow && post == pre)
    &&& (off != 0 && !(pre.state is Running) && pre.program@.len() == off && pre.program@.len()
        + payload.len() <= cap ==> post.program@ == pre.program@ + payload && block_accept_outcome(
        raw,
        post,
        r,
    ) && (block1_more(raw) ==> post.paths == pre.paths))
    &&& (off == 0 && payload.len() > cap ==> r == overflow && post.program@ =~= Seq::<u8>::empty()
        && post.state is NotRunning && post.paths@ =~= Seq::<StringRecord>::empty())
    &&& (off == 0 && payload.len() <= cap ==> post.program@ =~= payload && block_accept_outcome(
        raw,
        post,
        r,
    ) && (block1_more(raw) ==> post.paths@ =~= Seq::<StringRecord>::empty()))
}

/// Uploads one block addressed by the Block1 option value `raw`, restarting
/// the assembly when the block's offset is zero and re-instantiating the
/// capsule from the assembled buffer when the more-blocks flag is clear.
pub fn handle_put<T, G: CanInstantiate<T> + CoapServerGuest<T>>(
    handler: &mut WasmHandler<T, G>,
    raw: u32,
    payload: &[u8],
    config: &RuntimeConfig,
) -> (r: Result<(Option<u32>, u8), CoapError>)
    requires
        old(handler).wf(),
    ensures
        final(handler).wf(),
        put_rel(*old(handler), *final(handler), raw, payload@, r),
{
    let parts = decode_block1(raw);
    let more = parts.1;
    let offset = parts.3;
    if offset == 0 {
        handler.stop();
        match handler.truncate_program() {
            Ok(_) => (),
            Err(_) => unreached(),
        }
    }
    if handler.is_running() {
        return Ok((None, CODE_REQUEST_ENTITY_INCOMPLETE));
    }
    let plen = handler.program_len();
    if (plen as u64) != offset {
        return Ok((None, CODE_REQUEST_ENTITY_INCOMPLETE));
    }
    match handler.mutate_program(payload) {
        Err(ProgramError::StillRunning) => unreached(),
        Err(ProgramError::CapacityExceeded) => Err(CoapError::InternalServerError),
        Ok(_) => {
            if more {
                Ok((Some(raw), CODE_CONTINUE))
            } else {
                match handler.start_from_dynamic(config) {
                    Ok(_) => Ok((Some(raw), CODE_CHANGED)),
                    Err(_) => Err(CoapError::BadRequest),
                }
            }
        },
    }
}

/// The control resource: `PUT` uploads a block (a request without a Block1
/// option counts as offset zero with no more-blocks flag), `DELETE` stops the
/// running capsule and discards its report, every other method is refused.
/// `option_numbers` carries the numbers of all options the request came with:
/// an unrecognised critical option among them rejects the request untouched.
pub fn handle_control_request<T, G: CanInstantiate<T> + CoapServerGuest<T>>(
    handler: &mut WasmHandler<T, G>,
    code: u8,
    option_numbers: &[u16],
    block1: Option<u32>,
    payload: &[u8],
    config: &RuntimeConfig,
) -> (r: Result<(Option<u32>, u8), CoapError>)
    requires
        old(handler).wf(),
    ensures
        final(handler).wf(),
        (code != CODE_DELETE && code != CODE_PUT ==> r == Err::<(Option<u32>, u8), CoapError>(
            CoapError::MethodNotAllowed,
        ) && *final(handler) == *old(handler)),
        ((code == CODE_DELETE || code == CODE_PUT) && !options_recognised(option_numbers@) ==> r
            == Err::<(Option<u32>, u8), CoapError>(CoapError::BadOption) && *final(handler) == *old(
            handler,
        )),
        (code == CODE_DELETE && options_recognised(option_numbers@) ==> r == Ok::<
            (Option<u32>, u8),
            CoapError,
        >((None, CODE_DELETED)) && stop_rel(*old(handler), *final(handler))),
        (code == CODE_PUT && options_recognised(option_numbers@) ==> put_rel(
            *old(handler),
            *final(handler),
            block1_value(block1),
            payload@,
            r,
        )),
{
    if code == CODE_DELETE {
        if !check_options(option_numbers) {
            return Err(CoapError::BadOption);
        }
        handler.stop();
        Ok((None, CODE_DELETED))
    } else if code == CODE_PUT {
        if !check_options(option_numbers) {
            return Err(CoapError::BadOption);
        }
        let raw = match block1 {
            Some(b) => b,
            None => 0,
        };
        handle_put(handler, raw, payload, config)
    } else {
        Err(CoapError::MethodNotAllowed)
    }
}

/// The Block1 option value of a request: a request without the option is
/// treated as block zero of a single-block upload.
pub open spec fn block1_value(block1: Option<u32>) -> u32 {
    match block1 {
        Some(b) => b,
        None => 0,
    }
}

} // verus!

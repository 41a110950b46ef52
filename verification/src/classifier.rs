use vstd::prelude::*;

use crate::errors::DecodeError;

verus! {

/// What a single call byte asks of the bus: the master either polls one
/// device for a request, asks for a resend, announces a broadcast feedback
/// poll, opens a framed message, or uses a reserved (unknown) form.
#[derive(Clone, Copy, Debug, PartialEq, Eq, Structural)]
pub enum CallKind {
    SendRequest,
    RequestResend,
    FramedMessage,
    BroadcastFeedbackPoll,
    Unknown,
}

/// One classified call byte. Created by [`classify`] and never mutated.
#[derive(Clone, Copy, Debug, PartialEq, Eq, Structural)]
pub struct CallFrame {
    pub kind: CallKind,
    /// Five-bit device address taken from the low bits of the call byte.
    pub target_address: u8,
    pub raw_byte: u8,
    /// Monotonic arrival timestamp supplied by the transport.
    pub received_at: u64,
    /// True exactly when `target_address` is zero.
    pub is_broadcast: bool,
}

/// Population count of the byte, written digit by digit in base two.
pub open spec fn ones_count(b: u8) -> int {
    b % 2 + b / 2 % 2 + b / 4 % 2 + b / 8 % 2 + b / 16 % 2 + b / 32 % 2 + b / 64 % 2 + b / 128
        % 2
}

/// The parity bit is the top bit of the call byte.
pub open spec fn parity_bit_set(b: u8) -> bool {
    b / 128 % 2 == 1
}

/// Observed bus convention: the parity bit must agree with whether the whole
/// byte, parity bit included, has an even population count.
pub open spec fn spec_parity_valid(b: u8) -> bool {
    parity_bit_set(b) == (ones_count(b) % 2 == 0)
}

/// Two-bit request type code, bits five and six of the call byte.
pub open spec fn call_type_code(b: u8) -> u8 {
    b / 32 % 4
}

/// Five-bit device address, bits zero through four of the call byte.
pub open spec fn call_address(b: u8) -> u8 {
    b % 32
}

pub open spec fn spec_is_broadcast(b: u8) -> bool {
    call_address(b) == 0
}

/// The classification table, evaluated top to bottom. Broadcast framed
/// messages relax the parity requirement; every other row demands a valid
/// parity bit. Bytes matching no row fail with `ParityError` when the parity
/// bit is wrong and with `UnclassifiedCallError` otherwise.
pub open spec fn spec_call_kind(b: u8) -> Result<CallKind, DecodeError> {
    let code = call_type_code(b);
    let parity = spec_parity_valid(b);
    let broadcast = spec_is_broadcast(b);
    if code == 2 && parity {
        Ok(CallKind::SendRequest)
    } else if code == 0 && parity && !broadcast {
        Ok(CallKind::RequestResend)
    } else if code == 1 && parity && broadcast {
        Ok(CallKind::BroadcastFeedbackPoll)
    } else if code == 3 && broadcast {
        Ok(CallKind::FramedMessage)
    } else if code == 3 && parity {
        Ok(CallKind::FramedMessage)
    } else if code == 1 && parity {
        Ok(CallKind::Unknown)
    } else if !parity {
        Err(DecodeError::ParityError)
    } else {
        Err(DecodeError::UnclassifiedCallError)
    }
}

/// Full classifier outcome, a function of the call byte alone except for the
/// recorded timestamp. This is the entire contract of [`classify`]: same
/// byte, same result.
pub open spec fn spec_classify(b: u8, received_at: u64) -> Result<CallFrame, DecodeError> {
    match spec_call_kind(b) {
        Ok(kind) => Ok(
            CallFrame {
                kind,
                target_address: call_address(b),
                raw_byte: b,
                received_at,
                is_broadcast: spec_is_broadcast(b),
            },
        ),
        Err(e) => Err(e),
    }
}

/// The unclassified-call error is unreachable over the whole byte range:
/// the only row the table rejects with a valid parity bit is a broadcast
/// resend request, and the two bytes of that shape (all bits clear, or only
/// the parity bit set) both fail the parity convention.
pub proof fn lemma_unclassified_call_is_unreachable(b: u8)
    ensures
        spec_call_kind(b) != Err::<CallKind, DecodeError>(DecodeError::UnclassifiedCallError),
{
    if spec_call_kind(b) == Err::<CallKind, DecodeError>(DecodeError::UnclassifiedCallError) {
        assert(call_type_code(b) == 0 && call_address(b) == 0);
        assert(b == 0 || b == 128);
        assert(!spec_parity_valid(0));
        assert(!spec_parity_valid(128));
    }
}

/// Checks the self-referential parity convention of the bus on one byte.
pub fn parity_valid(b: u8) -> (ok: bool)
    ensures
        ok == spec_parity_valid(b),
{
    let ones: u8 = b % 2 + b / 2 % 2 + b / 4 % 2 + b / 8 % 2 + b / 16 % 2 + b / 32 % 2 + b / 64
        % 2 + b / 128 % 2;
    let bit7: bool = b / 128 % 2 == 1;
    bit7 == (ones % 2 == 0)
}

/// Classifies one call byte. Pure: the result is fully determined by the
/// byte (the timestamp is only recorded into the frame), which is the
/// classifier-determinism guarantee.
pub fn classify(byte: u8, received_at: u64) -> (r: Result<CallFrame, DecodeError>)
    ensures
        r == spec_classify(byte, received_at),
{
    let parity = parity_valid(byte);
    let code: u8 = byte / 32 % 4;
    let address: u8 = byte % 32;
    let broadcast = address == 0;
    let kind: Result<CallKind, DecodeError> = if code == 2 && parity {
        Ok(CallKind::SendRequest)
    } else if code == 0 && parity && !broadcast {
        Ok(CallKind::RequestResend)
    } else if code == 1 && parity && broadcast {
        Ok(CallKind::BroadcastFeedbackPoll)
    } else if code == 3 && broadcast {
        Ok(CallKind::FramedMessage)
    } else if code == 3 && parity {
        Ok(CallKind::FramedMessage)
    } else if code == 1 && parity {
        Ok(CallKind::Unknown)
    } else if !parity {
        Err(DecodeError::ParityError)
    } else {
        Err(DecodeError::UnclassifiedCallError)
    };
    match kind {
        Ok(k) => Ok(
            CallFrame {
                kind: k,
                target_address: address,
                raw_byte: byte,
                received_at,
                is_broadcast: broadcast,
            },
        ),
        Err(e) => Err(e),
    }
}

} // verus!

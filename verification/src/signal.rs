//! The cross-space completion-signal protocol.
//!
//! When a kernel-side operation completes, the kernel encodes the caller's
//! correlation id into a single word and delivers it to the owning process
//! through the inter-process signal primitive.  The encoding adds
//! `1 + usize::MAX / 2`, which guarantees the word strictly exceeds half the
//! representable range; the user-side trap handler uses that threshold as the
//! discriminator.  Any inbound word above `usize::MAX / 2` is "completion for
//! the task id obtained by subtracting the offset"; anything else routes to
//! ordinary message handling.
//!
//! This is the only channel between the two reactor instances: at most one
//! signal per operation, assumed in-order and non-lossy.

use vstd::prelude::*;

verus! {

use crate::task_id::id_limit;

/// The word that announces completion of the operation with correlation id
/// `user_task_id`.
pub open spec fn spec_encode(user_task_id: usize) -> int {
    user_task_id + 1 + usize::MAX / 2
}

/// The correlation id carried by an inbound word, if the word is a
/// completion signal at all: only words above half the range are.
pub open spec fn spec_decode(message: usize) -> Option<usize> {
    if message > usize::MAX / 2 {
        Some((message - usize::MAX / 2 - 1) as usize)
    } else {
        None
    }
}

/// Encodes a completion signal for `user_task_id`.  The result always lies
/// strictly above half the range, so no ordinary message can be mistaken for
/// it.  Ids above half the range are never issued, which keeps the sum in
/// range.
pub fn encode_completion(user_task_id: usize) -> (message: usize)
    requires
        user_task_id <= id_limit(),
    ensures
        message == spec_encode(user_task_id),
        message > usize::MAX / 2,
{
    user_task_id + 1 + usize::MAX / 2
}

/// Classifies an inbound word: the correlation id of a completion signal, or
/// `None` for an ordinary message.
pub fn decode_message(message: usize) -> (r: Option<usize>)
    ensures
        r == spec_decode(message),
        message > usize::MAX / 2 <==> r is Some,
{
    if message > usize::MAX / 2 {
        Some(message - usize::MAX / 2 - 1)
    } else {
        None
    }
}

/// Round trip: decoding the signal encoded for any issuable id yields that
/// id again, and the signal clears the discrimination threshold.
pub proof fn lemma_signal_round_trip(user_task_id: usize)
    requires
        user_task_id <= id_limit(),
    ensures
        spec_encode(user_task_id) > usize::MAX / 2,
        spec_decode(spec_encode(user_task_id) as usize) == Some(user_task_id),
{
}

/// No ordinary message, that is no word at or below half the range, is ever
/// taken for a completion signal.
pub proof fn lemma_ordinary_message_is_not_a_signal(message: usize)
    requires
        message <= usize::MAX / 2,
    ensures
        spec_decode(message) is None,
{
}

/// Distinct correlation ids encode to distinct signal words: the channel
/// never confuses two operations.
pub proof fn lemma_encoding_is_injective(a: usize, b: usize)
    requires
        a <= id_limit(),
        b <= id_limit(),
        a != b,
    ensures
        spec_encode(a) != spec_encode(b),
{
}

} // verus!

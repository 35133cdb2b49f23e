//! The bookkeeping of an impulse buffer.
//!
//! An impulse is a buffer of samples, one per sample period, into which the
//! responses of many traced rays are summed. The sums are the caller's
//! business; this module holds what is decided on sample numbers: how long
//! the buffer must be for a batch of responses, which samples a response is
//! written to and with which sign, and where the buffer is cut before it is
//! rendered.

use vstd::prelude::*;

verus! {

/// The sign under which a loudness is added to a sample.
#[derive(Debug, Clone, Copy, PartialEq, Eq, Structural)]
pub enum Sign {
    /// The loudness is added.
    Positive,
    /// The loudness is subtracted.
    Negative,
}

/// How a response is written into the buffer.
#[derive(Debug, Clone, Copy, PartialEq, Eq, Structural)]
pub enum DepositPolicy {
    /// One sample takes the loudness, with the sign of the response's phase.
    SingleSample,
    /// One sample takes the loudness and the next one gives it back: a step
    /// up followed by a step down.
    SplitPair,
}

/// One write into the buffer: the loudness of a response is added to the
/// sample at `index` under `sign`.
#[derive(Debug, Clone, Copy, PartialEq, Eq, Structural)]
pub struct Stroke {
    pub index: usize,
    pub sign: Sign,
}

/// The writes that one response makes.
#[derive(Debug, Clone, Copy, PartialEq, Eq, Structural)]
pub struct Deposit {
    pub first: Stroke,
    pub second: Option<Stroke>,
}

/// The phase of a response after `bounces` bounces: each bounce inverts it.
pub open spec fn spec_phase_sign(bounces: usize) -> Sign {
    if bounces % 2 == 0 {
        Sign::Positive
    } else {
        Sign::Negative
    }
}

/// The phase of a response after `bounces` bounces: each bounce inverts it.
#[verifier::when_used_as_spec(spec_phase_sign)]
pub fn phase_sign(bounces: usize) -> (sign: Sign)
    ensures
        sign == spec_phase_sign(bounces),
{
    if bounces % 2 == 0 {
        Sign::Positive
    } else {
        Sign::Negative
    }
}

/// The number of samples that the buffer must have so that any response up
/// to sample number `last_slot` can be written under either policy: two more
/// than `last_slot`.
pub open spec fn required_size(last_slot: usize) -> nat {
    (last_slot + 2) as nat
}

/// The number of samples of a buffer that had `current` samples, once it has
/// been made ready for responses up to sample number `last_slot`: it grows
/// to the required size if it was shorter and is left alone if not.
pub open spec fn grown_size(current: usize, last_slot: usize) -> nat {
    if current >= required_size(last_slot) {
        current as nat
    } else {
        required_size(last_slot)
    }
}

/// The writes of a response that falls on sample number `position` after
/// `bounces` bounces.
pub open spec fn deposit_of(policy: DepositPolicy, position: usize, bounces: usize) -> Deposit {
    match policy {
        DepositPolicy::SingleSample => Deposit {
            first: Stroke { index: position, sign: spec_phase_sign(bounces) },
            second: None,
        },
        DepositPolicy::SplitPair => Deposit {
            first: Stroke { index: position, sign: Sign::Positive },
            second: Some(Stroke { index: (position + 1) as usize, sign: Sign::Negative }),
        },
    }
}

/// The number of samples from `position` on that a response touches.
pub open spec fn span(policy: DepositPolicy) -> nat {
    match policy {
        DepositPolicy::SingleSample => 1,
        DepositPolicy::SplitPair => 2,
    }
}

/// The size that a buffer of `current` samples must have for a batch of
/// responses whose last one falls at or before sample number `last_slot`;
/// `None` if no buffer can be that long.
pub fn buffer_size_for(current: usize, last_slot: usize) -> (size: Option<usize>)
    ensures
        size == if required_size(last_slot) <= usize::MAX {
            Some(grown_size(current, last_slot) as usize)
        } else {
            None
        },
{
    if last_slot > usize::MAX - 2 {
        return None;
    }
    let required = last_slot + 2;
    if current < required {
        Some(required)
    } else {
        Some(current)
    }
}

/// The writes of a response that falls on sample number `position` after
/// `bounces` bounces, into a buffer of `buffer_len` samples; `None` if the
/// response would touch a sample that the buffer does not have.
pub fn deposit(policy: DepositPolicy, position: usize, bounces: usize, buffer_len: usize) -> (plan:
    Option<Deposit>)
    ensures
        plan == if position + span(policy) <= buffer_len {
            Some(deposit_of(policy, position, bounces))
        } else {
            None
        },
{
    match policy {
        DepositPolicy::SingleSample => {
            if position < buffer_len {
                Some(
                    Deposit {
                        first: Stroke { index: position, sign: phase_sign(bounces) },
                        second: None,
                    },
                )
            } else {
                None
            }
        },
        DepositPolicy::SplitPair => {
            if buffer_len >= 2 && position <= buffer_len - 2 {
                Some(
                    Deposit {
                        first: Stroke { index: position, sign: Sign::Positive },
                        second: Some(Stroke { index: position + 1, sign: Sign::Negative }),
                    },
                )
            } else {
                None
            }
        },
    }
}

/// Every index a deposit writes to is a sample of the buffer it was planned
/// for.
pub proof fn lemma_deposit_stays_inside(
    policy: DepositPolicy,
    position: usize,
    bounces: usize,
    buffer_len: usize,
)
    requires
        position + span(policy) <= buffer_len,
    ensures
        deposit_of(policy, position, bounces).first.index < buffer_len,
        deposit_of(policy, position, bounces).second matches Some(stroke) ==> stroke.index
            < buffer_len,
{
}

/// A buffer that was made ready for a batch takes every response of the
/// batch: one that falls at or before the sample number the buffer was grown
/// for fits under either policy.
pub proof fn lemma_grown_buffer_takes_batch(
    current: usize,
    last_slot: usize,
    policy: DepositPolicy,
    position: usize,
)
    requires
        position <= last_slot,
    ensures
        position + span(policy) <= grown_size(current, last_slot),
{
}

/// Making a buffer ready never shortens it, and doing it twice for the same
/// batch changes nothing more.
pub proof fn lemma_buffer_only_grows(current: usize, last_slot: usize)
    requires
        required_size(last_slot) <= usize::MAX,
    ensures
        grown_size(current, last_slot) >= current,
        grown_size(current, last_slot) >= required_size(last_slot),
        grown_size(grown_size(current, last_slot) as usize, last_slot) == grown_size(
            current,
            last_slot,
        ),
{
}

/// The size of a buffer after two batches does not depend on which of them
/// came first.
pub proof fn lemma_growth_commutes(current: usize, first_slot: usize, second_slot: usize)
    requires
        required_size(first_slot) <= usize::MAX,
        required_size(second_slot) <= usize::MAX,
    ensures
        grown_size(grown_size(current, first_slot) as usize, second_slot) == grown_size(
            grown_size(current, second_slot) as usize,
            first_slot,
        ),
{
}

/// A response as the buffer sees it: the number of the sample it falls on,
/// and how many bounces it has behind it.
#[derive(Debug, Clone, Copy, PartialEq, Eq, Structural)]
pub struct Arrival {
    pub position: usize,
    pub bounces: usize,
}

/// Why a batch of responses cannot be written.
#[derive(Debug, Clone, Copy, PartialEq, Eq, Structural)]
pub enum BatchError {
    /// The response numbered `response` falls on an earlier sample than the
    /// response before it: the batch is not in the order of arrival.
    OutOfOrder { response: usize },
    /// The last response falls behind the sample that the batch was said to
    /// end at.
    BeyondLastSlot,
    /// No buffer can be as long as the batch needs it.
    TooLong,
}

/// What writing a batch of responses comes to: the size the buffer must be
/// given first, and then the writes, one deposit for each response.
#[derive(Debug)]
pub struct Batch {
    pub size: usize,
    pub deposits: Vec<Deposit>,
}

/// Whether no arrival falls on an earlier sample than one before it.
pub open spec fn ascending(arrivals: Seq<Arrival>) -> bool {
    forall|i: int, j: int|
        0 <= i <= j < arrivals.len() ==> arrivals[i].position <= arrivals[j].position
}

/// Whether the arrival numbered `i` is the first that falls on an earlier
/// sample than the one before it.
pub open spec fn is_first_descent(arrivals: Seq<Arrival>, i: int) -> bool {
    &&& 0 < i < arrivals.len()
    &&& arrivals[i].position < arrivals[i - 1].position
    &&& ascending(arrivals.take(i))
}

/// The deposits of `arrivals`, one for each, in their order.
pub open spec fn deposits_of(policy: DepositPolicy, arrivals: Seq<Arrival>) -> Seq<Deposit> {
    arrivals.map_values(|a: Arrival| deposit_of(policy, a.position, a.bounces))
}

/// Whether a batch can be written: it is in the order of arrival, it ends
/// where it was said to end, and a buffer can be long enough for it. An
/// empty batch can always be written.
pub open spec fn writable(arrivals: Seq<Arrival>, last_slot: usize) -> bool {
    arrivals.len() > 0 ==> {
        &&& ascending(arrivals)
        &&& arrivals.last().position <= last_slot
        &&& required_size(last_slot) <= usize::MAX
    }
}

/// Plans the writing of a batch of responses into a buffer of `buffer_len`
/// samples.
///
/// `arrivals` are the responses in the order of their arrival, and
/// `last_slot` is the number of the first sample that begins at or after
/// the arrival of the last one. An empty batch changes nothing. For any
/// other the buffer is made ready for responses up to `last_slot`, and
/// each response makes its deposit. A batch that is out of order, that ends
/// behind `last_slot`, or that needs a longer buffer than there can be is
/// refused, in that order of precedence.
pub fn plan_responses(
    policy: DepositPolicy,
    buffer_len: usize,
    arrivals: &[Arrival],
    last_slot: usize,
) -> (plan: Result<Batch, BatchError>)
    ensures
        match plan {
            Ok(batch) => {
                &&& writable(arrivals@, last_slot)
                &&& batch.size == if arrivals@.len() == 0 {
                    buffer_len as nat
                } else {
                    grown_size(buffer_len, last_slot)
                }
                &&& batch.deposits@ == deposits_of(policy, arrivals@)
            },
            Err(BatchError::OutOfOrder { response }) => is_first_descent(
                arrivals@,
                response as int,
            ),
            Err(BatchError::BeyondLastSlot) => {
                &&& ascending(arrivals@)
                &&& arrivals@.len() > 0
                &&& arrivals@.last().position > last_slot
            },
            Err(BatchError::TooLong) => {
                &&& ascending(arrivals@)
                &&& arrivals@.len() > 0
                &&& arrivals@.last().position <= last_slot
                &&& required_size(last_slot) > usize::MAX
            },
        },
{
    if arrivals.len() == 0 {
        return Ok(Batch { size: buffer_len, deposits: Vec::new() });
    }
    let mut i: usize = 1;
    while i < arrivals.len()
        invariant
            1 <= i <= arrivals.len(),
            ascending(arrivals@.take(i as int)),
        decreases arrivals.len() - i,
    {
        if arrivals[i].position < arrivals[i - 1].position {
            return Err(BatchError::OutOfOrder { response: i });
        }
        proof {
            let checked = arrivals@.take(i as int);
            let next = arrivals@.take(i + 1);
            assert forall|a: int, b: int| 0 <= a <= b < next.len() implies next[a].position
                <= next[b].position by {
                if b < i {
                    assert(checked[a].position <= checked[b].position);
                } else if a < i {
                    assert(checked[a].position <= checked[i - 1].position);
                }
            }
        }
        i += 1;
    }
    assert(arrivals@.take(i as int) == arrivals@);
    if arrivals[arrivals.len() - 1].position > last_slot {
        return Err(BatchError::BeyondLastSlot);
    }
    let size = match buffer_size_for(buffer_len, last_slot) {
        Some(size) => size,
        None => {
            return Err(BatchError::TooLong);
        },
    };
    let mut deposits: Vec<Deposit> = Vec::new();
    let mut k: usize = 0;
    while k < arrivals.len()
        invariant
            k <= arrivals.len(),
            ascending(arrivals@),
            arrivals@.len() > 0,
            arrivals@.last().position <= last_slot,
            size == grown_size(buffer_len, last_slot),
            deposits@ == deposits_of(policy, arrivals@.take(k as int)),
        decreases arrivals.len() - k,
    {
        let arrival = arrivals[k];
        assert(arrival.position <= arrivals@.last().position);
        if let Some(planned) = deposit(policy, arrival.position, arrival.bounces, size) {
            deposits.push(planned);
        }
        assert(arrivals@.take(k + 1) == arrivals@.take(k as int).push(arrival));
        k += 1;
    }
    assert(arrivals@.take(k as int) == arrivals@);
    Ok(Batch { size, deposits })
}

/// Every write of a planned batch lands in the buffer once it has the size
/// the plan gives it.
pub proof fn lemma_batch_stays_inside(
    policy: DepositPolicy,
    buffer_len: usize,
    arrivals: Seq<Arrival>,
    last_slot: usize,
    k: int,
)
    requires
        writable(arrivals, last_slot),
        0 <= k < arrivals.len(),
    ensures
        deposits_of(policy, arrivals)[k].first.index < grown_size(buffer_len, last_slot),
        deposits_of(policy, arrivals)[k].second matches Some(stroke) ==> stroke.index
            < grown_size(buffer_len, last_slot),
{
    assert(arrivals[k].position <= arrivals.last().position);
}

/// Whether nothing in `audible` is audible.
pub open spec fn all_silent(audible: Seq<bool>) -> bool {
    forall|i: int| 0 <= i < audible.len() ==> !audible[i]
}

/// Whether `i` is the number of the last audible sample.
pub open spec fn is_last_audible(audible: Seq<bool>, i: int) -> bool {
    &&& 0 <= i < audible.len()
    &&& audible[i]
    &&& forall|j: int| i < j < audible.len() ==> !audible[j]
}

/// The length to which a buffer is cut before it is rendered.
///
/// `audible` says of each sample whether it is loud enough to be heard. The
/// buffer is cut behind its last audible sample: the silence that trails it
/// goes, and the result is the number of samples up to and with that one. A
/// buffer in which nothing is audible is cut to nothing.
pub fn truncated_length(audible: &[bool]) -> (length: usize)
    ensures
        all_silent(audible@) ==> length == 0,
        !all_silent(audible@) ==> is_last_audible(audible@, length - 1),
{
    let mut i = audible.len();
    while i > 0
        invariant
            i <= audible.len(),
            forall|j: int| i <= j < audible.len() ==> !audible@[j],
        decreases i,
    {
        if audible[i - 1] {
            return i;
        }
        i -= 1;
    }
    0
}

/// Cutting a buffer loses nothing audible, leaves no silence at its end, and
/// never makes it longer.
pub proof fn lemma_cut_keeps_what_is_audible(audible: Seq<bool>, length: int)
    requires
        is_last_audible(audible, length - 1),
    ensures
        0 < length <= audible.len(),
        audible[length - 1],
        forall|j: int| 0 <= j < audible.len() && audible[j] ==> j < length,
{
}

} // verus!

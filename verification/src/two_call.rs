//! The two-call query protocol.
//!
//! An open-ended result set is read in two calls. The first call hands in no
//! buffer and learns how many entries there are. The second hands in a buffer
//! and the number of entries it can take, and gets the entries: all of them
//! where they fit, else as many as fit, in which case the outcome says so.

use crate::result::VkResult;
use vstd::prelude::*;

verus! {

/// How many entries a call with a buffer writes: as many as were asked for,
/// and no more than there are.
pub open spec fn written(requested: int, available: int) -> int {
    if requested < available {
        requested
    } else {
        available
    }
}

/// The outcome of a call with a buffer.
pub open spec fn fill_outcome(requested: int, available: int) -> VkResult {
    if requested < available {
        VkResult::Incomplete
    } else {
        VkResult::Success
    }
}

/// What a buffer holds after a call: the first entries of the catalogue, in
/// the catalogue's order, and behind them what the buffer held before.
pub open spec fn filled<T>(catalogue: Seq<T>, requested: int, before: Seq<T>) -> Seq<T> {
    let k = written(requested, catalogue.len() as int);
    catalogue.subrange(0, k) + before.subrange(k, before.len() as int)
}

/// Answers one call of the protocol over `catalogue`.
///
/// Without a buffer the count becomes the size of the catalogue. With one,
/// the count says how many entries the caller asks for; that many are copied,
/// or all there are if that is fewer, and the count becomes the number copied.
/// The buffer has to hold at least the entries that are copied.
pub fn answer<T: Copy>(catalogue: &[T], count: &mut u32, buffer: Option<&mut [T]>) -> (r: VkResult)
    requires
        catalogue@.len() <= u32::MAX,
        buffer matches Some(b) ==> b@.len() >= written(*old(count) as int, catalogue@.len() as int),
    ensures
        buffer is None ==> r == VkResult::Success && *final(count) == catalogue@.len(),
        buffer matches Some(b) ==> {
            &&& r == fill_outcome(*old(count) as int, catalogue@.len() as int)
            &&& *final(count) == written(*old(count) as int, catalogue@.len() as int)
            &&& final(b)@ == filled(catalogue@, *old(count) as int, b@)
        },
{
    let available = catalogue.len();
    match buffer {
        None => {
            *count = available as u32;
            VkResult::Success
        },
        Some(out) => {
            let requested = *count as usize;
            let k = if requested < available {
                requested
            } else {
                available
            };
            let ghost before = out@;
            let mut i: usize = 0;
            while i < k
                invariant
                    i <= k,
                    k <= catalogue@.len(),
                    k <= out@.len(),
                    out@.len() == before.len(),
                    forall|j: int| 0 <= j < i ==> out@[j] == catalogue@[j],
                    forall|j: int| i <= j < out@.len() ==> out@[j] == before[j],
                decreases k - i,
            {
                out[i] = catalogue[i];
                i += 1;
            }
            if requested < available {
                VkResult::Incomplete
            } else {
                *count = available as u32;
                VkResult::Success
            }
        },
    }
}

/// With no buffer the answer is the size of the catalogue; with room for
/// fewer entries than there are, exactly that many come, in order, and the
/// outcome is `Incomplete`; with room for all, all come and the outcome is
/// `Success`.
pub proof fn lemma_fill_cases<T>(catalogue: Seq<T>, requested: int, before: Seq<T>)
    requires
        0 <= requested,
        before.len() >= written(requested, catalogue.len() as int),
    ensures
        filled(catalogue, requested, before).len() == before.len(),
        forall|i: int|
            0 <= i < written(requested, catalogue.len() as int) ==> filled(
                catalogue,
                requested,
                before,
            )[i] == catalogue[i],
        forall|i: int|
            written(requested, catalogue.len() as int) <= i < before.len() ==> filled(
                catalogue,
                requested,
                before,
            )[i] == before[i],
        requested < catalogue.len() ==> written(requested, catalogue.len() as int) == requested
            && fill_outcome(requested, catalogue.len() as int) == VkResult::Incomplete,
        requested >= catalogue.len() ==> written(requested, catalogue.len() as int)
            == catalogue.len() && fill_outcome(requested, catalogue.len() as int)
            == VkResult::Success,
{
}

} // verus!

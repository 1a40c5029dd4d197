//! Settlement of one capture or render pass: what a backend does with the
//! frame count that the caller's closure returned.
use vstd::prelude::*;
use crate::traits::{AfterCapture, AfterRender};
use crate::types::{AnyError, SyncStreamError};

verus! {

/// Frames known to be capturable after a pass that consumed `n` of the
/// `capacity` frames delivered, with `queued` frames reported beyond them.
/// Unconsumed frames stay available; a count past `usize` cannot be told.
pub open spec fn capturable_after(capacity: usize, queued: Option<usize>, n: usize) -> Option<usize> {
    match queued {
        Some(q) => if q + (capacity - n) <= usize::MAX {
            Some((q + (capacity - n)) as usize)
        } else {
            None
        },
        None => None,
    }
}

/// Settles a capture pass over a buffer of `capacity` frames, given the
/// closure's `outcome` and the frames `queued` beyond the buffer (`None`
/// when the backend cannot tell). On success it gives the frames to release
/// and what follows the pass. A count above `capacity` is refused, never
/// truncated.
pub fn settle_capture(
    capacity: usize,
    queued: Option<usize>,
    outcome: Result<usize, AnyError>,
) -> (r: Result<(usize, AfterCapture), SyncStreamError>)
    ensures
        match outcome {
            Err(e) => r == Err::<(usize, AfterCapture), SyncStreamError>(
                SyncStreamError::Callback(e),
            ),
            Ok(n) => if n > capacity {
                r == Err::<(usize, AfterCapture), SyncStreamError>(
                    SyncStreamError::FrameCountOverflow { returned: n, capacity },
                )
            } else {
                r == Ok::<(usize, AfterCapture), SyncStreamError>(
                    (n, AfterCapture { available_next: capturable_after(capacity, queued, n) }),
                )
            },
        },
{
    match outcome {
        Err(e) => Err(SyncStreamError::Callback(e)),
        Ok(n) => {
            if n > capacity {
                Err(SyncStreamError::FrameCountOverflow { returned: n, capacity })
            } else {
                let rest = capacity - n;
                let next = match queued {
                    Some(q) => q.checked_add(rest),
                    None => None,
                };
                Ok((n, AfterCapture { available_next: next }))
            }
        },
    }
}

/// Settles a render pass over a buffer of `capacity` frames, given the
/// closure's `outcome` and the free frames `queued` beyond the buffer
/// (`None` when the backend cannot tell). On success it gives the frames
/// produced, the rest of the buffer being left as silence. A count above
/// `capacity` is refused, never truncated.
pub fn settle_render(
    capacity: usize,
    queued: Option<usize>,
    outcome: Result<usize, AnyError>,
) -> (r: Result<(usize, AfterRender), SyncStreamError>)
    ensures
        match outcome {
            Err(e) => r == Err::<(usize, AfterRender), SyncStreamError>(
                SyncStreamError::Callback(e),
            ),
            Ok(n) => if n > capacity {
                r == Err::<(usize, AfterRender), SyncStreamError>(
                    SyncStreamError::FrameCountOverflow { returned: n, capacity },
                )
            } else {
                r == Ok::<(usize, AfterRender), SyncStreamError>(
                    (n, AfterRender { available_next: queued }),
                )
            },
        },
{
    match outcome {
        Err(e) => Err(SyncStreamError::Callback(e)),
        Ok(n) => {
            if n > capacity {
                Err(SyncStreamError::FrameCountOverflow { returned: n, capacity })
            } else {
                Ok((n, AfterRender { available_next: queued }))
            }
        },
    }
}

/// Two capture passes whose closures consume nothing, with no frames lost
/// in between (the frames of the first buffer and beyond it are all still
/// there at the second), report counts that never fall: a count of the
/// second pass is at least that of the first.
pub proof fn lemma_empty_captures_never_fall(
    capacity1: usize,
    queued1: usize,
    capacity2: usize,
    queued2: usize,
)
    requires
        capacity1 + queued1 <= capacity2 + queued2,
    ensures
        (capturable_after(capacity1, Some(queued1), 0) is Some && capturable_after(
            capacity2,
            Some(queued2),
            0,
        ) is Some) ==> capturable_after(capacity1, Some(queued1), 0)->0 <= capturable_after(
            capacity2,
            Some(queued2),
            0,
        )->0,
        capturable_after(capacity1, Some(queued1), 0) is Some ==> capturable_after(
            capacity2,
            Some(queued2),
            0,
        ) is Some || capacity2 + queued2 > usize::MAX,
{
}

} // verus!

use vstd::prelude::*;

use crate::error::ThumbError;

verus! {

/// What handling one data unit of the container came to.
///
/// Every unit is classified into exactly one of these; none of them is fatal.
/// The search over units stops at the first `Scaled` and skips everything
/// else, so a failing unit never aborts the run.
#[derive(Clone, Copy, Debug, PartialEq, Eq, Structural)]
pub enum UnitOutcome {
    /// The unit belongs to a stream other than the selected video stream.
    Foreign,
    /// The decoder refused the unit; it is skipped and the search goes on.
    Rejected,
    /// The decoder accepted the unit but needs more input before it can
    /// produce a frame. A normal state, not an error.
    Pending,
    /// The decoder produced a frame but the scaler refused to convert it.
    ScaleFailed,
    /// The decoder produced a frame and the scaler converted it: the search
    /// is over.
    Scaled,
}

/// Whether this outcome ends the search: only a decoded and converted frame
/// does.
pub open spec fn completes(o: UnitOutcome) -> bool {
    o is Scaled
}

/// The control state of the frame search.
#[derive(Clone, Copy, Debug, PartialEq, Eq, Structural)]
pub enum SearchState {
    /// Still waiting for the first decoded and converted frame.
    Searching,
    /// A frame has been found; no further unit is consumed.
    Done,
}

/// One transition of the frame search: consume the outcome of one data unit.
///
/// The search is done afterwards exactly when it was already done or this
/// unit yielded the frame. There is no other way to leave `Searching`, and
/// no outcome is an error: the search never aborts.
pub fn advance(state: SearchState, outcome: UnitOutcome) -> (next: SearchState)
    ensures
        next is Done <==> (state is Done || completes(outcome)),
{
    match state {
        SearchState::Done => SearchState::Done,
        SearchState::Searching => if let UnitOutcome::Scaled = outcome {
            SearchState::Done
        } else {
            SearchState::Searching
        },
    }
}

/// Classifies the handling of one data unit from what happened at each stage:
/// whether the unit belongs to the selected stream, whether the decoder
/// accepted it, whether a frame came out, and whether the scaler converted
/// that frame. Later stages are only meaningful when every earlier one
/// succeeded, and the first failing stage names the outcome.
pub fn classify_unit(belongs: bool, accepted: bool, produced: bool, converted: bool) -> (o:
    UnitOutcome)
    ensures
        o == (if !belongs {
            UnitOutcome::Foreign
        } else if !accepted {
            UnitOutcome::Rejected
        } else if !produced {
            UnitOutcome::Pending
        } else if !converted {
            UnitOutcome::ScaleFailed
        } else {
            UnitOutcome::Scaled
        }),
{
    if !belongs {
        UnitOutcome::Foreign
    } else if !accepted {
        UnitOutcome::Rejected
    } else if !produced {
        UnitOutcome::Pending
    } else if !converted {
        UnitOutcome::ScaleFailed
    } else {
        UnitOutcome::Scaled
    }
}

/// The whole frame search over the container's unit outcomes, in container
/// order: the index of the first unit that yielded a converted frame, or
/// `None` when the sequence is exhausted without one.
///
/// `None` is the defined "no frame" result — a normal termination mode, not
/// an error — and the caller must then report it and write no output file.
/// The search is total: whatever the outcomes, it ends in one of the two
/// results and never aborts.
pub fn search(outcomes: &Vec<UnitOutcome>) -> (r: Option<usize>)
    ensures
        match r {
            Some(i) => {
                &&& i < outcomes@.len()
                &&& completes(outcomes@[i as int])
                &&& forall|j: int| 0 <= j < i ==> !completes(outcomes@[j])
            },
            None => forall|j: int| 0 <= j < outcomes@.len() ==> !completes(outcomes@[j]),
        },
{
    let mut i: usize = 0;
    while i < outcomes.len()
        invariant
            i <= outcomes@.len(),
            forall|j: int| 0 <= j < i ==> !completes(outcomes@[j]),
        decreases outcomes@.len() - i,
    {
        let state = advance(SearchState::Searching, outcomes[i]);
        if let SearchState::Done = state {
            return Some(i);
        }
        i = i + 1;
    }
    None
}

/// Picks the selected video stream: the container's "best video stream"
/// heuristic hands back the index it chose, or nothing when the container
/// holds no video stream at all — which is the one condition under which
/// stream selection fails, with `NotFound`.
pub fn select_stream(best_video: Option<usize>) -> (r: Result<usize, ThumbError>)
    ensures
        match r {
            Ok(i) => best_video == Some(i),
            Err(e) => best_video is None && e == ThumbError::NotFound,
        },
{
    match best_video {
        Some(i) => Ok(i),
        None => Err(ThumbError::NotFound),
    }
}

} // verus!

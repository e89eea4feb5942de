//! The point where intake stops and ThinkingRoot's `prepare_turn` would begin.
use vstd::prelude::*;

use crate::types::{PreparedTurnPreview, PreparedTurnRequest};

verus! {

pub const PREPARE_TURN_BOUNDARY_MESSAGE: &'static str = "ThinkingRoot prepare_turn would be called here";

/// The prepared request, marked with the boundary it stops at.
pub fn preview_before_thinkingroot(request: PreparedTurnRequest) -> (p: PreparedTurnPreview)
    ensures
        p.prepared_turn_request == request,
        p.thinkingroot_boundary == PREPARE_TURN_BOUNDARY_MESSAGE,
{
    PreparedTurnPreview {
        prepared_turn_request: request,
        thinkingroot_boundary: PREPARE_TURN_BOUNDARY_MESSAGE,
    }
}

} // verus!

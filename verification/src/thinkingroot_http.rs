//! How much a ThinkingRoot preparation knows about a turn.
use vstd::prelude::*;

use crate::text::{chars_of, trim_chars, trim_ws, utf8_len, utf8_len_at_least, CharClass};
use crate::types::{PreparedTurnResponse, ThinkingRootKnowledgeStatus};

verus! {

/// The knowledge a preparation carries: `Empty` with a blank memory block
/// and no provenance; `Weak` when the trimmed block is under 80 bytes or
/// there is no provenance; else `Sufficient`.
pub open spec fn knowledge_status_of(memory: Seq<char>, provenance_count: nat) -> ThinkingRootKnowledgeStatus {
    let m = trim_ws(memory);
    if m.len() == 0 && provenance_count == 0 {
        ThinkingRootKnowledgeStatus::Empty
    } else if utf8_len(m) < 80 || provenance_count == 0 {
        ThinkingRootKnowledgeStatus::Weak
    } else {
        ThinkingRootKnowledgeStatus::Sufficient
    }
}

pub fn classify_knowledge_status(response: &PreparedTurnResponse) -> (s: ThinkingRootKnowledgeStatus)
    ensures
        s == knowledge_status_of(
            response.grounded_memory_block@,
            response.provenance_ids@.len(),
        ),
{
    let memory = trim_chars(&chars_of(response.grounded_memory_block.as_str()), CharClass::Whitespace);
    if memory.len() == 0 && response.provenance_ids.len() == 0 {
        return ThinkingRootKnowledgeStatus::Empty;
    }
    if !utf8_len_at_least(&memory, 80) || response.provenance_ids.len() == 0 {
        return ThinkingRootKnowledgeStatus::Weak;
    }
    ThinkingRootKnowledgeStatus::Sufficient
}

/// The preparation with its knowledge status set; nothing else changes.
pub fn classify_preparation(response: PreparedTurnResponse) -> (r: PreparedTurnResponse)
    ensures
        r.knowledge_status == knowledge_status_of(
            response.grounded_memory_block@,
            response.provenance_ids@.len(),
        ),
        r == (PreparedTurnResponse { knowledge_status: r.knowledge_status, ..response }),
{
    let mut response = response;
    response.knowledge_status = classify_knowledge_status(&response);
    response
}

} // verus!

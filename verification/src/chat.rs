//! The two constant commands of the backend: chat history (always empty) and
//! the active-query count (a fixed placeholder).

use vstd::prelude::*;

verus! {

/// The wire shape of one chat message, as the UI expects it. The backend
/// never fills one in: the history command returns an empty sequence.
#[derive(Clone, Debug)]
pub struct ChatMessage {
    pub id: String,
    pub content: String,
    pub sender: String,
    pub timestamp: String,
}

/// Returns the stored chat history. Nothing is ever stored, so the result is
/// always `Ok` of an empty sequence, whatever happened before this call.
pub fn get_chat_history() -> (r: Result<Vec<ChatMessage>, String>)
    ensures
        r matches Ok(v) && v@ == Seq::<ChatMessage>::empty(),
{
    Ok(Vec::new())
}

/// Returns the number of in-flight upstream queries. No such bookkeeping
/// exists, so the result is always `Ok(5)`, a fixed placeholder.
pub fn get_active_ai_queries() -> (r: Result<u32, String>)
    ensures
        r == Ok::<u32, String>(5u32),
{
    Ok(5)
}

} // verus!

//! The keys under which the records of a topic are stored.

use vstd::prelude::*;
use vstd::string::StringExecFns;

verus! {

/// What the key of a stored conversation begins with. The topic's id
/// follows.
pub const CONVERSATION_PREFIX: &'static str = "conversation_";

/// The key of the progress record of a topic: the topic's id.
pub open spec fn progress_key_of(topic_id: Seq<char>) -> Seq<char> {
    topic_id
}

/// The key of the conversation history of a topic.
pub open spec fn conversation_key_of(topic_id: Seq<char>) -> Seq<char> {
    CONVERSATION_PREFIX@ + topic_id
}

/// The two records of a topic never share a key.
pub proof fn lemma_keys_of_a_topic_differ(topic_id: Seq<char>)
    ensures
        progress_key_of(topic_id) != conversation_key_of(topic_id),
{
    reveal_strlit("conversation_");
    assert(conversation_key_of(topic_id).len() == topic_id.len() + 13);
}

/// The key of the progress record of a topic.
pub fn progress_key(topic_id: &str) -> (key: String)
    ensures
        key@ == progress_key_of(topic_id@),
{
    topic_id.to_owned()
}

/// The key of the conversation history of a topic.
pub fn conversation_key(topic_id: &str) -> (key: String)
    ensures
        key@ == conversation_key_of(topic_id@),
{
    String::from_str(CONVERSATION_PREFIX).concat(topic_id)
}

} // verus!

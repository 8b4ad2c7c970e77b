//! Conversation data: ordered role-tagged turns, and the feedback
//! turns appended when a generated query has to be corrected.

use vstd::prelude::*;

verus! {

#[derive(Clone, Copy, PartialEq, Eq, Structural, Debug)]
pub enum ChatRole {
    User,
    Assistant,
    System,
}

#[derive(Debug)]
pub struct ChatMessage {
    pub role: ChatRole,
    pub content: String,
}

#[derive(Debug)]
pub struct ChatRequest {
    pub messages: Vec<ChatMessage>,
}

/// Mathematical image of one turn: its role and its text.
pub open spec fn msg_view(m: ChatMessage) -> (ChatRole, Seq<char>) {
    (m.role, m.content@)
}

/// Image of a list of turns.
pub open spec fn msgs_view(v: Seq<ChatMessage>) -> Seq<(ChatRole, Seq<char>)> {
    v.map_values(|m: ChatMessage| msg_view(m))
}

/// Image of a whole conversation.
pub open spec fn chat_view(c: ChatRequest) -> Seq<(ChatRole, Seq<char>)> {
    msgs_view(c.messages@)
}

/// Appending one turn appends its image.
pub proof fn lemma_msgs_view_push(v: Seq<ChatMessage>, m: ChatMessage)
    ensures
        msgs_view(v.push(m)) == msgs_view(v).push(msg_view(m)),
{
    assert(msgs_view(v.push(m)) =~= msgs_view(v).push(msg_view(m)));
}

/// The feedback text sent back to the model after a validation failure.
pub open spec fn validation_feedback_text(err: Seq<char>) -> Seq<char> {
    "The previous query has validation errors: "@ + err
        + ". Please generate a corrected Cypher query."@
}

/// The feedback text sent back to the model after an execution failure.
pub open spec fn execution_feedback_text(err: Seq<char>) -> Seq<char> {
    "The previous query failed with error: "@ + err
        + ". Please generate a corrected Cypher query that fixes this error and follows the schema more closely."@
}

/// The conversation extended by the failed query as an assistant turn
/// and a feedback user turn.
pub open spec fn with_feedback(
    c: Seq<(ChatRole, Seq<char>)>,
    failed_query: Seq<char>,
    feedback: Seq<char>,
) -> Seq<(ChatRole, Seq<char>)> {
    c + seq![(ChatRole::Assistant, failed_query), (ChatRole::User, feedback)]
}

/// Copies a list of turns, preserving every role and text.
pub fn copy_messages(v: &Vec<ChatMessage>) -> (r: Vec<ChatMessage>)
    ensures
        msgs_view(r@) == msgs_view(v@),
{
    let n = v.len();
    let mut r: Vec<ChatMessage> = Vec::new();
    let mut i: usize = 0;
    while i < n
        invariant
            n == v@.len(),
            i <= n,
            msgs_view(r@) == msgs_view(v@.take(i as int)),
        decreases n - i,
    {
        let ghost prev = r@;
        r.push(ChatMessage { role: v[i].role, content: String::from_str(v[i].content.as_str()) });
        proof {
            lemma_msgs_view_push(prev, r@.last());
            assert(msgs_view(v@.take(i + 1)) =~= msgs_view(v@.take(i as int)).push(
                msg_view(v@[i as int]),
            ));
        }
        i = i + 1;
    }
    proof {
        assert(v@.take(n as int) =~= v@);
    }
    r
}

/// Appends a failed query and the validation-error feedback to a
/// conversation, for one regeneration attempt.
pub fn append_validation_feedback(
    chat_request: &ChatRequest,
    failed_query: &str,
    error_message: &str,
) -> (r: ChatRequest)
    ensures
        chat_view(r) == with_feedback(
            chat_view(*chat_request),
            failed_query@,
            validation_feedback_text(error_message@),
        ),
{
    let mut messages = copy_messages(&chat_request.messages);
    messages.push(ChatMessage { role: ChatRole::Assistant, content: String::from_str(failed_query) });
    let mut feedback = String::from_str("The previous query has validation errors: ");
    feedback.append(error_message);
    feedback.append(". Please generate a corrected Cypher query.");
    messages.push(ChatMessage { role: ChatRole::User, content: feedback });
    let r = ChatRequest { messages };
    proof {
        assert(chat_view(r) =~= with_feedback(
            chat_view(*chat_request),
            failed_query@,
            validation_feedback_text(error_message@),
        ));
    }
    r
}

/// Appends a failed query and the execution-failure feedback to a
/// conversation, for the single self-healing attempt.
pub fn append_execution_feedback(
    chat_request: &ChatRequest,
    failed_query: &str,
    error_message: &str,
) -> (r: ChatRequest)
    ensures
        chat_view(r) == with_feedback(
            chat_view(*chat_request),
            failed_query@,
            execution_feedback_text(error_message@),
        ),
{
    let mut messages = copy_messages(&chat_request.messages);
    messages.push(ChatMessage { role: ChatRole::Assistant, content: String::from_str(failed_query) });
    let mut feedback = String::from_str("The previous query failed with error: ");
    feedback.append(error_message);
    feedback.append(
        ". Please generate a corrected Cypher query that fixes this error and follows the schema more closely.",
    );
    messages.push(ChatMessage { role: ChatRole::User, content: feedback });
    let r = ChatRequest { messages };
    proof {
        assert(chat_view(r) =~= with_feedback(
            chat_view(*chat_request),
            failed_query@,
            execution_feedback_text(error_message@),
        ));
    }
    r
}

} // verus!

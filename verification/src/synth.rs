//! Building the two provider conversations — query synthesis and
//! answer synthesis — and cleaning the raw model reply into a query
//! string.

use vstd::prelude::*;
use crate::chat::{msgs_view, ChatMessage, ChatRequest, ChatRole, chat_view, copy_messages};
use crate::template::{last_request_prompt_spec, placeholder_spec, TemplateEngine};
use crate::text::{replace_all, replace_all_spec, str_eq, trim, trim_spec};

verus! {

/// The conversation with its final user turn rewritten by `rewrite`;
/// a conversation not ending in a user turn is forwarded unchanged.
pub open spec fn rewrite_last_user(
    conv: Seq<(ChatRole, Seq<char>)>,
    rewritten: Seq<char>,
) -> Seq<(ChatRole, Seq<char>)> {
    if conv.len() > 0 && conv.last().0 == ChatRole::User {
        conv.take(conv.len() - 1).push((ChatRole::User, rewritten))
    } else {
        conv
    }
}

/// The conversation sent for query synthesis: a system turn holding
/// the schema-grounded instructions, then every caller turn, the
/// final user question rewritten through the question template.
pub open spec fn cypher_request_view(
    conv: Seq<(ChatRole, Seq<char>)>,
    system_template: Seq<char>,
    user_template: Seq<char>,
    schema: Seq<char>,
) -> Seq<(ChatRole, Seq<char>)> {
    seq![
        (
            ChatRole::System,
            replace_all_spec(system_template, placeholder_spec("ONTOLOGY"@), schema),
        ),
    ] + rewrite_last_user(
        conv,
        (if conv.len() > 0 && conv.last().0 == ChatRole::User {
            replace_all_spec(user_template, placeholder_spec("QUESTION"@), conv.last().1)
        } else {
            Seq::<char>::empty()
        }),
    )
}

/// The conversation sent for answer synthesis: every caller turn, the
/// final user question rewritten through the answer template with the
/// executed query and its result embedded.
pub open spec fn answer_request_view(
    conv: Seq<(ChatRole, Seq<char>)>,
    answer_template: Seq<char>,
    query: Seq<char>,
    result: Seq<char>,
) -> Seq<(ChatRole, Seq<char>)> {
    rewrite_last_user(
        conv,
        (if conv.len() > 0 && conv.last().0 == ChatRole::User {
            last_request_prompt_spec(answer_template, conv.last().1, query, result)
        } else {
            Seq::<char>::empty()
        }),
    )
}

/// Builds the query-synthesis conversation.
pub fn build_cypher_request(
    chat: &ChatRequest,
    system_template: &str,
    user_template: &str,
    schema: &str,
) -> (r: ChatRequest)
    ensures
        chat_view(r) == cypher_request_view(
            chat_view(*chat),
            system_template@,
            user_template@,
            schema@,
        ),
{
    let ghost sys_turn = (
        ChatRole::System,
        replace_all_spec(system_template@, placeholder_spec("ONTOLOGY"@), schema@),
    );
    let system_text = TemplateEngine::render_system_prompt(system_template, schema);
    let mut messages: Vec<ChatMessage> = Vec::new();
    messages.push(ChatMessage { role: ChatRole::System, content: system_text });
    proof {
        assert(msgs_view(messages@) =~= seq![sys_turn]);
    }
    let n = chat.messages.len();
    if n == 0 {
        let r = ChatRequest { messages };
        proof {
            assert(chat_view(r) =~= cypher_request_view(
                chat_view(*chat),
                system_template@,
                user_template@,
                schema@,
            ));
        }
        return r;
    }
    let mut i: usize = 0;
    while i < n - 1
        invariant
            n == chat.messages@.len(),
            n >= 1,
            i <= n - 1,
            msgs_view(messages@) == seq![sys_turn] + msgs_view(chat.messages@.take(i as int)),
        decreases n - i,
    {
        let ghost prev = messages@;
        messages.push(
            ChatMessage {
                role: chat.messages[i].role,
                content: String::from_str(chat.messages[i].content.as_str()),
            },
        );
        proof {
            crate::chat::lemma_msgs_view_push(prev, messages@.last());
            assert(msgs_view(chat.messages@.take(i + 1)) =~= msgs_view(
                chat.messages@.take(i as int),
            ).push(crate::chat::msg_view(chat.messages@[i as int])));
        }
        i = i + 1;
    }
    let ghost prev = messages@;
    let last_is_user = matches!(chat.messages[n - 1].role, ChatRole::User);
    if last_is_user {
        let rewritten = TemplateEngine::render_user_prompt(
            user_template,
            chat.messages[n - 1].content.as_str(),
        );
        messages.push(ChatMessage { role: ChatRole::User, content: rewritten });
    } else {
        messages.push(
            ChatMessage {
                role: chat.messages[n - 1].role,
                content: String::from_str(chat.messages[n - 1].content.as_str()),
            },
        );
    }
    let r = ChatRequest { messages };
    proof {
        crate::chat::lemma_msgs_view_push(prev, r.messages@.last());
        let cv = chat_view(*chat);
        assert(cv.len() == n);
        assert(cv.last() == crate::chat::msg_view(chat.messages@[n - 1]));
        assert(cv.take(n - 1) =~= msgs_view(chat.messages@.take(n - 1)));
        assert(chat_view(r) =~= cypher_request_view(cv, system_template@, user_template@, schema@));
    }
    r
}

/// Builds the answer-synthesis conversation.
pub fn build_answer_request(chat: &ChatRequest, answer_template: &str, query: &str, result: &str) -> (
    r: ChatRequest
)
    ensures
        chat_view(r) == answer_request_view(chat_view(*chat), answer_template@, query@, result@),
{
    let mut messages: Vec<ChatMessage> = Vec::new();
    let n = chat.messages.len();
    if n == 0 {
        let r = ChatRequest { messages };
        proof {
            assert(chat_view(r) =~= answer_request_view(
                chat_view(*chat),
                answer_template@,
                query@,
                result@,
            ));
        }
        return r;
    }
    let mut i: usize = 0;
    while i < n - 1
        invariant
            n == chat.messages@.len(),
            n >= 1,
            i <= n - 1,
            msgs_view(messages@) == msgs_view(chat.messages@.take(i as int)),
        decreases n - i,
    {
        let ghost prev = messages@;
        messages.push(
            ChatMessage {
                role: chat.messages[i].role,
                content: String::from_str(chat.messages[i].content.as_str()),
            },
        );
        proof {
            crate::chat::lemma_msgs_view_push(prev, messages@.last());
            assert(msgs_view(chat.messages@.take(i + 1)) =~= msgs_view(
                chat.messages@.take(i as int),
            ).push(crate::chat::msg_view(chat.messages@[i as int])));
        }
        i = i + 1;
    }
    let ghost prev = messages@;
    let last_is_user = matches!(chat.messages[n - 1].role, ChatRole::User);
    if last_is_user {
        let rewritten = crate::template::process_last_request_prompt(
            answer_template,
            chat.messages[n - 1].content.as_str(),
            query,
            result,
        );
        messages.push(ChatMessage { role: ChatRole::User, content: rewritten });
    } else {
        messages.push(
            ChatMessage {
                role: chat.messages[n - 1].role,
                content: String::from_str(chat.messages[n - 1].content.as_str()),
            },
        );
    }
    let r = ChatRequest { messages };
    proof {
        crate::chat::lemma_msgs_view_push(prev, r.messages@.last());
        let cv = chat_view(*chat);
        assert(cv.len() == n);
        assert(cv.last() == crate::chat::msg_view(chat.messages@[n - 1]));
        assert(cv.take(n - 1) =~= msgs_view(chat.messages@.take(n - 1)));
        assert(chat_view(r) =~= answer_request_view(cv, answer_template@, query@, result@));
    }
    r
}

/// The cleaned form of a raw model reply: newlines collapsed to
/// spaces, code-fence markers removed, surrounding white space
/// trimmed.
pub open spec fn clean_reply_spec(raw: Seq<char>) -> Seq<char> {
    trim_spec(replace_all_spec(replace_all_spec(raw, seq!['\n'], seq![' ']), "```"@, Seq::<
        char,
    >::empty()))
}

/// A reply that carries no usable query: blank, or the provider's
/// literal no-answer sentinel.
pub open spec fn is_empty_reply(raw: Seq<char>) -> bool {
    trim_spec(raw).len() == 0 || trim_spec(raw) == "NO ANSWER"@
}

/// Cleans a raw model reply into a query string, or reports that the
/// reply carries none.
pub fn clean_query_response(raw: &str) -> (r: Option<String>)
    ensures
        match r {
            Option::Some(q) => !is_empty_reply(raw@) && q@ == clean_reply_spec(raw@),
            Option::None => is_empty_reply(raw@),
        },
{
    let trimmed = trim(raw);
    if trimmed.as_str().unicode_len() == 0 || str_eq(trimmed.as_str(), "NO ANSWER") {
        return Option::None;
    }
    proof {
        reveal_strlit("\n");
        reveal_strlit(" ");
        reveal_strlit("```");
        reveal_strlit("");
        assert("\n"@ =~= seq!['\n']);
        assert(" "@ =~= seq![' ']);
        assert(""@ =~= Seq::<char>::empty());
    }
    let no_newlines = replace_all(raw, "\n", " ");
    let no_fences = replace_all(no_newlines.as_str(), "```", "");
    Option::Some(trim(no_fences.as_str()))
}

/// Joins error texts with `"; "`, the separator used in feedback and
/// error events.
pub fn join_errors(errors: &Vec<String>) -> (r: String)
    ensures
        r@ == crate::text::join_spec(crate::text::strs_view(errors@), "; "@),
{
    crate::text::join_strings(errors, "; ")
}

} // verus!

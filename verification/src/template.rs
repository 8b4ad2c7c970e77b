//! Prompt templating: `{{NAME}}` placeholders replaced by values, and
//! the three named prompts the pipeline renders.  Template texts come
//! from the caller; nothing here touches a file.

use vstd::prelude::*;
use crate::text::{replace_all, replace_all_spec};

verus! {

pub struct TemplateEngine;

/// The placeholder text for a variable name: `{{NAME}}`.
pub open spec fn placeholder_spec(key: Seq<char>) -> Seq<char> {
    "{{"@ + key + "}}"@
}

/// The template after substituting, in order, each of the first `i`
/// variables: every occurrence of its placeholder becomes its value.
pub open spec fn render_steps(
    t: Seq<char>,
    vars: Seq<(Seq<char>, Seq<char>)>,
    i: int,
) -> Seq<char>
    decreases i,
{
    if i <= 0 || i > vars.len() {
        t
    } else {
        replace_all_spec(
            render_steps(t, vars, i - 1),
            placeholder_spec(vars[i - 1].0),
            vars[i - 1].1,
        )
    }
}

/// The template with every variable substituted.
pub open spec fn render_spec(t: Seq<char>, vars: Seq<(Seq<char>, Seq<char>)>) -> Seq<char> {
    render_steps(t, vars, vars.len() as int)
}

fn make_placeholder(key: &str) -> (r: String)
    ensures
        r@ == placeholder_spec(key@),
        r@.len() > 0,
{
    let mut p = String::from_str("{{");
    p.append(key);
    p.append("}}");
    proof {
        reveal_strlit("{{");
        reveal_strlit("}}");
    }
    p
}

impl TemplateEngine {
    /// Substitutes the variables into the template one after another,
    /// in the order given.
    pub fn render(template: &str, variables: &Vec<(String, String)>) -> (r: String)
        ensures
            r@ == render_spec(
                template@,
                variables@.map_values(|p: (String, String)| (p.0@, p.1@)),
            ),
    {
        let ghost vview = variables@.map_values(|p: (String, String)| (p.0@, p.1@));
        let n = variables.len();
        let mut t = String::from_str(template);
        let mut i: usize = 0;
        while i < n
            invariant
                n == variables@.len(),
                vview == variables@.map_values(|p: (String, String)| (p.0@, p.1@)),
                i <= n,
                t@ == render_steps(template@, vview, i as int),
            decreases n - i,
        {
            let pat = make_placeholder(variables[i].0.as_str());
            t = replace_all(t.as_str(), pat.as_str(), variables[i].1.as_str());
            i = i + 1;
        }
        t
    }

    /// Renders the schema-grounding system prompt: the template with
    /// `{{ONTOLOGY}}` replaced by the serialized schema.
    pub fn render_system_prompt(template: &str, ontology: &str) -> (r: String)
        ensures
            r@ == replace_all_spec(template@, placeholder_spec("ONTOLOGY"@), ontology@),
    {
        let pat = make_placeholder("ONTOLOGY");
        replace_all(template, pat.as_str(), ontology)
    }

    /// Renders the user-question prompt: the template with
    /// `{{QUESTION}}` replaced by the question.
    pub fn render_user_prompt(template: &str, question: &str) -> (r: String)
        ensures
            r@ == replace_all_spec(template@, placeholder_spec("QUESTION"@), question@),
    {
        let pat = make_placeholder("QUESTION");
        replace_all(template, pat.as_str(), question)
    }

    /// Renders the final-answer prompt: the template with the query,
    /// the result and the question substituted in that order.
    pub fn render_last_request_prompt(
        template: &str,
        question: &str,
        cypher_query: &str,
        cypher_result: &str,
    ) -> (r: String)
        ensures
            r@ == last_request_prompt_spec(template@, question@, cypher_query@, cypher_result@),
    {
        let pat_q = make_placeholder("CYPHER_QUERY");
        let t1 = replace_all(template, pat_q.as_str(), cypher_query);
        let pat_r = make_placeholder("CYPHER_RESULT");
        let t2 = replace_all(t1.as_str(), pat_r.as_str(), cypher_result);
        let pat_u = make_placeholder("USER_QUESTION");
        replace_all(t2.as_str(), pat_u.as_str(), question)
    }
}

/// The final-answer prompt: query, result and question substituted in
/// that order.
pub open spec fn last_request_prompt_spec(
    t: Seq<char>,
    question: Seq<char>,
    cypher_query: Seq<char>,
    cypher_result: Seq<char>,
) -> Seq<char> {
    replace_all_spec(
        replace_all_spec(
            replace_all_spec(t, placeholder_spec("CYPHER_QUERY"@), cypher_query),
            placeholder_spec("CYPHER_RESULT"@),
            cypher_result,
        ),
        placeholder_spec("USER_QUESTION"@),
        question,
    )
}

/// Rewrites the active user question through the user-prompt template.
pub fn process_last_user_message(template: &str, question: &str) -> (r: String)
    ensures
        r@ == replace_all_spec(template@, placeholder_spec("QUESTION"@), question@),
{
    TemplateEngine::render_user_prompt(template, question)
}

/// Rewrites the active user question through the final-answer template.
pub fn process_last_request_prompt(
    template: &str,
    content: &str,
    cypher_query: &str,
    cypher_result: &str,
) -> (r: String)
    ensures
        r@ == last_request_prompt_spec(template@, content@, cypher_query@, cypher_result@),
{
    TemplateEngine::render_last_request_prompt(template, content, cypher_query, cypher_result)
}

} // verus!

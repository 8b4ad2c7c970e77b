//! The pipeline state machine: it sequences schema resolution, query
//! synthesis, validation, execution with a single self-healing retry,
//! and answer synthesis, and it decides every emitted progress event.
//! The outside work — cache and database calls, provider calls — is
//! requested through actions and answered back through the `on_*`
//! methods, so every decision here is verified for every outcome.

use vstd::prelude::*;
use crate::chat::{
    append_execution_feedback, append_validation_feedback, chat_view, execution_feedback_text,
    validation_feedback_text, with_feedback, ChatRequest,
};
use crate::progress::{
    tags_of, trace_ok, trace_pos, Progress, ProgressTag, progress_view,
};
use crate::synth::{
    build_answer_request, build_cypher_request, answer_request_view, clean_query_response,
    clean_reply_spec, cypher_request_view, is_empty_reply, join_errors,
};
use crate::text::join_spec;
use crate::validator::{validate_errors, validate_is_valid, CypherValidator};

verus! {

/// Where the pipeline stands.
#[derive(Clone, Copy, PartialEq, Eq, Structural, Debug)]
pub enum PipelinePhase {
    Ready,
    ResolvingSchema,
    GeneratingQuery,
    Executing,
    Answering,
    Done,
    Failed,
}

/// The outside work the driver is asked to perform next.
#[derive(Debug)]
pub enum PipelineAction {
    /// Resolve the graph's schema: from the cache or by discovery.
    ResolveSchema,
    /// Send this conversation to the completion provider.
    CallModel(ChatRequest),
    /// Run this query against the graph database.
    RunQuery(String),
    /// Stream the answer synthesis for this conversation.
    StreamAnswer(ChatRequest),
}

/// Tags and texts of a list of events.
pub open spec fn evs_view(evs: Seq<Progress>) -> Seq<(ProgressTag, Seq<char>)> {
    evs.map_values(|p: Progress| progress_view(p))
}

pub struct Pipeline {
    query_only: bool,
    phase: PipelinePhase,
    conversation: ChatRequest,
    system_template: String,
    user_template: String,
    answer_template: String,
    schema_json: String,
    query: String,
    answer: String,
    retried: bool,
    emitted_query: bool,
    synth_calls: u8,
    exec_calls: u8,
    trace: Ghost<Seq<ProgressTag>>,
}

impl Pipeline {
    pub closed spec fn spec_phase(&self) -> PipelinePhase {
        self.phase
    }

    pub closed spec fn spec_query_only(&self) -> bool {
        self.query_only
    }

    pub closed spec fn spec_conversation(&self) -> Seq<(crate::chat::ChatRole, Seq<char>)> {
        chat_view(self.conversation)
    }

    pub closed spec fn spec_system_template(&self) -> Seq<char> {
        self.system_template@
    }

    pub closed spec fn spec_user_template(&self) -> Seq<char> {
        self.user_template@
    }

    pub closed spec fn spec_answer_template(&self) -> Seq<char> {
        self.answer_template@
    }

    pub closed spec fn spec_schema(&self) -> Seq<char> {
        self.schema_json@
    }

    pub closed spec fn spec_query(&self) -> Seq<char> {
        self.query@
    }

    pub closed spec fn spec_answer(&self) -> Seq<char> {
        self.answer@
    }

    pub closed spec fn spec_retried(&self) -> bool {
        self.retried
    }

    pub closed spec fn spec_emitted_query(&self) -> bool {
        self.emitted_query
    }

    pub closed spec fn spec_synth_calls(&self) -> int {
        self.synth_calls as int
    }

    pub closed spec fn spec_exec_calls(&self) -> int {
        self.exec_calls as int
    }

    /// The tags emitted so far, in order.
    pub closed spec fn spec_trace(&self) -> Seq<ProgressTag> {
        self.trace@
    }

    /// The machine's invariant: the emitted tags respect the stage
    /// order, the automaton position matches the phase, and neither
    /// synthesis nor execution is ever requested more than twice.
    pub closed spec fn wf(&self) -> bool {
        let pos = trace_pos(self.trace@);
        &&& trace_ok(self.trace@)
        &&& self.synth_calls <= 2
        &&& self.exec_calls <= 2
        &&& (self.query_only ==> !self.emitted_query && self.exec_calls == 0)
        &&& match self.phase {
            PipelinePhase::Ready => pos == 0 && self.trace@.len() == 0 && self.synth_calls == 0
                && self.exec_calls == 0 && !self.retried && !self.emitted_query,
            PipelinePhase::ResolvingSchema => pos == 0 && self.synth_calls == 0
                && self.exec_calls == 0 && !self.retried && !self.emitted_query,
            PipelinePhase::GeneratingQuery => self.synth_calls == (if self.retried {
                2int
            } else {
                1int
            }) && ((pos == 2 && !self.emitted_query && self.exec_calls == 0) || (pos == 4
                && self.emitted_query && self.retried && self.exec_calls == 1)),
            PipelinePhase::Executing => pos == 4 && self.emitted_query && self.synth_calls == (
            if self.retried {
                2int
            } else {
                1int
            }) && 1 <= self.exec_calls <= 2 && (self.exec_calls == 2 ==> self.retried),
            PipelinePhase::Answering => pos == 6 && self.exec_calls >= 1,
            PipelinePhase::Done => pos == 8,
            PipelinePhase::Failed => pos == 8,
        }
    }

    /// A fresh pipeline for one request: the caller's conversation,
    /// the three prompt templates, and whether to stop after the
    /// generated query.
    pub fn new(
        conversation: ChatRequest,
        query_only: bool,
        system_template: String,
        user_template: String,
        answer_template: String,
    ) -> (r: Pipeline)
        ensures
            r.wf(),
            r.spec_phase() == PipelinePhase::Ready,
            r.spec_query_only() == query_only,
            r.spec_conversation() == chat_view(conversation),
            r.spec_system_template() == system_template@,
            r.spec_user_template() == user_template@,
            r.spec_answer_template() == answer_template@,
            r.spec_trace() == Seq::<ProgressTag>::empty(),
            r.spec_synth_calls() == 0,
            r.spec_exec_calls() == 0,
            !r.spec_retried(),
            !r.spec_emitted_query(),
    {
        Pipeline {
            query_only,
            phase: PipelinePhase::Ready,
            conversation,
            system_template,
            user_template,
            answer_template,
            schema_json: String::new(),
            query: String::new(),
            answer: String::new(),
            retried: false,
            emitted_query: false,
            synth_calls: 0,
            exec_calls: 0,
            trace: Ghost(Seq::empty()),
        }
    }

    /// Current phase, for drivers and tests.
    pub fn phase(&self) -> (r: PipelinePhase)
        ensures
            r == self.spec_phase(),
    {
        self.phase
    }

    /// Starts the request: announces processing and asks the driver
    /// to resolve the schema.
    pub fn start(&mut self, status: String) -> (r: (Vec<Progress>, PipelineAction))
        requires
            old(self).wf(),
            old(self).spec_phase() == PipelinePhase::Ready,
        ensures
            final(self).wf(),
            final(self).spec_phase() == PipelinePhase::ResolvingSchema,
            evs_view(r.0@) == seq![(ProgressTag::Status, status@)],
            final(self).spec_trace() == old(self).spec_trace() + tags_of(r.0@),
            r.1 is ResolveSchema,
            final(self).spec_conversation() == old(self).spec_conversation(),
            final(self).spec_query_only() == old(self).spec_query_only(),
            final(self).spec_synth_calls() == 0,
            final(self).spec_exec_calls() == 0,
            final(self).spec_retried() == old(self).spec_retried(),
            final(self).spec_emitted_query() == old(self).spec_emitted_query(),
    {
        let mut evs: Vec<Progress> = Vec::new();
        evs.push(Progress::Status(status));
        self.phase = PipelinePhase::ResolvingSchema;
        let ghost t0 = self.trace@;
        self.trace = Ghost(self.trace@ + seq![ProgressTag::Status]);
        proof {
            assert(evs_view(evs@) =~= seq![(ProgressTag::Status, evs@[0]->Status_0@)]);
            assert(tags_of(evs@) =~= seq![ProgressTag::Status]);
            assert(self.trace@.drop_last() =~= t0);
            assert(trace_pos(self.trace@) == 0);
        }
        (evs, PipelineAction::ResolveSchema)
    }

    /// Receives the resolved schema, reports it, and asks the driver
    /// to synthesize a query from the schema-grounded conversation.
    pub fn on_schema(&mut self, schema_json: String) -> (r: (Vec<Progress>, PipelineAction))
        requires
            old(self).wf(),
            old(self).spec_phase() == PipelinePhase::ResolvingSchema,
        ensures
            final(self).wf(),
            final(self).spec_phase() == PipelinePhase::GeneratingQuery,
            final(self).spec_schema() == schema_json@,
            evs_view(r.0@) == seq![(ProgressTag::Schema, schema_json@)],
            final(self).spec_trace() == old(self).spec_trace() + tags_of(r.0@),
            final(self).spec_synth_calls() == 1,
            final(self).spec_exec_calls() == 0,
            r.1 matches PipelineAction::CallModel(req) && chat_view(req) == cypher_request_view(
                old(self).spec_conversation(),
                old(self).spec_system_template(),
                old(self).spec_user_template(),
                schema_json@,
            ),
            final(self).spec_conversation() == old(self).spec_conversation(),
            final(self).spec_query_only() == old(self).spec_query_only(),
            final(self).spec_retried() == old(self).spec_retried(),
            final(self).spec_emitted_query() == old(self).spec_emitted_query(),
    {
        let req = build_cypher_request(
            &self.conversation,
            self.system_template.as_str(),
            self.user_template.as_str(),
            schema_json.as_str(),
        );
        let mut evs: Vec<Progress> = Vec::new();
        let ghost schema_text = schema_json@;
        self.schema_json = String::from_str(schema_json.as_str());
        evs.push(Progress::Schema(schema_json));
        self.phase = PipelinePhase::GeneratingQuery;
        self.synth_calls = 1;
        let ghost t0 = self.trace@;
        self.trace = Ghost(self.trace@ + seq![ProgressTag::Schema]);
        proof {
            assert(evs_view(evs@) =~= seq![(ProgressTag::Schema, schema_text)]);
            assert(tags_of(evs@) =~= seq![ProgressTag::Schema]);
            assert(self.trace@.drop_last() =~= t0);
            assert(trace_pos(self.trace@) == 2);
        }
        (evs, PipelineAction::CallModel(req))
    }

    /// Receives a provider failure during query synthesis; the
    /// request is over, and the terminal event carries the provider's
    /// description.
    pub fn on_model_failed(&mut self, message: &str) -> (r: Vec<Progress>)
        requires
            old(self).wf(),
            old(self).spec_phase() == PipelinePhase::GeneratingQuery,
        ensures
            final(self).wf(),
            final(self).spec_phase() == PipelinePhase::Failed,
            evs_view(r@) == seq![
                (ProgressTag::Error, "Chat request failed: "@ + message@),
            ],
            final(self).spec_trace() == old(self).spec_trace() + tags_of(r@),
    {
        let mut text = String::from_str("Chat request failed: ");
        text.append(message);
        let ghost text_view = text@;
        let mut evs: Vec<Progress> = Vec::new();
        evs.push(Progress::Error(text));
        self.phase = PipelinePhase::Failed;
        let ghost t0 = self.trace@;
        self.trace = Ghost(self.trace@ + seq![ProgressTag::Error]);
        proof {
            assert(evs_view(evs@) =~= seq![(ProgressTag::Error, text_view)]);
            assert(tags_of(evs@) =~= seq![ProgressTag::Error]);
            assert(self.trace@.drop_last() =~= t0);
            assert(trace_pos(self.trace@) == 8);
        }
        evs
    }

    /// Receives the model's raw reply to a synthesis request.  An
    /// empty reply is fatal.  A cleaned reply is validated: a valid
    /// query is reported and goes to execution (or ends the request in
    /// query-only mode); an invalid one triggers the single
    /// self-healing regeneration, and a second invalid one is fatal.
    pub fn on_model_reply(&mut self, raw: &str) -> (r: (Vec<Progress>, Option<PipelineAction>))
        requires
            old(self).wf(),
            old(self).spec_phase() == PipelinePhase::GeneratingQuery,
        ensures
            final(self).wf(),
            final(self).spec_trace() == old(self).spec_trace() + tags_of(r.0@),
            final(self).spec_conversation() == old(self).spec_conversation(),
            final(self).spec_query_only() == old(self).spec_query_only(),
            final(self).spec_synth_calls() >= old(self).spec_synth_calls(),
            final(self).spec_synth_calls() <= 2,
            final(self).spec_exec_calls() <= 2,
            is_empty_reply(raw@) ==> {
                &&& final(self).spec_phase() == PipelinePhase::Failed
                &&& evs_view(r.0@) == seq![
                    (ProgressTag::Error, "No valid query was generated"@),
                ]
                &&& r.1 is None
            },
            !is_empty_reply(raw@) && validate_is_valid(clean_reply_spec(raw@)) ==> {
                let cq = clean_reply_spec(raw@);
                &&& final(self).spec_query() == cq
                &&& (if old(self).spec_query_only() {
                    &&& final(self).spec_phase() == PipelinePhase::Done
                    &&& evs_view(r.0@) == seq![
                        (ProgressTag::CypherQuery, cq),
                        (ProgressTag::Answer, cq),
                    ]
                    &&& r.1 is None
                } else {
                    &&& final(self).spec_phase() == PipelinePhase::Executing
                    &&& final(self).spec_exec_calls() == old(self).spec_exec_calls() + 1
                    &&& (r.1 matches Option::Some(PipelineAction::RunQuery(q)) && q@ == cq)
                    &&& (if old(self).spec_exec_calls() == 0 {
                        evs_view(r.0@) == seq![
                            (ProgressTag::CypherQuery, cq),
                            (ProgressTag::Status, "Executing Cypher query..."@),
                        ]
                    } else {
                        evs_view(r.0@) == Seq::<(ProgressTag, Seq<char>)>::empty()
                    })
                })
            },
            !is_empty_reply(raw@) && !validate_is_valid(clean_reply_spec(raw@)) && !old(
                self,
            ).spec_retried() ==> {
                let cq = clean_reply_spec(raw@);
                let errs = join_spec(validate_errors(cq), "; "@);
                &&& final(self).spec_phase() == PipelinePhase::GeneratingQuery
                &&& final(self).spec_retried()
                &&& final(self).spec_synth_calls() == old(self).spec_synth_calls() + 1
                &&& evs_view(r.0@) == Seq::<(ProgressTag, Seq<char>)>::empty()
                &&& (r.1 matches Option::Some(PipelineAction::CallModel(req)) && chat_view(req)
                    == cypher_request_view(
                    with_feedback(
                        old(self).spec_conversation(),
                        cq,
                        validation_feedback_text(errs),
                    ),
                    old(self).spec_system_template(),
                    old(self).spec_user_template(),
                    old(self).spec_schema(),
                ))
            },
            !is_empty_reply(raw@) && !validate_is_valid(clean_reply_spec(raw@)) && old(
                self,
            ).spec_retried() ==> {
                let cq = clean_reply_spec(raw@);
                let errs = join_spec(validate_errors(cq), "; "@);
                &&& final(self).spec_phase() == PipelinePhase::Failed
                &&& evs_view(r.0@) == seq![
                    (ProgressTag::Error, "Query validation errors: "@ + errs),
                ]
                &&& r.1 is None
            },
    {
        let mut evs: Vec<Progress> = Vec::new();
        match clean_query_response(raw) {
            Option::None => {
                evs.push(Progress::Error(String::from_str("No valid query was generated")));
                self.phase = PipelinePhase::Failed;
                let ghost t0 = self.trace@;
                self.trace = Ghost(self.trace@ + seq![ProgressTag::Error]);
                proof {
                    assert(evs_view(evs@) =~= seq![
                        (ProgressTag::Error, "No valid query was generated"@),
                    ]);
                    assert(tags_of(evs@) =~= seq![ProgressTag::Error]);
                    assert(self.trace@.drop_last() =~= t0);
                    assert(trace_pos(self.trace@) == 8);
                }
                (evs, Option::None)
            },
            Option::Some(q) => {
                let vr = CypherValidator::validate(q.as_str());
                if vr.is_valid {
                    self.query = String::from_str(q.as_str());
                    if self.query_only {
                        evs.push(Progress::CypherQuery(String::from_str(q.as_str())));
                        evs.push(Progress::Answer(q));
                        self.phase = PipelinePhase::Done;
                        let ghost t0 = self.trace@;
                        self.trace = Ghost(
                            self.trace@ + seq![ProgressTag::CypherQuery, ProgressTag::Answer],
                        );
                        proof {
                            let cq = clean_reply_spec(raw@);
                            assert(evs_view(evs@) =~= seq![
                                (ProgressTag::CypherQuery, cq),
                                (ProgressTag::Answer, cq),
                            ]);
                            assert(tags_of(evs@) =~= seq![
                                ProgressTag::CypherQuery,
                                ProgressTag::Answer,
                            ]);
                            let t1 = t0.push(ProgressTag::CypherQuery);
                            assert(t1.drop_last() =~= t0);
                            assert(self.trace@.drop_last() =~= t1);
                            assert(self.trace@ =~= t0 + tags_of(evs@));
                            assert(trace_pos(t1) == 3);
                            assert(trace_pos(self.trace@) == 8);
                        }
                        (evs, Option::None)
                    } else {
                        let ghost t0 = self.trace@;
                        if !self.emitted_query {
                            evs.push(Progress::CypherQuery(String::from_str(q.as_str())));
                            evs.push(
                                Progress::Status(String::from_str("Executing Cypher query...")),
                            );
                            self.emitted_query = true;
                            self.trace = Ghost(
                                self.trace@ + seq![ProgressTag::CypherQuery, ProgressTag::Status],
                            );
                            proof {
                                let cq = clean_reply_spec(raw@);
                                assert(evs_view(evs@) =~= seq![
                                    (ProgressTag::CypherQuery, cq),
                                    (ProgressTag::Status, "Executing Cypher query..."@),
                                ]);
                                assert(tags_of(evs@) =~= seq![
                                    ProgressTag::CypherQuery,
                                    ProgressTag::Status,
                                ]);
                                let t1 = t0.push(ProgressTag::CypherQuery);
                                assert(t1.drop_last() =~= t0);
                                assert(self.trace@.drop_last() =~= t1);
                                assert(self.trace@ =~= t0 + tags_of(evs@));
                                assert(trace_pos(t1) == 3);
                                assert(trace_pos(self.trace@) == 4);
                            }
                        } else {
                            proof {
                                assert(evs_view(evs@) =~= Seq::<(ProgressTag, Seq<char>)>::empty());
                                assert(tags_of(evs@) =~= Seq::<ProgressTag>::empty());
                                assert(self.trace@ =~= t0 + tags_of(evs@));
                            }
                        }
                        self.exec_calls = self.exec_calls + 1;
                        self.phase = PipelinePhase::Executing;
                        (evs, Option::Some(PipelineAction::RunQuery(q)))
                    }
                } else {
                    let errs = join_errors(&vr.errors);
                    if !self.retried {
                        self.retried = true;
                        self.synth_calls = self.synth_calls + 1;
                        let retry_conv = append_validation_feedback(
                            &self.conversation,
                            q.as_str(),
                            errs.as_str(),
                        );
                        let req = build_cypher_request(
                            &retry_conv,
                            self.system_template.as_str(),
                            self.user_template.as_str(),
                            self.schema_json.as_str(),
                        );
                        proof {
                            assert(evs_view(evs@) =~= Seq::<(ProgressTag, Seq<char>)>::empty());
                            assert(tags_of(evs@) =~= Seq::<ProgressTag>::empty());
                            assert(self.trace@ =~= self.trace@ + tags_of(evs@));
                        }
                        (evs, Option::Some(PipelineAction::CallModel(req)))
                    } else {
                        let mut text = String::from_str("Query validation errors: ");
                        text.append(errs.as_str());
                        let ghost text_view = text@;
                        evs.push(Progress::Error(text));
                        self.phase = PipelinePhase::Failed;
                        let ghost t0 = self.trace@;
                        self.trace = Ghost(self.trace@ + seq![ProgressTag::Error]);
                        proof {
                            assert(evs_view(evs@) =~= seq![(ProgressTag::Error, text_view)]);
                            assert(tags_of(evs@) =~= seq![ProgressTag::Error]);
                            assert(self.trace@.drop_last() =~= t0);
                            assert(trace_pos(self.trace@) == 8);
                        }
                        (evs, Option::None)
                    }
                }
            },
        }
    }

    /// Receives a successful execution result: reports it and asks
    /// the driver to stream the answer synthesis for the original
    /// conversation with the executed query and its size-bounded
    /// result embedded.
    pub fn on_exec_ok(&mut self, result: String) -> (r: (Vec<Progress>, PipelineAction))
        requires
            old(self).wf(),
            old(self).spec_phase() == PipelinePhase::Executing,
        ensures
            final(self).wf(),
            final(self).spec_phase() == PipelinePhase::Answering,
            evs_view(r.0@) == seq![
                (ProgressTag::CypherResult, result@),
                (
                    ProgressTag::Status,
                    "Generating answer from chat history and Cypher output using AI model..."@,
                ),
            ],
            final(self).spec_trace() == old(self).spec_trace() + tags_of(r.0@),
            r.1 matches PipelineAction::StreamAnswer(req) && chat_view(req) == answer_request_view(
                old(self).spec_conversation(),
                old(self).spec_answer_template(),
                old(self).spec_query(),
                crate::sanitize::sanitize_spec(
                    result@,
                    crate::sanitize::QUERY_RESULT_MAX_PROPERTY_LENGTH as int,
                ),
            ),
            final(self).spec_answer() == Seq::<char>::empty(),
            final(self).spec_synth_calls() == old(self).spec_synth_calls(),
            final(self).spec_exec_calls() == old(self).spec_exec_calls(),
    {
        let sanitized = crate::sanitize::sanitize_result_text(result.as_str());
        let req = build_answer_request(
            &self.conversation,
            self.answer_template.as_str(),
            self.query.as_str(),
            sanitized.as_str(),
        );
        let ghost result_view = result@;
        let mut evs: Vec<Progress> = Vec::new();
        evs.push(Progress::CypherResult(result));
        evs.push(
            Progress::Status(
                String::from_str(
                    "Generating answer from chat history and Cypher output using AI model...",
                ),
            ),
        );
        self.answer = String::new();
        self.phase = PipelinePhase::Answering;
        let ghost t0 = self.trace@;
        self.trace = Ghost(self.trace@ + seq![ProgressTag::CypherResult, ProgressTag::Status]);
        proof {
            assert(evs_view(evs@) =~= seq![
                (ProgressTag::CypherResult, result_view),
                (
                    ProgressTag::Status,
                    "Generating answer from chat history and Cypher output using AI model..."@,
                ),
            ]);
            assert(tags_of(evs@) =~= seq![ProgressTag::CypherResult, ProgressTag::Status]);
            let t1 = t0.push(ProgressTag::CypherResult);
            assert(t1.drop_last() =~= t0);
            assert(self.trace@.drop_last() =~= t1);
            assert(self.trace@ =~= t0 + tags_of(evs@));
            assert(trace_pos(t1) == 5);
            assert(trace_pos(self.trace@) == 6);
        }
        (evs, PipelineAction::StreamAnswer(req))
    }

    /// Receives an execution failure.  The first failure of the
    /// request triggers the single self-healing regeneration, with a
    /// stable description of the failure fed back to the model; a
    /// failure after any retry ends the request.
    pub fn on_exec_failed(&mut self) -> (r: (Vec<Progress>, Option<PipelineAction>))
        requires
            old(self).wf(),
            old(self).spec_phase() == PipelinePhase::Executing,
        ensures
            final(self).wf(),
            final(self).spec_trace() == old(self).spec_trace() + tags_of(r.0@),
            final(self).spec_conversation() == old(self).spec_conversation(),
            final(self).spec_query_only() == old(self).spec_query_only(),
            final(self).spec_synth_calls() <= 2,
            final(self).spec_exec_calls() == old(self).spec_exec_calls(),
            !old(self).spec_retried() ==> {
                &&& final(self).spec_phase() == PipelinePhase::GeneratingQuery
                &&& final(self).spec_retried()
                &&& final(self).spec_synth_calls() == old(self).spec_synth_calls() + 1
                &&& evs_view(r.0@) == Seq::<(ProgressTag, Seq<char>)>::empty()
                &&& (r.1 matches Option::Some(PipelineAction::CallModel(req)) && chat_view(req)
                    == cypher_request_view(
                    with_feedback(
                        old(self).spec_conversation(),
                        old(self).spec_query(),
                        execution_feedback_text(
                            "Query execution failed - see logs for details"@,
                        ),
                    ),
                    old(self).spec_system_template(),
                    old(self).spec_user_template(),
                    old(self).spec_schema(),
                ))
            },
            old(self).spec_retried() ==> {
                &&& final(self).spec_phase() == PipelinePhase::Failed
                &&& evs_view(r.0@) == seq![
                    (
                        ProgressTag::Error,
                        "Query execution failed even after self-healing attempt"@,
                    ),
                ]
                &&& r.1 is None
            },
    {
        let evs: Vec<Progress> = Vec::new();
        if !self.retried {
            self.retried = true;
            self.synth_calls = self.synth_calls + 1;
            let retry_conv = append_execution_feedback(
                &self.conversation,
                self.query.as_str(),
                "Query execution failed - see logs for details",
            );
            let req = build_cypher_request(
                &retry_conv,
                self.system_template.as_str(),
                self.user_template.as_str(),
                self.schema_json.as_str(),
            );
            self.phase = PipelinePhase::GeneratingQuery;
            proof {
                assert(evs_view(evs@) =~= Seq::<(ProgressTag, Seq<char>)>::empty());
                assert(tags_of(evs@) =~= Seq::<ProgressTag>::empty());
                assert(self.trace@ =~= self.trace@ + tags_of(evs@));
            }
            (evs, Option::Some(PipelineAction::CallModel(req)))
        } else {
            let mut evs: Vec<Progress> = Vec::new();
            evs.push(
                Progress::Error(
                    String::from_str("Query execution failed even after self-healing attempt"),
                ),
            );
            self.phase = PipelinePhase::Failed;
            let ghost t0 = self.trace@;
            self.trace = Ghost(self.trace@ + seq![ProgressTag::Error]);
            proof {
                assert(evs_view(evs@) =~= seq![
                    (
                        ProgressTag::Error,
                        "Query execution failed even after self-healing attempt"@,
                    ),
                ]);
                assert(tags_of(evs@) =~= seq![ProgressTag::Error]);
                assert(self.trace@.drop_last() =~= t0);
                assert(trace_pos(self.trace@) == 8);
            }
            (evs, Option::None)
        }
    }

    /// Receives one streamed answer chunk: forwards it and appends it
    /// to the accumulated answer, so that the final answer is exactly
    /// the concatenation of the forwarded chunks.
    pub fn on_answer_chunk(&mut self, chunk: String) -> (r: Vec<Progress>)
        requires
            old(self).wf(),
            old(self).spec_phase() == PipelinePhase::Answering,
        ensures
            final(self).wf(),
            final(self).spec_phase() == PipelinePhase::Answering,
            final(self).spec_answer() == old(self).spec_answer() + chunk@,
            evs_view(r@) == seq![(ProgressTag::ModelOutputChunk, chunk@)],
            final(self).spec_trace() == old(self).spec_trace() + tags_of(r@),
    {
        self.answer.append(chunk.as_str());
        let ghost chunk_view = chunk@;
        let mut evs: Vec<Progress> = Vec::new();
        evs.push(Progress::ModelOutputChunk(chunk));
        let ghost t0 = self.trace@;
        self.trace = Ghost(self.trace@ + seq![ProgressTag::ModelOutputChunk]);
        proof {
            assert(evs_view(evs@) =~= seq![(ProgressTag::ModelOutputChunk, chunk_view)]);
            assert(tags_of(evs@) =~= seq![ProgressTag::ModelOutputChunk]);
            assert(self.trace@.drop_last() =~= t0);
            assert(trace_pos(self.trace@) == 6);
        }
        evs
    }

    /// Receives the end of the answer stream: emits the accumulated
    /// answer as the successful terminal event.
    pub fn on_answer_complete(&mut self) -> (r: Vec<Progress>)
        requires
            old(self).wf(),
            old(self).spec_phase() == PipelinePhase::Answering,
        ensures
            final(self).wf(),
            final(self).spec_phase() == PipelinePhase::Done,
            evs_view(r@) == seq![(ProgressTag::Answer, old(self).spec_answer())],
            final(self).spec_trace() == old(self).spec_trace() + tags_of(r@),
    {
        let text = String::from_str(self.answer.as_str());
        let ghost text_view = text@;
        let mut evs: Vec<Progress> = Vec::new();
        evs.push(Progress::Answer(text));
        self.phase = PipelinePhase::Done;
        let ghost t0 = self.trace@;
        self.trace = Ghost(self.trace@ + seq![ProgressTag::Answer]);
        proof {
            assert(evs_view(evs@) =~= seq![(ProgressTag::Answer, text_view)]);
            assert(tags_of(evs@) =~= seq![ProgressTag::Answer]);
            assert(self.trace@.drop_last() =~= t0);
            assert(trace_pos(self.trace@) == 8);
        }
        evs
    }

    /// Receives an answer-synthesis failure; the request is over, but
    /// the query and its result were already reported.
    pub fn on_answer_failed(&mut self, message: &str) -> (r: Vec<Progress>)
        requires
            old(self).wf(),
            old(self).spec_phase() == PipelinePhase::Answering,
        ensures
            final(self).wf(),
            final(self).spec_phase() == PipelinePhase::Failed,
            evs_view(r@) == seq![
                (ProgressTag::Error, "Failed to generate answer: "@ + message@),
            ],
            final(self).spec_trace() == old(self).spec_trace() + tags_of(r@),
    {
        let mut text = String::from_str("Failed to generate answer: ");
        text.append(message);
        let ghost text_view = text@;
        let mut evs: Vec<Progress> = Vec::new();
        evs.push(Progress::Error(text));
        self.phase = PipelinePhase::Failed;
        let ghost t0 = self.trace@;
        self.trace = Ghost(self.trace@ + seq![ProgressTag::Error]);
        proof {
            assert(evs_view(evs@) =~= seq![(ProgressTag::Error, text_view)]);
            assert(tags_of(evs@) =~= seq![ProgressTag::Error]);
            assert(self.trace@.drop_last() =~= t0);
            assert(trace_pos(self.trace@) == 8);
        }
        evs
    }

    /// Receives a schema-resolution failure; the request is over.
    pub fn on_schema_failed(&mut self, message: &str) -> (r: Vec<Progress>)
        requires
            old(self).wf(),
            old(self).spec_phase() == PipelinePhase::ResolvingSchema,
        ensures
            final(self).wf(),
            final(self).spec_phase() == PipelinePhase::Failed,
            evs_view(r@) == seq![
                (ProgressTag::Error, "Failed to discover schema: "@ + message@),
            ],
            final(self).spec_trace() == old(self).spec_trace() + tags_of(r@),
    {
        let mut text = String::from_str("Failed to discover schema: ");
        text.append(message);
        let ghost text_view = text@;
        let mut evs: Vec<Progress> = Vec::new();
        evs.push(Progress::Error(text));
        self.phase = PipelinePhase::Failed;
        let ghost t0 = self.trace@;
        self.trace = Ghost(self.trace@ + seq![ProgressTag::Error]);
        proof {
            assert(evs_view(evs@) =~= seq![(ProgressTag::Error, text_view)]);
            assert(tags_of(evs@) =~= seq![ProgressTag::Error]);
            assert(self.trace@.drop_last() =~= t0);
            assert(trace_pos(self.trace@) == 8);
        }
        evs
    }
}


/// The self-healing bound: however the outside calls fail, a
/// well-formed pipeline has requested query synthesis at most twice
/// and query execution at most twice.
pub proof fn lemma_retry_bound(p: &Pipeline)
    requires
        p.wf(),
    ensures
        p.spec_synth_calls() <= 2,
        p.spec_exec_calls() <= 2,
{
}

/// The event-order law: the tags a well-formed pipeline has emitted
/// respect the stage order — leading statuses, then at most one
/// schema, one query, one status, one result, one status, answer
/// chunks, and at most one terminal event, which nothing follows.
pub proof fn lemma_event_order(p: &Pipeline)
    requires
        p.wf(),
    ensures
        trace_ok(p.spec_trace()),
        forall|i: int|
            0 <= i < p.spec_trace().len() && crate::progress::is_terminal(#[trigger] p.spec_trace()[i])
                ==> i == p.spec_trace().len() - 1,
{
    assert forall|i: int|
        0 <= i < p.spec_trace().len() && crate::progress::is_terminal(#[trigger] p.spec_trace()[i])
            implies i == p.spec_trace().len() - 1 by {
        crate::progress::lemma_single_terminal(p.spec_trace(), i);
    }
}

} // verus!

//! The agent runtime's envelope handler: validates a JSON-RPC request,
//! dispatches it, resolves the agent, builds the provider request, and
//! maps every provider outcome to a response.
//!
//! The one outside call — the generative provider's HTTP endpoint — is
//! driven by the boundary: [`rpc_step`] either answers at once or hands
//! back a [`GenerationTask`]; the boundary performs the call and feeds
//! what came back to [`rpc_finish`], which always produces the response.

use vstd::prelude::*;

use crate::registry::Agent;
use crate::registry::AgentView;
use crate::registry::first_match;
use crate::registry::find_agent;
use crate::registry::get_agents;
use crate::registry::spec_agents;
use crate::rpc::ErrorData;
use crate::rpc::JsonRpcError;
use crate::rpc::JsonRpcRequest;
use crate::rpc::JsonRpcResponse;
use crate::rpc::Message;
use crate::rpc::ParamsField;
use crate::rpc::ProcessTextParams;
use crate::rpc::ProcessTextResult;
use crate::rpc::ProcessingMetadata;
use crate::rpc::RpcId;
use crate::rpc::RpcIdView;
use crate::rpc::RpcResultBody;
use crate::text::str_eq;

verus! {

/// Spec-level image of a [`ProviderTurn`].
pub struct TurnView {
    pub role: Seq<char>,
    pub text: Seq<char>,
}

/// One turn of the conversation as the generative provider takes it:
/// a role of its vocabulary (`"user"` or `"model"`) and the turn's text.
pub struct ProviderTurn {
    pub role: String,
    pub text: String,
}

impl View for ProviderTurn {
    type V = TurnView;

    open spec fn view(&self) -> TurnView {
        TurnView { role: self.role@, text: self.text@ }
    }
}

/// Everything the boundary needs to call the generative provider once:
/// the envelope id to answer under, the resolved agent's model and
/// system prompt, and the full turn list.
pub struct GenerationTask {
    /// Correlation id of the envelope being served.
    pub id: RpcId,
    /// The agent asked for, echoed in the result.
    pub agent_id: String,
    /// The resolved agent's backing model.
    pub model: String,
    /// The resolved agent's system prompt, sent as a separate system
    /// instruction, never mixed into the turn list.
    pub system_prompt: String,
    /// Mapped history followed by the user's new turn.
    pub turns: Vec<ProviderTurn>,
}

/// What [`rpc_step`] decided: answer at once, or call the provider with
/// the given task and answer through [`rpc_finish`].
pub enum RpcStep {
    Respond(JsonRpcResponse),
    Generate(GenerationTask),
}

/// One candidate of the provider's reply: the texts of its content
/// parts, in order.
pub struct Candidate {
    pub parts: Vec<String>,
}

/// What came back from the provider call, as the boundary hands it in:
/// plain values only, every branch of the call accounted for.
pub enum GenerationOutcome {
    /// The call itself failed (connection error, timeout).
    Transport { details: String },
    /// The call returned but its body could not be read.
    BodyUnread { details: String },
    /// A non-2xx status, with the body text.
    HttpError { status: u16, body: String },
    /// A 2xx body that failed schema parsing.
    Unparsable { details: String, raw: String },
    /// A parsed reply: its candidates and, when reported, token usage.
    Parsed { candidates: Vec<Candidate>, tokens_used: Option<u32> },
}

/// What a history message contributes to the provider's turn list:
/// `user` stays `user`, `assistant` becomes `model`, anything else is
/// dropped.
pub open spec fn turn_contribution(m: crate::rpc::MessageView) -> Seq<TurnView> {
    if m.role == "user"@ {
        seq![TurnView { role: "user"@, text: m.content }]
    } else if m.role == "assistant"@ {
        seq![TurnView { role: "model"@, text: m.content }]
    } else {
        Seq::empty()
    }
}

/// The provider turn list a history maps to, in order.
pub open spec fn provider_turns(history: Seq<crate::rpc::MessageView>) -> Seq<TurnView>
    decreases history.len(),
{
    if history.len() == 0 {
        Seq::empty()
    } else {
        provider_turns(history.drop_last()) + turn_contribution(history.last())
    }
}

/// The history a `process_text` call supplied, empty when it supplied
/// none.
pub open spec fn history_view(p: ProcessTextParams) -> Seq<crate::rpc::MessageView> {
    match p.conversation_history {
        Some(msgs) => msgs@.map_values(|m: Message| m@),
        None => Seq::empty(),
    }
}

/// The fixed text substituted when the provider returns no candidate
/// text, so downstream synthesis always receives non-empty input.
pub open spec fn placeholder() -> Seq<char> {
    "Sorry, I couldn't generate a response."@
}

/// The reply text extracted from the provider's candidates: the first
/// part of the first candidate, or the placeholder where either is
/// missing or that part's text is empty — a success never carries
/// empty reply text.
pub open spec fn reply_of(cands: Seq<Candidate>) -> Seq<char> {
    if cands.len() == 0 || cands[0].parts@.len() == 0 || cands[0].parts@[0]@.len() == 0 {
        placeholder()
    } else {
        cands[0].parts@[0]@
    }
}

/// `resp` is the well-formed error response with the given id, code and
/// message, and no extra data.
pub open spec fn is_error_response(
    resp: JsonRpcResponse,
    id: RpcIdView,
    code: int,
    message: Seq<char>,
) -> bool {
    &&& resp.wf()
    &&& resp.result is None
    &&& resp.error matches Some(e)
    &&& e.code == code
    &&& e.message@ == message
    &&& e.data is None
    &&& resp.id@ == id
}

/// `resp` is the well-formed `list_agents` success response with the
/// given id: the full registry table, in order.
pub open spec fn is_list_agents_response(resp: JsonRpcResponse, id: RpcIdView) -> bool {
    &&& resp.wf()
    &&& resp.error is None
    &&& resp.result matches Some(RpcResultBody::Agents(v))
    &&& v@.map_values(|a: Agent| a@) == spec_agents()
    &&& resp.id@ == id
}

/// `t` is the generation task that serves params `p` with the resolved
/// agent `a` under envelope id `id`.
pub open spec fn is_task_for(
    t: GenerationTask,
    id: RpcIdView,
    p: ProcessTextParams,
    a: AgentView,
) -> bool {
    &&& t.id@ == id
    &&& t.agent_id@ == p.agent_id@
    &&& t.model@ == a.model
    &&& t.system_prompt@ == a.system_prompt
    &&& t.turns@.map_values(|u: ProviderTurn| u@) == provider_turns(history_view(p)) + seq![
        TurnView { role: "user"@, text: p.user_text@ },
    ]
}

/// The full contract of [`rpc_step`] on a valid envelope naming
/// `process_text`: params missing, unparsable or naming an unknown
/// agent are answered with code -32602 and no provider call; valid
/// params with a known agent become a generation task.
pub open spec fn process_text_step(req: JsonRpcRequest, step: RpcStep) -> bool {
    match req.params {
        ParamsField::Absent => {
            &&& step matches RpcStep::Respond(r)
            &&& is_error_response(
                r,
                req.id@,
                -32602,
                "Invalid params: agent_id and user_text are required"@,
            )
        },
        ParamsField::Invalid(e) => {
            &&& step matches RpcStep::Respond(r)
            &&& is_error_response(r, req.id@, -32602, "Invalid params: "@ + e@)
        },
        ParamsField::Valid(p) => match first_match(spec_agents(), p.agent_id@) {
            None => {
                &&& step matches RpcStep::Respond(r)
                &&& is_error_response(r, req.id@, -32602, "Agent not found: "@ + p.agent_id@)
            },
            Some(a) => {
                &&& step matches RpcStep::Generate(t)
                &&& is_task_for(t, req.id@, p, a)
            },
        },
    }
}

fn error_response_plain(id: RpcId, code: i32, message: String) -> (resp: JsonRpcResponse)
    ensures
        is_error_response(resp, id@, code as int, message@),
{
    JsonRpcResponse {
        jsonrpc: "2.0".to_owned(),
        result: None,
        error: Some(JsonRpcError { code, message, data: None }),
        id,
    }
}

/// Builds the provider turn list: the usable history turns, mapped into
/// the provider's role vocabulary, then the user's new turn.
fn build_turns(history: Option<Vec<Message>>, user_text: String) -> (turns: Vec<ProviderTurn>)
    ensures
        turns@.map_values(|u: ProviderTurn| u@) == provider_turns(
            match history {
                Some(msgs) => msgs@.map_values(|m: Message| m@),
                None => Seq::empty(),
            },
        ) + seq![TurnView { role: "user"@, text: user_text@ }],
{
    let mut turns: Vec<ProviderTurn> = Vec::new();
    match history {
        None => {
            assert(turns@.map_values(|u: ProviderTurn| u@) =~= provider_turns(Seq::empty()));
        }
        Some(msgs) => {
            let ghost h: Seq<crate::rpc::MessageView> = msgs@.map_values(|m: Message| m@);
            let mut i: usize = 0;
            while i < msgs.len()
                invariant
                    0 <= i <= msgs@.len(),
                    h == msgs@.map_values(|m: Message| m@),
                    turns@.map_values(|u: ProviderTurn| u@) == provider_turns(h.take(i as int)),
                decreases msgs@.len() - i,
            {
                let ghost turns_before = turns@;
                let m = &msgs[i];
                if str_eq(m.role.as_str(), "user") {
                    turns.push(ProviderTurn { role: "user".to_owned(), text: m.content.clone() });
                } else if str_eq(m.role.as_str(), "assistant") {
                    turns.push(ProviderTurn { role: "model".to_owned(), text: m.content.clone() });
                }
                proof {
                    assert(h.take(i + 1 as int).drop_last() =~= h.take(i as int));
                    assert(h.take(i + 1 as int).last() == h[i as int]);
                    assert(turns@.map_values(|u: ProviderTurn| u@) =~= turns_before.map_values(
                        |u: ProviderTurn| u@,
                    ) + turns@.subrange(turns_before.len() as int, turns@.len() as int).map_values(
                        |u: ProviderTurn| u@,
                    ));
                    assert(turns@.map_values(|u: ProviderTurn| u@) =~= provider_turns(
                        h.take(i + 1 as int),
                    ));
                }
                i = i + 1;
            }
            proof {
                assert(h.take(msgs@.len() as int) =~= h);
            }
        }
    }
    let ghost turns_before = turns@;
    turns.push(ProviderTurn { role: "user".to_owned(), text: user_text });
    proof {
        assert(turns@.map_values(|u: ProviderTurn| u@) =~= turns_before.map_values(
            |u: ProviderTurn| u@,
        ) + seq![turns@.last()@]);
    }
    turns
}

/// Serves one JSON-RPC envelope as far as it can without the provider:
/// a malformed protocol version is answered with -32600 before any
/// dispatch, an unknown method with -32601, `list_agents` at once from
/// the registry, and `process_text` either with a -32602 (params
/// missing, unparsable, or agent unknown) or with the generation task
/// to perform.  The response always echoes the request's id.
pub fn rpc_step(req: JsonRpcRequest) -> (step: RpcStep)
    ensures
        req.jsonrpc@ != "2.0"@ ==> {
            &&& step matches RpcStep::Respond(r)
            &&& is_error_response(
                r,
                req.id@,
                -32600,
                "Invalid Request: jsonrpc must be '2.0'"@,
            )
        },
        req.jsonrpc@ == "2.0"@ && req.method@ == "list_agents"@ ==> {
            &&& step matches RpcStep::Respond(r)
            &&& is_list_agents_response(r, req.id@)
        },
        req.jsonrpc@ == "2.0"@ && req.method@ == "process_text"@ ==> process_text_step(req, step),
        req.jsonrpc@ == "2.0"@ && req.method@ != "list_agents"@ && req.method@ != "process_text"@
            ==> {
            &&& step matches RpcStep::Respond(r)
            &&& is_error_response(r, req.id@, -32601, "Method not found: "@ + req.method@)
        },
{
    proof {
        reveal_strlit("list_agents");
        reveal_strlit("process_text");
        assert("list_agents"@.len() != "process_text"@.len());
    }
    let JsonRpcRequest { jsonrpc, method, params, id } = req;
    if !str_eq(jsonrpc.as_str(), "2.0") {
        return RpcStep::Respond(
            error_response_plain(id, -32600, "Invalid Request: jsonrpc must be '2.0'".to_owned()),
        );
    }
    if str_eq(method.as_str(), "list_agents") {
        let agents = get_agents();
        return RpcStep::Respond(
            JsonRpcResponse {
                jsonrpc: "2.0".to_owned(),
                result: Some(RpcResultBody::Agents(agents)),
                error: None,
                id,
            },
        );
    }
    if str_eq(method.as_str(), "process_text") {
        let p = match params {
            ParamsField::Absent => {
                return RpcStep::Respond(
                    error_response_plain(
                        id,
                        -32602,
                        "Invalid params: agent_id and user_text are required".to_owned(),
                    ),
                );
            }
            ParamsField::Invalid(e) => {
                return RpcStep::Respond(
                    error_response_plain(
                        id,
                        -32602,
                        "Invalid params: ".to_owned().concat(e.as_str()),
                    ),
                );
            }
            ParamsField::Valid(p) => p,
        };
        let agent = match find_agent(p.agent_id.as_str()) {
            None => {
                return RpcStep::Respond(
                    error_response_plain(
                        id,
                        -32602,
                        "Agent not found: ".to_owned().concat(p.agent_id.as_str()),
                    ),
                );
            }
            Some(a) => a,
        };
        let ProcessTextParams { agent_id, user_text, conversation_history } = p;
        let turns = build_turns(conversation_history, user_text);
        return RpcStep::Generate(
            GenerationTask {
                id,
                agent_id,
                model: agent.model,
                system_prompt: agent.system_prompt,
                turns,
            },
        );
    }
    RpcStep::Respond(
        error_response_plain(id, -32601, "Method not found: ".to_owned().concat(method.as_str())),
    )
}

fn placeholder_text() -> (s: String)
    ensures
        s@ == placeholder(),
{
    "Sorry, I couldn't generate a response.".to_owned()
}

/// Turns what came back from the provider into the JSON-RPC response:
/// every failure becomes code -32603 with diagnostic data, a parsed
/// reply becomes the result, with the placeholder substituted when no
/// candidate text exists.  The response echoes the task's envelope id.
pub fn rpc_finish(task: GenerationTask, outcome: GenerationOutcome, elapsed_ms: u64) -> (resp:
    JsonRpcResponse)
    ensures
        resp.wf(),
        resp.id@ == task.id@,
        outcome matches GenerationOutcome::Transport { details } ==> {
            &&& resp.result is None
            &&& resp.error matches Some(e)
            &&& e.code == -32603
            &&& e.message@ == "Internal error: Gemini API request failed"@
            &&& e.data matches Some(ErrorData::Details { details: d })
            &&& d@ == details@
        },
        outcome matches GenerationOutcome::BodyUnread { details } ==> {
            &&& resp.result is None
            &&& resp.error matches Some(e)
            &&& e.code == -32603
            &&& e.message@ == "Internal error: Failed to read Gemini response"@
            &&& e.data matches Some(ErrorData::Details { details: d })
            &&& d@ == details@
        },
        outcome matches GenerationOutcome::HttpError { status, body } ==> {
            &&& resp.result is None
            &&& resp.error matches Some(e)
            &&& e.code == -32603
            &&& e.message@ == "Gemini API error"@
            &&& e.data matches Some(ErrorData::Provider { status: s, body: b })
            &&& s == status
            &&& b@ == body@
        },
        outcome matches GenerationOutcome::Unparsable { details, raw } ==> {
            &&& resp.result is None
            &&& resp.error matches Some(e)
            &&& e.code == -32603
            &&& e.message@ == "Internal error: Failed to parse Gemini response"@
            &&& e.data matches Some(ErrorData::Parse { details: d, raw: r })
            &&& d@ == details@
            &&& r@ == raw@
        },
        outcome matches GenerationOutcome::Parsed { candidates, tokens_used } ==> {
            &&& resp.error is None
            &&& resp.result matches Some(RpcResultBody::Text(t))
            &&& t.agent_id@ == task.agent_id@
            &&& t.reply_text@ == reply_of(candidates@)
            &&& t.metadata.model@ == task.model@
            &&& t.metadata.tokens_used == tokens_used
            &&& t.metadata.processing_time_ms == elapsed_ms
            &&& t.metadata.confidence_hundredths == 95
        },
{
    match outcome {
        GenerationOutcome::Transport { details } => JsonRpcResponse {
            jsonrpc: "2.0".to_owned(),
            result: None,
            error: Some(
                JsonRpcError {
                    code: -32603,
                    message: "Internal error: Gemini API request failed".to_owned(),
                    data: Some(ErrorData::Details { details }),
                },
            ),
            id: task.id,
        },
        GenerationOutcome::BodyUnread { details } => JsonRpcResponse {
            jsonrpc: "2.0".to_owned(),
            result: None,
            error: Some(
                JsonRpcError {
                    code: -32603,
                    message: "Internal error: Failed to read Gemini response".to_owned(),
                    data: Some(ErrorData::Details { details }),
                },
            ),
            id: task.id,
        },
        GenerationOutcome::HttpError { status, body } => JsonRpcResponse {
            jsonrpc: "2.0".to_owned(),
            result: None,
            error: Some(
                JsonRpcError {
                    code: -32603,
                    message: "Gemini API error".to_owned(),
                    data: Some(ErrorData::Provider { status, body }),
                },
            ),
            id: task.id,
        },
        GenerationOutcome::Unparsable { details, raw } => JsonRpcResponse {
            jsonrpc: "2.0".to_owned(),
            result: None,
            error: Some(
                JsonRpcError {
                    code: -32603,
                    message: "Internal error: Failed to parse Gemini response".to_owned(),
                    data: Some(ErrorData::Parse { details, raw }),
                },
            ),
            id: task.id,
        },
        GenerationOutcome::Parsed { candidates, tokens_used } => {
            let reply_text: String = if candidates.len() == 0 {
                placeholder_text()
            } else {
                let first = &candidates[0];
                if first.parts.len() == 0 {
                    placeholder_text()
                } else {
                    let text = first.parts[0].clone();
                    if text.as_str().is_empty() {
                        placeholder_text()
                    } else {
                        text
                    }
                }
            };
            JsonRpcResponse {
                jsonrpc: "2.0".to_owned(),
                result: Some(
                    RpcResultBody::Text(
                        ProcessTextResult {
                            agent_id: task.agent_id,
                            reply_text,
                            metadata: ProcessingMetadata {
                                model: task.model,
                                tokens_used,
                                processing_time_ms: elapsed_ms,
                                confidence_hundredths: 95,
                            },
                        },
                    ),
                ),
                error: None,
                id: task.id,
            }
        }
    }
}

/// In any `list_agents` response, the ids returned are pairwise
/// distinct and every one of them is one of the four compiled-in
/// identifiers.
pub proof fn lemma_listing_ids(resp: JsonRpcResponse, id: RpcIdView)
    requires
        is_list_agents_response(resp, id),
    ensures
        resp.result matches Some(RpcResultBody::Agents(v)) ==> {
            &&& v@.len() == 4
            &&& forall|i: int, j: int|
                0 <= i < v@.len() && 0 <= j < v@.len() && i != j ==> #[trigger] v@[i]@.id
                    != #[trigger] v@[j]@.id
            &&& forall|i: int|
                0 <= i < v@.len() ==> #[trigger] v@[i]@.id == "agent_001"@ || v@[i]@.id
                    == "agent_002"@ || v@[i]@.id == "agent_003"@ || v@[i]@.id == "agent_004"@
        },
{
    crate::registry::lemma_agent_ids_unique();
    if let Some(RpcResultBody::Agents(v)) = resp.result {
        let m = v@.map_values(|a: Agent| a@);
        assert(m == spec_agents());
        assert(spec_agents().len() == 4);
        assert(v@.len() == 4);
        assert forall|i: int| 0 <= i < v@.len() implies #[trigger] v@[i]@ == spec_agents()[i] by {
            assert(m[i] == v@[i]@);
        }
        assert forall|i: int|
            0 <= i < v@.len() implies #[trigger] v@[i]@.id == "agent_001"@ || v@[i]@.id
                == "agent_002"@ || v@[i]@.id == "agent_003"@ || v@[i]@.id == "agent_004"@ by {
            assert(v@[i]@ == spec_agents()[i]);
            assert(spec_agents()[0].id == "agent_001"@);
            assert(spec_agents()[1].id == "agent_002"@);
            assert(spec_agents()[2].id == "agent_003"@);
            assert(spec_agents()[3].id == "agent_004"@);
        }
    }
}

/// Where the provider returns no candidate text — zero candidates, a
/// candidate without parts, or an empty first part — the reply text is
/// the placeholder; and whatever the candidates, the reply text is
/// never empty, so synthesis downstream always receives non-empty
/// input.
pub proof fn lemma_reply_never_empty()
    ensures
        forall|cands: Seq<Candidate>| cands.len() == 0 ==> #[trigger] reply_of(cands)
            == placeholder(),
        placeholder().len() > 0,
        forall|cands: Seq<Candidate>| #[trigger] reply_of(cands).len() > 0,
{
    reveal_strlit("Sorry, I couldn't generate a response.");
}

} // verus!

//! The gateway's orchestration pipeline as an explicit state machine.
//!
//! A flow starts from a text request or a multipart audio request and
//! walks a fixed sequence of stages: transcription (audio only), the
//! remote `process_text` call, speech synthesis, and the artifact
//! write.  Each non-terminal stage names exactly one outside call; the
//! unverified boundary performs it and feeds what came back to
//! [`advance`], which decides the next stage.  Every failure maps to one
//! arm of [`PipelineError`] with a fixed message, and a terminal stage
//! has no action and no successor.

use vstd::prelude::*;

use crate::registry::AgentInfo;
use crate::rpc::JsonRpcRequest;
use crate::rpc::ListAgentsResult;
use crate::rpc::ParamsField;
use crate::rpc::ProcessTextParams;
use crate::rpc::RpcId;
use crate::rpc::RpcIdView;
use crate::text::dec_seq;
use crate::text::u64_to_dec;

verus! {

/// JSON body of the gateway's text endpoint: the agent asked for and
/// the user's text.
pub struct InputTextRequest {
    pub agent_id: String,
    pub user_text: String,
}

/// What the gateway returns to its client: the reply text and the
/// store-relative path of the spoken version.
pub struct AgentReplyResponse {
    pub reply_text: String,
    pub audio_url: String,
}

/// The pipeline's failure taxonomy.  `BadRequest` is the caller's
/// fault and maps to status 400 at the boundary; every other arm maps
/// to status 500.
pub enum PipelineError {
    /// Caller-supplied data missing or invalid.
    BadRequest { message: String },
    /// The agent runtime was unreachable, rejected the call, or
    /// returned unparsable data.
    UpstreamAgent { message: String },
    /// The voice provider failed, with its HTTP status where one came
    /// back.
    Speech { status: Option<u16>, message: String },
    /// The artifact write failed.
    Storage { message: String },
}

/// What came back from the voice provider's transcription endpoint.
pub enum TranscriptionOutcome {
    /// The call itself failed (connection error, timeout).
    Transport { details: String },
    /// A non-2xx status, with the body text.
    HttpError { status: u16, body: String },
    /// A 2xx body that was not valid JSON.
    Unparsable { details: String },
    /// A parsed body; a missing transcript field is deliberately kept
    /// as `None` and treated as empty text, not as a failure.
    Parsed { text: Option<String> },
}

/// What came back from the agent runtime's `process_text` call.
pub enum RpcCallOutcome {
    /// The call itself failed.
    Transport { details: String },
    /// A non-2xx status.
    HttpError { status: u16 },
    /// A 2xx body that did not parse as a result envelope (an RPC-level
    /// error object falls here too: the gateway reads results only).
    Unparsable { details: String },
    /// The reply text of a parsed result.
    Reply { reply_text: String },
}

/// What came back from the voice provider's synthesis endpoint.
pub enum SynthesisOutcome {
    /// The call itself failed.
    Transport { details: String },
    /// A non-2xx status, with the body text.
    HttpError { status: u16, body: String },
    /// A 2xx answer whose audio bytes could not be read.
    BodyUnread { details: String },
    /// The synthesized audio.
    Audio { bytes: Vec<u8> },
}

/// What the artifact store reported for the write.
pub enum StoreOutcome {
    /// The bytes were written under `name`.
    Stored { name: String },
    /// The file could not be created.
    CreateFailed { details: String },
    /// The file was created but the bytes could not be written.
    WriteFailed { details: String },
}

/// The result of the one outside call a stage demanded.
pub enum FlowEvent {
    TranscriptionDone(TranscriptionOutcome),
    RpcDone(RpcCallOutcome),
    SynthesisDone(SynthesisOutcome),
    StoreDone(StoreOutcome),
}

/// One stage of a flow.  The four `Need` stages each name the one
/// outside call to perform next; `Done` and `Failed` are terminal.
pub enum FlowStage {
    /// Transcribe `audio` (with `filename` as the upload's name hint)
    /// before anything else.
    NeedTranscription { audio: Vec<u8>, filename: String, agent_id: String },
    /// Call the agent runtime's `process_text` with these parameters.
    NeedRpc { agent_id: String, user_text: String },
    /// Synthesize speech for the runtime's reply.
    NeedSynthesis { reply_text: String },
    /// Write the synthesized bytes to the artifact store under a fresh
    /// unique name.
    NeedStore { reply_text: String, audio: Vec<u8> },
    /// The flow succeeded.
    Done { reply: AgentReplyResponse },
    /// The flow failed; no further call is made.
    Failed { error: PipelineError },
}

/// The outside calls a stage can demand.
pub enum ActionKind {
    Transcribe,
    CallAgent,
    Synthesize,
    Store,
}

/// The one outside call `stage` demands, `None` for a terminal stage.
pub open spec fn stage_action(stage: FlowStage) -> Option<ActionKind> {
    match stage {
        FlowStage::NeedTranscription { .. } => Some(ActionKind::Transcribe),
        FlowStage::NeedRpc { .. } => Some(ActionKind::CallAgent),
        FlowStage::NeedSynthesis { .. } => Some(ActionKind::Synthesize),
        FlowStage::NeedStore { .. } => Some(ActionKind::Store),
        FlowStage::Done { .. } => None,
        FlowStage::Failed { .. } => None,
    }
}

/// The event kind answers the stage's demanded action.
pub open spec fn event_matches(stage: FlowStage, event: FlowEvent) -> bool {
    match stage {
        FlowStage::NeedTranscription { .. } => event matches FlowEvent::TranscriptionDone(_),
        FlowStage::NeedRpc { .. } => event matches FlowEvent::RpcDone(_),
        FlowStage::NeedSynthesis { .. } => event matches FlowEvent::SynthesisDone(_),
        FlowStage::NeedStore { .. } => event matches FlowEvent::StoreDone(_),
        FlowStage::Done { .. } => false,
        FlowStage::Failed { .. } => false,
    }
}

/// The boundary's error body for a transcription rejection: the
/// provider's status and its body text.
pub open spec fn stt_http_message(status: u16, body: Seq<char>) -> Seq<char> {
    "Error from STT service (status "@ + dec_seq(status as nat) + "): "@ + body
}

/// The boundary's error body for a synthesis rejection: the provider's
/// status and its body text.
pub open spec fn tts_http_message(status: u16, body: Seq<char>) -> Seq<char> {
    "Error from TTS service (status "@ + dec_seq(status as nat) + "): "@ + body
}

/// `post` failed with a speech error of this status and message.
pub open spec fn failed_speech(post: FlowStage, status: Option<u16>, message: Seq<char>) -> bool {
    &&& post matches FlowStage::Failed { error }
    &&& error matches PipelineError::Speech { status: s, message: m }
    &&& s == status
    &&& m@ == message
}

/// `post` failed with an upstream-agent error of this message.
pub open spec fn failed_upstream(post: FlowStage, message: Seq<char>) -> bool {
    &&& post matches FlowStage::Failed { error }
    &&& error matches PipelineError::UpstreamAgent { message: m }
    &&& m@ == message
}

/// `post` failed with a storage error of this message.
pub open spec fn failed_storage(post: FlowStage, message: Seq<char>) -> bool {
    &&& post matches FlowStage::Failed { error }
    &&& error matches PipelineError::Storage { message: m }
    &&& m@ == message
}

/// `post` failed with a bad-request error of this message.
pub open spec fn failed_bad_request(post: FlowStage, message: Seq<char>) -> bool {
    &&& post matches FlowStage::Failed { error }
    &&& error matches PipelineError::BadRequest { message: m }
    &&& m@ == message
}

/// The transition relation of the pipeline: from `pre`, on `event`,
/// the flow moves to exactly `post`.  Terminal stages have no
/// transition at all.
pub open spec fn flow_transition(pre: FlowStage, event: FlowEvent, post: FlowStage) -> bool {
    match pre {
        FlowStage::NeedTranscription { agent_id, .. } => {
            &&& event matches FlowEvent::TranscriptionDone(out)
            &&& match out {
                TranscriptionOutcome::Transport { .. } => failed_speech(
                    post,
                    None,
                    "Failed to call STT service"@,
                ),
                TranscriptionOutcome::HttpError { status, body } => failed_speech(
                    post,
                    Some(status),
                    stt_http_message(status, body@),
                ),
                TranscriptionOutcome::Unparsable { .. } => failed_speech(
                    post,
                    None,
                    "Failed to parse STT response"@,
                ),
                TranscriptionOutcome::Parsed { text } => {
                    &&& post matches FlowStage::NeedRpc { agent_id: a, user_text: u }
                    &&& a@ == agent_id@
                    &&& u@ == match text {
                        Some(t) => t@,
                        None => Seq::<char>::empty(),
                    }
                },
            }
        },
        FlowStage::NeedRpc { .. } => {
            &&& event matches FlowEvent::RpcDone(out)
            &&& match out {
                RpcCallOutcome::Transport { .. } => failed_upstream(
                    post,
                    "Failed to call MCP service"@,
                ),
                RpcCallOutcome::HttpError { .. } => failed_upstream(
                    post,
                    "Error from MCP service"@,
                ),
                RpcCallOutcome::Unparsable { .. } => failed_upstream(
                    post,
                    "Error parsing MCP response"@,
                ),
                RpcCallOutcome::Reply { reply_text } => {
                    &&& post matches FlowStage::NeedSynthesis { reply_text: r }
                    &&& r@ == reply_text@
                },
            }
        },
        FlowStage::NeedSynthesis { reply_text } => {
            &&& event matches FlowEvent::SynthesisDone(out)
            &&& match out {
                SynthesisOutcome::Transport { .. } => failed_speech(
                    post,
                    None,
                    "Failed to call TTS service"@,
                ),
                SynthesisOutcome::HttpError { status, body } => failed_speech(
                    post,
                    Some(status),
                    tts_http_message(status, body@),
                ),
                SynthesisOutcome::BodyUnread { .. } => failed_speech(
                    post,
                    None,
                    "Failed to read TTS audio"@,
                ),
                SynthesisOutcome::Audio { bytes } => {
                    &&& post matches FlowStage::NeedStore { reply_text: r, audio: b }
                    &&& r@ == reply_text@
                    &&& b@ == bytes@
                },
            }
        },
        FlowStage::NeedStore { reply_text, .. } => {
            &&& event matches FlowEvent::StoreDone(out)
            &&& match out {
                StoreOutcome::Stored { name } => {
                    &&& post matches FlowStage::Done { reply }
                    &&& reply.reply_text@ == reply_text@
                    &&& reply.audio_url@ == "/public/audio/"@ + name@
                },
                StoreOutcome::CreateFailed { .. } => failed_storage(
                    post,
                    "Failed to create audio file"@,
                ),
                StoreOutcome::WriteFailed { .. } => failed_storage(
                    post,
                    "Failed to save audio file"@,
                ),
            }
        },
        FlowStage::Done { .. } => false,
        FlowStage::Failed { .. } => false,
    }
}

/// Starts a text flow: the first and only first call is the remote
/// `process_text`.
pub fn text_flow_start(req: InputTextRequest) -> (stage: FlowStage)
    ensures
        stage matches FlowStage::NeedRpc { agent_id, user_text } && agent_id@ == req.agent_id@
            && user_text@ == req.user_text@,
        stage_action(stage) == Some(ActionKind::CallAgent),
{
    FlowStage::NeedRpc { agent_id: req.agent_id, user_text: req.user_text }
}

/// Starts an audio flow from the multipart fields the boundary found.
/// With either the audio part or the agent id missing, the flow fails
/// as a bad request at once, demanding no outside call; otherwise the
/// first call is the transcription, with `"audio.mp3"` standing in for
/// a missing filename hint.
pub fn audio_flow_start(
    audio: Option<Vec<u8>>,
    filename: Option<String>,
    agent_id: Option<String>,
) -> (stage: FlowStage)
    ensures
        audio is Some && agent_id is Some ==> {
            &&& stage matches FlowStage::NeedTranscription { audio: b, filename: f, agent_id: a }
            &&& b@ == audio->0@
            &&& a@ == agent_id->0@
            &&& f@ == match filename {
                Some(h) => h@,
                None => "audio.mp3"@,
            }
            &&& stage_action(stage) == Some(ActionKind::Transcribe)
        },
        audio is None || agent_id is None ==> {
            &&& failed_bad_request(stage, "Missing 'audio_file' or 'agent_id'"@)
            &&& stage_action(stage) is None
        },
{
    match (audio, agent_id) {
        (Some(bytes), Some(id)) => {
            let hint = match filename {
                Some(h) => h,
                None => "audio.mp3".to_owned(),
            };
            FlowStage::NeedTranscription { audio: bytes, filename: hint, agent_id: id }
        }
        _ => FlowStage::Failed {
            error: PipelineError::BadRequest {
                message: "Missing 'audio_file' or 'agent_id'".to_owned(),
            },
        },
    }
}

/// Moves the flow one stage on: takes the result of the one call the
/// current stage demanded and returns the next stage, exactly as
/// [`flow_transition`] states it.
pub fn advance(stage: FlowStage, event: FlowEvent) -> (next: FlowStage)
    requires
        event_matches(stage, event),
    ensures
        flow_transition(stage, event, next),
{
    match stage {
        FlowStage::NeedTranscription { agent_id, .. } => {
            let out = match event {
                FlowEvent::TranscriptionDone(out) => out,
                _ => unreached(),
            };
            match out {
                TranscriptionOutcome::Transport { .. } => FlowStage::Failed {
                    error: PipelineError::Speech {
                        status: None,
                        message: "Failed to call STT service".to_owned(),
                    },
                },
                TranscriptionOutcome::HttpError { status, body } => FlowStage::Failed {
                    error: PipelineError::Speech {
                        status: Some(status),
                        message: stt_http_text(status, body),
                    },
                },
                TranscriptionOutcome::Unparsable { .. } => FlowStage::Failed {
                    error: PipelineError::Speech {
                        status: None,
                        message: "Failed to parse STT response".to_owned(),
                    },
                },
                TranscriptionOutcome::Parsed { text } => {
                    let user_text = match text {
                        Some(t) => t,
                        None => String::new(),
                    };
                    FlowStage::NeedRpc { agent_id, user_text }
                }
            }
        }
        FlowStage::NeedRpc { .. } => {
            let out = match event {
                FlowEvent::RpcDone(out) => out,
                _ => unreached(),
            };
            match out {
                RpcCallOutcome::Transport { .. } => FlowStage::Failed {
                    error: PipelineError::UpstreamAgent {
                        message: "Failed to call MCP service".to_owned(),
                    },
                },
                RpcCallOutcome::HttpError { .. } => FlowStage::Failed {
                    error: PipelineError::UpstreamAgent {
                        message: "Error from MCP service".to_owned(),
                    },
                },
                RpcCallOutcome::Unparsable { .. } => FlowStage::Failed {
                    error: PipelineError::UpstreamAgent {
                        message: "Error parsing MCP response".to_owned(),
                    },
                },
                RpcCallOutcome::Reply { reply_text } => FlowStage::NeedSynthesis { reply_text },
            }
        }
        FlowStage::NeedSynthesis { reply_text } => {
            let out = match event {
                FlowEvent::SynthesisDone(out) => out,
                _ => unreached(),
            };
            match out {
                SynthesisOutcome::Transport { .. } => FlowStage::Failed {
                    error: PipelineError::Speech {
                        status: None,
                        message: "Failed to call TTS service".to_owned(),
                    },
                },
                SynthesisOutcome::HttpError { status, body } => FlowStage::Failed {
                    error: PipelineError::Speech {
                        status: Some(status),
                        message: tts_http_text(status, body),
                    },
                },
                SynthesisOutcome::BodyUnread { .. } => FlowStage::Failed {
                    error: PipelineError::Speech {
                        status: None,
                        message: "Failed to read TTS audio".to_owned(),
                    },
                },
                SynthesisOutcome::Audio { bytes } => FlowStage::NeedStore {
                    reply_text,
                    audio: bytes,
                },
            }
        }
        FlowStage::NeedStore { reply_text, .. } => {
            let out = match event {
                FlowEvent::StoreDone(out) => out,
                _ => unreached(),
            };
            match out {
                StoreOutcome::Stored { name } => {
                    let audio_url = "/public/audio/".to_owned().concat(name.as_str());
                    FlowStage::Done { reply: AgentReplyResponse { reply_text, audio_url } }
                }
                StoreOutcome::CreateFailed { .. } => FlowStage::Failed {
                    error: PipelineError::Storage {
                        message: "Failed to create audio file".to_owned(),
                    },
                },
                StoreOutcome::WriteFailed { .. } => FlowStage::Failed {
                    error: PipelineError::Storage {
                        message: "Failed to save audio file".to_owned(),
                    },
                },
            }
        }
        FlowStage::Done { .. } => unreached(),
        FlowStage::Failed { .. } => unreached(),
    }
}

fn stt_http_text(status: u16, body: String) -> (m: String)
    ensures
        m@ == stt_http_message(status, body@),
{
    "Error from STT service (status ".to_owned().concat(u64_to_dec(status as u64).as_str()).concat(
        "): ",
    ).concat(body.as_str())
}

fn tts_http_text(status: u16, body: String) -> (m: String)
    ensures
        m@ == tts_http_message(status, body@),
{
    "Error from TTS service (status ".to_owned().concat(u64_to_dec(status as u64).as_str()).concat(
        "): ",
    ).concat(body.as_str())
}

/// The boundary status a pipeline error maps to: 400 for the caller's
/// fault, 500 for everything else.
pub fn pipeline_error_status(error: &PipelineError) -> (code: u16)
    ensures
        error is BadRequest ==> code == 400,
        error !is BadRequest ==> code == 500,
{
    match error {
        PipelineError::BadRequest { .. } => 400,
        _ => 500,
    }
}

/// Relies on `uuid::Uuid::new_v4` and its `Display` impl: a freshly
/// generated random identifier in hyphenated textual form, which is
/// exactly 36 characters.  The value is random, so nothing more is
/// stated of it.
#[verifier::external_body]
fn fresh_unique_id() -> (r: String)
    ensures
        r@.len() == 36,
{
    uuid::Uuid::new_v4().to_string()
}

/// A fresh name for a stored audio artifact: a unique random
/// identifier followed by the fixed audio extension.
pub fn artifact_filename() -> (name: String)
    ensures
        name@.len() == 40,
        name@.subrange(36, 40) == ".mp3"@,
{
    let id = fresh_unique_id();
    let name = id.concat(".mp3");
    proof {
        reveal_strlit(".mp3");
        assert(name@.subrange(36, 40) =~= ".mp3"@);
    }
    name
}

/// Builds the gateway's outbound `process_text` envelope: protocol
/// version `"2.0"`, correlation id 1, and exactly the given agent and
/// text as parameters — the gateway never sends conversation history.
pub fn build_process_text_call(agent_id: String, user_text: String) -> (req: JsonRpcRequest)
    ensures
        req.jsonrpc@ == "2.0"@,
        req.method@ == "process_text"@,
        req.id@ == RpcIdView::Number(1),
        req.params matches ParamsField::Valid(p) && p.agent_id@ == agent_id@ && p.user_text@
            == user_text@ && p.conversation_history is None,
{
    JsonRpcRequest {
        jsonrpc: "2.0".to_owned(),
        method: "process_text".to_owned(),
        params: ParamsField::Valid(
            ProcessTextParams { agent_id, user_text, conversation_history: None },
        ),
        id: RpcId::Number(1),
    }
}

/// Builds the gateway's outbound `list_agents` envelope.
pub fn build_list_agents_call() -> (req: JsonRpcRequest)
    ensures
        req.jsonrpc@ == "2.0"@,
        req.method@ == "list_agents"@,
        req.id@ == RpcIdView::Number(1),
        req.params is Absent,
{
    JsonRpcRequest {
        jsonrpc: "2.0".to_owned(),
        method: "list_agents".to_owned(),
        params: ParamsField::Absent,
        id: RpcId::Number(1),
    }
}

/// What came back from the gateway's `list_agents` call.
pub enum AgentsCallOutcome {
    /// The call itself failed.
    Transport { details: String },
    /// A non-2xx status.
    HttpError { status: u16 },
    /// A 2xx body that did not parse as a result envelope.
    Unparsable { details: String },
    /// The listing of a parsed result.
    Parsed { result: ListAgentsResult },
}

/// Turns the outcome of the `list_agents` call into the gateway's
/// answer: the listing on success, else status 500 with a fixed
/// message.
pub fn interpret_agents_reply(outcome: AgentsCallOutcome) -> (r: Result<
    Vec<AgentInfo>,
    (u16, String),
>)
    ensures
        outcome matches AgentsCallOutcome::Parsed { result } ==> r matches Ok(v) && v@
            == result.agents@,
        outcome matches AgentsCallOutcome::Transport { details } ==> r matches Err(e) && e.0 == 500
            && e.1@ == "Failed to call MCP service"@,
        outcome matches AgentsCallOutcome::HttpError { status } ==> r matches Err(e) && e.0 == 500
            && e.1@ == "Error from MCP service"@,
        outcome matches AgentsCallOutcome::Unparsable { details } ==> r matches Err(e) && e.0
            == 500 && e.1@ == "Error parsing MCP response"@,
{
    match outcome {
        AgentsCallOutcome::Parsed { result } => Ok(result.agents),
        AgentsCallOutcome::Transport { .. } => Err(
            (500, "Failed to call MCP service".to_owned()),
        ),
        AgentsCallOutcome::HttpError { .. } => Err(
            (500, "Error from MCP service".to_owned()),
        ),
        AgentsCallOutcome::Unparsable { .. } => Err(
            (500, "Error parsing MCP response".to_owned()),
        ),
    }
}

/// Along a successful text flow the outside calls come in this exact
/// order: the remote `process_text`, then one synthesis, then one
/// store write, and then the flow is done, demanding nothing more.
/// The reply text the client receives is the one the runtime returned.
pub proof fn lemma_text_flow_call_order(
    s0: FlowStage,
    e1: FlowEvent,
    s1: FlowStage,
    e2: FlowEvent,
    s2: FlowStage,
    e3: FlowEvent,
    s3: FlowStage,
)
    requires
        s0 matches FlowStage::NeedRpc { .. },
        flow_transition(s0, e1, s1),
        e1 matches FlowEvent::RpcDone(RpcCallOutcome::Reply { .. }),
        flow_transition(s1, e2, s2),
        e2 matches FlowEvent::SynthesisDone(SynthesisOutcome::Audio { .. }),
        flow_transition(s2, e3, s3),
        e3 matches FlowEvent::StoreDone(StoreOutcome::Stored { .. }),
    ensures
        stage_action(s0) == Some(ActionKind::CallAgent),
        s1 matches FlowStage::NeedSynthesis { .. },
        stage_action(s1) == Some(ActionKind::Synthesize),
        s2 matches FlowStage::NeedStore { .. },
        stage_action(s2) == Some(ActionKind::Store),
        s3 matches FlowStage::Done { .. },
        stage_action(s3) is None,
        e1 matches FlowEvent::RpcDone(RpcCallOutcome::Reply { reply_text }) ==> (s3 matches
            FlowStage::Done { reply } && reply.reply_text@ == reply_text@),
{
}

/// Along a successful audio flow the outside calls come in this exact
/// order: one transcription, then the remote `process_text`, then one
/// synthesis, then one store write, and then the flow is done.
pub proof fn lemma_audio_flow_call_order(
    s0: FlowStage,
    e1: FlowEvent,
    s1: FlowStage,
    e2: FlowEvent,
    s2: FlowStage,
    e3: FlowEvent,
    s3: FlowStage,
    e4: FlowEvent,
    s4: FlowStage,
)
    requires
        s0 matches FlowStage::NeedTranscription { .. },
        flow_transition(s0, e1, s1),
        e1 matches FlowEvent::TranscriptionDone(TranscriptionOutcome::Parsed { .. }),
        flow_transition(s1, e2, s2),
        e2 matches FlowEvent::RpcDone(RpcCallOutcome::Reply { .. }),
        flow_transition(s2, e3, s3),
        e3 matches FlowEvent::SynthesisDone(SynthesisOutcome::Audio { .. }),
        flow_transition(s3, e4, s4),
        e4 matches FlowEvent::StoreDone(StoreOutcome::Stored { .. }),
    ensures
        stage_action(s0) == Some(ActionKind::Transcribe),
        s1 matches FlowStage::NeedRpc { .. },
        stage_action(s1) == Some(ActionKind::CallAgent),
        s2 matches FlowStage::NeedSynthesis { .. },
        stage_action(s2) == Some(ActionKind::Synthesize),
        s3 matches FlowStage::NeedStore { .. },
        stage_action(s3) == Some(ActionKind::Store),
        s4 matches FlowStage::Done { .. },
        stage_action(s4) is None,
{
}

/// A failed flow is inert: it demands no outside call and has no
/// successor stage, so a flow that failed (a bad request among them)
/// issues no network call at all.
pub proof fn lemma_failed_flow_inert(stage: FlowStage)
    requires
        stage matches FlowStage::Failed { .. },
    ensures
        stage_action(stage) is None,
        forall|event: FlowEvent, post: FlowStage| !flow_transition(stage, event, post),
{
}

} // verus!

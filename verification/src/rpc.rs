//! The JSON-RPC envelope model: requests, responses, error objects, and
//! the typed parameter payloads of the two supported methods.
//!
//! The unverified boundary parses a raw JSON body into these types before
//! any decision is taken, and serializes them back afterwards; everything
//! between those two points is verified.

use vstd::prelude::*;

use crate::registry::Agent;
use crate::registry::AgentInfo;

verus! {

/// Spec-level image of an [`RpcId`].
pub enum RpcIdView {
    Number(int),
    Text(Seq<char>),
    Null,
    Raw(Seq<char>),
}

/// The correlation identifier of an envelope.  JSON-RPC allows a number,
/// a string or null; any other JSON value the boundary carries through
/// verbatim as its serialized text, so a response can echo it unchanged.
pub enum RpcId {
    Number(i64),
    Text(String),
    Null,
    Raw(String),
}

impl View for RpcId {
    type V = RpcIdView;

    open spec fn view(&self) -> RpcIdView {
        match self {
            RpcId::Number(n) => RpcIdView::Number(*n as int),
            RpcId::Text(s) => RpcIdView::Text(s@),
            RpcId::Null => RpcIdView::Null,
            RpcId::Raw(s) => RpcIdView::Raw(s@),
        }
    }
}

/// Spec-level image of a [`Message`].
pub struct MessageView {
    pub role: Seq<char>,
    pub content: Seq<char>,
}

/// One prior turn of a conversation, oldest first, as the caller of
/// `process_text` may supply it: a role (`"user"` or `"assistant"`;
/// anything else is ignored) and its text.
pub struct Message {
    pub role: String,
    pub content: String,
}

impl View for Message {
    type V = MessageView;

    open spec fn view(&self) -> MessageView {
        MessageView { role: self.role@, content: self.content@ }
    }
}

/// Typed parameters of the `process_text` method.
pub struct ProcessTextParams {
    /// Identifier of the agent that is to answer.
    pub agent_id: String,
    /// The user's new input.
    pub user_text: String,
    /// Optional prior turns, oldest first; the caller owns history.
    pub conversation_history: Option<Vec<Message>>,
}

/// What the boundary found in the envelope's `params` field: nothing,
/// a payload that parsed into [`ProcessTextParams`], or a payload that
/// did not, with the parse failure's text.
pub enum ParamsField {
    Absent,
    Valid(ProcessTextParams),
    Invalid(String),
}

/// A JSON-RPC request envelope, already lifted out of raw JSON.
pub struct JsonRpcRequest {
    /// Protocol version field; only `"2.0"` is valid.
    pub jsonrpc: String,
    /// Name of the method called.
    pub method: String,
    /// The `params` field, parsed as far as the boundary could.
    pub params: ParamsField,
    /// Correlation identifier, echoed in the response.
    pub id: RpcId,
}

/// Extra diagnostic data attached to a JSON-RPC error object.
pub enum ErrorData {
    /// A free-form failure description (transport failures and the like).
    Details { details: String },
    /// The generative provider rejected the call: its HTTP status and body.
    Provider { status: u16, body: String },
    /// The provider's body failed schema parsing: the failure text and the
    /// raw body.
    Parse { details: String, raw: String },
}

/// A JSON-RPC error object.
pub struct JsonRpcError {
    pub code: i32,
    pub message: String,
    pub data: Option<ErrorData>,
}

/// Metadata returned with every successful `process_text` result.
pub struct ProcessingMetadata {
    /// The model that produced the reply.
    pub model: String,
    /// Total tokens the provider reported, when it reported any.
    pub tokens_used: Option<u32>,
    /// Wall-clock time of the provider call, in milliseconds.
    pub processing_time_ms: u64,
    /// Confidence score in hundredths (95 stands for 0.95), kept as an
    /// integer; the boundary divides by 100 where a fraction is wanted.
    pub confidence_hundredths: u32,
}

/// Result payload of a successful `process_text` call.
pub struct ProcessTextResult {
    pub agent_id: String,
    pub reply_text: String,
    pub metadata: ProcessingMetadata,
}

/// Result payload of a successful `list_agents` call, as the gateway
/// reads it back: display metadata only.
pub struct ListAgentsResult {
    pub agents: Vec<AgentInfo>,
}

/// The result of one of the two methods, tagged by method.
pub enum RpcResultBody {
    /// `list_agents`: the full registry table.
    Agents(Vec<Agent>),
    /// `process_text`: the reply and its metadata.
    Text(ProcessTextResult),
}

/// A JSON-RPC response envelope.
pub struct JsonRpcResponse {
    /// Protocol version field; always `"2.0"`.
    pub jsonrpc: String,
    /// The result, present exactly on success.
    pub result: Option<RpcResultBody>,
    /// The error object, present exactly on failure.
    pub error: Option<JsonRpcError>,
    /// Correlation identifier of the request answered.
    pub id: RpcId,
}

impl JsonRpcResponse {
    /// A well-formed response names protocol version `"2.0"` and carries
    /// exactly one of `result` and `error`.
    pub open spec fn wf(&self) -> bool {
        &&& self.jsonrpc@ == "2.0"@
        &&& (self.result is Some) != (self.error is Some)
    }
}

} // verus!

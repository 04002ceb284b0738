//! Sampling requests of a peer: what the user is shown, the queue of
//! requests awaiting a verdict, and the reply each verdict gives the peer.
use vstd::prelude::*;
use vstd::string::*;

use crate::json::{json_str, keys_of, text_member, Json, ObjectBuilder};
use crate::rpc::{
    error_response, is_error_response, jsonrpc_version, JsonRpcResponse, INTERNAL_ERROR,
    METHOD_NOT_FOUND, USER_REJECTED,
};
use crate::text::{concat, push_decimal, push_text, decimal};

verus! {

#[derive(Debug, Clone)]
pub enum SamplingContent {
    Text { text: String },
    Image { data: String, mime_type: String },
}

#[derive(Debug, Clone)]
pub struct SamplingMessage {
    pub role: String,
    pub content: SamplingContent,
}

#[derive(Debug, Clone)]
pub struct ModelHint {
    pub name: String,
}

/// A `sampling/createMessage` request as the client reads it. The model
/// preferences and the metadata are kept as the JSON the peer sent; the
/// temperature is kept as the decimal text it was written in.
#[derive(Debug)]
pub struct SamplingRequest {
    pub messages: Vec<SamplingMessage>,
    pub model_preferences: Option<Json>,
    pub system_prompt: Option<String>,
    pub include_context: Option<String>,
    pub temperature: Option<String>,
    pub max_tokens: Option<u32>,
    pub stop_sequences: Option<Vec<String>>,
    pub metadata: Option<Json>,
}

#[derive(Debug)]
pub struct SamplingResponse {
    pub role: String,
    pub content: SamplingContent,
    pub model: String,
    pub stop_reason: String,
}

/// The text a message contributes to the prompt shown for approval.
pub open spec fn message_text(m: SamplingMessage) -> Seq<char> {
    match m.content {
        SamplingContent::Text { text } => text@,
        SamplingContent::Image { .. } => "[Image content]"@,
    }
}

/// The texts of the messages, one per line.
pub open spec fn prompt_text(ms: Seq<SamplingMessage>) -> Seq<char>
    decreases ms.len(),
{
    if ms.len() == 0 {
        Seq::empty()
    } else if ms.len() == 1 {
        message_text(ms[0])
    } else {
        prompt_text(ms.drop_last()) + seq!['\n'] + message_text(ms.last())
    }
}

/// The prompt of a sampling request: its messages' texts joined by line
/// breaks, an image standing as `[Image content]`.
pub fn prompt_content(messages: &Vec<SamplingMessage>) -> (r: String)
    ensures
        r@ == prompt_text(messages@),
{
    let mut out = String::new();
    let mut i: usize = 0;
    while i < messages.len()
        invariant
            i <= messages.len(),
            out@ == prompt_text(messages@.take(i as int)),
        decreases messages.len() - i,
    {
        if i > 0 {
            out.push('\n');
        }
        match &messages[i].content {
            SamplingContent::Text { text } => push_text(&mut out, text.as_str()),
            SamplingContent::Image { .. } => push_text(&mut out, "[Image content]"),
        }
        proof {
            let t = messages@.take(i + 1);
            assert(t.drop_last() =~= messages@.take(i as int));
            assert(t.last() == messages@[i as int]);
            assert(out@ =~= prompt_text(t));
        }
        i = i + 1;
    }
    assert(messages@.take(messages.len() as int) =~= messages@);
    out
}

/// A sampling request waiting for the user's verdict.
#[derive(Debug)]
pub struct PendingSamplingRequest {
    pub server_name: String,
    pub prompt_content: String,
    pub system_prompt: Option<String>,
    pub model_preferences: Option<Json>,
    pub max_tokens: Option<u32>,
    pub include_context: Option<String>,
    pub temperature: Option<String>,
    pub stop_sequences: Option<Vec<String>>,
    pub metadata: Option<Json>,
    pub approved: bool,
}

/// `s` cut to its first `n` characters, with `...` where something was cut.
pub open spec fn shortened(s: Seq<char>, n: nat) -> Seq<char> {
    if s.len() > n {
        s.take(n as int) + "..."@
    } else {
        s
    }
}

pub open spec fn description_text(p: PendingSamplingRequest) -> Seq<char> {
    let head = "MCP Server '"@ + p.server_name@ + "' wants to make an LLM call"@;
    let system = match p.system_prompt {
        Some(sp) => "\nSystem prompt: "@ + shortened(sp@, 100),
        None => Seq::empty(),
    };
    let prompt = "\nPrompt: "@ + shortened(p.prompt_content@, 200);
    let max = match p.max_tokens {
        Some(m) => "\nMax tokens: "@ + decimal(m as nat),
        None => Seq::empty(),
    };
    let temp = match p.temperature {
        Some(t) => "\nTemperature: "@ + t@,
        None => Seq::empty(),
    };
    head + system + prompt + max + temp
}

fn push_shortened(out: &mut String, s: &str, n: usize)
    ensures
        final(out)@ == old(out)@ + shortened(s@, n as nat),
{
    let len = s.unicode_len();
    if len > n {
        push_text(out, s.substring_char(0, n));
        push_text(out, "...");
    } else {
        push_text(out, s);
    }
}

impl PendingSamplingRequest {
    pub fn new(
        server_name: String,
        prompt_content: String,
        system_prompt: Option<String>,
        model_preferences: Option<Json>,
        max_tokens: Option<u32>,
        include_context: Option<String>,
        temperature: Option<String>,
        stop_sequences: Option<Vec<String>>,
        metadata: Option<Json>,
    ) -> (r: Self)
        ensures
            r.server_name == server_name,
            r.prompt_content == prompt_content,
            r.system_prompt == system_prompt,
            r.model_preferences == model_preferences,
            r.max_tokens == max_tokens,
            r.include_context == include_context,
            r.temperature == temperature,
            r.stop_sequences == stop_sequences,
            r.metadata == metadata,
            !r.approved,
    {
        PendingSamplingRequest {
            server_name,
            prompt_content,
            system_prompt,
            model_preferences,
            max_tokens,
            include_context,
            temperature,
            stop_sequences,
            metadata,
            approved: false,
        }
    }

    /// The request as the peer `server_name` made it, awaiting approval.
    pub fn from_request(server_name: String, request: SamplingRequest) -> (r: Self)
        ensures
            r.server_name == server_name,
            r.prompt_content@ == prompt_text(request.messages@),
            r.system_prompt == request.system_prompt,
            r.max_tokens == request.max_tokens,
            r.temperature == request.temperature,
            r.include_context == request.include_context,
            r.model_preferences == request.model_preferences,
            r.stop_sequences == request.stop_sequences,
            r.metadata == request.metadata,
            !r.approved,
    {
        let prompt = prompt_content(&request.messages);
        PendingSamplingRequest::new(
            server_name,
            prompt,
            request.system_prompt,
            request.model_preferences,
            request.max_tokens,
            request.include_context,
            request.temperature,
            request.stop_sequences,
            request.metadata,
        )
    }

    /// What the user is shown when asked to approve the request.
    pub fn get_description(&self) -> (r: String)
        ensures
            r@ == description_text(*self),
    {
        let mut desc = concat("MCP Server '", self.server_name.as_str());
        push_text(&mut desc, "' wants to make an LLM call");
        if let Some(sp) = &self.system_prompt {
            push_text(&mut desc, "\nSystem prompt: ");
            push_shortened(&mut desc, sp.as_str(), 100);
        }
        push_text(&mut desc, "\nPrompt: ");
        push_shortened(&mut desc, self.prompt_content.as_str(), 200);
        if let Some(m) = self.max_tokens {
            push_text(&mut desc, "\nMax tokens: ");
            push_decimal(&mut desc, m);
        }
        if let Some(t) = &self.temperature {
            push_text(&mut desc, "\nTemperature: ");
            push_text(&mut desc, t.as_str());
        }
        assert(desc@ =~= description_text(*self));
        desc
    }

    /// Whether the user must approve requests of this peer: only peers
    /// outside `trusted_servers` need it.
    pub fn requires_approval(&self, trusted_servers: &[String]) -> (r: bool)
        ensures
            r == !(exists|i: int|
                0 <= i < trusted_servers@.len() && #[trigger] trusted_servers@[i]@
                    == self.server_name@),
    {
        let mut i: usize = 0;
        while i < trusted_servers.len()
            invariant
                i <= trusted_servers@.len(),
                forall|j: int| 0 <= j < i ==> #[trigger] trusted_servers@[j]@ != self.server_name@,
            decreases trusted_servers.len() - i,
        {
            if trusted_servers[i] == self.server_name {
                return false;
            }
            i = i + 1;
        }
        true
    }
}

/// The user's verdict on a sampling request.
#[derive(Debug)]
pub struct SamplingApprovalResult {
    pub approved: bool,
    pub modified_prompt: Option<String>,
    pub error_message: Option<String>,
}

impl SamplingApprovalResult {
    pub fn approved() -> (r: Self)
        ensures
            r.approved,
            r.modified_prompt is None,
            r.error_message is None,
    {
        SamplingApprovalResult { approved: true, modified_prompt: None, error_message: None }
    }

    pub fn rejected(reason: String) -> (r: Self)
        ensures
            !r.approved,
            r.modified_prompt is None,
            r.error_message == Some(reason),
    {
        SamplingApprovalResult { approved: false, modified_prompt: None, error_message: Some(reason) }
    }
}

/// The answer sent for an approved request, until the call to the model is
/// relayed.
pub fn approved_response() -> (r: SamplingResponse)
    ensures
        r.role@ == "assistant"@,
        r.model@ == "placeholder"@,
        r.stop_reason@ == "endTurn"@,
        r.content is Text,
{
    SamplingResponse {
        role: "assistant".to_owned(),
        content: SamplingContent::Text {
            text: "Sampling request was approved but LLM call implementation is pending".to_owned(),
        },
        model: "placeholder".to_owned(),
        stop_reason: "endTurn".to_owned(),
    }
}

/// `j` is the JSON object of `c`, tagged by `type`.
pub open spec fn content_json(c: SamplingContent, j: Json) -> bool {
    &&& j is Object
    &&& match c {
        SamplingContent::Text { text } => {
            &&& keys_of(j->Object_0@) == seq!["type"@, "text"@]
            &&& text_member(j, "type"@) == Some("text"@)
            &&& text_member(j, "text"@) == Some(text@)
        },
        SamplingContent::Image { data, mime_type } => {
            &&& keys_of(j->Object_0@) == seq!["type"@, "data"@, "mime_type"@]
            &&& text_member(j, "type"@) == Some("image"@)
            &&& text_member(j, "data"@) == Some(data@)
            &&& text_member(j, "mime_type"@) == Some(mime_type@)
        },
    }
}

/// `j` is the JSON object of `r`: exactly the members `role`, `content`,
/// `model` and `stopReason`, in camel case.
pub open spec fn response_json(r: SamplingResponse, j: Json) -> bool {
    &&& j is Object
    &&& keys_of(j->Object_0@) == seq!["role"@, "content"@, "model"@, "stopReason"@]
    &&& text_member(j, "role"@) == Some(r.role@)
    &&& text_member(j, "model"@) == Some(r.model@)
    &&& text_member(j, "stopReason"@) == Some(r.stop_reason@)
    &&& j.get_spec("content"@) matches Some(c) && content_json(r.content, c)
}

impl SamplingContent {
    /// The content as a JSON object tagged by `type`.
    pub fn to_json(&self) -> (r: Json)
        ensures
            content_json(*self, r),
    {
        proof {
            reveal_strlit("type");
            reveal_strlit("text");
            reveal_strlit("data");
            reveal_strlit("mime_type");
            reveal_strlit("image");
            assert("type"@.len() == 4 && "text"@.len() == 4 && "data"@.len() == 4);
            assert("mime_type"@.len() == 9);
            assert("type"@[1] == 'y' && "text"@[1] == 'e' && "data"@[1] == 'a');
        }
        let mut members = ObjectBuilder::new();
        match self {
            SamplingContent::Text { text } => {
                members.push("type", json_str("text"));
                members.push("text", json_str(text.as_str()));
            },
            SamplingContent::Image { data, mime_type } => {
                members.push("type", json_str("image"));
                members.push("data", json_str(data.as_str()));
                members.push("mime_type", json_str(mime_type.as_str()));
            },
        }
        assert(keys_of(members.keys@) =~= match *self {
            SamplingContent::Text { .. } => seq!["type"@, "text"@],
            SamplingContent::Image { .. } => seq!["type"@, "data"@, "mime_type"@],
        });
        members.build()
    }
}

impl SamplingResponse {
    /// The response as a JSON object, its members named in camel case.
    pub fn to_json(&self) -> (r: Json)
        ensures
            response_json(*self, r),
    {
        proof {
            reveal_strlit("role");
            reveal_strlit("content");
            reveal_strlit("model");
            reveal_strlit("stopReason");
            assert("role"@.len() == 4 && "content"@.len() == 7 && "model"@.len() == 5);
            assert("stopReason"@.len() == 10);
        }
        let mut members = ObjectBuilder::new();
        members.push("role", json_str(self.role.as_str()));
        members.push("content", self.content.to_json());
        members.push("model", json_str(self.model.as_str()));
        members.push("stopReason", json_str(self.stop_reason.as_str()));
        assert(keys_of(members.keys@) =~= seq!["role"@, "content"@, "model"@, "stopReason"@]);
        members.build()
    }
}

pub open spec fn rejection_reason(v: SamplingApprovalResult) -> Seq<char> {
    match v.error_message {
        Some(m) => m@,
        None => "User rejected sampling request"@,
    }
}

/// The reply to the sampling request `id` once its verdict is in; `None`
/// stands for a verdict slot dropped without a verdict, which counts as a
/// rejection because the channel closed.
pub fn sampling_reply(id: u64, verdict: Option<SamplingApprovalResult>) -> (r: JsonRpcResponse)
    ensures
        r.id == id,
        verdict is Some && verdict->Some_0.approved ==> {
            &&& r.error is None
            &&& r.result is Some
            &&& text_member(r.result->Some_0, "role"@) == Some("assistant"@)
            &&& r.result->Some_0.get_spec("content"@) matches Some(c) && text_member(c, "type"@)
                == Some("text"@)
        },
        verdict is Some && !verdict->Some_0.approved ==> is_error_response(
            r,
            id,
            USER_REJECTED,
            rejection_reason(verdict->Some_0),
        ),
        verdict is None ==> is_error_response(r, id, USER_REJECTED, "channel closed"@),
{
    match verdict {
        Some(v) => {
            if v.approved {
                JsonRpcResponse {
                    jsonrpc: jsonrpc_version(),
                    id,
                    result: Some(
                        {
                            let a = approved_response();
                            let j = a.to_json();
                            proof {
                                reveal_strlit("assistant");
                                reveal_strlit("text");
                            }
                            j
                        },
                    ),
                    error: None,
                }
            } else {
                let reason = match v.error_message {
                    Some(m) => m,
                    None => "User rejected sampling request".to_owned(),
                };
                error_response(id, USER_REJECTED, reason)
            }
        },
        None => error_response(id, USER_REJECTED, "channel closed".to_owned()),
    }
}

/// The reply when this client has no approval queue.
pub fn sampling_unsupported_reply(id: u64) -> (r: JsonRpcResponse)
    ensures
        is_error_response(
            r,
            id,
            METHOD_NOT_FOUND,
            "Sampling requests not supported in this configuration"@,
        ),
{
    error_response(id, METHOD_NOT_FOUND, "Sampling requests not supported in this configuration".to_owned())
}

/// The reply when the request could not be queued for approval.
pub fn sampling_queue_failed_reply(id: u64) -> (r: JsonRpcResponse)
    ensures
        is_error_response(r, id, INTERNAL_ERROR, "Failed to queue sampling request for approval"@),
{
    error_response(id, INTERNAL_ERROR, "Failed to queue sampling request for approval".to_owned())
}

/// The reply when handling the request failed, with the failure's text.
pub fn internal_error_reply(id: u64, detail: &str) -> (r: JsonRpcResponse)
    ensures
        is_error_response(r, id, INTERNAL_ERROR, "Internal error: "@ + detail@),
{
    error_response(id, INTERNAL_ERROR, concat("Internal error: ", detail))
}

} // verus!

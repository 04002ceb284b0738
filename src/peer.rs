//! One request in flight and its pagination, and the routing of what a peer
//! sends on its own.
use vstd::prelude::*;

use crate::json::{keys_of, object1, Json};
use crate::rpc::{
    error_response, is_error_response, request_message, ClientError, JsonRpcMessage, JsonRpcRequest,
    JsonRpcResponse, RequestTracker, METHOD_NOT_FOUND,
};
use crate::text::{ascii_lowercase, concat, copy_string, same_text};

verus! {

/// The list methods whose results come in pages.
#[derive(Debug, Clone, Copy, PartialEq, Eq, Structural)]
pub enum PaginationSupportedOps {
    ResourcesList,
    ResourceTemplatesList,
    PromptsList,
    ToolsList,
}

pub open spec fn list_op_of(method: Seq<char>) -> Option<PaginationSupportedOps> {
    if method == "resources/list"@ {
        Some(PaginationSupportedOps::ResourcesList)
    } else if method == "resources/templates/list"@ {
        Some(PaginationSupportedOps::ResourceTemplatesList)
    } else if method == "prompts/list"@ {
        Some(PaginationSupportedOps::PromptsList)
    } else if method == "tools/list"@ {
        Some(PaginationSupportedOps::ToolsList)
    } else {
        None
    }
}

impl PaginationSupportedOps {
    /// The member of a result that holds the listed items.
    pub open spec fn key_spec(self) -> Seq<char> {
        match self {
            PaginationSupportedOps::ResourcesList => "resources"@,
            PaginationSupportedOps::ResourceTemplatesList => "resourceTemplates"@,
            PaginationSupportedOps::PromptsList => "prompts"@,
            PaginationSupportedOps::ToolsList => "tools"@,
        }
    }

    pub fn from_method(method: &str) -> (r: Option<Self>)
        ensures
            r == list_op_of(method@),
    {
        if same_text(method, "resources/list") {
            Some(PaginationSupportedOps::ResourcesList)
        } else if same_text(method, "resources/templates/list") {
            Some(PaginationSupportedOps::ResourceTemplatesList)
        } else if same_text(method, "prompts/list") {
            Some(PaginationSupportedOps::PromptsList)
        } else if same_text(method, "tools/list") {
            Some(PaginationSupportedOps::ToolsList)
        } else {
            None
        }
    }

    pub fn as_key(&self) -> (r: &'static str)
        ensures
            r@ == self.key_spec(),
    {
        match self {
            PaginationSupportedOps::ResourcesList => "resources",
            PaginationSupportedOps::ResourceTemplatesList => "resourceTemplates",
            PaginationSupportedOps::PromptsList => "prompts",
            PaginationSupportedOps::ToolsList => "tools",
        }
    }
}

/// The items of every page of a list, in the order the pages came, under
/// the id of the request that asked for the list.
#[derive(Debug)]
pub struct ListResult {
    pub id: u64,
    pub key: String,
    pub items: Vec<Json>,
}

impl ListResult {
    /// The response the caller sees: one result whose member `key` holds
    /// all items, and no cursor.
    pub fn into_response(self) -> (r: JsonRpcResponse)
        ensures
            r.id == self.id,
            r.error is None,
            r.result matches Some(j) && j.get_spec(self.key@) == Some(Json::Array(self.items))
                && keys_of(j->Object_0@) == seq![self.key@],
    {
        let list = Json::Array(self.items);
        let result = object1(self.key.as_str(), list);
        JsonRpcResponse {
            jsonrpc: crate::rpc::jsonrpc_version(),
            id: self.id,
            result: Some(result),
            error: None,
        }
    }
}

/// What a request in flight asks of its caller next.
#[derive(Debug)]
pub enum CallStep {
    /// The message was not the awaited response: keep listening.
    Pending,
    /// Send this request for the next page, then keep listening.
    Send(JsonRpcRequest),
    /// The response, as the peer sent it.
    Finished(JsonRpcResponse),
    /// A paginated list, every page taken in.
    Listed(ListResult),
    Failed(ClientError),
}

/// The member `key` of a response's result.
pub open spec fn result_member(resp: JsonRpcResponse, key: Seq<char>) -> Option<Json> {
    match resp.result {
        Some(r) => r.get_spec(key),
        None => None,
    }
}

/// The cursor of the next page: a text `nextCursor`; a missing or null one
/// ends the list.
pub open spec fn cursor_of(resp: JsonRpcResponse) -> Option<Seq<char>> {
    match result_member(resp, "nextCursor"@) {
        Some(c) => c.text_spec(),
        None => None,
    }
}

/// The items a page lists under `key`.
pub open spec fn page_of(resp: JsonRpcResponse, key: Seq<char>) -> Option<Seq<Json>> {
    match result_member(resp, key) {
        Some(Json::Array(v)) => Some(v@),
        _ => None,
    }
}

/// A request sent to a peer, awaiting its response; for a list method whose
/// result carries a cursor, the pages that came so far.
pub struct RequestCall {
    pub method: String,
    pub op: Option<PaginationSupportedOps>,
    pub first_id: u64,
    pub awaiting: u64,
    pub paging: bool,
    pub items: Vec<Json>,
    pub done: bool,
    pub pages: Ghost<Seq<Seq<Json>>>,
}

impl RequestCall {
    /// The collected items are the pages' items, concatenated in order.
    pub open spec fn wf(&self) -> bool {
        &&& !self.done ==> self.items@ == self.pages@.flatten()
        &&& self.op == list_op_of(self.method@)
        &&& !self.paging ==> self.pages@.len() == 0 && self.awaiting == self.first_id
    }

    /// Sends `method`: gives it a fresh id and the call that awaits its
    /// response.
    pub fn start(tracker: &mut RequestTracker, method: &str, params: Option<Json>) -> (r: (
        RequestCall,
        JsonRpcRequest,
    ))
        requires
            old(tracker).wf(),
            old(tracker).next_id < u64::MAX,
        ensures
            final(tracker).wf(),
            r.0.wf(),
            r.1.id == old(tracker).next_id,
            r.0.awaiting == r.1.id,
            r.0.first_id == r.1.id,
            r.0.method@ == method@,
            r.1.method@ == method@,
            r.1.params == params,
            r.0.pages@.len() == 0,
            !r.0.paging,
            !r.0.done,
            final(tracker).next_id == old(tracker).next_id + 1,
            !old(tracker).ids().contains(r.1.id),
            final(tracker).ids() == old(tracker).ids().push(r.1.id),
    {
        let id = tracker.begin(method);
        let call = RequestCall {
            method: method.to_owned(),
            op: PaginationSupportedOps::from_method(method),
            first_id: id,
            awaiting: id,
            paging: false,
            items: Vec::new(),
            done: false,
            pages: Ghost(Seq::empty()),
        };
        (call, request_message(id, method, params))
    }

    /// Takes one inbound message. Only the response whose id is the awaited
    /// one moves the call on; every other message leaves it as it was. A
    /// response to a method that is not a list method, or a first page with
    /// no cursor, is the answer as it came. Otherwise the page's items are
    /// collected; a text `nextCursor` asks for the next page with it, and
    /// its absence ends the list under the first request's id.
    pub fn on_message(&mut self, tracker: &mut RequestTracker, msg: JsonRpcMessage) -> (r: CallStep)
        requires
            old(tracker).wf(),
            old(self).wf(),
            !old(self).done,
        ensures
            final(tracker).wf(),
            final(self).wf(),
            final(self).first_id == old(self).first_id,
            !(msg is Response && msg->Response_0.id == old(self).awaiting) ==> {
                &&& r is Pending
                &&& *final(self) == *old(self)
                &&& *final(tracker) == *old(tracker)
            },
            msg is Response && msg->Response_0.id == old(self).awaiting ==> {
                let resp = msg->Response_0;
                let key = old(self).op->Some_0.key_spec();
                &&& !(r is Pending)
                &&& old(self).op is None ==> r == CallStep::Finished(resp)
                &&& old(self).op is Some && !old(self).paging && cursor_of(resp) is None ==> r
                    == CallStep::Finished(resp)
                &&& old(self).op is Some && (old(self).paging || cursor_of(resp) is Some)
                    && page_of(resp, key) is None ==> r is Failed
                &&& old(self).op is Some && (old(self).paging || cursor_of(resp) is Some)
                    && page_of(resp, key) is Some ==> {
                    &&& final(self).pages@ == old(self).pages@.push(page_of(resp, key)->Some_0)
                    &&& cursor_of(resp) is None ==> r is Listed && r->Listed_0.id
                        == old(self).first_id && r->Listed_0.items@ == final(self).pages@.flatten()
                        && r->Listed_0.key@ == key
                    &&& cursor_of(resp) is Some && old(tracker).next_id < u64::MAX ==> {
                        &&& r is Send
                        &&& r->Send_0.id == old(tracker).next_id
                        &&& r->Send_0.id == final(self).awaiting
                        &&& r->Send_0.method@ == old(self).method@
                        &&& r->Send_0.params matches Some(p) && p.get_spec("cursor"@) matches Some(c)
                            && c.text_spec() == cursor_of(resp)
                        &&& !old(tracker).ids().contains(r->Send_0.id)
                    }
                }
            },
    {
        let resp = match msg {
            JsonRpcMessage::Response(resp) => resp,
            _ => {
                return CallStep::Pending;
            },
        };
        if resp.id != self.awaiting {
            return CallStep::Pending;
        }
        let _ = tracker.complete(resp.id);
        let cursor: Option<String> = match &resp.result {
            Some(result) => match result.get("nextCursor") {
                Some(c) => match c.as_text() {
                    Some(t) => Some(copy_string(t)),
                    None => None,
                },
                None => None,
            },
            None => None,
        };
        let op = match self.op {
            Some(op) => op,
            None => {
                return CallStep::Finished(resp);
            },
        };
        if !self.paging && cursor.is_none() {
            return CallStep::Finished(resp);
        }
        let key = op.as_key();
        let ghost expected = page_of(resp, key@);
        let page = match resp.result {
            Some(result) => match result.take(key) {
                Some(list) => list.into_items(),
                None => None,
            },
            None => None,
        };
        assert(page is Some <==> expected is Some);
        let mut page = match page {
            Some(p) => p,
            None => {
                return CallStep::Failed(
                    ClientError::Serialization(concat("list result without member ", key)),
                );
            },
        };
        let ghost page_view = page@;
        assert(page_view == expected->Some_0);
        self.items.append(&mut page);
        proof {
            self.pages@.lemma_flatten_push(page_view);
            self.pages@ = self.pages@.push(page_view);
        }
        self.paging = true;
        match cursor {
            None => {
                self.done = true;
                let mut all: Vec<Json> = Vec::new();
                core::mem::swap(&mut all, &mut self.items);
                CallStep::Listed(ListResult { id: self.first_id, key: key.to_owned(), items: all })
            },
            Some(c) => {
                if tracker.next_id == u64::MAX {
                    return CallStep::Failed(
                        ClientError::RuntimeError { context: self.method.as_str().to_owned() },
                    );
                }
                let id = tracker.begin(self.method.as_str());
                self.awaiting = id;
                let params = object1("cursor", Json::Str(c));
                CallStep::Send(request_message(id, self.method.as_str(), Some(params)))
            },
        }
    }
}

/// Pagination loses and reorders nothing: after any run of pages, the
/// collected items are the concatenation of the pages' items.
pub proof fn lemma_pagination_complete(call: &RequestCall, page: Seq<Json>)
    requires
        call.wf(),
        !call.done,
    ensures
        call.items@ + page == call.pages@.push(page).flatten(),
        call.pages@.push(page).flatten().len() == call.items@.len() + page.len(),
{
    call.pages@.lemma_flatten_push(page);
}

/// What the capabilities in a peer's `initialize` result offer.
#[derive(Debug, Clone, Copy, PartialEq, Eq, Structural)]
pub struct ServerCapabilities {
    pub prompts: bool,
    pub prompts_list_changed: bool,
    pub tools: bool,
    pub tools_list_changed: bool,
    pub resources: bool,
}

pub open spec fn has_member(j: Json, key: Seq<char>) -> bool {
    j.get_spec(key) is Some
}

pub open spec fn nested_member(j: Json, outer: Seq<char>, inner: Seq<char>) -> bool {
    match j.get_spec(outer) {
        Some(o) => has_member(o, inner),
        None => false,
    }
}

/// The capabilities an object offers: each offer is the presence of its
/// member, each list-change hint the presence of `listChanged` inside it.
pub open spec fn capabilities_spec(caps: Json) -> ServerCapabilities {
    ServerCapabilities {
        prompts: has_member(caps, "prompts"@),
        prompts_list_changed: nested_member(caps, "prompts"@, "listChanged"@),
        tools: has_member(caps, "tools"@),
        tools_list_changed: nested_member(caps, "tools"@, "listChanged"@),
        resources: has_member(caps, "resources"@),
    }
}

/// Reads the capabilities object of an `initialize` result.
pub fn capabilities_from(caps: &Json) -> (r: ServerCapabilities)
    ensures
        r == capabilities_spec(*caps),
{
    let prompts = caps.get("prompts");
    let tools = caps.get("tools");
    let prompts_list_changed = match prompts {
        Some(p) => p.has("listChanged"),
        None => false,
    };
    let tools_list_changed = match tools {
        Some(t) => t.has("listChanged"),
        None => false,
    };
    ServerCapabilities {
        prompts: prompts.is_some(),
        prompts_list_changed,
        tools: tools.is_some(),
        tools_list_changed,
        resources: caps.has("resources"),
    }
}

#[derive(Debug, Clone, Copy, PartialEq, Eq, Structural)]
pub enum LogLevel {
    Error,
    Warn,
    Info,
    Debug,
    Trace,
}

pub open spec fn log_level_of(name: Seq<char>) -> Option<LogLevel> {
    if name == "error"@ {
        Some(LogLevel::Error)
    } else if name == "warn"@ {
        Some(LogLevel::Warn)
    } else if name == "info"@ {
        Some(LogLevel::Info)
    } else if name == "debug"@ {
        Some(LogLevel::Debug)
    } else if name == "trace"@ {
        Some(LogLevel::Trace)
    } else {
        None
    }
}

/// The level named by `name`, in any case.
pub fn parse_log_level(name: &str) -> (r: Option<LogLevel>)
    ensures
        r == log_level_of(crate::text::lowercase_ascii(name@)),
{
    let lower = ascii_lowercase(name);
    let l = lower.as_str();
    if same_text(l, "error") {
        Some(LogLevel::Error)
    } else if same_text(l, "warn") {
        Some(LogLevel::Warn)
    } else if same_text(l, "info") {
        Some(LogLevel::Info)
    } else if same_text(l, "debug") {
        Some(LogLevel::Debug)
    } else if same_text(l, "trace") {
        Some(LogLevel::Trace)
    } else {
        None
    }
}

/// What to do with a message the peer sent on its own.
#[derive(Debug)]
pub enum DispatchAction {
    /// A `sampling/createMessage` request, for the sampling bridge.
    HandleSampling(JsonRpcRequest),
    /// Answer the peer with this response.
    Reply(JsonRpcResponse),
    /// A log message of the peer.
    Log { level: LogLevel, data: Json },
    RefetchPrompts,
    RefetchTools,
    Ignore,
}

/// The log action of a `notifications/message` with a known level and
/// some data.
pub open spec fn log_of(params: Json) -> Option<DispatchAction> {
    match crate::json::text_member(params, "level"@) {
        Some(t) => match log_level_of(crate::text::lowercase_ascii(t)) {
            Some(level) => match params.get_spec("data"@) {
                Some(data) => Some(DispatchAction::Log { level, data }),
                None => None,
            },
            None => None,
        },
        None => None,
    }
}

pub open spec fn is_sampling_method(m: Seq<char>) -> bool {
    m == "sampling/createMessage"@
}

pub open spec fn is_log_method(m: Seq<char>) -> bool {
    m == "notifications/message"@ || m == "message"@
}

pub open spec fn is_prompts_changed(m: Seq<char>) -> bool {
    m == "notifications/prompts/list_changed"@ || m == "prompts/list_changed"@
}

pub open spec fn is_tools_changed(m: Seq<char>) -> bool {
    m == "notifications/tools/list_changed"@ || m == "tools/list_changed"@
}

/// Routes one inbound message. Requests other than sampling get a
/// "method not found" error; responses belong to the requests that await
/// them and are ignored here; a list change is acted on only when the peer
/// announced it.
pub fn dispatch(msg: JsonRpcMessage, caps: &ServerCapabilities) -> (r: DispatchAction)
    ensures
        msg is Response ==> r is Ignore,
        msg matches JsonRpcMessage::Request(req) ==> {
            if is_sampling_method(req.method@) {
                r == DispatchAction::HandleSampling(req)
            } else {
                r is Reply && is_error_response(
                    r->Reply_0,
                    req.id,
                    METHOD_NOT_FOUND,
                    "Method not found: "@ + req.method@,
                )
            }
        },
        msg matches JsonRpcMessage::Notification(n) ==> {
            &&& (r is RefetchPrompts <==> is_prompts_changed(n.method@) && caps.prompts_list_changed)
            &&& (r is RefetchTools <==> is_tools_changed(n.method@) && caps.tools_list_changed)
            &&& (r is Log ==> is_log_method(n.method@))
            &&& (is_log_method(n.method@) && n.params is Some && log_of(n.params->Some_0) is Some
                ==> r == log_of(n.params->Some_0)->Some_0)
            &&& !(r is Reply) && !(r is HandleSampling)
        },
{
    match msg {
        JsonRpcMessage::Request(req) => {
            if same_text(req.method.as_str(), "sampling/createMessage") {
                DispatchAction::HandleSampling(req)
            } else {
                let message = concat("Method not found: ", req.method.as_str());
                DispatchAction::Reply(error_response(req.id, METHOD_NOT_FOUND, message))
            }
        },
        JsonRpcMessage::Response(_) => DispatchAction::Ignore,
        JsonRpcMessage::Notification(n) => {
            let m = n.method.as_str();
            proof {
                reveal_strlit("notifications/message");
                reveal_strlit("message");
                reveal_strlit("notifications/prompts/list_changed");
                reveal_strlit("prompts/list_changed");
                reveal_strlit("notifications/tools/list_changed");
                reveal_strlit("tools/list_changed");
                assert("notifications/message"@.len() == 21);
                assert("message"@.len() == 7);
                assert("notifications/prompts/list_changed"@.len() == 34);
                assert("prompts/list_changed"@.len() == 20);
                assert("notifications/tools/list_changed"@.len() == 32);
                assert("tools/list_changed"@.len() == 18);
            }
            if same_text(m, "notifications/message") || same_text(m, "message") {
                let params = match n.params {
                    Some(p) => p,
                    None => {
                        return DispatchAction::Ignore;
                    },
                };
                let level = match params.get("level") {
                    Some(l) => match l.as_text() {
                        Some(t) => parse_log_level(t.as_str()),
                        None => None,
                    },
                    None => None,
                };
                match (level, params.take("data")) {
                    (Some(level), Some(data)) => DispatchAction::Log { level, data },
                    _ => DispatchAction::Ignore,
                }
            } else if (same_text(m, "notifications/prompts/list_changed") || same_text(
                m,
                "prompts/list_changed",
            )) && caps.prompts_list_changed {
                DispatchAction::RefetchPrompts
            } else if (same_text(m, "notifications/tools/list_changed") || same_text(
                m,
                "tools/list_changed",
            )) && caps.tools_list_changed {
                DispatchAction::RefetchTools
            } else {
                DispatchAction::Ignore
            }
        },
    }
}

} // verus!

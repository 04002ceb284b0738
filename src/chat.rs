//! The chat session's control loop as a state machine: each step takes what
//! the outside world produced (a line, a stream event, tool results, an
//! error) and decides the next state.
use vstd::prelude::*;

use crate::conversation::{
    ToolResultStatus, ToolUseResultBlock,
    error_result, result_ids, AssistantMessage, AssistantToolUse, ConversationState,
    ToolUseResult,
};
use crate::input::{
    answer_is_trust, answer_is_yes, classify, command_args, is_trust, is_yes, shell_words,
    trim_text, trimmed, InputKind,
};
use crate::permissions::ToolPermissions;
use crate::sampling::PendingSamplingRequest;
use crate::text::{concat, push_text, views};

verus! {

/// The assistant message that stands for a response that timed out.
pub const RESPONSE_TIMEOUT_CONTENT: &'static str = "Response timed out - message took too long to generate";

#[derive(Debug)]
pub enum ChatState {
    /// Ask the user for a line, showing a pending approval unless asked not
    /// to.
    PromptUser { skip_printing_tools: bool },
    HandleInput { input: String },
    ValidateTools(Vec<AssistantToolUse>),
    ExecuteTools,
    /// Consume the model's response to the request just sent.
    HandleResponseStream,
    CompactHistory { prompt: Option<String>, show_summary: bool },
    Exit,
}

impl ChatState {
    pub fn initial() -> (r: Self)
        ensures
            r == (ChatState::PromptUser { skip_printing_tools: false }),
    {
        ChatState::PromptUser { skip_printing_tools: false }
    }
}

/// A validated tool use waiting to run.
#[derive(Debug)]
pub struct QueuedTool {
    pub id: String,
    pub name: String,
    pub requires_acceptance: bool,
    pub accepted: bool,
}

/// Failures reported by the model service.
#[derive(Debug)]
pub enum ApiErrorKind {
    ContextWindowOverflow,
    QuotaBreach { message: String },
    ModelOverloaded { request_id: Option<String> },
    MonthlyLimitReached,
    Other(String),
}

/// Failures while reading the model's response stream.
#[derive(Debug)]
pub enum RecvErrorKind {
    StreamTimeout { source: String, duration_secs: u64 },
    UnexpectedToolUseEos { tool_use_id: String, name: String, message: AssistantMessage },
    Other(String),
}

#[derive(Debug)]
pub enum ChatError {
    Client { kind: ApiErrorKind, status_code: Option<u16> },
    Auth(String),
    ResponseStream(RecvErrorKind),
    Std(String),
    Readline(String),
    Custom(String),
    Interrupted { tool_uses: Option<Vec<QueuedTool>> },
    GetPromptError(String),
}

impl ChatError {
    pub fn status_code(&self) -> (r: Option<u16>)
        ensures
            self matches ChatError::Client { status_code, .. } ==> r == status_code,
            !(self is Client) ==> r is None,
    {
        match self {
            ChatError::Client { status_code, .. } => *status_code,
            _ => None,
        }
    }

    pub fn reason_code(&self) -> (r: String)
        ensures
            self is Std ==> r@ == "StdIoError"@,
            self is Readline ==> r@ == "ReadlineError"@,
            self is Custom ==> r@ == "GenericError"@,
            self is Interrupted ==> r@ == "Interrupted"@,
            self is GetPromptError ==> r@ == "GetPromptError"@,
            self is Auth ==> r@ == "AuthError"@,
    {
        let code = match self {
            ChatError::Client { kind, .. } => match kind {
                ApiErrorKind::ContextWindowOverflow => "ContextWindowOverflow",
                ApiErrorKind::QuotaBreach { .. } => "QuotaBreachError",
                ApiErrorKind::ModelOverloaded { .. } => "ModelOverloadedError",
                ApiErrorKind::MonthlyLimitReached => "MonthlyLimitReached",
                ApiErrorKind::Other(_) => "ApiClientError",
            },
            ChatError::ResponseStream(kind) => match kind {
                RecvErrorKind::StreamTimeout { .. } => "StreamTimeout",
                RecvErrorKind::UnexpectedToolUseEos { .. } => "UnexpectedToolUseEos",
                RecvErrorKind::Other(_) => "RecvError",
            },
            ChatError::Std(_) => "StdIoError",
            ChatError::Readline(_) => "ReadlineError",
            ChatError::Custom(_) => "GenericError",
            ChatError::Interrupted { .. } => "Interrupted",
            ChatError::GetPromptError(_) => "GetPromptError",
            ChatError::Auth(_) => "AuthError",
        };
        code.to_owned()
    }
}

/// A line that is neither a shell command nor a command whose words split.
pub open spec fn is_plain(t: Seq<char>) -> bool {
    !(t.len() > 0 && t[0] == '!') && !(t.len() > 0 && t[0] == '/' && shell_words(t.drop_first())
        is Some)
}

/// What the prompt shows before reading a line.
#[derive(Debug)]
pub struct PromptPlan {
    pub exit: bool,
    pub show_tool_dialog: bool,
    pub show_sampling_dialog: bool,
}

/// What a line of the user asks of the session.
#[derive(Debug)]
pub enum InputOutcome {
    /// Run this command (program name first); then prompt again, or exit.
    Command(Vec<String>),
    /// Run this shell command, then prompt again.
    Shell(String),
    /// The pending tool was accepted: run the tools.
    ExecuteTools,
    /// The sampling request shown was decided; hand the verdict to its peer.
    /// `index` is where the request stood in the queue.
    SamplingVerdict { index: usize, request: PendingSamplingRequest, approved: bool },
    /// The next user message is set: send the conversation to the model.
    SendToModel,
}

/// What running the queued tools needs next.
#[derive(Debug, PartialEq, Eq, Structural)]
pub enum ExecuteStep {
    /// Every queued tool may run.
    RunAll,
    /// The tool at this index waits for the user's consent.
    AskApproval(usize),
}

/// A stream event of the model's response.
#[derive(Debug)]
pub enum ResponseEvent {
    ToolUseStart { name: String },
    AssistantText(String),
    ToolUse(AssistantToolUse),
    EndStream { message: AssistantMessage },
}

/// What was received of one response so far.
#[derive(Debug)]
pub struct ResponseProgress {
    pub text: String,
    pub tool_uses: Vec<AssistantToolUse>,
    pub tool_name_being_recvd: Option<String>,
    pub ended: bool,
}

impl ResponseProgress {
    pub fn new() -> (r: Self)
        ensures
            r.tool_uses@.len() == 0,
            !r.ended,
    {
        ResponseProgress {
            text: String::new(),
            tool_uses: Vec::new(),
            tool_name_being_recvd: None,
            ended: false,
        }
    }
}

/// The verdict of a tool's validation: whether it needs consent to run, or
/// why it is invalid.
#[derive(Debug)]
pub struct ToolCheck {
    pub id: String,
    pub name: String,
    pub outcome: Result<bool, String>,
}

/// What a failed step leaves for the user to see.
#[derive(Debug, PartialEq, Eq, Structural)]
pub enum ErrorOutcome {
    /// Report the error under this context line.
    Report,
    /// The conversation cannot be sent any more: tell the user.
    ConversationTooLarge,
    /// The monthly request limit was reached: tell the user.
    MonthlyLimit,
}

pub struct ChatSession {
    pub conversation: ConversationState,
    pub tool_uses: Vec<QueuedTool>,
    pub pending_tool_index: Option<usize>,
    pub tool_permissions: ToolPermissions,
    pub pending_sampling_requests: Vec<PendingSamplingRequest>,
    pub pending_sampling_index: Option<usize>,
    pub interactive: bool,
    pub initial_input: Option<String>,
    pub inner: Option<ChatState>,
}

/// The text of a result block.
pub open spec fn text_block(b: ToolUseResultBlock) -> Option<Seq<char>> {
    match b {
        ToolUseResultBlock::Text(t) => Some(t@),
        _ => None,
    }
}

/// The ids of the queued tools, in order.
pub open spec fn queue_ids(q: Seq<QueuedTool>) -> Seq<Seq<char>> {
    q.map_values(|t: QueuedTool| t.id@)
}

pub open spec fn may_run(perms: ToolPermissions, t: QueuedTool) -> bool {
    perms.trusted_spec(t.name@) || !t.requires_acceptance
}

impl ChatSession {
    /// The session's invariant. The approval prompt shows at most one of a
    /// tool and a sampling request, and an index shown points at a waiting
    /// item.
    pub open spec fn wf(&self) -> bool {
        &&& self.conversation.wf()
        &&& !(self.pending_tool_index is Some && self.pending_sampling_index is Some)
        &&& self.pending_tool_index matches Some(i) ==> i < self.tool_uses@.len()
        &&& self.pending_sampling_index matches Some(i) ==> i
            < self.pending_sampling_requests@.len()
    }

    /// A session in its initial state, `PromptUser { skip_printing_tools:
    /// false }`, with nothing queued. A first question given on the command
    /// line waits in `initial_input` until `start` takes it.
    pub fn new(
        conversation: ConversationState,
        tool_permissions: ToolPermissions,
        interactive: bool,
        initial_input: Option<String>,
    ) -> (r: Self)
        requires
            conversation.wf(),
        ensures
            r.wf(),
            r.inner == Some(ChatState::PromptUser { skip_printing_tools: false }),
            r.tool_uses@.len() == 0,
            r.pending_tool_index is None,
            r.pending_sampling_index is None,
            r.pending_sampling_requests@.len() == 0,
            r.initial_input == initial_input,
            r.interactive == interactive,
            r.conversation == conversation,
            r.tool_permissions == tool_permissions,
    {
        ChatSession {
            conversation,
            tool_uses: Vec::new(),
            pending_tool_index: None,
            tool_permissions,
            pending_sampling_requests: Vec::new(),
            pending_sampling_index: None,
            interactive,
            initial_input,
            inner: Some(ChatState::initial()),
        }
    }

    /// Starts the loop: a first question, if one was given, is handled
    /// before the first prompt.
    pub fn start(&mut self)
        requires
            old(self).wf(),
        ensures
            final(self).wf(),
            final(self).initial_input is None,
            old(self).initial_input matches Some(i) ==> final(self).inner == Some(
                ChatState::HandleInput { input: i },
            ),
            old(self).initial_input is None ==> final(self).inner == old(self).inner,
            final(self).conversation == old(self).conversation,
    {
        if let Some(input) = self.initial_input.take() {
            self.inner = Some(ChatState::HandleInput { input });
        }
    }

    /// Queues a sampling request of a peer for the user's verdict.
    pub fn offer_sampling(&mut self, request: PendingSamplingRequest)
        requires
            old(self).wf(),
        ensures
            final(self).wf(),
            final(self).pending_sampling_requests@ == old(self).pending_sampling_requests@.push(
                request,
            ),
            final(self).pending_sampling_index == old(self).pending_sampling_index,
            final(self).pending_tool_index == old(self).pending_tool_index,
    {
        self.pending_sampling_requests.push(request);
    }

    /// Prepares the prompt. A non-interactive session ends here. With no
    /// tool awaiting consent, the oldest sampling request is the one shown.
    pub fn prompt_user(&mut self, skip_printing_tools: bool) -> (r: PromptPlan)
        requires
            old(self).wf(),
        ensures
            final(self).wf(),
            r.exit == !old(self).interactive,
            !(r.show_tool_dialog && r.show_sampling_dialog),
            r.show_tool_dialog == (!r.exit && !skip_printing_tools && final(self).pending_tool_index is Some),
            r.show_sampling_dialog == (!r.exit && !skip_printing_tools && final(self).pending_sampling_index is Some),
            old(self).interactive && old(self).pending_tool_index is None && old(self).pending_sampling_index is None && old(self).pending_sampling_requests@.len() > 0
                ==> final(self).pending_sampling_index == Some(0usize),
            final(self).conversation == old(self).conversation,
            final(self).pending_tool_index == old(self).pending_tool_index,
    {
        if !self.interactive {
            self.inner = Some(ChatState::Exit);
            return PromptPlan { exit: true, show_tool_dialog: false, show_sampling_dialog: false };
        }
        if self.pending_tool_index.is_none() && self.pending_sampling_index.is_none()
            && self.pending_sampling_requests.len() > 0 {
            self.pending_sampling_index = Some(0);
        }
        PromptPlan {
            exit: false,
            show_tool_dialog: !skip_printing_tools && self.pending_tool_index.is_some(),
            show_sampling_dialog: !skip_printing_tools && self.pending_sampling_index.is_some(),
        }
    }

    /// Acts on a line of the user. Commands and shell commands come first; a
    /// pending tool takes `y` or `t` as consent (`t` also trusts the tool
    /// for the session) and anything else as refusal, which goes to the
    /// model with the tool uses cancelled; a shown sampling request takes
    /// `y` or `t` as approval and anything else as rejection; otherwise the
    /// line is the next user message.
    pub fn handle_input(&mut self, input: String) -> (r: InputOutcome)
        requires
            old(self).wf(),
        ensures
            final(self).wf(),
            r matches InputOutcome::Command(args) ==> {
                let t = trimmed(input@);
                &&& t.len() > 0 && t[0] == '/'
                &&& shell_words(t.drop_first()) is Some
                &&& views(args@) == command_args(shell_words(t.drop_first())->Some_0)
            },
            r matches InputOutcome::Shell(cmd) ==> {
                let t = trimmed(input@);
                &&& t.len() > 0 && t[0] == '!'
                &&& cmd@ == t.drop_first()
            },
            r is Command || r is Shell ==> *final(self) == *old(self),
            ({
                let t = trimmed(input@);
                t.len() > 0 && t[0] == '/' && shell_words(t.drop_first()) is Some
            }) ==> r is Command,
            ({
                let t = trimmed(input@);
                t.len() > 0 && t[0] == '!'
            }) ==> r is Shell,
            is_plain(trimmed(input@)) && old(self).pending_tool_index is Some ==> {
                &&& (r is ExecuteTools <==> is_yes(trimmed(input@)) || is_trust(trimmed(input@)))
                &&& !(r is ExecuteTools) ==> r is SendToModel
            },
            is_plain(trimmed(input@)) && old(self).pending_tool_index is None
                && old(self).pending_sampling_index is Some ==> r is SamplingVerdict,
            is_plain(trimmed(input@)) && old(self).pending_tool_index is None
                && old(self).pending_sampling_index is None ==> r is SendToModel,
            !is_trust(trimmed(input@)) ==> final(self).tool_permissions == old(self).tool_permissions,
            r is SendToModel && old(self).pending_tool_index is Some && queue_ids(old(self).tool_uses@)
                == old(self).conversation.open_tool_uses() ==> result_ids(
                final(self).conversation.next_message->Some_0.tool_use_results@,
            ) == queue_ids(old(self).tool_uses@),
            r is ExecuteTools ==> final(self).tool_uses@ == old(self).tool_uses@.update(
                old(self).pending_tool_index->Some_0 as int,
                QueuedTool {
                    accepted: true,
                    ..old(self).tool_uses@[old(self).pending_tool_index->Some_0 as int]
                },
            ),
            r is ExecuteTools ==> {
                let i = old(self).pending_tool_index->Some_0;
                &&& old(self).pending_tool_index is Some
                &&& (is_yes(trimmed(input@)) || is_trust(trimmed(input@)))
                &&& final(self).tool_uses@[i as int].accepted
                &&& final(self).pending_tool_index == old(self).pending_tool_index
                &&& is_trust(trimmed(input@)) ==> final(self).tool_permissions.setting(
                    final(self).tool_uses@[i as int].name@,
                ) == Some(true)
            },
            r matches InputOutcome::SamplingVerdict { index, request, approved } ==> {
                &&& old(self).pending_sampling_index == Some(index)
                &&& old(self).pending_tool_index is None
                &&& request == old(self).pending_sampling_requests@[index as int]
                &&& approved == (is_yes(trimmed(input@)) || is_trust(trimmed(input@)))
                &&& final(self).pending_sampling_requests@
                    == old(self).pending_sampling_requests@.remove(index as int)
                &&& final(self).pending_sampling_index is None
                &&& final(self).conversation == old(self).conversation
            },
            r is SendToModel ==> {
                &&& final(self).conversation.next_message is Some
                &&& final(self).conversation.next_message->Some_0.content == input
                &&& forall|k: int|
                    0 <= k < final(self).conversation.next_message->Some_0.tool_use_results@.len()
                        ==> (#[trigger] final(self).conversation.next_message->Some_0.tool_use_results@[k]).status
                        == ToolResultStatus::Error
                &&& result_ids(final(self).conversation.next_message->Some_0.tool_use_results@)
                    == old(self).conversation.open_tool_uses()
                &&& final(self).pending_tool_index is None
            },
    {
        let line = trim_text(input.as_str());
        match classify(line.as_str()) {
            InputKind::Command(args) => {
                return InputOutcome::Command(args);
            },
            InputKind::Shell(command) => {
                return InputOutcome::Shell(command);
            },
            InputKind::Plain => {},
        }
        let yes = answer_is_yes(line.as_str());
        let trust = answer_is_trust(line.as_str());
        if let Some(index) = self.pending_tool_index {
            if yes || trust {
                if trust {
                    let name = crate::text::copy_string(&self.tool_uses[index].name);
                    self.tool_permissions.trust_tool(name.as_str());
                }
                let ghost before = self.tool_uses@;
                let mut t = self.tool_uses.remove(index);
                t.accepted = true;
                self.tool_uses.insert(index, t);
                assert(self.tool_uses@ =~= before.update(index as int, t));
                return InputOutcome::ExecuteTools;
            }
            self.pending_tool_index = None;
            self.conversation.abandon_tool_use(input);
            return InputOutcome::SendToModel;
        }
        if let Some(index) = self.pending_sampling_index {
            let request = self.pending_sampling_requests.remove(index);
            self.pending_sampling_index = None;
            return InputOutcome::SamplingVerdict { index, request, approved: yes || trust };
        }
        self.conversation.set_next_user_message(input);
        InputOutcome::SendToModel
    }

    /// Takes one event of the model's response. Tool uses are kept in the
    /// order they arrive; at the end of the stream the answer joins the
    /// conversation and the tool uses, if any, go to validation.
    pub fn on_response_event(&mut self, progress: &mut ResponseProgress, event: ResponseEvent) -> (r:
        Option<Result<ChatState, ChatError>>)
        requires
            old(self).wf(),
            !old(progress).ended,
        ensures
            final(self).wf(),
            event matches ResponseEvent::ToolUse(u) ==> r is None && final(progress).tool_uses@
                == old(progress).tool_uses@.push(u),
            !(event is EndStream) ==> *final(self) == *old(self),
            event is ToolUseStart || event is AssistantText ==> final(progress).tool_uses@ == old(
                progress).tool_uses@,
            event matches ResponseEvent::AssistantText(t) ==> final(progress).text@ == old(
                progress).text@ + t@,
            event matches ResponseEvent::ToolUseStart { name } ==> final(progress).text@ == old(
                progress).text@.push('\n') && final(progress).tool_name_being_recvd == Some(name),
            event is ToolUse ==> final(progress).text@ == old(progress).text@
                && final(progress).tool_name_being_recvd is None,
            !(event is EndStream) ==> r is None && !final(progress).ended,
            event is EndStream && old(self).conversation.next_message is Some ==> {
                &&& final(progress).ended
                &&& final(self).conversation.next_message is None
                &&& final(self).conversation.history@.len() == old(self).conversation.history@.len() + 1
                &&& final(self).conversation.history@.last().1 == event->EndStream_message
                &&& final(self).conversation.history@.last().0 == old(self).conversation.next_message->Some_0
                &&& old(progress).tool_uses@.len() == 0 ==> final(self).tool_uses@.len() == 0
                &&& old(progress).tool_uses@.len() > 0 ==> r == Some(
                    Ok::<ChatState, ChatError>(ChatState::ValidateTools(old(progress).tool_uses)),
                )
                &&& old(progress).tool_uses@.len() == 0 ==> r == Some(
                    Ok::<ChatState, ChatError>(ChatState::PromptUser { skip_printing_tools: false }),
                ) && final(self).pending_tool_index is None
            },
            event is EndStream && old(self).conversation.next_message is None ==> r matches Some(
                Err(_),
            ),
    {
        match event {
            ResponseEvent::ToolUseStart { name } => {
                progress.text.push('\n');
                progress.tool_name_being_recvd = Some(name);
                None
            },
            ResponseEvent::AssistantText(text) => {
                push_text(&mut progress.text, text.as_str());
                None
            },
            ResponseEvent::ToolUse(tool_use) => {
                progress.tool_uses.push(tool_use);
                progress.tool_name_being_recvd = None;
                None
            },
            ResponseEvent::EndStream { message } => {
                if !self.conversation.has_next_message() {
                    return Some(
                        Err(ChatError::Custom("a response arrived with no message sent".to_owned())),
                    );
                }
                self.conversation.push_assistant_message(message);
                progress.ended = true;
                if progress.tool_uses.len() > 0 {
                    let mut uses: Vec<AssistantToolUse> = Vec::new();
                    core::mem::swap(&mut uses, &mut progress.tool_uses);
                    Some(Ok(ChatState::ValidateTools(uses)))
                } else {
                    self.tool_uses.clear();
                    self.pending_tool_index = None;
                    Some(Ok(ChatState::PromptUser { skip_printing_tools: false }))
                }
            },
        }
    }

    /// Recovers from a failure of the response stream where it can: a
    /// timeout asks the model to split its work, a tool use cut short asks
    /// it to split its tool uses; other failures stand.
    pub fn on_response_error(&mut self, error: RecvErrorKind) -> (r: Result<ChatState, ChatError>)
        requires
            old(self).wf(),
        ensures
            final(self).wf(),
            r is Ok ==> r->Ok_0 is HandleResponseStream && final(self).conversation.next_message is Some,
            error is Other ==> r is Err,
            !(error is Other) && old(self).conversation.next_message is Some ==> r is Ok,
            error is StreamTimeout && old(self).conversation.next_message is Some ==> {
                let h = final(self).conversation.history@;
                &&& h.len() == old(self).conversation.history@.len() + 1
                &&& h.last().1.content@ == RESPONSE_TIMEOUT_CONTENT@
                &&& h.last().1.tool_uses@.len() == 0
                &&& final(self).conversation.next_message->Some_0.content@
                    == "You took too long to respond - try to split up the work into smaller steps."@
            },
            error is UnexpectedToolUseEos && old(self).conversation.next_message is Some ==> {
                let h = final(self).conversation.history@;
                let m = error->UnexpectedToolUseEos_message;
                let results = final(self).conversation.next_message->Some_0.tool_use_results@;
                &&& h.len() == old(self).conversation.history@.len() + 1
                &&& h.last().1 == m
                &&& result_ids(results) == crate::conversation::use_ids(m.tool_uses@)
                &&& forall|i: int| 0 <= i < results.len() ==> (#[trigger] results[i]).status
                    == crate::conversation::ToolResultStatus::Error
            },
    {
        match error {
            RecvErrorKind::StreamTimeout { source, duration_secs } => {
                if !self.conversation.has_next_message() {
                    return Err(
                        ChatError::ResponseStream(
                            RecvErrorKind::StreamTimeout { source, duration_secs },
                        ),
                    );
                }
                self.conversation.push_assistant_message(
                    AssistantMessage {
                        message_id: None,
                        content: RESPONSE_TIMEOUT_CONTENT.to_owned(),
                        tool_uses: Vec::new(),
                    },
                );
                self.conversation.set_next_user_message(
                    "You took too long to respond - try to split up the work into smaller steps.".to_owned(),
                );
                Ok(ChatState::HandleResponseStream)
            },
            RecvErrorKind::UnexpectedToolUseEos { tool_use_id, name, message } => {
                if !self.conversation.has_next_message() {
                    return Err(
                        ChatError::ResponseStream(
                            RecvErrorKind::UnexpectedToolUseEos { tool_use_id, name, message },
                        ),
                    );
                }
                self.conversation.push_assistant_message(message);
                let mut results: Vec<ToolUseResult> = Vec::new();
                results.push(
                    error_result(
                        &tool_use_id,
                        "The generated tool was too large, try again but this time split up the work between multiple tool uses",
                    ),
                );
                let ghost given = results@;
                assert(given.len() == 1 && given[0].status == ToolResultStatus::Error);
                self.conversation.add_tool_results(results);
                Ok(ChatState::HandleResponseStream)
            },
            RecvErrorKind::Other(text) => Err(ChatError::ResponseStream(RecvErrorKind::Other(text))),
        }
    }

    /// Queues the validated tools. Any invalid one sends every error back to
    /// the model instead, and nothing is queued.
    pub fn validate_tools(&mut self, checks: Vec<ToolCheck>) -> (r: ChatState)
        requires
            old(self).wf(),
        ensures
            final(self).wf(),
            r is ExecuteTools || r is HandleResponseStream,
            r is ExecuteTools <==> forall|i: int|
                0 <= i < checks@.len() ==> (#[trigger] checks@[i]).outcome is Ok,
            r is ExecuteTools ==> {
                &&& final(self).tool_uses@.len() == checks@.len()
                &&& forall|i: int|
                    0 <= i < checks@.len() ==> (#[trigger] final(self).tool_uses@[i]).id@
                        == checks@[i].id@ && !final(self).tool_uses@[i].accepted
                        && final(self).tool_uses@[i].requires_acceptance
                        == checks@[i].outcome->Ok_0
                &&& final(self).pending_tool_index is None
            },
            r is HandleResponseStream ==> final(self).conversation.next_message is Some && result_ids(
                final(self).conversation.next_message->Some_0.tool_use_results@,
            ) == old(self).conversation.open_tool_uses(),
            r is HandleResponseStream ==> {
                let results = final(self).conversation.next_message->Some_0.tool_use_results@;
                &&& final(self).tool_uses == old(self).tool_uses
                &&& final(self).pending_tool_index == old(self).pending_tool_index
                &&& forall|i: int| 0 <= i < results.len() ==> (#[trigger] results[i]).status
                    == ToolResultStatus::Error
            },
    {
        let mut queued: Vec<QueuedTool> = Vec::new();
        let mut errors: Vec<ToolUseResult> = Vec::new();
        let mut all_ok = true;
        let mut i: usize = 0;
        while i < checks.len()
            invariant
                i <= checks@.len(),
                all_ok == forall|j: int| 0 <= j < i ==> (#[trigger] checks@[j]).outcome is Ok,
                all_ok ==> queued@.len() == i,
                forall|j: int| 0 <= j < errors@.len() ==> (#[trigger] errors@[j]).status
                    == ToolResultStatus::Error,
                all_ok ==> forall|j: int|
                    0 <= j < i ==> (#[trigger] queued@[j]).id@ == checks@[j].id@
                        && !queued@[j].accepted && queued@[j].requires_acceptance
                        == checks@[j].outcome->Ok_0,
            decreases checks.len() - i,
        {
            let check = &checks[i];
            match &check.outcome {
                Ok(requires_acceptance) => {
                    queued.push(
                        QueuedTool {
                            id: crate::text::copy_string(&check.id),
                            name: crate::text::copy_string(&check.name),
                            requires_acceptance: *requires_acceptance,
                            accepted: false,
                        },
                    );
                },
                Err(reason) => {
                    all_ok = false;
                    let text = concat("Failed to validate tool parameters: ", reason.as_str());
                    errors.push(error_result(&check.id, text.as_str()));
                },
            }
            i = i + 1;
        }
        if !all_ok {
            let ghost given = errors@;
            self.conversation.add_tool_results(errors);
            proof {
                let results = self.conversation.next_message->Some_0.tool_use_results@;
                assert forall|i: int| 0 <= i < results.len() implies (#[trigger] results[i]).status
                    == ToolResultStatus::Error by {
                    if results[i].status != ToolResultStatus::Error {
                        let m = choose|m: int| 0 <= m < given.len() && given[m] == results[i];
                        assert(given[m].status == ToolResultStatus::Error);
                    }
                }
            }
            return ChatState::HandleResponseStream;
        }
        self.tool_uses = queued;
        self.pending_tool_index = None;
        ChatState::ExecuteTools
    }

    /// Before running the queued tools: each tool that was accepted, is
    /// trusted, or needs no consent may run; the first one that needs the
    /// user's consent stops the check and is shown for approval.
    pub fn tool_permission_step(&mut self) -> (r: ExecuteStep)
        requires
            old(self).wf(),
        ensures
            final(self).wf(),
            final(self).tool_uses@.len() == old(self).tool_uses@.len(),
            final(self).conversation == old(self).conversation,
            r == ExecuteStep::RunAll ==> forall|i: int|
                0 <= i < final(self).tool_uses@.len() ==> (#[trigger] final(self).tool_uses@[i]).accepted,
            r matches ExecuteStep::AskApproval(i) ==> {
                &&& i < final(self).tool_uses@.len()
                &&& final(self).pending_tool_index == Some(i)
                &&& final(self).pending_sampling_index is None
                &&& !old(self).tool_uses@[i as int].accepted
                &&& !may_run(old(self).tool_permissions, old(self).tool_uses@[i as int])
                &&& forall|j: int|
                    0 <= j < i ==> (#[trigger] final(self).tool_uses@[j]).accepted
                &&& forall|j: int|
                    0 <= j < i ==> old(self).tool_uses@[j].accepted || may_run(
                        old(self).tool_permissions,
                        #[trigger] old(self).tool_uses@[j],
                    )
            },
            forall|j: int|
                0 <= j < final(self).tool_uses@.len() && (#[trigger] final(self).tool_uses@[j]).accepted
                    ==> old(self).tool_uses@[j].accepted || may_run(
                    old(self).tool_permissions,
                    old(self).tool_uses@[j],
                ),
            (forall|j: int|
                0 <= j < old(self).tool_uses@.len() ==> old(self).tool_uses@[j].accepted || may_run(
                    old(self).tool_permissions,
                    #[trigger] old(self).tool_uses@[j],
                )) ==> r == ExecuteStep::RunAll,
            forall|j: int|
                0 <= j < final(self).tool_uses@.len() ==> (#[trigger] final(self).tool_uses@[j]).name
                    == old(self).tool_uses@[j].name && final(self).tool_uses@[j].id == old(
                    self).tool_uses@[j].id && final(self).tool_uses@[j].requires_acceptance == old(
                    self).tool_uses@[j].requires_acceptance,
    {
        let mut i: usize = 0;
        while i < self.tool_uses.len()
            invariant
                self.wf(),
                i <= self.tool_uses@.len(),
                self.tool_uses@.len() == old(self).tool_uses@.len(),
                self.conversation == old(self).conversation,
                self.tool_permissions == old(self).tool_permissions,
                self.pending_tool_index == old(self).pending_tool_index,
                self.pending_sampling_index == old(self).pending_sampling_index,
                forall|j: int| 0 <= j < i ==> (#[trigger] self.tool_uses@[j]).accepted,
                forall|j: int|
                    i <= j < self.tool_uses@.len() ==> #[trigger] self.tool_uses@[j]
                        == old(self).tool_uses@[j],
                forall|j: int|
                    0 <= j < self.tool_uses@.len() && old(self).tool_uses@[j].accepted
                        ==> (#[trigger] self.tool_uses@[j]).accepted,
                forall|j: int|
                    0 <= j < i ==> old(self).tool_uses@[j].accepted || may_run(
                        old(self).tool_permissions,
                        #[trigger] old(self).tool_uses@[j],
                    ),
                forall|j: int|
                    0 <= j < self.tool_uses@.len() && (#[trigger] self.tool_uses@[j]).accepted
                        ==> old(self).tool_uses@[j].accepted || may_run(
                        old(self).tool_permissions,
                        old(self).tool_uses@[j],
                    ),
                forall|j: int|
                    0 <= j < self.tool_uses@.len() ==> (#[trigger] self.tool_uses@[j]).name
                        == old(self).tool_uses@[j].name && self.tool_uses@[j].id == old(
                        self).tool_uses@[j].id && self.tool_uses@[j].requires_acceptance == old(
                        self).tool_uses@[j].requires_acceptance,
            decreases self.tool_uses.len() - i,
        {
            if !self.tool_uses[i].accepted {
                let allowed = self.tool_permissions.is_trusted(self.tool_uses[i].name.as_str())
                    || !self.tool_uses[i].requires_acceptance;
                if !allowed {
                    self.pending_tool_index = Some(i);
                    self.pending_sampling_index = None;
                    return ExecuteStep::AskApproval(i);
                }
                let ghost before = self.tool_uses@;
                let mut t = self.tool_uses.remove(i);
                t.accepted = true;
                self.tool_uses.insert(i, t);
                assert(self.tool_uses@ =~= before.update(i as int, t));
            }
            i = i + 1;
        }
        ExecuteStep::RunAll
    }

    /// The results of running the queued tools, one per tool in queue
    /// order: a tool that gave output succeeded with it; one that failed
    /// reports its error.
    pub fn tool_results(&self, outcomes: &Vec<Result<String, String>>) -> (r: Vec<ToolUseResult>)
        requires
            outcomes@.len() == self.tool_uses@.len(),
        ensures
            r@.len() == outcomes@.len(),
            result_ids(r@) == queue_ids(self.tool_uses@),
            forall|i: int|
                0 <= i < r@.len() ==> ((#[trigger] r@[i]).status == ToolResultStatus::Success
                    <==> outcomes@[i] is Ok),
            forall|i: int|
                0 <= i < r@.len() && outcomes@[i] is Ok ==> ((#[trigger] r@[i]).content@.len() == 1
                    && text_block(r@[i].content@[0]) == Some(outcomes@[i]->Ok_0@)),
    {
        let mut out: Vec<ToolUseResult> = Vec::new();
        let mut i: usize = 0;
        while i < outcomes.len()
            invariant
                outcomes@.len() == self.tool_uses@.len(),
                i <= outcomes@.len(),
                out@.len() == i,
                forall|j: int| 0 <= j < i ==> (#[trigger] out@[j]).tool_use_id@ == self.tool_uses@[j].id@,
                forall|j: int|
                    0 <= j < i ==> ((#[trigger] out@[j]).status == ToolResultStatus::Success
                        <==> outcomes@[j] is Ok),
                forall|j: int|
                    0 <= j < i && outcomes@[j] is Ok ==> ((#[trigger] out@[j]).content@.len() == 1
                        && text_block(out@[j].content@[0]) == Some(outcomes@[j]->Ok_0@)),
            decreases outcomes.len() - i,
        {
            let id = crate::text::copy_string(&self.tool_uses[i].id);
            let mut content: Vec<ToolUseResultBlock> = Vec::new();
            let status = match &outcomes[i] {
                Ok(text) => {
                    content.push(ToolUseResultBlock::Text(crate::text::copy_string(text)));
                    ToolResultStatus::Success
                },
                Err(e) => {
                    content.push(
                        ToolUseResultBlock::Text(
                            concat("An error occurred processing the tool: \n", e.as_str()),
                        ),
                    );
                    ToolResultStatus::Error
                },
            };
            out.push(ToolUseResult { tool_use_id: id, content, status });
            i = i + 1;
        }
        assert(result_ids(out@) =~= queue_ids(self.tool_uses@));
        out
    }

    /// Ends a round of tool execution from each queued tool's outcome: when
    /// the queue is the last turn's tool uses, its results go back to the
    /// model in queue order.
    pub fn complete_tool_round(&mut self, outcomes: Vec<Result<String, String>>) -> (r: ChatState)
        requires
            old(self).wf(),
            outcomes@.len() == old(self).tool_uses@.len(),
        ensures
            final(self).wf(),
            r is HandleResponseStream,
            final(self).pending_tool_index is None,
            final(self).conversation.history == old(self).conversation.history,
            queue_ids(old(self).tool_uses@) == old(self).conversation.open_tool_uses() ==> {
                let res = final(self).conversation.next_message->Some_0.tool_use_results@;
                &&& res.len() == outcomes@.len()
                &&& forall|i: int|
                    0 <= i < res.len() ==> (#[trigger] res[i]).tool_use_id@
                        == old(self).tool_uses@[i].id@ && (res[i].status
                        == ToolResultStatus::Success <==> outcomes@[i] is Ok)
            },
    {
        let results = self.tool_results(&outcomes);
        let ghost rs = results@;
        let state = self.finish_tool_execution(results);
        proof {
            if queue_ids(old(self).tool_uses@) == old(self).conversation.open_tool_uses() {
                assert forall|i: int| 0 <= i < rs.len() implies (#[trigger] rs[i]).tool_use_id@
                    == old(self).tool_uses@[i].id@ by {
                    assert(result_ids(rs)[i] == queue_ids(old(self).tool_uses@)[i]);
                }
            }
        }
        state
    }

    /// After the tools ran: their results, in the order of the tool uses,
    /// go back to the model.
    pub fn finish_tool_execution(&mut self, results: Vec<ToolUseResult>) -> (r: ChatState)
        requires
            old(self).wf(),
        ensures
            final(self).wf(),
            r is HandleResponseStream,
            final(self).pending_tool_index is None,
            final(self).conversation.next_message matches Some(m) && result_ids(
                m.tool_use_results@,
            ) == old(self).conversation.open_tool_uses(),
            result_ids(results@) == old(self).conversation.open_tool_uses() ==> final(
                self).conversation.next_message->Some_0.tool_use_results@ == results@,
            final(self).conversation.history == old(self).conversation.history,
    {
        self.conversation.add_tool_results(results);
        self.pending_tool_index = None;
        ChatState::HandleResponseStream
    }

    /// Recovers from a failed step and sets the next state. An interrupt
    /// while tools run abandons their uses: each gets a cancellation, an
    /// assistant message records the interruption, and every tool use of
    /// the conversation is answered. A context overflow compacts the
    /// history where a summary can be made.
    pub fn handle_error(&mut self, err: ChatError, can_summarize: bool) -> (r: (ErrorOutcome, String))
        requires
            old(self).wf(),
        ensures
            final(self).wf(),
            err matches ChatError::Interrupted { tool_uses } && tool_uses is Some
                && tool_uses->Some_0@.len() > 0 ==> {
                &&& final(self).conversation.tool_uses_answered()
                &&& final(self).conversation.history@.len() > 0
                &&& final(self).conversation.history@.last().1.tool_uses@.len() == 0
                &&& final(self).conversation.history@.last().1.content@
                    == "Tool uses were interrupted, waiting for the next user prompt"@
                &&& final(self).inner == Some(ChatState::PromptUser { skip_printing_tools: false })
            },
            r.0 == ErrorOutcome::Report ==> {
                &&& final(self).conversation.transcript@.len() > 0
                &&& final(self).conversation.transcript@.last()@ == cleaned(r.1@)
            },
            err matches ChatError::Client { kind, .. } && kind is ContextWindowOverflow ==> {
                &&& can_summarize ==> final(self).inner == Some(
                    ChatState::CompactHistory { prompt: None, show_summary: false },
                ) && final(self).conversation.history == old(self).conversation.history
                    && final(self).conversation.next_message == old(self).conversation.next_message
                &&& !can_summarize ==> final(self).inner == Some(
                    ChatState::PromptUser { skip_printing_tools: false },
                ) && r.0 == ErrorOutcome::ConversationTooLarge
            },
            err is Interrupted ==> r == (ErrorOutcome::Report, r.1) && r.1@
                == "Tool use was interrupted"@,
            err is Client && err->Client_kind is QuotaBreach ==> r.0 == ErrorOutcome::Report
                && r.1@ == err->Client_kind->QuotaBreach_message@,
            err matches ChatError::Client { kind, .. } && kind is MonthlyLimitReached ==> r.0
                == ErrorOutcome::MonthlyLimit,
            !(err matches ChatError::Client { kind, .. } && kind is ContextWindowOverflow
                && can_summarize) ==> final(self).inner == Some(
                ChatState::PromptUser { skip_printing_tools: false },
            ),
    {
        let context = match err {
            ChatError::Interrupted { tool_uses } => {
                let abandon = match &tool_uses {
                    Some(t) => t.len() > 0,
                    None => false,
                };
                if abandon {
                    self.conversation.abandon_tool_use(
                        "The user interrupted the tool execution.".to_owned(),
                    );
                    self.conversation.push_assistant_message(
                        AssistantMessage {
                            message_id: None,
                            content: "Tool uses were interrupted, waiting for the next user prompt".to_owned(),
                            tool_uses: Vec::new(),
                        },
                    );
                }
                "Tool use was interrupted".to_owned()
            },
            ChatError::Client { kind, status_code } => match kind {
                ApiErrorKind::ContextWindowOverflow => {
                    if !can_summarize {
                        self.conversation.reset_next_user_message();
                        self.inner = Some(ChatState::PromptUser { skip_printing_tools: false });
                        return (ErrorOutcome::ConversationTooLarge, String::new());
                    }
                    self.inner = Some(ChatState::CompactHistory { prompt: None, show_summary: false });
                    let context = "The context window has overflowed, summarizing the history...".to_owned();
                    let _ = self.record_error_text(context.as_str());
                    return (ErrorOutcome::Report, context);
                },
                ApiErrorKind::QuotaBreach { message } => message,
                ApiErrorKind::ModelOverloaded { request_id } => {
                    let mut text = "The model you've selected is temporarily unavailable. Please use '/model' to select a different model and try again.".to_owned();
                    if let Some(id) = request_id {
                        push_text(&mut text, "\n    Request ID: ");
                        push_text(&mut text, id.as_str());
                    }
                    push_text(&mut text, "\n\n");
                    self.conversation.append_transcript(text);
                    "Amazon Q is having trouble responding right now".to_owned()
                },
                ApiErrorKind::MonthlyLimitReached => {
                    self.inner = Some(ChatState::PromptUser { skip_printing_tools: false });
                    return (ErrorOutcome::MonthlyLimit, String::new());
                },
                ApiErrorKind::Other(_) => "Amazon Q is having trouble responding right now".to_owned(),
            },
            _ => "Amazon Q is having trouble responding right now".to_owned(),
        };
        self.conversation.reset_next_user_message();
        self.inner = Some(ChatState::PromptUser { skip_printing_tools: false });
        let _ = self.record_error_text(context.as_str());
        (ErrorOutcome::Report, context)
    }

    /// Takes the outcome of the current state's step: a next state is
    /// entered as it is; a failure is recovered from as `handle_error` says.
    pub fn next(&mut self, step: Result<ChatState, ChatError>, can_summarize: bool) -> (r: Option<
        (ErrorOutcome, String),
    >)
        requires
            old(self).wf(),
        ensures
            final(self).wf(),
            step is Ok ==> r is None && final(self).inner == Some(step->Ok_0) && final(self).conversation
                == old(self).conversation,
            step is Err ==> r is Some,
            step matches Err(ChatError::Interrupted { tool_uses }) ==> r == Some(
                (ErrorOutcome::Report, r->Some_0.1),
            ) && r->Some_0.1@ == "Tool use was interrupted"@ && final(self).inner == Some(
                ChatState::PromptUser { skip_printing_tools: false },
            ),
            step matches Err(ChatError::Interrupted { tool_uses }) && tool_uses is Some
                && tool_uses->Some_0@.len() > 0 ==> final(self).conversation.tool_uses_answered()
                && final(self).conversation.history@.last().1.tool_uses@.len() == 0
                && final(self).conversation.history@.last().1.content@
                == "Tool uses were interrupted, waiting for the next user prompt"@,
            r is Some && r->Some_0.0 == ErrorOutcome::Report ==> final(self).conversation.transcript@.len()
                > 0 && final(self).conversation.transcript@.last()@ == cleaned(r->Some_0.1@),
            step matches Err(ChatError::Client { kind, .. }) && kind is ContextWindowOverflow ==> {
                &&& can_summarize ==> final(self).inner == Some(
                    ChatState::CompactHistory { prompt: None, show_summary: false },
                ) && final(self).conversation.history == old(self).conversation.history
                    && final(self).conversation.next_message == old(self).conversation.next_message
                &&& !can_summarize ==> final(self).inner == Some(
                    ChatState::PromptUser { skip_printing_tools: false },
                ) && r->Some_0.0 == ErrorOutcome::ConversationTooLarge
            },
            step is Err && !(step matches Err(ChatError::Client { kind, .. })
                && kind is ContextWindowOverflow && can_summarize) ==> final(self).inner == Some(
                ChatState::PromptUser { skip_printing_tools: false },
            ),
    {
        match step {
            Ok(state) => {
                self.inner = Some(state);
                None
            },
            Err(err) => Some(self.handle_error(err, can_summarize)),
        }
    }

    /// Records the text of a reported failure, cleaned of escape sequences
    /// and non-ASCII text, in the transcript.
    pub fn record_error_text(&mut self, text: &str) -> (r: String)
        requires
            old(self).wf(),
        ensures
            final(self).wf(),
            final(self).conversation.transcript@.len() == old(self).conversation.transcript@.len() + 1,
            final(self).conversation.transcript@.last()@ == r@,
            final(self).conversation.transcript@.drop_last() == old(self).conversation.transcript@,
            final(self).conversation.history == old(self).conversation.history,
            final(self).conversation.next_message == old(self).conversation.next_message,
            final(self).conversation.latest_summary == old(self).conversation.latest_summary,
            final(self).inner == old(self).inner,
            final(self).tool_uses == old(self).tool_uses,
            final(self).pending_tool_index == old(self).pending_tool_index,
            final(self).pending_sampling_index == old(self).pending_sampling_index,
            r@ == cleaned(text@),
    {
        let clean = sanitize_error_text(text);
        let copy = crate::text::copy_string(&clean);
        self.conversation.append_transcript(copy);
        clean
    }

    /// Whether the history is long enough to compact.
    pub fn can_compact(&self) -> (r: bool)
        ensures
            r == (self.conversation.history@.len() >= 2),
    {
        self.conversation.history_len() >= 2
    }

    /// After the summary came: it replaces the history; a message still
    /// waiting to go out is sent again.
    pub fn finish_compaction(&mut self, summary: String) -> (r: ChatState)
        requires
            old(self).wf(),
        ensures
            final(self).wf(),
            final(self).conversation.message_count() <= 3,
            final(self).conversation.history@.len() == 0,
            views(final(self).conversation.retained@) == crate::conversation::last_user_texts(
                old(self).conversation.history@,
                if old(self).conversation.next_message is Some {
                    1nat
                } else {
                    2nat
                },
            ),
            final(self).conversation.next_message == old(self).conversation.next_message,
            final(self).conversation.latest_summary == Some(summary),
            old(self).conversation.next_message is Some ==> r is HandleResponseStream,
            old(self).conversation.next_message is None ==> r == (ChatState::PromptUser {
                skip_printing_tools: true,
            }),
    {
        self.conversation.replace_history_with_summary(summary);
        if self.conversation.has_next_message() {
            ChatState::HandleResponseStream
        } else {
            ChatState::PromptUser { skip_printing_tools: true }
        }
    }

    /// The summary request itself overflowed: the conversation starts anew.
    pub fn compaction_overflowed(&mut self) -> (r: ChatState)
        requires
            old(self).wf(),
        ensures
            final(self).wf(),
            final(self).conversation.history@.len() == 0,
            final(self).conversation.next_message is None,
            r == (ChatState::PromptUser { skip_printing_tools: true }),
    {
        self.conversation.clear();
        ChatState::PromptUser { skip_printing_tools: true }
    }
}

/// The approval prompt never shows a tool and a sampling request at once:
/// every state a session reaches through its operations keeps `wf`.
pub proof fn lemma_one_approval_at_a_time(s: &ChatSession)
    requires
        s.wf(),
    ensures
        !(s.pending_tool_index is Some && s.pending_sampling_index is Some),
{
}

/// Whether the regex crate accepts `pattern`.
pub uninterp spec fn regex_valid(pattern: Seq<char>) -> bool;

/// What the regex crate leaves of `text` once every match of `pattern` is
/// removed.
pub uninterp spec fn regex_removed(pattern: Seq<char>, text: Seq<char>) -> Seq<char>;

/// Relies on `regex::Regex::new` and `Regex::replace_all`: `text` with every
/// match of `pattern` removed, or `None` when the pattern does not compile.
#[verifier::external_body]
fn remove_matches(pattern: &str, text: &str) -> (r: Option<String>)
    ensures
        r is Some <==> regex_valid(pattern@),
        r matches Some(s) ==> s@ == regex_removed(pattern@, text@),
{
    match regex::Regex::new(pattern) {
        Ok(re) => Some(re.replace_all(text, "").into_owned()),
        Err(_) => None,
    }
}

/// ANSI escape sequences, and runs of non-ASCII characters.
pub const ESCAPES_AND_NON_ASCII: &'static str = "((\\x9B|\\x1B\\[)[0-?]*[ -\\/]*[@-~])|([^\\x00-\\x7F]+)";

/// `text` without escape sequences and non-ASCII text, where the pattern
/// for them compiles.
pub open spec fn cleaned(text: Seq<char>) -> Seq<char> {
    if regex_valid(ESCAPES_AND_NON_ASCII@) {
        regex_removed(ESCAPES_AND_NON_ASCII@, text)
    } else {
        text
    }
}

/// The text of a failure as the user and the transcript see it: escape
/// sequences and non-ASCII text removed.
pub fn sanitize_error_text(text: &str) -> (r: String)
    ensures
        regex_valid(ESCAPES_AND_NON_ASCII@) ==> r@ == regex_removed(ESCAPES_AND_NON_ASCII@, text@),
        !regex_valid(ESCAPES_AND_NON_ASCII@) ==> r@ == text@,
{
    match remove_matches(ESCAPES_AND_NON_ASCII, text) {
        Some(s) => s,
        None => text.to_owned(),
    }
}

} // verus!

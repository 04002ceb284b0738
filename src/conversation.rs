//! The conversation with the model: turns of a user message and the
//! assistant's answer, where every tool use of an answer is answered by a
//! result, real or a cancellation, in the next user message.
use vstd::prelude::*;

use crate::json::Json;

use crate::text::{copy_string, views};

verus! {

#[derive(Debug, Clone, Copy, PartialEq, Eq, Structural)]
pub enum ToolResultStatus {
    Success,
    Error,
}

#[derive(Debug)]
pub enum ToolUseResultBlock {
    Text(String),
    Json(Json),
}

#[derive(Debug)]
pub struct ToolUseResult {
    pub tool_use_id: String,
    pub content: Vec<ToolUseResultBlock>,
    pub status: ToolResultStatus,
}

#[derive(Debug)]
pub struct AssistantToolUse {
    pub id: String,
    pub name: String,
    pub args: Json,
}

#[derive(Debug)]
pub struct UserMessage {
    pub content: String,
    pub tool_use_results: Vec<ToolUseResult>,
}

#[derive(Debug)]
pub struct AssistantMessage {
    pub message_id: Option<String>,
    pub content: String,
    pub tool_uses: Vec<AssistantToolUse>,
}

pub open spec fn use_ids(uses: Seq<AssistantToolUse>) -> Seq<Seq<char>> {
    uses.map_values(|u: AssistantToolUse| u.id@)
}

pub open spec fn result_ids(results: Seq<ToolUseResult>) -> Seq<Seq<char>> {
    results.map_values(|r: ToolUseResult| r.tool_use_id@)
}

/// A result for the tool use `id` that reports `text` as an error.
pub fn error_result(id: &String, text: &str) -> (r: ToolUseResult)
    ensures
        r.tool_use_id@ == id@,
        r.status == ToolResultStatus::Error,
{
    let mut content: Vec<ToolUseResultBlock> = Vec::new();
    content.push(ToolUseResultBlock::Text(text.to_owned()));
    ToolUseResult { tool_use_id: copy_string(id), content, status: ToolResultStatus::Error }
}

/// One result per tool use, in the same order, each reporting `text` as an
/// error.
pub fn cancelled_results(uses: &Vec<AssistantToolUse>, text: &str) -> (r: Vec<ToolUseResult>)
    ensures
        result_ids(r@) == use_ids(uses@),
        forall|i: int| 0 <= i < r@.len() ==> (#[trigger] r@[i]).status == ToolResultStatus::Error,
{
    let mut out: Vec<ToolUseResult> = Vec::new();
    let mut i: usize = 0;
    while i < uses.len()
        invariant
            i <= uses@.len(),
            out@.len() == i,
            forall|j: int| 0 <= j < i ==> (#[trigger] out@[j]).tool_use_id@ == uses@[j].id@,
            forall|j: int| 0 <= j < i ==> (#[trigger] out@[j]).status == ToolResultStatus::Error,
        decreases uses.len() - i,
    {
        out.push(error_result(&uses[i].id, text));
        i = i + 1;
    }
    assert(result_ids(out@) =~= use_ids(uses@));
    out
}

/// The results for `uses`, in their order: the given result where one has
/// the use's id, else a cancellation.
pub fn complete_results(uses: &Vec<AssistantToolUse>, results: Vec<ToolUseResult>) -> (r: Vec<
    ToolUseResult,
>)
    ensures
        result_ids(r@) == use_ids(uses@),
        result_ids(results@) == use_ids(uses@) ==> r@ == results@,
        forall|i: int|
            0 <= i < r@.len() ==> (#[trigger] r@[i]).status == ToolResultStatus::Error || exists|
                m: int,
            | 0 <= m < results@.len() && results@[m] == r@[i],
{
    let ghost orig = results@;
    let ghost exact = result_ids(orig) == use_ids(uses@);
    proof {
        if exact {
            assert(result_ids(orig).len() == orig.len());
        }
    }
    let mut pool = results;
    let mut out: Vec<ToolUseResult> = Vec::new();
    let ghost mut idx: Seq<int> = Seq::new(orig.len(), |j: int| j);
    let ghost mut src: Seq<int> = Seq::empty();
    let mut i: usize = 0;
    while i < uses.len()
        invariant
            i <= uses@.len(),
            out@.len() == i,
            exact == (result_ids(orig) == use_ids(uses@)),
            exact ==> orig.len() == uses@.len(),
            forall|j: int| 0 <= j < i ==> (#[trigger] out@[j]).tool_use_id@ == uses@[j].id@,
            idx.len() == pool@.len(),
            forall|j: int|
                0 <= j < pool@.len() ==> 0 <= #[trigger] idx[j] < orig.len() && orig[idx[j]] == pool@[j],
            src.len() == i,
            forall|j: int|
                0 <= j < i ==> (#[trigger] src[j] == -1 && out@[j].status == ToolResultStatus::Error) || (0
                    <= src[j] < orig.len() && orig[src[j]] == out@[j]),
            exact ==> pool@ == orig.skip(i as int) && out@ == orig.take(i as int),
        decreases uses.len() - i,
    {
        let id = &uses[i].id;
        let mut k: usize = 0;
        let mut found: Option<usize> = None;
        while k < pool.len()
            invariant
                k <= pool@.len(),
                found is None ==> forall|m: int| 0 <= m < k ==> (#[trigger] pool@[m]).tool_use_id@ != id@,
                found matches Some(f) ==> f < k && pool@[f as int].tool_use_id@ == id@ && forall|m: int|
                    0 <= m < f ==> (#[trigger] pool@[m]).tool_use_id@ != id@,
            decreases pool.len() - k,
        {
            if found.is_none() && pool[k].tool_use_id == *id {
                found = Some(k);
            }
            k = k + 1;
        }
        proof {
            if exact {
                assert(result_ids(orig)[i as int] == use_ids(uses@)[i as int]);
                assert(pool@[0] == orig[i as int]);
            }
        }
        let ghost before_pool = pool@;
        let ghost before_out = out@;
        match found {
            Some(f) => {
                let r = pool.remove(f);
                proof {
                    src = src.push(idx[f as int]);
                    idx = idx.remove(f as int);
                    assert forall|j: int| 0 <= j < pool@.len() implies 0 <= #[trigger] idx[j]
                        < orig.len() && orig[idx[j]] == pool@[j] by {
                        if j >= f {
                            assert(pool@[j] == before_pool[j + 1]);
                        }
                    }
                }
                out.push(r);
                proof {
                    if exact {
                        assert(f == 0);
                        assert(pool@ =~= orig.skip(i + 1));
                        assert(out@ =~= orig.take(i + 1));
                    }
                }
            },
            None => {
                out.push(error_result(id, "Tool use was cancelled by the user"));
                proof {
                    src = src.push(-1);
                }
            },
        }
        proof {
            assert forall|j: int| 0 <= j < i + 1 implies (#[trigger] src[j] == -1 && out@[j].status
                == ToolResultStatus::Error) || (0 <= src[j] < orig.len() && orig[src[j]] == out@[j]) by {
                if j < i {
                    assert(out@[j] == before_out[j]);
                }
            }
        }
        i = i + 1;
    }
    assert(result_ids(out@) =~= use_ids(uses@));
    proof {
        if exact {
            assert(orig.take(i as int) =~= orig);
        }
        assert forall|j: int| 0 <= j < out@.len() implies (#[trigger] out@[j]).status
            == ToolResultStatus::Error || exists|m: int| 0 <= m < orig.len() && orig[m] == out@[j] by {
            if src[j] != -1 {
                assert(orig[src[j]] == out@[j]);
            }
        }
    }
    out
}

/// The texts of the user messages of the last `n` turns (or of all turns,
/// when there are fewer), oldest first.
pub open spec fn last_user_texts(h: Seq<(UserMessage, AssistantMessage)>, n: nat) -> Seq<Seq<char>> {
    h.skip(if h.len() > n {
        h.len() - n
    } else {
        0
    }).map_values(|p: (UserMessage, AssistantMessage)| p.0.content@)
}

/// The conversation: committed turns, the user message that goes out with
/// the next request, and the summary that stands for compacted turns.
#[derive(Debug)]
pub struct ConversationState {
    pub history: Vec<(UserMessage, AssistantMessage)>,
    pub next_message: Option<UserMessage>,
    pub latest_summary: Option<String>,
    /// The user messages kept, as text, when the history was compacted.
    pub retained: Vec<String>,
    pub transcript: Vec<String>,
}

impl ConversationState {
    /// Each turn's user message answers the tool uses of the turn before,
    /// and the next message answers those of the last turn.
    pub open spec fn wf(&self) -> bool {
        &&& forall|i: int|
            0 <= i < self.history@.len() - 1 ==> result_ids(
                (#[trigger] self.history@[i + 1]).0.tool_use_results@,
            ) == use_ids(self.history@[i].1.tool_uses@)
        &&& self.history@.len() > 0 && self.next_message is Some ==> result_ids(
            self.next_message->Some_0.tool_use_results@,
        ) == use_ids(self.history@.last().1.tool_uses@)
    }

    /// No tool use is left without a result.
    pub open spec fn tool_uses_answered(&self) -> bool {
        &&& self.wf()
        &&& self.history@.len() > 0 && self.next_message is None ==> self.history@.last().1.tool_uses@.len()
            == 0
    }

    /// Messages that would go to the model: the summary, both messages of
    /// each turn, and the next message.
    pub open spec fn message_count(&self) -> int {
        (if self.latest_summary is Some { 1int } else { 0 }) + self.retained@.len() + 2
            * self.history@.len() + (
        if self.next_message is Some {
            1int
        } else {
            0
        })
    }

    pub open spec fn open_tool_uses(&self) -> Seq<Seq<char>> {
        if self.history@.len() == 0 {
            Seq::empty()
        } else {
            use_ids(self.history@.last().1.tool_uses@)
        }
    }

    pub fn new() -> (r: Self)
        ensures
            r.tool_uses_answered(),
            r.history@.len() == 0,
            r.next_message is None,
            r.latest_summary is None,
    {
        ConversationState {
            history: Vec::new(),
            next_message: None,
            latest_summary: None,
            retained: Vec::new(),
            transcript: Vec::new(),
        }
    }

    /// Sets the message that goes out next, with results for the tool uses
    /// of the last turn if any are open; each reports `cancel_text`.
    fn set_next(&mut self, content: String, cancel_text: &str)
        requires
            old(self).wf(),
        ensures
            final(self).wf(),
            final(self).history == old(self).history,
            final(self).latest_summary == old(self).latest_summary,
            final(self).next_message matches Some(m) && m.content == content && result_ids(
                m.tool_use_results@,
            ) == old(self).open_tool_uses(),
            forall|k: int|
                0 <= k < final(self).next_message->Some_0.tool_use_results@.len() ==> (#[trigger] final(
                    self).next_message->Some_0.tool_use_results@[k]).status == ToolResultStatus::Error,
    {
        let results = if self.history.len() > 0 {
            let last = self.history.len() - 1;
            cancelled_results(&self.history[last].1.tool_uses, cancel_text)
        } else {
            Vec::new()
        };
        proof {
            if old(self).history@.len() == 0 {
                assert(result_ids(results@) =~= Seq::<Seq<char>>::empty());
            }
        }
        self.next_message = Some(UserMessage { content, tool_use_results: results });
    }

    /// The user's next message. Tool uses still open are answered as
    /// cancelled.
    pub fn set_next_user_message(&mut self, content: String)
        requires
            old(self).wf(),
        ensures
            final(self).wf(),
            final(self).history == old(self).history,
            final(self).next_message matches Some(m) && m.content == content && result_ids(
                m.tool_use_results@,
            ) == old(self).open_tool_uses(),
            forall|k: int|
                0 <= k < final(self).next_message->Some_0.tool_use_results@.len() ==> (#[trigger] final(
                    self).next_message->Some_0.tool_use_results@[k]).status == ToolResultStatus::Error,
    {
        self.set_next(content, "Tool use was cancelled by the user")
    }

    /// Gives up the tool uses of the last turn: each gets a cancellation,
    /// and `content` goes with them as the user's message.
    pub fn abandon_tool_use(&mut self, content: String)
        requires
            old(self).wf(),
        ensures
            final(self).wf(),
            final(self).history == old(self).history,
            final(self).next_message matches Some(m) && m.content == content && result_ids(
                m.tool_use_results@,
            ) == old(self).open_tool_uses(),
            forall|k: int|
                0 <= k < final(self).next_message->Some_0.tool_use_results@.len() ==> (#[trigger] final(
                    self).next_message->Some_0.tool_use_results@[k]).status == ToolResultStatus::Error,
    {
        self.set_next(content, "Tool use was cancelled by the user")
    }

    /// The results of running the last turn's tools; a tool use without a
    /// result among them is answered as cancelled.
    pub fn add_tool_results(&mut self, results: Vec<ToolUseResult>)
        requires
            old(self).wf(),
        ensures
            final(self).wf(),
            final(self).history == old(self).history,
            final(self).next_message matches Some(m) && result_ids(m.tool_use_results@) == old(self).open_tool_uses(),
            result_ids(results@) == old(self).open_tool_uses() ==> final(self).next_message->Some_0.tool_use_results@
                == results@,
            forall|i: int|
                0 <= i < final(self).next_message->Some_0.tool_use_results@.len() ==> (#[trigger] final(
                    self).next_message->Some_0.tool_use_results@[i]).status == ToolResultStatus::Error
                    || exists|m: int|
                    0 <= m < results@.len() && results@[m] == final(
                        self).next_message->Some_0.tool_use_results@[i],
    {
        let ghost given = results@;
        proof {
            if old(self).history@.len() == 0 && result_ids(given) == old(self).open_tool_uses() {
                assert(result_ids(given).len() == given.len());
                assert(given =~= Seq::<ToolUseResult>::empty());
            }
        }
        let completed = if self.history.len() > 0 {
            let last = self.history.len() - 1;
            complete_results(&self.history[last].1.tool_uses, results)
        } else {
            Vec::new()
        };
        proof {
            if old(self).history@.len() == 0 {
                assert(result_ids(completed@) =~= Seq::<Seq<char>>::empty());
            }
        }
        self.next_message = Some(UserMessage { content: String::new(), tool_use_results: completed });
    }

    /// Commits the next message and the assistant's answer to it as a turn.
    pub fn push_assistant_message(&mut self, message: AssistantMessage)
        requires
            old(self).wf(),
            old(self).next_message is Some,
        ensures
            final(self).wf(),
            final(self).next_message is None,
            final(self).history@.len() == old(self).history@.len() + 1,
            final(self).history@.drop_last() == old(self).history@,
            final(self).history@.last().1 == message,
            final(self).history@.last().0 == old(self).next_message->Some_0,
            final(self).latest_summary == old(self).latest_summary,
    {
        let user = self.next_message.take().unwrap();
        let ghost before = self.history@;
        self.history.push((user, message));
        proof {
            assert(self.history@.drop_last() =~= before);
            assert forall|i: int| 0 <= i < self.history@.len() - 1 implies result_ids(
                (#[trigger] self.history@[i + 1]).0.tool_use_results@,
            ) == use_ids(self.history@[i].1.tool_uses@) by {
                if i + 1 < before.len() {
                    assert(self.history@[i + 1] == before[i + 1]);
                }
            }
        }
    }

    /// Drops the message that would go out next.
    pub fn reset_next_user_message(&mut self)
        requires
            old(self).wf(),
        ensures
            final(self).wf(),
            final(self).next_message is None,
            final(self).history == old(self).history,
    {
        self.next_message = None;
    }

    /// Replaces the committed turns by `summary`, keeping the last two user
    /// messages: the message waiting to go out, if any, stays, and the texts
    /// of the last user turns make up the rest.
    pub fn replace_history_with_summary(&mut self, summary: String)
        requires
            old(self).wf(),
        ensures
            final(self).wf(),
            final(self).latest_summary == Some(summary),
            final(self).next_message == old(self).next_message,
            final(self).history@.len() == 0,
            views(final(self).retained@) == last_user_texts(
                old(self).history@,
                if old(self).next_message is Some {
                    1nat
                } else {
                    2nat
                },
            ),
            final(self).message_count() <= 3,
    {
        let keep: usize = if self.next_message.is_some() {
            1
        } else {
            2
        };
        let n = self.history.len();
        let from: usize = if n > keep {
            n - keep
        } else {
            0
        };
        let mut kept: Vec<String> = Vec::new();
        let mut i: usize = from;
        while i < n
            invariant
                n == self.history@.len(),
                self.history == old(self).history,
                from <= i <= n,
                views(kept@) == self.history@.subrange(from as int, i as int).map_values(
                    |p: (UserMessage, AssistantMessage)| p.0.content@,
                ),
            decreases n - i,
        {
            let ghost before = kept@;
            kept.push(copy_string(&self.history[i].0.content));
            proof {
                assert(views(kept@) =~= views(before).push(self.history@[i as int].0.content@));
                assert(self.history@.subrange(from as int, i + 1).map_values(
                    |p: (UserMessage, AssistantMessage)| p.0.content@,
                ) =~= self.history@.subrange(from as int, i as int).map_values(
                    |p: (UserMessage, AssistantMessage)| p.0.content@,
                ).push(self.history@[i as int].0.content@));
            }
            i = i + 1;
        }
        assert(self.history@.subrange(from as int, n as int) =~= self.history@.skip(from as int));
        self.history.clear();
        self.retained = kept;
        self.latest_summary = Some(summary);
    }

    /// Forgets the whole conversation.
    pub fn clear(&mut self)
        ensures
            final(self).tool_uses_answered(),
            final(self).history@.len() == 0,
            final(self).next_message is None,
            final(self).latest_summary is None,
    {
        self.history.clear();
        self.next_message = None;
        self.latest_summary = None;
        self.retained.clear();
    }

    pub fn append_transcript(&mut self, text: String)
        ensures
            final(self).transcript@ == old(self).transcript@.push(text),
            final(self).history == old(self).history,
            final(self).next_message == old(self).next_message,
            final(self).latest_summary == old(self).latest_summary,
    {
        self.transcript.push(text);
    }

    pub fn history_len(&self) -> (r: usize)
        ensures
            r == self.history@.len(),
    {
        self.history.len()
    }

    pub fn has_next_message(&self) -> (r: bool)
        ensures
            r == self.next_message is Some,
    {
        self.next_message.is_some()
    }
}

} // verus!

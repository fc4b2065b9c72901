//! Folding the events of a streamed chat turn into the session.
use vstd::prelude::*;

use crate::protocol::{
    StreamEvent, json_copy, model_id_str, Message, MessagePart, MessageView, ModelId, PartView, Role, ToolCall, ToolResult,
};
use crate::runtime::model::session::{tool_calls_view, SessionState, StreamingState, ToolCallSpec, ToolCallView};
use crate::runtime::model::{StreamMsg, Toast};
use crate::runtime::update::session::{appended, error_toast};
use crate::text::{chars_of, push_all, string_of};

verus! {

/// The parts one tool call contributes to the committed message: the call,
/// then its result when it produced output.
pub open spec fn call_parts(c: ToolCallSpec) -> Seq<PartView> {
    let call = PartView::ToolCall { id: c.id, name: c.name, input: c.input };
    match c.output {
        Some(o) => seq![call, PartView::ToolResult { call_id: c.id, name: c.name, output: o, is_error: false }],
        None => seq![call],
    }
}

/// The parts of a turn's tool calls, in arrival order.
pub open spec fn calls_parts(calls: Seq<ToolCallSpec>) -> Seq<PartView>
    decreases calls.len(),
{
    if calls.len() == 0 {
        Seq::empty()
    } else {
        calls_parts(calls.drop_last()) + call_parts(calls.last())
    }
}

/// The assistant message a finished turn commits: its text first (when
/// there is any), then each tool call followed by its output, credited to
/// the provider of `model`.
pub open spec fn committed_message(buffer: Seq<char>, calls: Seq<ToolCallSpec>, model: ModelId) -> MessageView {
    MessageView {
        role: Role::Assistant,
        parts: (if buffer.len() > 0 {
            seq![PartView::Text(buffer)]
        } else {
            Seq::empty()
        }) + calls_parts(calls),
        provider: Some(model_id_str(model)),
    }
}

/// Assemble the assistant message of a finished turn from its buffered text
/// and its tool calls.
pub fn commit_assistant_message(st: StreamingState, model: ModelId) -> (m: Message)
    ensures
        m@ == committed_message(st.buffer@, tool_calls_view(st.tool_calls@), model),
{
    let ghost calls = tool_calls_view(st.tool_calls@);
    let mut parts: Vec<MessagePart> = Vec::new();
    let ghost head: Seq<PartView> = if st.buffer@.len() > 0 {
        seq![PartView::Text(st.buffer@)]
    } else {
        Seq::empty()
    };
    let text = chars_of(st.buffer.as_str());
    if text.len() > 0 {
        parts.push(MessagePart::Text { text: string_of(&text) });
    }
    assert(crate::protocol::parts_view(parts@) =~= head + calls_parts(calls.take(0)));
    let mut i: usize = 0;
    while i < st.tool_calls.len()
        invariant
            i <= st.tool_calls.len(),
            calls == tool_calls_view(st.tool_calls@),
            crate::protocol::parts_view(parts@) == head + calls_parts(calls.take(i as int)),
        decreases st.tool_calls.len() - i,
    {
        let c = &st.tool_calls[i];
        let ghost before = crate::protocol::parts_view(parts@);
        parts.push(MessagePart::ToolCall(ToolCall { id: c.id.clone(), name: c.name.clone(), input: json_copy(&c.input) }));
        match &c.output {
            Some(o) => {
                parts.push(
                    MessagePart::ToolResult(
                        ToolResult { call_id: c.id.clone(), name: c.name.clone(), output: json_copy(o), is_error: false },
                    ),
                );
            },
            None => {},
        }
        proof {
            assert(calls.take(i + 1).drop_last() =~= calls.take(i as int));
            assert(calls[i as int] == c@);
            assert(crate::protocol::parts_view(parts@) =~= before + call_parts(calls[i as int]));
        }
        i = i + 1;
    }
    assert(calls.take(st.tool_calls.len() as int) =~= calls);
    Message::assistant(parts, model.provider_id())
}

/// The tool calls after output `o` arrived for `id`: the first call with
/// that id records it; without such a call nothing changes.
pub open spec fn output_recorded(before: Seq<ToolCallView>, after: Seq<ToolCallView>, id: String, o: crate::protocol::JsonValue) -> bool {
    if exists|i: int| 0 <= i < before.len() && (#[trigger] before[i]).id@ == id@ {
        exists|i: int|
            #![trigger before[i]]
            0 <= i < before.len() && before[i].id@ == id@ && (forall|j: int| 0 <= j < i ==> (#[trigger] before[j]).id@ != id@)
                && after == before.update(i, ToolCallView { output: Some(o), ..before[i] })
    } else {
        after == before
    }
}

/// The turn `st` with its fields other than the text buffer and the tool
/// calls unchanged.
pub open spec fn same_turn(a: StreamingState, b: StreamingState) -> bool {
    a.assistant_id == b.assistant_id && a.started_at == b.started_at
}

/// What one streamed event does to the session. Without a turn in flight
/// every event is ignored. `Started` records the assistant message id,
/// `Delta` appends text, `ToolInput` records a new call, `ToolOutput` the
/// output of the first call with that id. `Finished` ends the turn and
/// commits exactly one assistant message to the history; `Failed` ends it,
/// discards what was buffered, keeps the history and raises an error toast.
pub open spec fn stream_post(s0: SessionState, ev: StreamMsg, s1: SessionState, t: Option<Toast>) -> bool {
    match s0.streaming {
        None => s1 == s0 && t is None,
        Some(st) => match ev {
            StreamMsg::Started(id) => t is None && s1 == (SessionState {
                streaming: Some(StreamingState { assistant_id: id, ..st }),
                ..s0
            }),
            StreamMsg::Delta(d) => {
                &&& t is None
                &&& s1 == (SessionState { streaming: s1.streaming, ..s0 })
                &&& s1.streaming matches Some(n) && same_turn(st, n) && n.tool_calls == st.tool_calls
                    && n.buffer@ == st.buffer@ + d@
            },
            StreamMsg::ToolInput { id, name, input } => {
                &&& t is None
                &&& s1 == (SessionState {
                    streaming: Some(
                        StreamingState {
                            tool_calls: s1.streaming->0.tool_calls,
                            ..st
                        },
                    ),
                    ..s0
                })
                &&& s1.streaming is Some
                &&& s1.streaming->0.tool_calls@ == st.tool_calls@.push(ToolCallView { id, name, input, output: None })
            },
            StreamMsg::ToolOutput { id, output } => {
                &&& t is None
                &&& s1 == (SessionState {
                    streaming: Some(
                        StreamingState {
                            tool_calls: s1.streaming->0.tool_calls,
                            ..st
                        },
                    ),
                    ..s0
                })
                &&& s1.streaming is Some
                &&& output_recorded(st.tool_calls@, s1.streaming->0.tool_calls@, id, output)
            },
            StreamMsg::Finished { .. } => {
                &&& t is None
                &&& s1 == (SessionState { session: s1.session, streaming: None, ..s0 })
                &&& match s0.session {
                    Some(sess) => s1.session matches Some(n) && appended(
                        sess,
                        n,
                        committed_message(st.buffer@, tool_calls_view(st.tool_calls@), sess.model),
                    ),
                    None => s1.session is None,
                }
            },
            StreamMsg::Failed(e) => s1 == (SessionState { streaming: None, ..s0 }) && error_toast(
                t,
                "stream failed: "@ + e@,
            ),
        },
    }
}

/// Fold one streamed event into the in-flight turn, returning a toast to
/// raise when the turn failed.
pub fn apply_stream_event(s: &mut SessionState, ev: StreamMsg) -> (t: Option<Toast>)
    ensures
        stream_post(*old(s), ev, *final(s), t),
{
    let st_opt = s.streaming.take();
    let mut st = match st_opt {
        Some(st) => st,
        None => {
            return None;
        },
    };
    match ev {
        StreamMsg::Started(id) => {
            st.assistant_id = id;
            s.streaming = Some(st);
            None
        },
        StreamMsg::Delta(delta) => {
            let mut buf = chars_of(st.buffer.as_str());
            let d = chars_of(delta.as_str());
            push_all(&mut buf, &d);
            st.buffer = string_of(&buf);
            s.streaming = Some(st);
            None
        },
        StreamMsg::ToolInput { id, name, input } => {
            st.tool_calls.push(ToolCallView { id, name, input, output: None });
            s.streaming = Some(st);
            None
        },
        StreamMsg::ToolOutput { id, output } => {
            let ghost before = st.tool_calls@;
            let mut i: usize = 0;
            let mut found: Option<usize> = None;
            while i < st.tool_calls.len()
                invariant_except_break
                    found is None,
                invariant
                    i <= st.tool_calls.len(),
                    st.tool_calls@ == before,
                    forall|j: int| 0 <= j < i ==> (#[trigger] before[j]).id@ != id@,
                ensures
                    match found {
                        Some(k) => k < before.len() && before[k as int].id@ == id@ && forall|j: int|
                            0 <= j < k ==> (#[trigger] before[j]).id@ != id@,
                        None => forall|j: int| 0 <= j < before.len() ==> (#[trigger] before[j]).id@ != id@,
                    },
                decreases st.tool_calls.len() - i,
            {
                let cid = chars_of(st.tool_calls[i].id.as_str());
                let want = chars_of(id.as_str());
                if crate::text::chars_eq(&cid, &want) {
                    found = Some(i);
                    break;
                }
                i = i + 1;
            }
            match found {
                Some(k) => {
                    let mut call = st.tool_calls.remove(k);
                    call.output = Some(output);
                    st.tool_calls.insert(k, call);
                    proof {
                        assert(st.tool_calls@ =~= before.update(
                            k as int,
                            ToolCallView { output: st.tool_calls@[k as int].output, ..before[k as int] },
                        ));
                    }
                },
                None => {},
            }
            s.streaming = Some(st);
            None
        },
        StreamMsg::Finished { .. } => {
            match s.session.take() {
                Some(mut sess) => {
                    let ghost before = sess;
                    let model = sess.model;
                    let ghost committed = committed_message(st.buffer@, tool_calls_view(st.tool_calls@), model);
                    let m = commit_assistant_message(st, model);
                    sess.messages.push(m);
                    proof {
                        assert(crate::protocol::messages_view(sess.messages@) =~= crate::protocol::messages_view(
                            before.messages@,
                        ).push(committed));
                    }
                    s.session = Some(sess);
                },
                None => {},
            }
            None
        },
        StreamMsg::Failed(e) => {
            let mut msg = chars_of("stream failed: ");
            let ec = chars_of(e.as_str());
            push_all(&mut msg, &ec);
            Some(Toast::error(string_of(&msg)))
        },
    }
}

/// The model message a decoded stream event becomes, and whether it ends
/// the stream: `Finish`, `Aborted` and `Error` are terminal, `Aborted` and
/// `Error` as failures.
pub open spec fn stream_msg_post(ev: StreamEvent, msg: StreamMsg, last: bool) -> bool {
    match ev {
        StreamEvent::Start { message_id } => msg == StreamMsg::Started(message_id) && !last,
        StreamEvent::TextDelta { delta } => msg == StreamMsg::Delta(delta) && !last,
        StreamEvent::ToolInputAvailable { tool_call_id, tool_name, input } => msg == (StreamMsg::ToolInput {
            id: tool_call_id,
            name: tool_name,
            input,
        }) && !last,
        StreamEvent::ToolOutputAvailable { tool_call_id, output } => msg == (StreamMsg::ToolOutput {
            id: tool_call_id,
            output,
        }) && !last,
        StreamEvent::Finish { duration_ms } => msg == (StreamMsg::Finished { duration_ms }) && last,
        StreamEvent::Aborted => (msg matches StreamMsg::Failed(e) && e@ == "aborted"@) && last,
        StreamEvent::Error { message } => msg == StreamMsg::Failed(message) && last,
    }
}

/// Translate one decoded event of the chat stream into the message the
/// model receives, and say whether the stream ends with it.
pub fn stream_msg_of(ev: StreamEvent) -> (r: (StreamMsg, bool))
    ensures
        stream_msg_post(ev, r.0, r.1),
{
    match ev {
        StreamEvent::Start { message_id } => (StreamMsg::Started(message_id), false),
        StreamEvent::TextDelta { delta } => (StreamMsg::Delta(delta), false),
        StreamEvent::ToolInputAvailable { tool_call_id, tool_name, input } => (
            StreamMsg::ToolInput { id: tool_call_id, name: tool_name, input },
            false,
        ),
        StreamEvent::ToolOutputAvailable { tool_call_id, output } => (
            StreamMsg::ToolOutput { id: tool_call_id, output },
            false,
        ),
        StreamEvent::Finish { duration_ms } => (StreamMsg::Finished { duration_ms }, true),
        StreamEvent::Aborted => (StreamMsg::Failed("aborted".to_string()), true),
        StreamEvent::Error { message } => (StreamMsg::Failed(message), true),
    }
}

/// Whether a model message ends a turn: it finished or it failed.
pub open spec fn is_terminal(m: StreamMsg) -> bool {
    m is Finished || m is Failed
}

/// What one item of the chat stream becomes, and whether the stream ends
/// with it: a decoded event as `stream_msg_post` says; a broken frame or
/// connection fails the turn with its text.
pub open spec fn stream_item_post(item: Result<StreamEvent, String>, msg: StreamMsg, last: bool) -> bool {
    match item {
        Ok(ev) => stream_msg_post(ev, msg, last),
        Err(e) => msg == StreamMsg::Failed(e) && last,
    }
}

/// What a stream that closes without ending the turn fails with.
pub const STREAM_CLOSED: &'static str = "stream closed before the turn finished";

/// The relay between a chat stream and the model: it passes each item on as
/// one message until a message ends the turn, drops what comes after, and
/// when the stream closes without one, ends the turn with a failure.
pub struct StreamRelay {
    /// Whether a message that ends the turn has been passed on.
    pub done: bool,
}

impl StreamRelay {
    /// A relay at the start of a stream.
    pub fn new() -> (r: StreamRelay)
        ensures
            !r.done,
    {
        StreamRelay { done: false }
    }

    /// The message for the next item of the stream, if it is passed on.
    pub fn step(&mut self, item: Result<StreamEvent, String>) -> (m: Option<StreamMsg>)
        ensures
            old(self).done ==> m is None && final(self).done,
            !old(self).done ==> (m matches Some(msg) && stream_item_post(item, msg, final(self).done)
                && final(self).done == is_terminal(msg)),
    {
        if self.done {
            return None;
        }
        let (msg, last) = match item {
            Ok(ev) => stream_msg_of(ev),
            Err(e) => (StreamMsg::Failed(e), true),
        };
        self.done = last;
        Some(msg)
    }

    /// The message to pass on when the stream closes: a failure when no
    /// message has ended the turn, nothing when one has.
    pub fn close(&self) -> (m: Option<StreamMsg>)
        ensures
            self.done <==> m is None,
            m is None || (m->0 matches StreamMsg::Failed(e) && e@ == STREAM_CLOSED@),
    {
        if self.done {
            None
        } else {
            Some(StreamMsg::Failed(STREAM_CLOSED.to_string()))
        }
    }
}

/// The messages a relay passes on for the item messages `msgs` of a stream
/// (each already translated), closing with `closing` when none ends the turn.
pub open spec fn relay_sent(msgs: Seq<StreamMsg>, closing: StreamMsg) -> Seq<StreamMsg>
    decreases msgs.len(),
{
    if msgs.len() == 0 {
        seq![closing]
    } else if is_terminal(msgs[0]) {
        seq![msgs[0]]
    } else {
        seq![msgs[0]] + relay_sent(msgs.drop_first(), closing)
    }
}

} // verus!

//! The wire vocabulary that the client shares with the server: roles, modes,
//! the model catalog, JSON values, message parts, chat requests and the
//! events of a streamed turn.
use vstd::prelude::*;

use crate::text::{chars_eq, chars_of};

verus! {

/// Who authored a message.
#[derive(Debug, Clone, Copy, PartialEq, Eq, Structural)]
pub enum Role {
    User,
    Assistant,
    Tool,
}

/// The interaction mode of a session.
#[derive(Debug, Clone, Copy, PartialEq, Eq, Structural)]
pub enum Mode {
    Build,
    Plan,
}

impl Default for Mode {
    fn default() -> (m: Self)
        ensures
            m == Mode::Build,
    {
        Mode::Build
    }
}

impl Mode {
    /// The mode's wire name.
    pub fn as_str(&self) -> (s: &'static str)
        ensures
            s@ == mode_name(*self),
    {
        match self {
            Mode::Build => "build",
            Mode::Plan => "plan",
        }
    }
}

pub open spec fn mode_name(m: Mode) -> Seq<char> {
    match m {
        Mode::Build => "build"@,
        Mode::Plan => "plan"@,
    }
}

/// Which API shape serves a model.
#[derive(Debug, Clone, Copy, PartialEq, Eq, Structural)]
pub enum ModelKind {
    AnthropicMessages,
    OpenAiChatCompletions,
}

/// The models the client knows by name, in display order.
#[derive(Debug, Clone, Copy, PartialEq, Eq, Structural)]
pub enum ModelId {
    KimiK2,
    Glm46,
    Qwen3Coder,
    MiniMaxM2,
}

impl Default for ModelId {
    fn default() -> (m: Self)
        ensures
            m == ModelId::KimiK2,
    {
        ModelId::KimiK2
    }
}

/// The built-in catalog, in its defined order.
pub open spec fn all_models_spec() -> Seq<ModelId> {
    seq![ModelId::KimiK2, ModelId::Glm46, ModelId::Qwen3Coder, ModelId::MiniMaxM2]
}

/// Provider-side id of a model.
pub open spec fn model_id_str(m: ModelId) -> Seq<char> {
    match m {
        ModelId::KimiK2 => "kimi-k2"@,
        ModelId::Glm46 => "glm-4.6"@,
        ModelId::Qwen3Coder => "qwen3-coder"@,
        ModelId::MiniMaxM2 => "minimax-m2"@,
    }
}

/// Human-friendly name of a model.
pub open spec fn model_display_name(m: ModelId) -> Seq<char> {
    match m {
        ModelId::KimiK2 => "Kimi K2"@,
        ModelId::Glm46 => "GLM 4.6"@,
        ModelId::Qwen3Coder => "Qwen3 Coder"@,
        ModelId::MiniMaxM2 => "MiniMax M2"@,
    }
}

/// A catalog model whose provider id or display name is `s`, if any.
pub open spec fn parse_model(s: Seq<char>) -> Option<ModelId> {
    if exists|i: int| 0 <= i < 4 && (model_id_str(#[trigger] all_models_spec()[i]) == s
        || model_display_name(all_models_spec()[i]) == s) {
        Some(
            all_models_spec()[choose|i: int|
                0 <= i < 4 && (model_id_str(#[trigger] all_models_spec()[i]) == s
                    || model_display_name(all_models_spec()[i]) == s)],
        )
    } else {
        None
    }
}

impl ModelId {
    /// Every catalog model, in display order.
    pub fn all() -> (v: Vec<ModelId>)
        ensures
            v@ == all_models_spec(),
    {
        let v = vec![ModelId::KimiK2, ModelId::Glm46, ModelId::Qwen3Coder, ModelId::MiniMaxM2];
        assert(v@ =~= all_models_spec());
        v
    }

    /// The provider-side id.
    pub fn as_str(&self) -> (s: &'static str)
        ensures
            s@ == model_id_str(*self),
    {
        match self {
            ModelId::KimiK2 => "kimi-k2",
            ModelId::Glm46 => "glm-4.6",
            ModelId::Qwen3Coder => "qwen3-coder",
            ModelId::MiniMaxM2 => "minimax-m2",
        }
    }

    /// The provider id recorded on assistant messages produced by this model.
    pub fn provider_id(&self) -> (s: &'static str)
        ensures
            s@ == model_id_str(*self),
    {
        self.as_str()
    }

    /// The human-friendly name.
    pub fn display_name(&self) -> (s: &'static str)
        ensures
            s@ == model_display_name(*self),
    {
        match self {
            ModelId::KimiK2 => "Kimi K2",
            ModelId::Glm46 => "GLM 4.6",
            ModelId::Qwen3Coder => "Qwen3 Coder",
            ModelId::MiniMaxM2 => "MiniMax M2",
        }
    }

    /// Which API shape serves the model.
    pub fn kind(&self) -> (k: ModelKind)
        ensures
            k == (if *self == ModelId::MiniMaxM2 {
                ModelKind::AnthropicMessages
            } else {
                ModelKind::OpenAiChatCompletions
            }),
    {
        match self {
            ModelId::MiniMaxM2 => ModelKind::AnthropicMessages,
            _ => ModelKind::OpenAiChatCompletions,
        }
    }

    /// Resolve a provider id or display name into the catalog.
    pub fn parse(s: &str) -> (m: Option<ModelId>)
        ensures
            m == parse_model(s@),
    {
        let v = chars_of(s);
        let all = ModelId::all();
        let mut i: usize = 0;
        while i < all.len()
            invariant
                all@ == all_models_spec(),
                i <= all.len(),
                v@ == s@,
                forall|j: int|
                    0 <= j < i ==> model_id_str(#[trigger] all_models_spec()[j]) != s@
                        && model_display_name(all_models_spec()[j]) != s@,
            decreases all.len() - i,
        {
            let m = all[i];
            let id = chars_of(m.as_str());
            let name = chars_of(m.display_name());
            if chars_eq(&id, &v) || chars_eq(&name, &v) {
                proof {
                    assert(all_models_spec()[i as int] == m);
                    let k = choose|k: int|
                        0 <= k < 4 && (model_id_str(#[trigger] all_models_spec()[k]) == s@
                            || model_display_name(all_models_spec()[k]) == s@);
                    lemma_catalog_names_distinct(k, i as int, s@);
                }
                return Some(m);
            }
            i = i + 1;
        }
        None
    }
}

/// No two catalog entries share a provider id or display name.
proof fn lemma_catalog_names_distinct(a: int, b: int, s: Seq<char>)
    requires
        0 <= a < 4,
        0 <= b < 4,
        model_id_str(all_models_spec()[a]) == s || model_display_name(all_models_spec()[a]) == s,
        model_id_str(all_models_spec()[b]) == s || model_display_name(all_models_spec()[b]) == s,
    ensures
        a == b,
{
    reveal_strlit("kimi-k2");
    reveal_strlit("glm-4.6");
    reveal_strlit("qwen3-coder");
    reveal_strlit("minimax-m2");
    reveal_strlit("Kimi K2");
    reveal_strlit("GLM 4.6");
    reveal_strlit("Qwen3 Coder");
    reveal_strlit("MiniMax M2");
    if a != b {
        let x = all_models_spec()[a];
        let y = all_models_spec()[b];
        assert(model_id_str(x)[0] != model_id_str(y)[0] || model_id_str(x)[1] != model_id_str(
            y,
        )[1] || model_id_str(x).len() != model_id_str(y).len());
        assert(false) by {
            assert(model_id_str(x).len() > 1 && model_display_name(x).len() > 1);
            assert(model_id_str(y).len() > 1 && model_display_name(y).len() > 1);
            if model_id_str(x) == s {
                if model_id_str(y) == s {
                    assert(model_id_str(x)[1] == model_id_str(y)[1]);
                } else {
                    assert(model_id_str(x)[0] == model_display_name(y)[0]);
                }
            } else {
                if model_id_str(y) == s {
                    assert(model_display_name(x)[0] == model_id_str(y)[0]);
                } else {
                    assert(model_display_name(x)[0] == model_display_name(y)[0]);
                    assert(model_display_name(x)[1] == model_display_name(y)[1]);
                }
            }
        }
    }
}

// ------------------------------------------------------------------ JSON

/// A JSON value as the client handles it. A number is held as its JSON text.
#[derive(Debug, PartialEq)]
pub enum JsonValue {
    Null,
    Bool(bool),
    Number(String),
    String(String),
    Array(Vec<JsonValue>),
    Object(Vec<(String, JsonValue)>),
}

/// The mathematical value of a [`JsonValue`].
pub enum JsonView {
    Null,
    Bool(bool),
    Number(Seq<char>),
    Str(Seq<char>),
    Array(Seq<JsonView>),
    Object(Seq<(Seq<char>, JsonView)>),
}

pub open spec fn json_view(v: JsonValue) -> JsonView
    decreases v,
{
    match v {
        JsonValue::Null => JsonView::Null,
        JsonValue::Bool(b) => JsonView::Bool(b),
        JsonValue::Number(n) => JsonView::Number(n@),
        JsonValue::String(s) => JsonView::Str(s@),
        JsonValue::Array(a) => JsonView::Array(json_list_view(a@)),
        JsonValue::Object(o) => JsonView::Object(json_fields_view(o@)),
    }
}

pub open spec fn json_list_view(s: Seq<JsonValue>) -> Seq<JsonView>
    decreases s,
{
    if s.len() == 0 {
        Seq::empty()
    } else {
        json_list_view(s.drop_last()).push(json_view(s.last()))
    }
}

pub open spec fn json_fields_view(s: Seq<(String, JsonValue)>) -> Seq<(Seq<char>, JsonView)>
    decreases s,
{
    if s.len() == 0 {
        Seq::empty()
    } else {
        json_fields_view(s.drop_last()).push((s.last().0@, json_view(s.last().1)))
    }
}

impl View for JsonValue {
    type V = JsonView;

    open spec fn view(&self) -> JsonView {
        json_view(*self)
    }
}

/// A deep copy of `v`.
pub fn json_copy(v: &JsonValue) -> (r: JsonValue)
    ensures
        r@ == v@,
    decreases v,
{
    match v {
        JsonValue::Null => JsonValue::Null,
        JsonValue::Bool(b) => JsonValue::Bool(*b),
        JsonValue::Number(n) => JsonValue::Number(n.clone()),
        JsonValue::String(s) => JsonValue::String(s.clone()),
        JsonValue::Array(a) => {
            let mut out: Vec<JsonValue> = Vec::new();
            let mut i: usize = 0;
            while i < a.len()
                invariant
                    i <= a.len(),
                    *v == JsonValue::Array(*a),
                    json_list_view(out@) == json_list_view(a@.take(i as int)),
                decreases a.len() - i,
            {
                proof {
                    assert(decreases_to!(*v => v->Array_0));
                    assert(decreases_to!(v->Array_0 => v->Array_0@));
                    assert(decreases_to!(v->Array_0@ => v->Array_0@[i as int]));
                }
                let x = json_copy(&a[i]);
                let ghost before = out@;
                out.push(x);
                proof {
                    assert(out@.drop_last() =~= before);
                    assert(a@.take(i + 1).drop_last() =~= a@.take(i as int));
                }
                i = i + 1;
            }
            assert(a@.take(a.len() as int) =~= a@);
            JsonValue::Array(out)
        },
        JsonValue::Object(o) => {
            let mut out: Vec<(String, JsonValue)> = Vec::new();
            let mut i: usize = 0;
            while i < o.len()
                invariant
                    i <= o.len(),
                    *v == JsonValue::Object(*o),
                    json_fields_view(out@) == json_fields_view(o@.take(i as int)),
                decreases o.len() - i,
            {
                proof {
                    assert(decreases_to!(*v => v->Object_0));
                    assert(decreases_to!(v->Object_0 => v->Object_0@));
                    assert(decreases_to!(v->Object_0@ => v->Object_0@[i as int]));
                    assert(decreases_to!(v->Object_0@[i as int] => v->Object_0@[i as int].1));
                }
                let k = o[i].0.clone();
                let x = json_copy(&o[i].1);
                let ghost before = out@;
                out.push((k, x));
                proof {
                    assert(out@.drop_last() =~= before);
                    assert(o@.take(i + 1).drop_last() =~= o@.take(i as int));
                }
                i = i + 1;
            }
            assert(o@.take(o.len() as int) =~= o@);
            JsonValue::Object(out)
        },
    }
}

// -------------------------------------------------------------- messages

/// A tool invocation by the model.
#[derive(Debug, PartialEq)]
pub struct ToolCall {
    pub id: String,
    pub name: String,
    pub input: JsonValue,
}

/// The outcome of a tool invocation.
#[derive(Debug, PartialEq)]
pub struct ToolResult {
    pub call_id: String,
    pub name: String,
    pub output: JsonValue,
    pub is_error: bool,
}

/// One part of a message, in arrival order.
#[derive(Debug, PartialEq)]
pub enum MessagePart {
    Text { text: String },
    ToolCall(ToolCall),
    ToolResult(ToolResult),
    FileMention { path: String },
}

/// A message of a session's history.
#[derive(Debug, PartialEq)]
pub struct Message {
    pub role: Role,
    pub parts: Vec<MessagePart>,
    /// The provider id of the model that wrote an assistant message.
    pub provider: Option<String>,
}

/// The mathematical value of a [`MessagePart`].
pub enum PartView {
    Text(Seq<char>),
    ToolCall { id: Seq<char>, name: Seq<char>, input: JsonView },
    ToolResult { call_id: Seq<char>, name: Seq<char>, output: JsonView, is_error: bool },
    FileMention(Seq<char>),
}

/// The mathematical value of a [`Message`].
pub struct MessageView {
    pub role: Role,
    pub parts: Seq<PartView>,
    pub provider: Option<Seq<char>>,
}

pub open spec fn opt_str_view(o: Option<String>) -> Option<Seq<char>> {
    match o {
        Some(s) => Some(s@),
        None => None,
    }
}

impl View for MessagePart {
    type V = PartView;

    open spec fn view(&self) -> PartView {
        match self {
            MessagePart::Text { text } => PartView::Text(text@),
            MessagePart::ToolCall(c) => PartView::ToolCall {
                id: c.id@,
                name: c.name@,
                input: c.input@,
            },
            MessagePart::ToolResult(r) => PartView::ToolResult {
                call_id: r.call_id@,
                name: r.name@,
                output: r.output@,
                is_error: r.is_error,
            },
            MessagePart::FileMention { path } => PartView::FileMention(path@),
        }
    }
}

pub open spec fn parts_view(s: Seq<MessagePart>) -> Seq<PartView> {
    s.map_values(|p: MessagePart| p@)
}

impl View for Message {
    type V = MessageView;

    open spec fn view(&self) -> MessageView {
        MessageView { role: self.role, parts: parts_view(self.parts@), provider: opt_str_view(self.provider) }
    }
}

pub open spec fn messages_view(s: Seq<Message>) -> Seq<MessageView> {
    s.map_values(|m: Message| m@)
}

/// A deep copy of a message part.
pub fn part_copy(p: &MessagePart) -> (r: MessagePart)
    ensures
        r@ == p@,
{
    match p {
        MessagePart::Text { text } => MessagePart::Text { text: text.clone() },
        MessagePart::ToolCall(c) => MessagePart::ToolCall(
            ToolCall { id: c.id.clone(), name: c.name.clone(), input: json_copy(&c.input) },
        ),
        MessagePart::ToolResult(r) => MessagePart::ToolResult(
            ToolResult {
                call_id: r.call_id.clone(),
                name: r.name.clone(),
                output: json_copy(&r.output),
                is_error: r.is_error,
            },
        ),
        MessagePart::FileMention { path } => MessagePart::FileMention { path: path.clone() },
    }
}

/// A deep copy of a message.
pub fn message_copy(m: &Message) -> (r: Message)
    ensures
        r@ == m@,
{
    let mut parts: Vec<MessagePart> = Vec::new();
    let mut i: usize = 0;
    while i < m.parts.len()
        invariant
            i <= m.parts.len(),
            parts@.len() == i,
            forall|j: int| 0 <= j < i ==> (#[trigger] parts@[j])@ == m.parts@[j]@,
        decreases m.parts.len() - i,
    {
        parts.push(part_copy(&m.parts[i]));
        i = i + 1;
    }
    let provider = match &m.provider {
        Some(s) => Some(s.clone()),
        None => None,
    };
    let r = Message { role: m.role, parts, provider };
    assert(parts_view(r.parts@) =~= parts_view(m.parts@));
    r
}

/// A deep copy of a message history.
pub fn messages_copy(v: &Vec<Message>) -> (r: Vec<Message>)
    ensures
        messages_view(r@) == messages_view(v@),
{
    let mut out: Vec<Message> = Vec::new();
    let mut i: usize = 0;
    while i < v.len()
        invariant
            i <= v.len(),
            out@.len() == i,
            forall|j: int| 0 <= j < i ==> (#[trigger] out@[j])@ == v@[j]@,
        decreases v.len() - i,
    {
        out.push(message_copy(&v[i]));
        i = i + 1;
    }
    assert(messages_view(out@) =~= messages_view(v@));
    out
}

impl Message {
    /// A user message made of `parts`.
    pub fn user(parts: Vec<MessagePart>) -> (m: Message)
        ensures
            m.role == Role::User,
            m.parts == parts,
            m.provider == None::<String>,
    {
        Message { role: Role::User, parts, provider: None }
    }

    /// An assistant message made of `parts`, written by the model `provider`.
    pub fn assistant(parts: Vec<MessagePart>, provider: &str) -> (m: Message)
        ensures
            m.role == Role::Assistant,
            m.parts == parts,
            opt_str_view(m.provider) == Some(provider@),
    {
        Message { role: Role::Assistant, parts, provider: Some(provider.to_string()) }
    }
}

/// The body of `POST /chat`.
#[derive(Debug)]
pub struct ChatRequest {
    pub session_id: u128,
    pub model: ModelId,
    pub mode: Mode,
    pub messages: Vec<Message>,
}

/// One decoded event of the chat SSE stream.
#[derive(Debug)]
pub enum StreamEvent {
    Start { message_id: u128 },
    TextDelta { delta: String },
    ToolInputAvailable { tool_call_id: String, tool_name: String, input: JsonValue },
    ToolOutputAvailable { tool_call_id: String, output: JsonValue },
    Finish { duration_ms: u64 },
    Aborted,
    Error { message: String },
}

} // verus!

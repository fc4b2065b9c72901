//! The session screen's keys: editing, scrolling the transcript, slash
//! commands and submitting a message.
use vstd::prelude::*;

use crate::net::{CreateSessionRequest, Session};
use crate::protocol::{messages_view, Message, MessagePart, MessageView, Mode, PartView, Role, ChatRequest};
use crate::runtime::model::editor::{composer_lines, composer_text, edited, input_post, now, Composer};
use crate::runtime::model::events::{KeyCode, KeyEvent};
use crate::runtime::model::session::{fresh_turn, Overlay, SessionState, StreamingState};
use crate::runtime::model::{Cmd, Toast, ToastKind};
use crate::text::{
    chars_eq, chars_of, collapse_ws, first_line, first_word, first_word_of, join, lines_of, push_all,
    string_of, sub_vec, trim, trim_end, trimmed, trimmed_end, words,
};

verus! {

/// Longest title derived from a first message.
pub const MAX_TITLE_LEN: usize = 60;

/// The title a first message gives a new session: its first line with
/// whitespace runs collapsed to single spaces, cut to 60 characters (and
/// then trimmed at the end).
pub open spec fn derived_title(text: Seq<char>) -> Seq<char> {
    let collapsed = join(words(first_line(text)), seq![' ']);
    if collapsed.len() <= MAX_TITLE_LEN {
        collapsed
    } else {
        trim_end(collapsed.take(MAX_TITLE_LEN as int))
    }
}

/// Derive a one-line session title from the first message.
pub fn derive_title(text: &str) -> (title: String)
    ensures
        title@ == derived_title(text@),
{
    let v = chars_of(text);
    let ls = lines_of(&v);
    let first: Vec<char> = if ls.len() > 0 {
        let f = sub_vec(&ls[0], 0, ls[0].len());
        assert(ls@[0]@.subrange(0, ls@[0]@.len() as int) =~= ls@[0]@);
        f
    } else {
        sub_vec(&v, 0, v.len())
    };
    assert(v@.subrange(0, v@.len() as int) =~= v@);
    let collapsed = collapse_ws(&first);
    if collapsed.len() <= MAX_TITLE_LEN {
        string_of(&collapsed)
    } else {
        let cut = sub_vec(&collapsed, 0, MAX_TITLE_LEN);
        assert(collapsed@.subrange(0, MAX_TITLE_LEN as int) =~= collapsed@.take(MAX_TITLE_LEN as int));
        let t = trimmed_end(&cut);
        string_of(&t)
    }
}

/// The scroll offset after moving `delta` lines from `scroll`, kept within `[0, max]`.
pub open spec fn scrolled(scroll: u16, max: u16, delta: int) -> u16 {
    if scroll + delta < 0 {
        0
    } else if scroll + delta > max {
        max
    } else {
        (scroll + delta) as u16
    }
}

/// The session screen after scrolling by `delta`: reaching the bottom
/// re-engages following the latest line, anything above releases it.
pub open spec fn scrolled_state(s: SessionState, delta: int) -> SessionState {
    let next = scrolled(s.scroll, s.max_scroll, delta);
    SessionState { scroll: next, follow: next >= s.max_scroll, ..s }
}

/// Move the transcript scroll offset by `delta` wrapped lines.
pub fn scroll_by(s: &mut SessionState, delta: i32)
    ensures
        *final(s) == scrolled_state(*old(s), delta as int),
{
    let target = s.scroll as i64 + delta as i64;
    let next: u16 = if target < 0 {
        0
    } else if target > s.max_scroll as i64 {
        s.max_scroll
    } else {
        target as u16
    };
    s.scroll = next;
    s.follow = next >= s.max_scroll;
}

/// The message a user's submitted text becomes.
pub open spec fn user_message(text: Seq<char>) -> MessageView {
    MessageView { role: Role::User, parts: seq![PartView::Text(text)], provider: None }
}

/// `b` is `a` with the same identity and settings.
pub open spec fn same_meta(a: Session, b: Session) -> bool {
    &&& a.id == b.id
    &&& a.title == b.title
    &&& a.model == b.model
    &&& a.mode == b.mode
    &&& a.created_at == b.created_at
    &&& a.updated_at == b.updated_at
}

/// `b` is `a` with `m` appended to its history.
pub open spec fn appended(a: Session, b: Session, m: MessageView) -> bool {
    same_meta(a, b) && messages_view(b.messages@) == messages_view(a.messages@).push(m)
}

/// `req` asks to continue the chat of `s` with its whole history.
pub open spec fn chat_request_for(req: ChatRequest, s: Session) -> bool {
    &&& req.session_id == s.id
    &&& req.model == s.model
    &&& req.mode == s.mode
    &&& messages_view(req.messages@) == messages_view(s.messages@)
}

/// The submitted text: the composer's text, trimmed.
pub open spec fn submitted(s: SessionState) -> Seq<char> {
    trim(composer_text(s.input))
}

/// The command word of a slash command `t` (`t` starts with `/`).
pub open spec fn command_word(t: Seq<char>) -> Seq<char> {
    first_word(t.drop_first())
}

/// The overlay a slash command opens; an unknown command opens none.
pub open spec fn command_overlay(word: Seq<char>, current: Overlay) -> Overlay {
    if word == "tools"@ {
        Overlay::Tools
    } else if word == "skills"@ {
        Overlay::Skills
    } else {
        current
    }
}

pub open spec fn known_command(word: Seq<char>) -> bool {
    word == "tools"@ || word == "skills"@
}

/// An error toast reading `text`.
pub open spec fn error_toast(t: Option<Toast>, text: Seq<char>) -> bool {
    t matches Some(x) && x.kind == ToastKind::Error && x.text@ == text
}

/// The composer holds nothing.
pub open spec fn cleared(c: Composer) -> bool {
    composer_lines(c) == seq![Seq::<char>::empty()]
}

/// What Enter does on the session input. Empty input, or a turn already in
/// flight, changes nothing. A slash command clears the input and opens its
/// overlay, or raises an error for an unknown command. Any other text is
/// committed to the history as a user message and starts a turn; without a
/// session yet, it is kept as the pending first message while a session
/// titled after it is created.
pub open spec fn submit_post(
    s0: SessionState,
    s1: SessionState,
    t0: Option<Toast>,
    t1: Option<Toast>,
    cmd: Cmd,
) -> bool {
    let t = submitted(s0);
    if t.len() == 0 || s0.streaming is Some {
        s1 == s0 && t1 == t0 && cmd is Noop
    } else if t[0] == '/' {
        let w = command_word(t);
        &&& s1 == (SessionState { input: s1.input, overlay: command_overlay(w, s0.overlay), ..s0 })
        &&& cleared(s1.input)
        &&& if known_command(w) {
            t1 == t0
        } else {
            error_toast(t1, "unknown command: /"@ + w)
        }
        &&& cmd is Noop
    } else if s0.session is Some {
        &&& s1 == (SessionState {
            session: s1.session,
            input: s1.input,
            follow: true,
            streaming: s1.streaming,
            ..s0
        })
        &&& s1.session matches Some(sess) && appended(s0.session->0, sess, user_message(t))
        &&& cleared(s1.input)
        &&& s1.streaming matches Some(st) && fresh_turn(st)
        &&& t1 == t0
        &&& cmd matches Cmd::StartChat(req) && chat_request_for(req, s1.session->0)
    } else {
        &&& s1 == (SessionState {
            pending_chat: s1.pending_chat,
            creating: true,
            creation_started_at: s1.creation_started_at,
            ..s0
        })
        &&& s1.pending_chat matches Some(p) && p@ == t
        &&& s1.creation_started_at is Some
        &&& t1 == t0
        &&& cmd matches Cmd::CreateSession(req) && req.title@ == derived_title(t) && req.model is None
            && req.mode == Some(Mode::Build)
    }
}

/// A user message holding `text`.
pub fn user_message_of(text: String) -> (m: Message)
    ensures
        m@ == user_message(text@),
{
    let m = Message::user(vec![MessagePart::Text { text }]);
    assert(m@.parts =~= seq![PartView::Text(text@)]);
    m
}

/// A request to continue the chat of `session` with its whole history.
pub fn chat_request(session: &Session) -> (req: ChatRequest)
    ensures
        chat_request_for(req, *session),
{
    ChatRequest {
        session_id: session.id,
        model: session.model,
        mode: session.mode,
        messages: crate::protocol::messages_copy(&session.messages),
    }
}

/// Handle Enter in the session input: slash command, first message of a new
/// session, or a message in the existing one.
pub fn on_session_submit(s: &mut SessionState, toast: &mut Option<Toast>) -> (cmd: Cmd)
    ensures
        submit_post(*old(s), *final(s), *old(toast), *final(toast), cmd),
{
    let text = s.input.text_chars();
    let t = trimmed(&text);
    if t.len() == 0 {
        return Cmd::Noop;
    }
    // One turn at a time: the input stays for a retry once the turn ends.
    if s.streaming.is_some() {
        return Cmd::Noop;
    }
    if t[0] == '/' {
        s.input = Composer::new();
        let rest = sub_vec(&t, 1, t.len());
        assert(rest@ =~= t@.drop_first());
        let word = first_word_of(&rest);
        let tools = chars_of("tools");
        let skills = chars_of("skills");
        if chars_eq(&word, &tools) {
            s.overlay = Overlay::Tools;
        } else if chars_eq(&word, &skills) {
            s.overlay = Overlay::Skills;
        } else {
            let mut msg = chars_of("unknown command: /");
            push_all(&mut msg, &word);
            *toast = Some(Toast::error(string_of(&msg)));
        }
        return Cmd::Noop;
    }
    let user_text = string_of(&t);
    match s.session.take() {
        Some(mut session) => {
            let ghost before = session;
            session.messages.push(user_message_of(user_text));
            proof {
                assert(messages_view(session.messages@) =~= messages_view(before.messages@).push(
                    user_message(t@),
                ));
            }
            let req = chat_request(&session);
            s.session = Some(session);
            // Snap back to the latest line so the reply streams into view.
            s.follow = true;
            // The real id arrives with the stream's first event.
            s.streaming = Some(StreamingState::new(0));
            s.input = Composer::new();
            Cmd::StartChat(req)
        },
        None => {
            // No session yet: keep the text as the pending first message,
            // and keep it in the composer too so a failed create can be retried.
            let title = derive_title(user_text.as_str());
            s.pending_chat = Some(user_text);
            s.creating = true;
            s.creation_started_at = Some(now());
            Cmd::CreateSession(CreateSessionRequest { title, model: None, mode: Some(Mode::Build) })
        },
    }
}

/// The step `PageUp`/`PageDown` scroll by: the viewport height, at least 1.
pub open spec fn page(s: SessionState) -> int {
    if s.viewport < 1 {
        1
    } else {
        s.viewport as int
    }
}

/// The transcript keys shared by the session screen and the Workspace chat:
/// Enter submits, the arrows and page keys scroll, anything else edits the input.
pub open spec fn chat_key_post(
    key: KeyEvent,
    s0: SessionState,
    s1: SessionState,
    t0: Option<Toast>,
    t1: Option<Toast>,
    cmd: Cmd,
) -> bool {
    match key.code {
        KeyCode::Enter => submit_post(s0, s1, t0, t1, cmd),
        KeyCode::Up => s1 == scrolled_state(s0, -1) && t1 == t0 && cmd is Noop,
        KeyCode::Down => s1 == scrolled_state(s0, 1) && t1 == t0 && cmd is Noop,
        KeyCode::PageUp => s1 == scrolled_state(s0, -page(s0)) && t1 == t0 && cmd is Noop,
        KeyCode::PageDown => s1 == scrolled_state(s0, page(s0)) && t1 == t0 && cmd is Noop,
        _ => s1 == (SessionState { input: s1.input, ..s0 }) && edited(s0.input, key, s1.input) && t1 == t0
            && cmd is Noop,
    }
}

/// Handle a transcript key: submit, scroll, or edit the input.
pub fn on_chat_key(s: &mut SessionState, toast: &mut Option<Toast>, key: KeyEvent) -> (cmd: Cmd)
    ensures
        chat_key_post(key, *old(s), *final(s), *old(toast), *final(toast), cmd),
{
    match key.code {
        KeyCode::Enter => on_session_submit(s, toast),
        KeyCode::Up => {
            scroll_by(s, -1);
            Cmd::Noop
        },
        KeyCode::Down => {
            scroll_by(s, 1);
            Cmd::Noop
        },
        KeyCode::PageUp => {
            let step: i32 = if s.viewport < 1 { 1 } else { s.viewport as i32 };
            scroll_by(s, -step);
            Cmd::Noop
        },
        KeyCode::PageDown => {
            let step: i32 = if s.viewport < 1 { 1 } else { s.viewport as i32 };
            scroll_by(s, step);
            Cmd::Noop
        },
        _ => {
            let changed = s.input.input(&key);
            assert(input_post(old(s).input, key, s.input, changed));
            Cmd::Noop
        },
    }
}

/// What a key does on the session screen. Esc closes the overlay. `q` quits
/// when no overlay is open and no session is being created. While a session
/// is being created every other key is ignored. Otherwise the transcript
/// keys apply.
pub open spec fn session_key_post(
    key: KeyEvent,
    s0: SessionState,
    s1: SessionState,
    q0: bool,
    q1: bool,
    t0: Option<Toast>,
    t1: Option<Toast>,
    cmd: Cmd,
) -> bool {
    if key.code == KeyCode::Esc {
        s1 == (SessionState { overlay: Overlay::Closed, ..s0 }) && q1 == q0 && t1 == t0 && cmd is Noop
    } else if key.code == KeyCode::Char('q') && s0.overlay == Overlay::Closed && !s0.creating {
        s1 == s0 && q1 && t1 == t0 && cmd is Noop
    } else if s0.creating {
        s1 == s0 && q1 == q0 && t1 == t0 && cmd is Noop
    } else {
        q1 == q0 && chat_key_post(key, s0, s1, t0, t1, cmd)
    }
}

/// Session screen: input editing, submit, slash commands, scrolling.
pub fn on_session_key(s: &mut SessionState, quit: &mut bool, toast: &mut Option<Toast>, key: KeyEvent) -> (cmd: Cmd)
    ensures
        session_key_post(key, *old(s), *final(s), *old(quit), *final(quit), *old(toast), *final(toast), cmd),
{
    if key.code == KeyCode::Esc {
        // Close an open overlay; with everything closed, Esc does nothing.
        s.overlay = Overlay::Closed;
        return Cmd::Noop;
    }
    if key.code == KeyCode::Char('q') && s.overlay == Overlay::Closed && !s.creating {
        *quit = true;
        return Cmd::Noop;
    }
    if s.creating {
        // A creation is in flight for the pending message: no double submit.
        return Cmd::Noop;
    }
    on_chat_key(s, toast, key)
}

/// The session screen after the creation of its session finished. A new
/// session is adopted and the creation ends; a pending first message is
/// committed as the first turn (clearing the input) and the turn starts.
/// A refusal ends the creation, drops the pending message (the input keeps
/// the text for a retry) and raises an error toast.
pub open spec fn session_created_post(
    s0: SessionState,
    result: Result<Session, crate::net::CreateError>,
    s1: SessionState,
    t0: Option<Toast>,
    t1: Option<Toast>,
    cmd: Cmd,
) -> bool {
    match result {
        Ok(session) => {
            &&& t1 == t0
            &&& match s0.pending_chat {
                Some(text) => {
                    &&& s1 == (SessionState {
                        session: s1.session,
                        input: s1.input,
                        pending_chat: None,
                        creating: false,
                        creation_started_at: None,
                        follow: true,
                        streaming: s1.streaming,
                        ..s0
                    })
                    &&& s1.session matches Some(sess) && appended(session, sess, user_message(text@))
                    &&& cleared(s1.input)
                    &&& s1.streaming matches Some(st) && fresh_turn(st)
                    &&& cmd matches Cmd::StartChat(req) && chat_request_for(req, s1.session->0)
                },
                None => s1 == (SessionState {
                    session: Some(session),
                    creating: false,
                    creation_started_at: None,
                    ..s0
                }) && cmd is Noop,
            }
        },
        Err(e) => {
            &&& s1 == (SessionState { pending_chat: None, creating: false, creation_started_at: None, ..s0 })
            &&& error_toast(t1, crate::runtime::update::workspace::create_error_text(e))
            &&& cmd is Noop
        },
    }
}

/// Adopt the outcome of creating the session screen's session.
pub fn adopt_created(s: &mut SessionState, toast: &mut Option<Toast>, result: Result<Session, crate::net::CreateError>) -> (cmd: Cmd)
    ensures
        session_created_post(*old(s), result, *final(s), *old(toast), *final(toast), cmd),
{
    match result {
        Ok(session) => {
            let pending = s.pending_chat.take();
            s.creating = false;
            s.creation_started_at = None;
            match pending {
                Some(text) => {
                    let mut session = session;
                    let ghost before = session;
                    let ghost tv = text@;
                    session.messages.push(user_message_of(text));
                    proof {
                        assert(messages_view(session.messages@) =~= messages_view(before.messages@).push(
                            user_message(tv),
                        ));
                    }
                    let req = chat_request(&session);
                    s.session = Some(session);
                    s.follow = true;
                    // The real id arrives with the stream's first event.
                    s.streaming = Some(StreamingState::new(0));
                    // The first turn is committed: the composer empties.
                    s.input = Composer::new();
                    Cmd::StartChat(req)
                },
                None => {
                    s.session = Some(session);
                    Cmd::Noop
                },
            }
        },
        Err(e) => {
            // The composer keeps the typed text so the user can retry.
            s.creating = false;
            s.creation_started_at = None;
            s.pending_chat = None;
            *toast = Some(crate::runtime::update::workspace::create_error_toast(e));
            Cmd::Noop
        },
    }
}

} // verus!

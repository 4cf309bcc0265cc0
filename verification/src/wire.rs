//! The wire codec. Everything a client may send is a `ClientMessage`,
//! a tagged union of a free-form log line and an opaque action
//! payload; on the wire it is a JSON object with exactly one key, the
//! tag. Inbound traffic is the server's per-turn game-state snapshot,
//! an opaque JSON value that is validated here and passed through to
//! the bot unexamined.

use vstd::prelude::*;
use crate::errors::ProtocolError;
use crate::json::{is_json_value, json_parses};
use crate::text::{dec_digit, push_char};

verus! {

/// Everything a client may send: a diagnostic log line, or the action
/// the bot chose for the current turn. Exactly one variant is active
/// per message; the tag routes the message on the server side.
pub enum ClientMessage {
    /// A free-form diagnostic line for the server's log.
    Log(String),
    /// The bot's decision for one turn, already rendered as a JSON
    /// value by the embedding application; carried through opaquely.
    Action(String),
}

/// The abstract value of a `ClientMessage`: the same union over
/// character sequences.
pub enum MessageView {
    Log(Seq<char>),
    Action(Seq<char>),
}

impl View for ClientMessage {
    type V = MessageView;

    open spec fn view(&self) -> MessageView {
        match self {
            ClientMessage::Log(text) => MessageView::Log(text@),
            ClientMessage::Action(payload) => MessageView::Action(payload@),
        }
    }
}

/// The routing tag of a message.
#[derive(Clone, Copy, Debug, PartialEq, Eq, Structural)]
pub enum MessageTag {
    Log,
    Action,
}

/// The tag of a message value.
pub open spec fn spec_tag(m: MessageView) -> MessageTag {
    match m {
        MessageView::Log(_) => MessageTag::Log,
        MessageView::Action(_) => MessageTag::Action,
    }
}

/// The server's per-turn game-state snapshot: an opaque JSON value,
/// owned by the loop iteration that received it and handed to the bot
/// unexamined.
pub struct ClientInfo {
    text: String,
}

impl View for ClientInfo {
    type V = Seq<char>;

    closed spec fn view(&self) -> Seq<char> {
        self.text@
    }
}

impl ClientInfo {
    /// A well-formed snapshot holds one well-formed JSON value.
    pub open spec fn wf(&self) -> bool {
        is_json_value(self@)
    }

    /// The raw JSON text of the snapshot.
    pub fn text(&self) -> (r: &str)
        ensures
            r@ == self@,
    {
        self.text.as_str()
    }
}

/// The character for one hexadecimal digit.
pub open spec fn hex_digit(d: nat) -> char {
    if d < 10 {
        dec_digit(d)
    } else if d == 10 {
        'a'
    } else if d == 11 {
        'b'
    } else if d == 12 {
        'c'
    } else if d == 13 {
        'd'
    } else if d == 14 {
        'e'
    } else {
        'f'
    }
}

/// How one character appears inside a JSON string literal: quote and
/// backslash are escaped, the named control characters get their short
/// escapes, the remaining control characters a `\u00..` escape, and
/// every other character stands for itself.
pub open spec fn escape_char(c: char) -> Seq<char> {
    if c == '"' {
        seq!['\\', '"']
    } else if c == '\\' {
        seq!['\\', '\\']
    } else if c == '\u{8}' {
        seq!['\\', 'b']
    } else if c == '\t' {
        seq!['\\', 't']
    } else if c == '\n' {
        seq!['\\', 'n']
    } else if c == '\u{c}' {
        seq!['\\', 'f']
    } else if c == '\r' {
        seq!['\\', 'r']
    } else if (c as u32) < 0x20 {
        seq!['\\', 'u', '0', '0', hex_digit((c as u32 / 16) as nat), hex_digit((c as u32 % 16) as nat)]
    } else {
        seq![c]
    }
}

/// A text as it appears inside a JSON string literal.
pub open spec fn escape_text(s: Seq<char>) -> Seq<char>
    decreases s.len(),
{
    if s.len() == 0 {
        Seq::empty()
    } else {
        escape_char(s[0]) + escape_text(s.drop_first())
    }
}

/// Escaping distributes over concatenation.
pub proof fn lemma_escape_text_app(a: Seq<char>, b: Seq<char>)
    ensures
        escape_text(a + b) == escape_text(a) + escape_text(b),
    decreases a.len(),
{
    if a.len() == 0 {
        assert(a + b =~= b);
        assert(escape_text(a) + escape_text(b) =~= escape_text(b));
    } else {
        assert((a + b).drop_first() =~= a.drop_first() + b);
        lemma_escape_text_app(a.drop_first(), b);
        assert(escape_text(a + b) =~= escape_text(a) + escape_text(b));
    }
}

/// The wire frame of a log message: `{"Log":"<escaped text>"}`.
pub open spec fn log_frame(text: Seq<char>) -> Seq<char> {
    "{\"Log\":\""@ + escape_text(text) + "\"}"@
}

/// The wire frame of an action message: `{"Action":<payload>}`, the
/// payload spliced in verbatim as the JSON value it already is.
pub open spec fn action_frame(payload: Seq<char>) -> Seq<char> {
    "{\"Action\":"@ + payload + "}"@
}

/// The wire frame of a message value.
pub open spec fn spec_frame(m: MessageView) -> Seq<char> {
    match m {
        MessageView::Log(text) => log_frame(text),
        MessageView::Action(payload) => action_frame(payload),
    }
}

/// Whether a message value has a wire frame. Encoding is total over
/// log lines; an action payload must itself be one well-formed JSON
/// value, and anything else marks a programming defect.
pub open spec fn spec_encodable(m: MessageView) -> bool {
    match m {
        MessageView::Log(_) => true,
        MessageView::Action(payload) => is_json_value(payload),
    }
}

/// The character for one hexadecimal digit, executably.
fn hex_digit_exec(d: u32) -> (c: char)
    requires
        d < 16,
    ensures
        c == hex_digit(d as nat),
{
    if d == 0 {
        '0'
    } else if d == 1 {
        '1'
    } else if d == 2 {
        '2'
    } else if d == 3 {
        '3'
    } else if d == 4 {
        '4'
    } else if d == 5 {
        '5'
    } else if d == 6 {
        '6'
    } else if d == 7 {
        '7'
    } else if d == 8 {
        '8'
    } else if d == 9 {
        '9'
    } else if d == 10 {
        'a'
    } else if d == 11 {
        'b'
    } else if d == 12 {
        'c'
    } else if d == 13 {
        'd'
    } else if d == 14 {
        'e'
    } else {
        'f'
    }
}

/// Appends the escaped form of one character to `out`.
fn push_escaped_char(out: &mut String, c: char)
    ensures
        final(out)@ == old(out)@ + escape_char(c),
{
    if c == '"' {
        push_char(out, '\\');
        push_char(out, '"');
    } else if c == '\\' {
        push_char(out, '\\');
        push_char(out, '\\');
    } else if c == '\u{8}' {
        push_char(out, '\\');
        push_char(out, 'b');
    } else if c == '\t' {
        push_char(out, '\\');
        push_char(out, 't');
    } else if c == '\n' {
        push_char(out, '\\');
        push_char(out, 'n');
    } else if c == '\u{c}' {
        push_char(out, '\\');
        push_char(out, 'f');
    } else if c == '\r' {
        push_char(out, '\\');
        push_char(out, 'r');
    } else if (c as u32) < 0x20 {
        let v = c as u32;
        push_char(out, '\\');
        push_char(out, 'u');
        push_char(out, '0');
        push_char(out, '0');
        push_char(out, hex_digit_exec(v / 16));
        push_char(out, hex_digit_exec(v % 16));
    } else {
        push_char(out, c);
    }
    proof {
        assert(out@ =~= old(out)@ + escape_char(c));
    }
}

/// Appends the escaped form of a whole text to `out`.
fn push_escaped(out: &mut String, text: &str)
    ensures
        final(out)@ == old(out)@ + escape_text(text@),
{
    let n = text.unicode_len();
    let mut i: usize = 0;
    while i < n
        invariant
            n == text@.len(),
            i <= n,
            out@ == old(out)@ + escape_text(text@.take(i as int)),
        decreases n - i,
    {
        let c = text.get_char(i);
        push_escaped_char(out, c);
        proof {
            assert(text@.take(i + 1 as int) =~= text@.take(i as int) + seq![text@[i as int]]);
            lemma_escape_text_app(text@.take(i as int), seq![text@[i as int]]);
            assert(seq![c].drop_first() =~= Seq::<char>::empty());
            assert(escape_text(seq![c]) == escape_char(c) + escape_text(Seq::<char>::empty()));
            assert(escape_text(seq![c]) =~= escape_char(c));
            assert(out@ =~= old(out)@ + escape_text(text@.take(i + 1 as int)));
        }
        i += 1;
    }
    proof {
        assert(text@.take(n as int) =~= text@);
    }
}

/// Builds the wire frame of a log line. Encoding a log line is total:
/// every text can be escaped.
pub fn encode_log(text: &str) -> (r: String)
    ensures
        r@ == log_frame(text@),
{
    let mut out = String::from_str("{\"Log\":\"");
    push_escaped(&mut out, text);
    out.append("\"}");
    proof {
        assert(out@ =~= log_frame(text@));
    }
    out
}

/// Builds the wire frame of a message. Succeeds on exactly the
/// encodable messages: every log line, and every action whose payload
/// is one well-formed JSON value; anything else is a serialization
/// defect.
pub fn encode(m: &ClientMessage) -> (r: Result<String, ProtocolError>)
    ensures
        spec_encodable(m@) ==> (r matches Ok(s) && s@ == spec_frame(m@)),
        !spec_encodable(m@) ==> (r matches Err(e) && e == ProtocolError::Serialization),
{
    match m {
        ClientMessage::Log(text) => Ok(encode_log(text.as_str())),
        ClientMessage::Action(payload) => {
            if json_parses(payload.as_str()) {
                let mut out = String::from_str("{\"Action\":");
                out.append(payload.as_str());
                out.append("}");
                proof {
                    assert(out@ =~= action_frame(payload@));
                }
                Ok(out)
            } else {
                Err(ProtocolError::Serialization)
            }
        }
    }
}

/// What decoding an inbound frame yields: the snapshot text itself
/// when the frame is one well-formed JSON value, nothing otherwise.
pub open spec fn spec_decode(frame: Seq<char>) -> Option<Seq<char>> {
    if is_json_value(frame) {
        Option::Some(frame)
    } else {
        Option::None
    }
}

/// Decodes one inbound frame into the per-turn game-state snapshot.
/// Succeeds on exactly the frames that hold one well-formed JSON
/// value; a malformed frame is a deserialization failure, which is
/// fatal to the run.
pub fn decode(frame: &str) -> (r: Result<ClientInfo, ProtocolError>)
    ensures
        is_json_value(frame@) ==> (r matches Ok(info) && info@ == frame@ && info.wf()),
        !is_json_value(frame@) ==> (r matches Err(e) && e == ProtocolError::Deserialization),
{
    if json_parses(frame) {
        Ok(ClientInfo { text: String::from_str(frame) })
    } else {
        Err(ProtocolError::Deserialization)
    }
}

/// Decoding is deterministic and total: what it yields is a function
/// of the frame's characters alone, it succeeds on exactly the
/// well-formed frames, and a successful decode returns the frame's
/// own value.
pub proof fn lemma_decode_deterministic(f1: Seq<char>, f2: Seq<char>)
    requires
        f1 == f2,
    ensures
        spec_decode(f1) == spec_decode(f2),
        is_json_value(f1) ==> spec_decode(f1) == Option::Some(f1),
        !is_json_value(f1) ==> spec_decode(f1) is None,
{
}

/// Whether a frame begins with the given prefix.
pub open spec fn starts_with(s: Seq<char>, prefix: Seq<char>) -> bool {
    prefix.len() <= s.len() && s.take(prefix.len() as int) == prefix
}

/// The tag a frame announces on the wire, read back from its leading
/// characters.
pub open spec fn frame_tag(f: Seq<char>) -> Option<MessageTag> {
    if starts_with(f, "{\"Log\":\""@) {
        Option::Some(MessageTag::Log)
    } else if starts_with(f, "{\"Action\":"@) {
        Option::Some(MessageTag::Action)
    } else {
        Option::None
    }
}

/// Encoding preserves the tag: the frame of a log message announces
/// `Log` and the frame of an action message announces `Action`, so a
/// log line can never travel as an action nor an action as a log
/// line.
pub proof fn lemma_encode_preserves_tag(m: MessageView)
    ensures
        frame_tag(spec_frame(m)) == Option::Some(spec_tag(m)),
{
    reveal_strlit("{\"Log\":\"");
    reveal_strlit("{\"Action\":");
    reveal_strlit("\"}");
    reveal_strlit("}");
    let log_prefix = "{\"Log\":\""@;
    let action_prefix = "{\"Action\":"@;
    match m {
        MessageView::Log(text) => {
            let f = log_frame(text);
            assert(f.take(log_prefix.len() as int) =~= log_prefix);
            assert(starts_with(f, log_prefix));
        }
        MessageView::Action(payload) => {
            let f = action_frame(payload);
            assert(f.take(action_prefix.len() as int) =~= action_prefix);
            assert(starts_with(f, action_prefix));
            assert(f[2] == 'A');
            assert(log_prefix[2] == 'L');
            assert(!starts_with(f, log_prefix)) by {
                if starts_with(f, log_prefix) {
                    assert(f.take(log_prefix.len() as int)[2] == f[2]);
                }
            }
        }
    }
}

/// The two variants can never produce the same frame: the tag alone
/// separates them.
pub proof fn lemma_frames_differ(text: Seq<char>, payload: Seq<char>)
    ensures
        log_frame(text) != action_frame(payload),
{
    lemma_encode_preserves_tag(MessageView::Log(text));
    lemma_encode_preserves_tag(MessageView::Action(payload));
}

} // verus!

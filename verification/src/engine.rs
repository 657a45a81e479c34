//! The prompt side of the gateway: how a chat becomes one prompt for the
//! `gemini` client, which model and arguments it is run with, and what is
//! made of each line it prints.

use vstd::prelude::*;
use crate::models::{ChatMessage, ChatResponseChunk, token_chunk};
use crate::text::{is_white_space, law_white_space_trims_to_empty, same_text, trim_white_space, trimmed};

verus! {

/// The engine handle that the server's shared state holds; the engine keeps
/// no state of its own, since each request runs a fresh client process.
pub struct GeminiEngine;

/// The label under which a message of role `role` appears in the prompt.
pub open spec fn role_label(role: Seq<char>) -> Seq<char> {
    if role == "system"@ {
        "System Instruction"@
    } else if role == "user"@ {
        "User"@
    } else if role == "assistant"@ {
        "Assistant"@
    } else {
        role
    }
}

/// The block that message `m` contributes to the prompt: its label, a colon,
/// its content and a blank line.
pub open spec fn message_block(m: ChatMessage) -> Seq<char> {
    role_label(m.role@) + ": "@ + m.content@ + "\n\n"@
}

/// The prompt made of `messages`: their blocks, in order.
pub open spec fn combined_prompt(messages: Seq<ChatMessage>) -> Seq<char>
    decreases messages.len(),
{
    if messages.len() == 0 {
        Seq::empty()
    } else {
        combined_prompt(messages.drop_last()) + message_block(messages.last())
    }
}

fn role_label_of(role: &String) -> (r: &str)
    ensures
        r@ == role_label(role@),
{
    if same_text(role.as_str(), "system") {
        "System Instruction"
    } else if same_text(role.as_str(), "user") {
        "User"
    } else if same_text(role.as_str(), "assistant") {
        "Assistant"
    } else {
        role.as_str()
    }
}

/// Joins a chat into one prompt: each message becomes its role label, `": "`,
/// its content and a blank line, in the order of the chat.
pub fn combine_messages(messages: &[ChatMessage]) -> (r: String)
    ensures
        r@ == combined_prompt(messages@),
{
    let mut prompt = String::new();
    let n = messages.len();
    for i in 0..n
        invariant
            n == messages@.len(),
            prompt@ == combined_prompt(messages@.take(i as int)),
    {
        let msg = &messages[i];
        let label = role_label_of(&msg.role);
        prompt.append(label);
        prompt.append(": ");
        prompt.append(msg.content.as_str());
        prompt.append("\n\n");
        assert(messages@.take(i + 1).drop_last() =~= messages@.take(i as int));
    }
    assert(messages@.take(n as int) =~= messages@);
    prompt
}

/// The prompt of a chat joined from two parts is the prompt of the first
/// part followed by the prompt of the second.
pub proof fn law_combined_prompt_concat(a: Seq<ChatMessage>, b: Seq<ChatMessage>)
    ensures
        combined_prompt(a + b) == combined_prompt(a) + combined_prompt(b),
    decreases b.len(),
{
    if b.len() == 0 {
        assert(a + b =~= a);
        assert(combined_prompt(b) =~= Seq::<char>::empty());
        assert(combined_prompt(a) + combined_prompt(b) =~= combined_prompt(a));
    } else {
        assert((a + b).drop_last() =~= a + b.drop_last());
        assert((a + b).last() == b.last());
        law_combined_prompt_concat(a, b.drop_last());
        assert(combined_prompt(a + b) =~= combined_prompt(a) + combined_prompt(b));
    }
}

/// The model that a request for `model` is run with: the aliases
/// `gemini-cli` and `default`, and the empty name, stand for `gemini-3-flash`.
pub open spec fn target_model(model: Seq<char>) -> Seq<char> {
    if model == "gemini-cli"@ || model == "default"@ || model.len() == 0 {
        "gemini-3-flash"@
    } else {
        model
    }
}

/// The model that a request for `model` is run with.
pub fn resolve_model(model: &str) -> (r: &str)
    ensures
        r@ == target_model(model@),
{
    if same_text(model, "gemini-cli") || same_text(model, "default") || model.is_empty() {
        "gemini-3-flash"
    } else {
        model
    }
}

/// Resolving a model name twice gives what resolving it once gives.
pub proof fn law_target_model_idempotent(model: Seq<char>)
    ensures
        target_model(target_model(model)) == target_model(model),
{
    reveal_strlit("gemini-3-flash");
    reveal_strlit("gemini-cli");
    reveal_strlit("default");
    if target_model(model) == "gemini-3-flash"@ {
        assert("gemini-3-flash"@ != "gemini-cli"@) by {
            assert("gemini-3-flash"@[7] != "gemini-cli"@[7]);
        }
        assert("gemini-3-flash"@ != "default"@) by {
            assert("gemini-3-flash"@.len() != "default"@.len());
        }
    }
}

/// The arguments the `gemini` client is run with for `model` and `prompt`:
/// no trust prompt, the model, the prompt, and line-by-line JSON output.
pub open spec fn gemini_argument_list(model: Seq<char>, prompt: Seq<char>) -> Seq<Seq<char>> {
    seq!["--skip-trust"@, "-m"@, model, "-p"@, prompt, "--output-format"@, "stream-json"@]
}

/// The arguments the `gemini` client is run with for `model` and `prompt`.
pub fn gemini_arguments(model: &str, prompt: &str) -> (r: Vec<String>)
    ensures
        r.deep_view() == gemini_argument_list(model@, prompt@),
{
    let mut args: Vec<String> = Vec::new();
    args.push("--skip-trust".to_owned());
    args.push("-m".to_owned());
    args.push(model.to_owned());
    args.push("-p".to_owned());
    args.push(prompt.to_owned());
    args.push("--output-format".to_owned());
    args.push("stream-json".to_owned());
    assert(args.deep_view() =~= gemini_argument_list(model@, prompt@));
    args
}

/// The environment the `gemini` client is run in: the cloud project, a
/// trusted workspace, and `workdir` as its working directory.
pub open spec fn gemini_environment_list(project: Seq<char>, workdir: Seq<char>) -> Seq<(Seq<char>, Seq<char>)> {
    seq![
        ("GOOGLE_CLOUD_PROJECT"@, project),
        ("GEMINI_CLI_TRUST_WORKSPACE"@, "true"@),
        ("PWD"@, workdir),
        ("INIT_CWD"@, workdir),
    ]
}

/// The environment variables the `gemini` client is run with.
pub fn gemini_environment(project: &str, workdir: &str) -> (r: Vec<(String, String)>)
    ensures
        r.deep_view() == gemini_environment_list(project@, workdir@),
{
    let mut vars: Vec<(String, String)> = Vec::new();
    vars.push(("GOOGLE_CLOUD_PROJECT".to_owned(), project.to_owned()));
    vars.push(("GEMINI_CLI_TRUST_WORKSPACE".to_owned(), "true".to_owned()));
    vars.push(("PWD".to_owned(), workdir.to_owned()));
    vars.push(("INIT_CWD".to_owned(), workdir.to_owned()));
    assert(vars.deep_view() =~= gemini_environment_list(project@, workdir@));
    vars
}

/// The cloud project to run under: the configured one, else `default`.
pub fn project_or_default(configured: Option<String>) -> (r: String)
    ensures
        match configured {
            Some(p) => r == p,
            None => r@ == "default"@,
        },
{
    match configured {
        Some(p) => p,
        None => "default".to_owned(),
    }
}

/// The program run as the client: the configured one, else `gemini`.
pub fn client_program(configured: Option<String>) -> (r: String)
    ensures
        match configured {
            Some(p) => r == p,
            None => r@ == "gemini"@,
        },
{
    match configured {
        Some(p) => p,
        None => "gemini".to_owned(),
    }
}

/// What `serde_json` finds under `key` when it reads `text`: the string
/// member `key` of the top-level JSON object, or `None` where `text` is not
/// JSON, its top level is not an object, it has no member `key`, or that
/// member is not a string.
pub uninterp spec fn json_string_member(text: Seq<char>, key: Seq<char>) -> Option<Seq<char>>;

/// Reads `text` once with `serde_json::from_str` into a `serde_json::Value`
/// and, for each of the keys `k0`, `k1`, `k2`, takes `Value::get(key)` and
/// keeps it if it is a `Value::String`. The contract claims only that each
/// outcome is a function of `text` and its key, named `json_string_member`;
/// what JSON grammar serde_json accepts is not stated.
#[verifier::external_body]
fn json_string_members(text: &str, k0: &str, k1: &str, k2: &str) -> (r: (
    Option<String>,
    Option<String>,
    Option<String>,
))
    ensures
        r.0.deep_view() == json_string_member(text@, k0@),
        r.1.deep_view() == json_string_member(text@, k1@),
        r.2.deep_view() == json_string_member(text@, k2@),
{
    let value: serde_json::Value = match serde_json::from_str(text) {
        Ok(v) => v,
        Err(_) => return (None, None, None),
    };
    let m0 = match value.get(k0) { Some(serde_json::Value::String(s)) => Some(s.clone()), _ => None };
    let m1 = match value.get(k1) { Some(serde_json::Value::String(s)) => Some(s.clone()), _ => None };
    let m2 = match value.get(k2) { Some(serde_json::Value::String(s)) => Some(s.clone()), _ => None };
    (m0, m1, m2)
}

/// The assistant text of a stream-json record whose `type`, `role` and
/// `content` members are `kind`, `role` and `content`: the content, when the
/// record is a message of the assistant.
pub open spec fn assistant_text_of(
    kind: Option<Seq<char>>,
    role: Option<Seq<char>>,
    content: Option<Seq<char>>,
) -> Option<Seq<char>> {
    if kind == Some("message"@) && role == Some("assistant"@) {
        content
    } else {
        None
    }
}

fn is_some_text(v: &Option<String>, expected: &str) -> (r: bool)
    ensures
        r == (v.deep_view() == Some(expected@)),
{
    match v {
        Some(s) => same_text(s.as_str(), expected),
        None => false,
    }
}

/// The assistant text of a stream-json record, given the string values of its
/// `type`, `role` and `content` members.
pub fn assistant_text(kind: Option<String>, role: Option<String>, content: Option<String>) -> (r:
    Option<String>)
    ensures
        r.deep_view() == assistant_text_of(kind.deep_view(), role.deep_view(), content.deep_view()),
{
    if is_some_text(&kind, "message") && is_some_text(&role, "assistant") {
        content
    } else {
        None
    }
}

/// What one line printed by the client yields: nothing for a blank line,
/// else the assistant text of the JSON record it holds, if any.
pub open spec fn line_token(line: Seq<char>) -> Option<Seq<char>> {
    let t = trimmed(line);
    if t.len() == 0 {
        None
    } else {
        assistant_text_of(
            json_string_member(t, "type"@),
            json_string_member(t, "role"@),
            json_string_member(t, "content"@),
        )
    }
}

/// The assistant text carried by one line of the client's stream-json output.
pub fn parse_stream_json_line(line: &str) -> (r: Option<String>)
    ensures
        r.deep_view() == line_token(line@),
{
    let t = trim_white_space(line);
    if t.is_empty() {
        return None;
    }
    let (kind, role, content) = json_string_members(t, "type", "role", "content");
    assistant_text(kind, role, content)
}

/// What happened when the gateway last read from the client's output.
pub enum ReadEvent {
    /// A line was read.
    Line(String),
    /// The output ended.
    Closed,
    /// Reading failed; the text describes why.
    Failed(String),
}

/// The text that a failed read is reported with.
pub open spec fn read_failure_text(detail: Seq<char>) -> Seq<char> {
    "Error reading stream-json from gemini: "@ + detail
}

fn read_failure_message(detail: &str) -> (r: String)
    ensures
        r@ == read_failure_text(detail@),
{
    let mut m = String::new();
    m.append("Error reading stream-json from gemini: ");
    m.append(detail);
    m
}

/// The text that a failed start of the client is reported with.
pub fn spawn_failure_message(detail: &str) -> (r: String)
    ensures
        r@ == "Failed to spawn gemini subprocess: "@ + detail@,
{
    let mut m = String::new();
    m.append("Failed to spawn gemini subprocess: ");
    m.append(detail);
    m
}

/// The text one line adds to an answer: the assistant text it carries, or nothing.
pub open spec fn token_text(line: Seq<char>) -> Seq<char> {
    match line_token(line) {
        Some(t) => t,
        None => Seq::empty(),
    }
}

/// How many tokens one line adds to an answer: one if it carries assistant text.
pub open spec fn token_weight(line: Seq<char>) -> nat {
    if line_token(line) is Some {
        1
    } else {
        0
    }
}

/// The text that a client whose output cannot be read is reported with.
pub fn stdout_capture_failure_message() -> (r: String)
    ensures
        r@ == "Failed to capture child stdout"@,
{
    "Failed to capture child stdout".to_owned()
}

/// The text that lines `lines` add up to: the assistant texts they carry, in order.
pub open spec fn collected_text(lines: Seq<Seq<char>>) -> Seq<char>
    decreases lines.len(),
{
    if lines.len() == 0 {
        Seq::empty()
    } else {
        collected_text(lines.drop_last()) + token_text(lines.last())
    }
}

/// How many of the lines `lines` carry assistant text.
pub open spec fn token_count(lines: Seq<Seq<char>>) -> nat
    decreases lines.len(),
{
    if lines.len() == 0 {
        0
    } else {
        token_count(lines.drop_last()) + token_weight(lines.last())
    }
}

/// The assistant texts that lines `lines` carry, in order, one per token.
pub open spec fn streamed_tokens(lines: Seq<Seq<char>>) -> Seq<Seq<char>>
    decreases lines.len(),
{
    if lines.len() == 0 {
        Seq::empty()
    } else {
        let before = streamed_tokens(lines.drop_last());
        match line_token(lines.last()) {
            Some(t) => before.push(t),
            None => before,
        }
    }
}

/// Reading one more line adds that line's text and token to what the lines
/// before it add up to, and its chunk, if any, after theirs.
pub proof fn law_one_more_line(lines: Seq<Seq<char>>, line: Seq<char>)
    ensures
        collected_text(lines.push(line)) == collected_text(lines) + token_text(line),
        token_count(lines.push(line)) == token_count(lines) + token_weight(line),
        streamed_tokens(lines.push(line)) == match line_token(line) {
            Some(t) => streamed_tokens(lines).push(t),
            None => streamed_tokens(lines),
        },
{
    assert(lines.push(line).drop_last() =~= lines);
    assert(lines.push(line).last() == line);
}

/// What the gateway does next while it collects a complete answer.
pub enum CollectAction {
    /// Read another line.
    ReadMore,
    /// The output has ended: the collected text is the answer.
    Finish,
    /// Give up with this error.
    Abort(String),
}

/// The state of collecting a complete answer from the client's output.
pub struct Collector {
    /// The assistant text gathered so far.
    pub text: String,
    /// How many lines carried assistant text so far.
    pub tokens: u64,
    /// The lines read so far, in order.
    pub lines_read: Ghost<Seq<Seq<char>>>,
}

impl Collector {
    /// Whether the collector holds what the lines it has read add up to.
    pub open spec fn holds_run(&self) -> bool {
        &&& self.text@ == collected_text(self.lines_read@)
        &&& self.tokens == token_count(self.lines_read@)
    }

    /// A collector that has read nothing yet.
    pub fn new() -> (r: Collector)
        ensures
            r.text@ == Seq::<char>::empty(),
            r.tokens == 0,
            r.lines_read@ == Seq::<Seq<char>>::empty(),
            r.holds_run(),
    {
        Collector { text: String::new(), tokens: 0, lines_read: Ghost(Seq::empty()) }
    }

    /// Takes in what the last read gave: a line adds the assistant text it
    /// carries; the end of the output finishes; a failed read aborts.
    pub fn step(&mut self, event: ReadEvent) -> (r: CollectAction)
        requires
            old(self).tokens < u64::MAX,
        ensures
            old(self).holds_run() ==> final(self).holds_run(),
            match event {
                ReadEvent::Line(line) => {
                    &&& r is ReadMore
                    &&& final(self).text@ == old(self).text@ + token_text(line@)
                    &&& final(self).tokens == old(self).tokens + token_weight(line@)
                    &&& final(self).lines_read@ == old(self).lines_read@.push(line@)
                },
                ReadEvent::Closed => r is Finish && *final(self) == *old(self),
                ReadEvent::Failed(detail) => {
                    &&& r matches CollectAction::Abort(m) && m@ == read_failure_text(detail@)
                    &&& *final(self) == *old(self)
                },
            },
    {
        match event {
            ReadEvent::Line(line) => {
                proof {
                    law_one_more_line(self.lines_read@, line@);
                }
                match parse_stream_json_line(line.as_str()) {
                    Some(t) => {
                        self.text.append(t.as_str());
                        self.tokens = self.tokens + 1;
                    },
                    None => {
                        assert(old(self).text@ + Seq::<char>::empty() =~= old(self).text@);
                    },
                }
                self.lines_read = Ghost(self.lines_read@.push(line@));
                CollectAction::ReadMore
            },
            ReadEvent::Closed => CollectAction::Finish,
            ReadEvent::Failed(detail) => CollectAction::Abort(read_failure_message(detail.as_str())),
        }
    }
}

/// Collecting is a function of the lines read: two collectors that have read
/// the same lines, in two runs or at once, hold the same text and count,
/// whatever else has happened.
pub proof fn law_collect_runs_agree(a: Collector, b: Collector)
    requires
        a.holds_run(),
        b.holds_run(),
        a.lines_read@ == b.lines_read@,
    ensures
        a.text@ == b.text@,
        a.tokens == b.tokens,
        a.text@ == collected_text(a.lines_read@),
{
}

/// What the gateway does next while it streams an answer.
pub enum StreamAction {
    /// Read another line.
    ReadMore,
    /// Send this chunk to the client, then read another line.
    Send(ChatResponseChunk),
    /// The output has ended.
    Finish,
    /// Give up with this error.
    Abort(String),
}

/// The state of streaming an answer from the client's output.
pub struct Streamer {
    /// The model the answer is streamed for.
    pub model: String,
    /// When the answer was started, in seconds since the Unix epoch.
    pub created: u64,
    /// How many chunks were made so far.
    pub tokens: u64,
    /// The lines read so far, in order.
    pub lines_read: Ghost<Seq<Seq<char>>>,
}

impl Streamer {
    /// Whether the streamer has made one chunk per token of the lines it has read.
    pub open spec fn holds_run(&self) -> bool {
        self.tokens == token_count(self.lines_read@)
    }

    /// A streamer for `model` whose chunks carry the time `created`.
    pub fn new(model: &str, created: u64) -> (r: Streamer)
        ensures
            r.model@ == model@,
            r.created == created,
            r.tokens == 0,
            r.lines_read@ == Seq::<Seq<char>>::empty(),
            r.holds_run(),
    {
        Streamer { model: model.to_owned(), created, tokens: 0, lines_read: Ghost(Seq::empty()) }
    }

    /// Takes in that a chunk could not be sent because the client has gone:
    /// streaming finishes, without an error, and nothing else changes.
    pub fn client_gone(&mut self) -> (r: StreamAction)
        ensures
            r is Finish,
            *final(self) == *old(self),
    {
        StreamAction::Finish
    }

    /// Takes in what the last read gave: a line that carries assistant text
    /// becomes a chunk to send, other lines are passed over; the end of the
    /// output finishes; a failed read aborts.
    pub fn step(&mut self, event: ReadEvent) -> (r: StreamAction)
        requires
            old(self).tokens < u64::MAX,
        ensures
            final(self).model == old(self).model,
            final(self).created == old(self).created,
            old(self).holds_run() ==> final(self).holds_run(),
            match event {
                ReadEvent::Line(line) => final(self).lines_read@ == old(self).lines_read@.push(line@),
                _ => final(self).lines_read == old(self).lines_read,
            },
            match event {
                ReadEvent::Line(line) => match line_token(line@) {
                    Some(t) => {
                        &&& r matches StreamAction::Send(c) && {
                            &&& c.id@ == crate::models::completion_id()
                            &&& c.object@ == "chat.completion.chunk"@
                            &&& c.created == old(self).created
                            &&& c.model@ == old(self).model@
                            &&& c.choices@.len() == 1
                            &&& c.choices@[0].index == 0
                            &&& c.choices@[0].delta.role.is_none()
                            &&& c.choices@[0].delta.content.deep_view() == Some(t)
                            &&& c.choices@[0].finish_reason.is_none()
                        }
                        &&& final(self).tokens == old(self).tokens + 1
                    },
                    None => r is ReadMore && final(self).tokens == old(self).tokens,
                },
                ReadEvent::Closed => r is Finish && final(self).tokens == old(self).tokens,
                ReadEvent::Failed(detail) => {
                    &&& r matches StreamAction::Abort(m) && m@ == read_failure_text(detail@)
                    &&& final(self).tokens == old(self).tokens
                },
            },
    {
        match event {
            ReadEvent::Line(line) => {
                proof {
                    law_one_more_line(self.lines_read@, line@);
                }
                self.lines_read = Ghost(self.lines_read@.push(line@));
                match parse_stream_json_line(line.as_str()) {
                    Some(t) => {
                        self.tokens = self.tokens + 1;
                        StreamAction::Send(token_chunk(self.model.as_str(), self.created, t))
                    },
                    None => StreamAction::ReadMore,
                }
            },
            ReadEvent::Closed => StreamAction::Finish,
            ReadEvent::Failed(detail) => StreamAction::Abort(read_failure_message(detail.as_str())),
        }
    }
}

/// Streaming and collecting the same lines agree: the streamer has made as
/// many chunks as the collector has counted tokens, and the texts of the
/// chunks made for those lines, joined in order, are the collector's text.
pub proof fn law_streamer_agrees_with_collector(s: Streamer, c: Collector)
    requires
        s.holds_run(),
        c.holds_run(),
        s.lines_read@ == c.lines_read@,
    ensures
        s.tokens == c.tokens,
        streamed_tokens(s.lines_read@).fold_left(
            Seq::<char>::empty(),
            |acc: Seq<char>, t: Seq<char>| acc + t,
        ) == c.text@,
{
    law_stream_matches_collect(c.lines_read@);
}

/// The text gathered from lines read one after another is the text gathered
/// from the first ones followed by the text gathered from the rest.
pub proof fn law_collected_text_concat(a: Seq<Seq<char>>, b: Seq<Seq<char>>)
    ensures
        collected_text(a + b) == collected_text(a) + collected_text(b),
        token_count(a + b) == token_count(a) + token_count(b),
    decreases b.len(),
{
    if b.len() == 0 {
        assert(a + b =~= a);
        assert(collected_text(a) + collected_text(b) =~= collected_text(a));
    } else {
        assert((a + b).drop_last() =~= a + b.drop_last());
        law_collected_text_concat(a, b.drop_last());
        assert(collected_text(a + b) =~= collected_text(a) + collected_text(b));
    }
}

/// Streaming and collecting agree: the chunks streamed for a run of lines,
/// joined, are the text collected from the same lines, and there are as many
/// of them as the collector counts.
pub proof fn law_stream_matches_collect(lines: Seq<Seq<char>>)
    ensures
        streamed_tokens(lines).len() == token_count(lines),
        streamed_tokens(lines).fold_left(Seq::<char>::empty(), |acc: Seq<char>, t: Seq<char>| acc + t)
            == collected_text(lines),
    decreases lines.len(),
{
    if lines.len() > 0 {
        law_stream_matches_collect(lines.drop_last());
        let before = streamed_tokens(lines.drop_last());
        match line_token(lines.last()) {
            Some(t) => {
                assert(before.push(t).drop_last() =~= before);
            },
            None => {
                assert(collected_text(lines.drop_last()) + Seq::<char>::empty()
                    =~= collected_text(lines.drop_last()));
            },
        }
    }
}

/// A line made only of white space, the empty line among them, carries no text.
pub proof fn law_blank_line_yields_nothing(line: Seq<char>)
    requires
        forall|i: int| 0 <= i < line.len() ==> is_white_space(#[trigger] line[i]),
    ensures
        line_token(line) is None,
{
    law_white_space_trims_to_empty(line);
}

/// Only the three aliases are rewritten: `gemini-cli`, `default` and the
/// empty name run `gemini-3-flash`, and every other name runs as asked.
pub proof fn law_only_aliases_are_rewritten(model: Seq<char>)
    ensures
        model == "gemini-cli"@ ==> target_model(model) == "gemini-3-flash"@,
        model == "default"@ ==> target_model(model) == "gemini-3-flash"@,
        model.len() == 0 ==> target_model(model) == "gemini-3-flash"@,
        model != "gemini-cli"@ && model != "default"@ && model.len() != 0 ==> target_model(model)
            == model,
{
}

/// The labels of the prompt: `system`, `user` and `assistant` are written as
/// `System Instruction`, `User` and `Assistant`; any other role is written as it is.
pub proof fn law_role_labels(role: Seq<char>)
    ensures
        role == "system"@ ==> role_label(role) == "System Instruction"@,
        role == "user"@ ==> role_label(role) == "User"@,
        role == "assistant"@ ==> role_label(role) == "Assistant"@,
        role != "system"@ && role != "user"@ && role != "assistant"@ ==> role_label(role) == role,
{
    reveal_strlit("system");
    reveal_strlit("user");
    reveal_strlit("assistant");
    assert("user"@.len() != "system"@.len());
    assert("user"@.len() != "assistant"@.len());
    assert("system"@.len() != "assistant"@.len());
}

/// A one-message chat is written as the message's label, `": "`, its whole
/// content, unchanged, and a blank line; so a prompt holds every message's
/// content verbatim, in order.
pub proof fn law_message_written_whole(m: ChatMessage, before: Seq<ChatMessage>)
    ensures
        combined_prompt(seq![m]) == role_label(m.role@) + ": "@ + m.content@ + "\n\n"@,
        combined_prompt(seq![m]).len() == role_label(m.role@).len() + 2 + m.content@.len() + 2,
        combined_prompt(before.push(m)) == combined_prompt(before) + role_label(m.role@) + ": "@
            + m.content@ + "\n\n"@,
{
    reveal_strlit(": ");
    reveal_strlit("\n\n");
    let one = seq![m];
    assert(one.drop_last() =~= Seq::<ChatMessage>::empty());
    assert(one.last() == m);
    assert(combined_prompt(one.drop_last()) =~= Seq::<char>::empty());
    assert(combined_prompt(one) =~= role_label(m.role@) + ": "@ + m.content@ + "\n\n"@);
    assert(before.push(m).drop_last() =~= before);
    assert(before.push(m).last() == m);
    assert(combined_prompt(before.push(m)) =~= combined_prompt(before) + role_label(m.role@)
        + ": "@ + m.content@ + "\n\n"@);
}

/// The text a line carries is the `content` member of the JSON record on it,
/// exactly as serde_json reads it (white space inside it included), when
/// the record is a message of the assistant; any other line carries nothing.
pub proof fn law_line_carries_content_verbatim(line: Seq<char>)
    ensures
        ({
            let t = trimmed(line);
            if t.len() > 0 && json_string_member(t, "type"@) == Some("message"@)
                && json_string_member(t, "role"@) == Some("assistant"@) {
                line_token(line) == json_string_member(t, "content"@)
            } else {
                line_token(line) is None
            }
        }),
{
}

/// Two lines read one after the other add their contents, exactly, one after
/// the other: `"Hello"` and then `" world"` make `"Hello world"`.
pub proof fn law_two_lines_join_verbatim(first: Seq<char>, second: Seq<char>, a: Seq<char>, b: Seq<char>)
    requires
        line_token(first) == Some(a),
        line_token(second) == Some(b),
    ensures
        collected_text(seq![first, second]) == a + b,
        token_count(seq![first, second]) == 2,
{
    law_one_more_line(seq![first], second);
    law_one_more_line(Seq::empty(), first);
    assert(Seq::<Seq<char>>::empty().push(first) =~= seq![first]);
    assert(seq![first].push(second) =~= seq![first, second]);
    assert(collected_text(Seq::<Seq<char>>::empty()) =~= Seq::<char>::empty());
    assert(Seq::<char>::empty() + a =~= a);
}

/// The client is run on the asked-for model and prompt: the model is the
/// value of `-m`, the prompt the value of `-p`, each given whole and once,
/// its output is line-by-line JSON, and the workspace trust prompt is skipped.
pub proof fn law_client_runs_as_asked(model: Seq<char>, prompt: Seq<char>)
    ensures
        ({
            let a = gemini_argument_list(model, prompt);
            &&& a.len() == 7
            &&& a[0] == "--skip-trust"@
            &&& a[1] == "-m"@ && a[2] == model
            &&& a[3] == "-p"@ && a[4] == prompt
            &&& a[5] == "--output-format"@ && a[6] == "stream-json"@
        }),
{
}

} // verus!

//! The HTTP side of the gateway: which models it lists, which chat requests
//! it refuses and how, how failures are answered, and its startup settings.

use vstd::prelude::*;
use crate::engine::target_model;
use crate::models::ModelEntry;
use crate::text::{chars_of, same_text};

verus! {

/// The shape of the `tools` member of a chat request, as far as the gateway
/// looks at it.
pub enum ToolsShape {
    /// `null`.
    Null,
    /// An array with this many elements.
    Array(usize),
    /// Anything else: an object, a string, a number or a boolean.
    Other,
}

/// Whether a request with this `tools` member can be served: the gateway runs
/// no tools, so it takes only a missing member, `null` or an empty array.
pub open spec fn tools_acceptable(tools: Option<ToolsShape>) -> bool {
    match tools {
        None => true,
        Some(ToolsShape::Null) => true,
        Some(ToolsShape::Array(n)) => n == 0,
        Some(ToolsShape::Other) => false,
    }
}

/// An error answer: an HTTP status and a plain-text body.
pub struct ErrorReply {
    pub status: u16,
    pub body: String,
}

/// The text a request that asks for tools is refused with.
pub open spec fn tools_refusal_text() -> Seq<char> {
    "Tool calls are not supported by the stateless gemini-cli proxy execution model."@
}

/// How a chat request is answered.
pub enum ChatRoute {
    /// Refused at once with this answer.
    Refuse(ErrorReply),
    /// Answered as a stream of server-sent events.
    Stream,
    /// Answered with one complete response.
    Collect,
}

/// Decides how a chat request is answered from its `tools` member and its
/// `stream` flag: a request that asks for tools is refused with 400 Bad
/// Request; any other is streamed or collected as it asks.
pub fn route_chat_request(tools: &Option<ToolsShape>, stream: bool) -> (r: ChatRoute)
    ensures
        !tools_acceptable(*tools) <==> r is Refuse,
        r matches ChatRoute::Refuse(e) ==> e.status == 400 && e.body@ == tools_refusal_text(),
        tools_acceptable(*tools) ==> (if stream {
            r is Stream
        } else {
            r is Collect
        }),
{
    let acceptable = match tools {
        None => true,
        Some(ToolsShape::Null) => true,
        Some(ToolsShape::Array(n)) => *n == 0,
        Some(ToolsShape::Other) => false,
    };
    if !acceptable {
        ChatRoute::Refuse(
            ErrorReply {
                status: 400,
                body: "Tool calls are not supported by the stateless gemini-cli proxy execution model.".to_owned(),
            },
        )
    } else if stream {
        ChatRoute::Stream
    } else {
        ChatRoute::Collect
    }
}

/// What the gateway makes of a chat request before running the client: how
/// it is answered, and whether to warn that sampling parameters are ignored.
pub struct ChatPlan {
    pub route: ChatRoute,
    pub warn_ignored: bool,
}

/// Plans a chat request from its `tools` member, its `stream` flag and
/// whether it gives `temperature` and `max_tokens`. The route depends on the
/// tools and the flag alone, as `route_chat_request` decides it: the client
/// runs no sampling parameters, so the two are ignored, and a request that
/// is not refused is warned about exactly when it gives either of them.
pub fn plan_chat_request(
    tools: &Option<ToolsShape>,
    stream: bool,
    temperature_given: bool,
    max_tokens_given: bool,
) -> (r: ChatPlan)
    ensures
        !tools_acceptable(*tools) <==> r.route is Refuse,
        r.route matches ChatRoute::Refuse(e) ==> e.status == 400 && e.body@ == tools_refusal_text(),
        tools_acceptable(*tools) ==> (if stream {
            r.route is Stream
        } else {
            r.route is Collect
        }),
        r.warn_ignored == (tools_acceptable(*tools) && (temperature_given || max_tokens_given)),
{
    let route = route_chat_request(tools, stream);
    let refused = match &route {
        ChatRoute::Refuse(_) => true,
        _ => false,
    };
    ChatPlan { route, warn_ignored: !refused && (temperature_given || max_tokens_given) }
}

/// The answer to a complete-answer request whose run of the client failed
/// with `detail`: 500 Internal Server Error and the reason.
pub fn engine_failure_reply(detail: &str) -> (r: ErrorReply)
    ensures
        r.status == 500,
        r.body@ == "Engine execution error: "@ + detail@,
{
    let mut body = String::new();
    body.append("Engine execution error: ");
    body.append(detail);
    ErrorReply { status: 500, body }
}

/// The data of the event that tells a streaming client its run failed with `detail`.
pub fn stream_error_data(detail: &str) -> (r: String)
    ensures
        r@ == "Error: "@ + detail@,
{
    let mut data = String::new();
    data.append("Error: ");
    data.append(detail);
    data
}

/// The data of the events that close a stream whose run ended with
/// `failure`: the error, if the run failed, and then `[DONE]`, always last.
pub fn stream_closing_events(failure: Option<&str>) -> (r: Vec<String>)
    ensures
        r@.len() >= 1,
        r@.last()@ == "[DONE]"@,
        match failure {
            Some(detail) => r@.len() == 2 && r@[0]@ == "Error: "@ + detail@,
            None => r@.len() == 1,
        },
{
    let mut events: Vec<String> = Vec::new();
    if let Some(detail) = failure {
        events.push(stream_error_data(detail));
    }
    events.push("[DONE]".to_owned());
    events
}

/// The identifiers of the models served at `/v1/models`, in the order listed.
pub open spec fn catalog_ids() -> Seq<Seq<char>> {
    seq![
        "gemini-cli"@,
        "gemini-3-flash"@,
        "gemini-3.1-flash-lite"@,
        "gemini-1.5-pro"@,
        "gemini-2.5-pro"@,
        "gemini-3.1-pro-preview"@,
    ]
}

fn catalog_entry(id: &str) -> (r: ModelEntry)
    ensures
        r.id@ == id@,
        r.object@ == "model"@,
        r.created == 1717113600,
        r.owned_by@ == "google"@,
{
    ModelEntry {
        id: id.to_owned(),
        object: "model".to_owned(),
        created: 1717113600,
        owned_by: "google".to_owned(),
    }
}

/// The models served at `/v1/models`: each is a `model` owned by `google`,
/// created at 1717113600.
pub fn model_catalog() -> (r: Vec<ModelEntry>)
    ensures
        r@.len() == catalog_ids().len(),
        forall|i: int|
            0 <= i < r@.len() ==> {
                &&& #[trigger] r@[i].id@ == catalog_ids()[i]
                &&& r@[i].object@ == "model"@
                &&& r@[i].created == 1717113600
                &&& r@[i].owned_by@ == "google"@
            },
{
    let mut models: Vec<ModelEntry> = Vec::new();
    models.push(catalog_entry("gemini-cli"));
    models.push(catalog_entry("gemini-3-flash"));
    models.push(catalog_entry("gemini-3.1-flash-lite"));
    models.push(catalog_entry("gemini-1.5-pro"));
    models.push(catalog_entry("gemini-2.5-pro"));
    models.push(catalog_entry("gemini-3.1-pro-preview"));
    models
}

/// Every listed model resolves to a listed model: the alias `gemini-cli`
/// to `gemini-3-flash`, every other one to itself.
pub proof fn law_catalog_resolves_within_itself(i: int)
    requires
        0 <= i < catalog_ids().len(),
    ensures
        catalog_ids().contains(target_model(catalog_ids()[i])),
        i > 0 ==> target_model(catalog_ids()[i]) == catalog_ids()[i],
{
    reveal_strlit("gemini-cli");
    reveal_strlit("gemini-3-flash");
    reveal_strlit("gemini-3.1-flash-lite");
    reveal_strlit("gemini-1.5-pro");
    reveal_strlit("gemini-2.5-pro");
    reveal_strlit("gemini-3.1-pro-preview");
    reveal_strlit("default");
    let ids = catalog_ids();
    if i == 0 {
        assert(target_model(ids[0]) == ids[1]);
    } else {
        assert(ids[i].len() != "gemini-cli"@.len());
        assert(ids[i].len() != "default"@.len());
        assert(target_model(ids[i]) == ids[i]);
    }
}

/// Whether `c` is one of the ASCII digits `0` to `9`.
pub open spec fn is_digit(c: char) -> bool {
    '0' <= c <= '9'
}

/// The number that the digits `s` write in base ten.
pub open spec fn decimal_value(s: Seq<char>) -> nat
    decreases s.len(),
{
    if s.len() == 0 {
        0
    } else {
        decimal_value(s.drop_last()) * 10 + ((s.last() as int) - ('0' as int)) as nat
    }
}

/// `s` without one leading `+`, if it has one.
pub open spec fn without_plus(s: Seq<char>) -> Seq<char> {
    if s.len() > 0 && s[0] == '+' {
        s.drop_first()
    } else {
        s
    }
}

/// The `u16` that `s` writes as `str::parse::<u16>` reads it: an optional `+`
/// and then one or more decimal digits whose value is at most 65535.
pub open spec fn parsed_u16(s: Seq<char>) -> Option<u16> {
    let d = without_plus(s);
    if d.len() > 0 && (forall|i: int| 0 <= i < d.len() ==> is_digit(#[trigger] d[i]))
        && decimal_value(d) <= 65535 {
        Some(decimal_value(d) as u16)
    } else {
        None
    }
}

proof fn lemma_decimal_value_grows(d: Seq<char>, k: int)
    requires
        0 <= k <= d.len(),
        forall|i: int| 0 <= i < d.len() ==> is_digit(#[trigger] d[i]),
    ensures
        decimal_value(d.take(k)) <= decimal_value(d),
    decreases d.len() - k,
{
    if k < d.len() {
        lemma_decimal_value_grows(d, k + 1);
        assert(d.take(k + 1).drop_last() =~= d.take(k));
        assert(d.take(k + 1).last() == d[k]);
    } else {
        assert(d.take(k) =~= d);
    }
}

/// Reads `s` as `str::parse::<u16>` does.
pub fn parse_u16(s: &str) -> (r: Option<u16>)
    ensures
        r == parsed_u16(s@),
{
    let cs = chars_of(s);
    let n = cs.len();
    let start: usize = if n > 0 && cs[0] == '+' {
        1
    } else {
        0
    };
    let ghost d = without_plus(s@);
    assert(d =~= s@.subrange(start as int, n as int));
    if start == n {
        return None;
    }
    let mut acc: u32 = 0;
    let mut i: usize = start;
    while i < n
        invariant
            n == cs@.len(),
            cs@ == s@,
            start <= i <= n,
            d == s@.subrange(start as int, n as int),
            d == without_plus(s@),
            acc as nat == decimal_value(d.take(i - start)),
            acc <= 65535,
            forall|k: int| 0 <= k < i - start ==> is_digit(#[trigger] d[k]),
        decreases n - i,
    {
        let c = cs[i];
        if !('0' <= c && c <= '9') {
            assert(d[i - start] == c);
            assert(!is_digit(d[i - start]));
            return None;
        }
        let digit: u32 = (c as u32) - ('0' as u32);
        acc = acc * 10 + digit;
        proof {
            assert(d.take(i - start + 1).drop_last() =~= d.take(i - start));
            assert(d.take(i - start + 1).last() == c);
        }
        i = i + 1;
        if acc > 65535 {
            proof {
                if forall|k: int| 0 <= k < d.len() ==> is_digit(#[trigger] d[k]) {
                    lemma_decimal_value_grows(d, i - start);
                }
            }
            return None;
        }
    }
    assert(d.take(n - start) =~= d);
    Some(acc as u16)
}

/// The port the gateway listens on: the configured one if it reads as a
/// `u16`, else 8765.
pub fn listen_port(configured: Option<String>) -> (r: u16)
    ensures
        r == match configured {
            Some(p) => match parsed_u16(p@) {
                Some(n) => n,
                None => 8765,
            },
            None => 8765,
        },
{
    match configured {
        Some(p) => match parse_u16(p.as_str()) {
            Some(n) => n,
            None => 8765,
        },
        None => 8765,
    }
}

/// Whether the command line `args` asks for the version: it holds `-v` or `--version`.
pub fn asks_for_version(args: &Vec<String>) -> (r: bool)
    ensures
        r == exists|i: int|
            0 <= i < args@.len() && (#[trigger] args@[i]@ == "-v"@ || args@[i]@ == "--version"@),
{
    let n = args.len();
    for i in 0..n
        invariant
            n == args@.len(),
            forall|k: int|
                0 <= k < i ==> !(#[trigger] args@[k]@ == "-v"@ || args@[k]@ == "--version"@),
    {
        if same_text(args[i].as_str(), "-v") || same_text(args[i].as_str(), "--version") {
            return true;
        }
    }
    false
}

/// Which `tools` members are served: a missing member, `null` and the empty
/// array; an array holding any tool, or any other JSON value, is refused.
pub proof fn law_tools_acceptance(n: usize)
    ensures
        tools_acceptable(None),
        tools_acceptable(Some(ToolsShape::Null)),
        tools_acceptable(Some(ToolsShape::Array(0))),
        n > 0 ==> !tools_acceptable(Some(ToolsShape::Array(n))),
        !tools_acceptable(Some(ToolsShape::Other)),
{
}

/// The digit that writes `d` in base ten.
pub open spec fn digit_char(d: int) -> char {
    if d == 0 {
        '0'
    } else if d == 1 {
        '1'
    } else if d == 2 {
        '2'
    } else if d == 3 {
        '3'
    } else if d == 4 {
        '4'
    } else if d == 5 {
        '5'
    } else if d == 6 {
        '6'
    } else if d == 7 {
        '7'
    } else if d == 8 {
        '8'
    } else {
        '9'
    }
}

/// `n` written in base ten, without leading zeros.
pub open spec fn decimal_text(n: nat) -> Seq<char>
    decreases n,
{
    if n < 10 {
        seq![digit_char(n as int)]
    } else {
        decimal_text(n / 10).push(digit_char((n % 10) as int))
    }
}

proof fn lemma_digit_char(d: int)
    requires
        0 <= d < 10,
    ensures
        is_digit(digit_char(d)),
        (digit_char(d) as int) - ('0' as int) == d,
{
}

proof fn lemma_decimal_text(n: nat)
    ensures
        decimal_text(n).len() > 0,
        forall|i: int| 0 <= i < decimal_text(n).len() ==> is_digit(#[trigger] decimal_text(n)[i]),
        decimal_value(decimal_text(n)) == n,
    decreases n,
{
    if n < 10 {
        lemma_digit_char(n as int);
        let s = decimal_text(n);
        assert(s.drop_last() =~= Seq::<char>::empty());
        assert(decimal_value(s.drop_last()) == 0);
    } else {
        lemma_decimal_text(n / 10);
        let s = decimal_text(n / 10);
        let d = (n % 10) as int;
        lemma_digit_char(d);
        assert(n == 10 * (n / 10) + n % 10) by {
            vstd::arithmetic::div_mod::lemma_fundamental_div_mod(n as int, 10);
        }
        assert(s.push(digit_char(d)).drop_last() =~= s);
        assert forall|i: int| 0 <= i < decimal_text(n).len() implies is_digit(
            #[trigger] decimal_text(n)[i],
        ) by {
            if i < s.len() {
                assert(decimal_text(n)[i] == s[i]);
            }
        }
    }
}

/// Every port number reads back as itself: `parse_u16`, as `str::parse::<u16>`,
/// takes the base-ten writing of any `n` up to 65535, with or without a
/// leading `+`, to `n`; so `PORT=9000` is port 9000.
pub proof fn law_port_numbers_read_back(n: u16)
    ensures
        parsed_u16(decimal_text(n as nat)) == Some(n),
        parsed_u16(seq!['+'].add(decimal_text(n as nat))) == Some(n),
{
    lemma_decimal_text(n as nat);
    let s = decimal_text(n as nat);
    assert(is_digit(s[0]));
    assert(without_plus(s) == s);
    let p = seq!['+'].add(s);
    assert(p.drop_first() =~= s);
    assert(without_plus(p) == s);
}

/// Each digit `0` to `9` counts as a digit of its own value.
pub proof fn law_digits(d: int)
    requires
        0 <= d < 10,
    ensures
        is_digit(digit_char(d)),
        decimal_value(seq![digit_char(d)]) == d,
        parsed_u16(seq![digit_char(d)]) == Some(d as u16),
{
    lemma_digit_char(d);
    let s = seq![digit_char(d)];
    assert(s.drop_last() =~= Seq::<char>::empty());
    assert(decimal_value(s.drop_last()) == 0);
    assert(s[0] == digit_char(d));
    assert(without_plus(s) == s);
}

/// What is not a port number is refused: the empty text, a lone `+`, and any
/// text with a character other than a digit, save one leading `+`.
pub proof fn law_non_numbers_are_refused(s: Seq<char>, i: int)
    ensures
        parsed_u16(Seq::<char>::empty()) is None,
        parsed_u16(seq!['+']) is None,
        0 <= i < s.len() && !is_digit(s[i]) && !(i == 0 && s[i] == '+') ==> parsed_u16(s) is None,
{
    assert(seq!['+'].drop_first() =~= Seq::<char>::empty());
    if 0 <= i < s.len() && !is_digit(s[i]) && !(i == 0 && s[i] == '+') {
        let d = without_plus(s);
        if s.len() > 0 && s[0] == '+' {
            assert(d[i - 1] == s[i]);
        } else {
            assert(d[i] == s[i]);
        }
    }
}

} // verus!

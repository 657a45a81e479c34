use gemini_proxy::engine::{
    assistant_text, client_program, combine_messages, gemini_arguments, gemini_environment,
    parse_stream_json_line, project_or_default, resolve_model, spawn_failure_message,
    stdout_capture_failure_message,
    CollectAction, Collector, ReadEvent, StreamAction, Streamer,
};
use gemini_proxy::models::ChatMessage;
use gemini_proxy::text::trim_white_space;

fn msg(role: &str, content: &str) -> ChatMessage {
    ChatMessage {
        role: role.to_string(),
        content: content.to_string(),
    }
}

#[test]
fn test_combine_messages() {
    let messages = vec![
        msg("system", "System instructions here"),
        msg("user", "Hello"),
    ];
    let combined = combine_messages(&messages);
    assert!(combined.contains("System Instruction: System instructions here"));
    assert!(combined.contains("User: Hello"));
}

#[test]
fn combine_messages_exact_layout() {
    let messages = vec![
        msg("system", "S"),
        msg("user", "U"),
        msg("assistant", "A"),
        msg("tool", "T"),
    ];
    assert_eq!(
        combine_messages(&messages),
        "System Instruction: S\n\nUser: U\n\nAssistant: A\n\ntool: T\n\n"
    );
}

#[test]
fn combine_messages_empty_chat() {
    assert_eq!(combine_messages(&[]), "");
}

#[test]
fn combine_messages_concatenates_parts() {
    let a = vec![msg("user", "one")];
    let b = vec![msg("assistant", "two"), msg("user", "three")];
    let mut ab = vec![msg("user", "one")];
    ab.push(msg("assistant", "two"));
    ab.push(msg("user", "three"));
    let joined = format!("{}{}", combine_messages(&a), combine_messages(&b));
    assert_eq!(combine_messages(&ab), joined);
}

#[test]
fn test_parse_stream_json_line_valid() {
    let line = r#"{"type":"message","timestamp":"2026-06-01T01:34:57.089Z","role":"assistant","content":"This is a token chunk.","delta":true}"#;
    let parsed = parse_stream_json_line(line).unwrap();
    assert_eq!(parsed, "This is a token chunk.");
}

#[test]
fn test_parse_stream_json_line_other_type() {
    let line = r#"{"type":"tool_use","tool_name":"some_tool"}"#;
    let parsed = parse_stream_json_line(line);
    assert!(parsed.is_none());
}

#[test]
fn test_parse_stream_json_line_invalid() {
    let line = "not a json line";
    let parsed = parse_stream_json_line(line);
    assert!(parsed.is_none());
}

#[test]
fn parse_line_user_role_gives_nothing() {
    let line = r#"{"type":"message","role":"user","content":"hi"}"#;
    assert!(parse_stream_json_line(line).is_none());
}

#[test]
fn parse_line_non_string_content_gives_nothing() {
    let line = r#"{"type":"message","role":"assistant","content":42}"#;
    assert!(parse_stream_json_line(line).is_none());
}

#[test]
fn parse_line_with_surrounding_white_space() {
    let line = "  \t{\"type\":\"message\",\"role\":\"assistant\",\"content\":\"hey\"}\r\n";
    assert_eq!(parse_stream_json_line(line), Some("hey".to_string()));
}

#[test]
fn parse_line_blank_gives_nothing() {
    assert!(parse_stream_json_line("").is_none());
    assert!(parse_stream_json_line(" \n\t\u{3000}").is_none());
}

#[test]
fn parse_line_escaped_content_is_decoded() {
    let line = r#"{"type":"message","role":"assistant","content":"a\nb \"q\""}"#;
    assert_eq!(parse_stream_json_line(line), Some("a\nb \"q\"".to_string()));
}

#[test]
fn assistant_text_picks_content_of_assistant_messages() {
    let s = |x: &str| Some(x.to_string());
    assert_eq!(assistant_text(s("message"), s("assistant"), s("x")), s("x"));
    assert_eq!(assistant_text(s("message"), s("assistant"), None), None);
    assert_eq!(assistant_text(s("message"), s("user"), s("x")), None);
    assert_eq!(assistant_text(s("result"), s("assistant"), s("x")), None);
    assert_eq!(assistant_text(None, s("assistant"), s("x")), None);
}

#[test]
fn trim_matches_std_trim() {
    for s in ["", "  a b  ", "\u{a0}x\u{2028}", "\t\n", "abc", " \u{1680}z\u{205f} "] {
        assert_eq!(trim_white_space(s), s.trim());
    }
}

#[test]
fn resolve_model_aliases() {
    assert_eq!(resolve_model("gemini-cli"), "gemini-3-flash");
    assert_eq!(resolve_model("default"), "gemini-3-flash");
    assert_eq!(resolve_model(""), "gemini-3-flash");
    assert_eq!(resolve_model("gemini-2.5-pro"), "gemini-2.5-pro");
}

#[test]
fn resolve_model_is_idempotent() {
    for m in ["gemini-cli", "default", "", "gemini-1.5-pro", "other"] {
        let once = resolve_model(m);
        assert_eq!(resolve_model(once), once);
    }
}

#[test]
fn gemini_arguments_layout() {
    let args = gemini_arguments("gemini-3-flash", "User: Hello\n\n");
    assert_eq!(
        args,
        vec![
            "--skip-trust",
            "-m",
            "gemini-3-flash",
            "-p",
            "User: Hello\n\n",
            "--output-format",
            "stream-json"
        ]
    );
}

#[test]
fn gemini_environment_layout() {
    let vars = gemini_environment("proj", "/tmp");
    let expected: Vec<(String, String)> = vec![
        ("GOOGLE_CLOUD_PROJECT".into(), "proj".into()),
        ("GEMINI_CLI_TRUST_WORKSPACE".into(), "true".into()),
        ("PWD".into(), "/tmp".into()),
        ("INIT_CWD".into(), "/tmp".into()),
    ];
    assert_eq!(vars, expected);
}

#[test]
fn project_defaults() {
    assert_eq!(project_or_default(None), "default");
    assert_eq!(project_or_default(Some("p1".to_string())), "p1");
}

#[test]
fn spawn_failure_text() {
    assert_eq!(
        spawn_failure_message("not found"),
        "Failed to spawn gemini subprocess: not found"
    );
}

fn assistant_line(text: &str) -> String {
    format!(
        "{{\"type\":\"message\",\"role\":\"assistant\",\"content\":\"{}\"}}\n",
        text
    )
}

/// The lines `echo` prints when run with `args`: its arguments joined by
/// spaces and a final newline, cut after each newline.
fn echo_lines(args: &[String]) -> Vec<String> {
    let printed = format!("{}\n", args.join(" "));
    printed.split_inclusive('\n').map(|l| l.to_string()).collect()
}

#[test]
fn test_collect_prompt_with_mock_binary() {
    // `echo` prints its arguments, which hold no stream-json record.
    let prompt = combine_messages(&[msg("user", "Hello")]);
    let args = gemini_arguments(resolve_model("gemini-3-flash"), &prompt);
    let lines = echo_lines(&args);
    assert_eq!(
        lines,
        vec![
            "--skip-trust -m gemini-3-flash -p User: Hello\n".to_string(),
            "\n".to_string(),
            " --output-format stream-json\n".to_string(),
        ]
    );
    let mut c = Collector::new();
    for line in lines {
        assert!(matches!(c.step(ReadEvent::Line(line)), CollectAction::ReadMore));
    }
    assert!(matches!(c.step(ReadEvent::Closed), CollectAction::Finish));
    assert_eq!(c.text, "");
    assert_eq!(c.tokens, 0);
}

#[test]
fn streamer_finishes_when_client_is_gone() {
    let mut s = Streamer::new("m", 7);
    assert!(matches!(s.step(ReadEvent::Line(assistant_line("a"))), StreamAction::Send(_)));
    assert!(matches!(s.client_gone(), StreamAction::Finish));
    assert_eq!(s.tokens, 1);
    assert_eq!(s.created, 7);
    assert_eq!(s.model, "m");
}

#[test]
fn client_program_default() {
    assert_eq!(client_program(None), "gemini");
    assert_eq!(client_program(Some("echo".to_string())), "echo");
}

#[test]
fn collector_gathers_tokens_in_order() {
    let mut c = Collector::new();
    let lines = vec![
        assistant_line("Hel"),
        "{\"type\":\"init\"}\n".to_string(),
        "\n".to_string(),
        assistant_line("lo"),
    ];
    for l in lines {
        assert!(matches!(c.step(ReadEvent::Line(l)), CollectAction::ReadMore));
    }
    assert_eq!(c.text, "Hello");
    assert_eq!(c.tokens, 2);
    assert!(matches!(c.step(ReadEvent::Closed), CollectAction::Finish));
    assert_eq!(c.text, "Hello");
}

#[test]
fn collector_aborts_on_read_failure() {
    let mut c = Collector::new();
    match c.step(ReadEvent::Failed("broken pipe".to_string())) {
        CollectAction::Abort(m) => {
            assert_eq!(m, "Error reading stream-json from gemini: broken pipe")
        }
        _ => panic!("expected an abort"),
    }
}

#[test]
fn streamer_emits_one_chunk_per_token() {
    let mut s = Streamer::new("gemini-3-flash", 1700000000);
    match s.step(ReadEvent::Line(assistant_line("Hi"))) {
        StreamAction::Send(chunk) => {
            assert_eq!(chunk.id, "chatcmpl-gemini");
            assert_eq!(chunk.object, "chat.completion.chunk");
            assert_eq!(chunk.created, 1700000000);
            assert_eq!(chunk.model, "gemini-3-flash");
            assert_eq!(chunk.choices.len(), 1);
            assert_eq!(chunk.choices[0].index, 0);
            assert_eq!(chunk.choices[0].delta.role, None);
            assert_eq!(chunk.choices[0].delta.content, Some("Hi".to_string()));
            assert_eq!(chunk.choices[0].finish_reason, None);
        }
        _ => panic!("expected a chunk"),
    }
    assert_eq!(s.tokens, 1);
    assert!(matches!(
        s.step(ReadEvent::Line("garbage\n".to_string())),
        StreamAction::ReadMore
    ));
    assert!(matches!(s.step(ReadEvent::Closed), StreamAction::Finish));
    match s.step(ReadEvent::Failed("eof".to_string())) {
        StreamAction::Abort(m) => assert_eq!(m, "Error reading stream-json from gemini: eof"),
        _ => panic!("expected an abort"),
    }
    assert_eq!(s.tokens, 1);
}

#[test]
fn stream_and_collect_agree() {
    let lines = vec![
        assistant_line("a"),
        "x".to_string(),
        assistant_line("bc"),
        assistant_line(""),
    ];
    let mut c = Collector::new();
    let mut s = Streamer::new("m", 0);
    let mut streamed = String::new();
    let mut chunks = 0;
    for l in lines {
        c.step(ReadEvent::Line(l.clone()));
        if let StreamAction::Send(chunk) = s.step(ReadEvent::Line(l)) {
            streamed.push_str(chunk.choices[0].delta.content.as_ref().unwrap());
            chunks += 1;
        }
    }
    assert_eq!(streamed, c.text);
    assert_eq!(chunks, c.tokens);
    assert_eq!(c.text, "abc");
    assert_eq!(c.tokens, 3);
}

#[test]
fn trim_is_idempotent() {
    for s in ["  a  ", "\u{2000}\u{2001}", "x", " \t y z \n"] {
        let once = trim_white_space(s);
        assert_eq!(trim_white_space(once), once);
    }
    assert_eq!(trim_white_space(" \u{85}\u{a0}\u{3000}\r"), "");
}

#[test]
fn stdout_failure_text() {
    assert_eq!(stdout_capture_failure_message(), "Failed to capture child stdout");
}

#[test]
fn two_runs_on_the_same_output_agree() {
    let lines = vec![assistant_line("x"), "noise\n".to_string(), assistant_line("y")];
    let mut first = Collector::new();
    let mut second = Collector::new();
    for l in &lines {
        first.step(ReadEvent::Line(l.clone()));
    }
    for l in &lines {
        second.step(ReadEvent::Line(l.clone()));
    }
    assert_eq!(first.text, second.text);
    assert_eq!(first.tokens, second.tokens);
    assert_eq!(first.text, "xy");
}

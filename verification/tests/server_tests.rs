use gemini_proxy::engine::resolve_model;
use gemini_proxy::models::completion_response;
use gemini_proxy::server::{
    asks_for_version, engine_failure_reply, listen_port, model_catalog, parse_u16,
    plan_chat_request, route_chat_request, stream_closing_events, stream_error_data, ChatRoute, ToolsShape,
};

#[test]
fn test_handle_models() {
    let models = model_catalog();
    let ids: Vec<&str> = models.iter().map(|m| m.id.as_str()).collect();
    assert_eq!(
        ids,
        vec![
            "gemini-cli",
            "gemini-3-flash",
            "gemini-3.1-flash-lite",
            "gemini-1.5-pro",
            "gemini-2.5-pro",
            "gemini-3.1-pro-preview"
        ]
    );
    for m in &models {
        assert_eq!(m.object, "model");
        assert_eq!(m.created, 1717113600);
        assert_eq!(m.owned_by, "google");
    }
}

#[test]
fn catalog_models_resolve_to_listed_models() {
    let models = model_catalog();
    for m in &models {
        let target = resolve_model(&m.id);
        assert!(models.iter().any(|n| n.id == target));
    }
}

#[test]
fn test_handle_chat_completions_tools_rejection() {
    match route_chat_request(&Some(ToolsShape::Array(1)), false) {
        ChatRoute::Refuse(reply) => {
            assert_eq!(reply.status, 400);
            assert_eq!(
                reply.body,
                "Tool calls are not supported by the stateless gemini-cli proxy execution model."
            );
        }
        _ => panic!("expected a refusal"),
    }
}

#[test]
fn test_handle_chat_completions_tools_non_array_rejection() {
    assert!(matches!(
        route_chat_request(&Some(ToolsShape::Other), false),
        ChatRoute::Refuse(_)
    ));
    assert!(matches!(
        route_chat_request(&Some(ToolsShape::Other), true),
        ChatRoute::Refuse(_)
    ));
}

#[test]
fn empty_tools_are_accepted() {
    assert!(matches!(route_chat_request(&None, false), ChatRoute::Collect));
    assert!(matches!(route_chat_request(&None, true), ChatRoute::Stream));
    assert!(matches!(
        route_chat_request(&Some(ToolsShape::Null), true),
        ChatRoute::Stream
    ));
    assert!(matches!(
        route_chat_request(&Some(ToolsShape::Array(0)), false),
        ChatRoute::Collect
    ));
}

#[test]
fn engine_failure_is_internal_error() {
    let r = engine_failure_reply("boom");
    assert_eq!(r.status, 500);
    assert_eq!(r.body, "Engine execution error: boom");
}

#[test]
fn stream_event_texts() {
    assert_eq!(stream_error_data("boom"), "Error: boom");
    assert_eq!(stream_closing_events(None), vec!["[DONE]".to_string()]);
    assert_eq!(
        stream_closing_events(Some("boom")),
        vec!["Error: boom".to_string(), "[DONE]".to_string()]
    );
}

#[test]
fn completion_response_fields() {
    let r = completion_response("gemini-cli", 42, "answer".to_string());
    assert_eq!(r.id, "chatcmpl-gemini");
    assert_eq!(r.object, "chat.completion");
    assert_eq!(r.created, 42);
    assert_eq!(r.model, "gemini-cli");
    assert_eq!(r.choices.len(), 1);
    assert_eq!(r.choices[0].index, 0);
    assert_eq!(r.choices[0].message.role, "assistant");
    assert_eq!(r.choices[0].message.content, "answer");
    assert_eq!(r.choices[0].finish_reason, Some("stop".to_string()));
    let u = r.usage.unwrap();
    assert_eq!((u.prompt_tokens, u.completion_tokens, u.total_tokens), (0, 0, 0));
}

#[test]
fn parse_u16_matches_std() {
    for s in [
        "0", "8765", "+80", "65535", "65536", "", "+", "-1", "-0", "12a", "0080", " 1",
        "99999999999", "\u{661}",
    ] {
        assert_eq!(parse_u16(s), s.parse::<u16>().ok(), "input {:?}", s);
    }
}

#[test]
fn listen_port_defaults() {
    assert_eq!(listen_port(None), 8765);
    assert_eq!(listen_port(Some("8080".to_string())), 8080);
    assert_eq!(listen_port(Some("70000".to_string())), 8765);
    assert_eq!(listen_port(Some("abc".to_string())), 8765);
}

#[test]
fn version_flag() {
    let args = |v: &[&str]| v.iter().map(|s| s.to_string()).collect::<Vec<String>>();
    assert!(asks_for_version(&args(&["prog", "-v"])));
    assert!(asks_for_version(&args(&["prog", "x", "--version"])));
    assert!(!asks_for_version(&args(&["prog", "-V", "version"])));
    assert!(!asks_for_version(&args(&[])));
}

#[test]
fn sampling_parameters_are_ignored_and_warned_about() {
    for stream in [false, true] {
        for t in [false, true] {
            for m in [false, true] {
                let plan = plan_chat_request(&None, stream, t, m);
                if stream {
                    assert!(matches!(plan.route, ChatRoute::Stream));
                } else {
                    assert!(matches!(plan.route, ChatRoute::Collect));
                }
                assert_eq!(plan.warn_ignored, t || m);
                let refused = plan_chat_request(&Some(ToolsShape::Other), stream, t, m);
                match refused.route {
                    ChatRoute::Refuse(reply) => assert_eq!(reply.status, 400),
                    _ => panic!("expected a refusal"),
                }
                assert!(!refused.warn_ignored);
            }
        }
    }
}

use kilocode::client::{ChatMessage, ChatRequest, KiloCodeClient, message_to_json,
    request_to_json};
use kilocode::text::{join_spaced, u32_to_string};

#[test]
fn test_client_creation() {
    let client = KiloCodeClient::new("test_key".to_string());
    assert_eq!(client.api_key, "test_key");
    assert_eq!(client.base_url, "https://api.openai.com/v1");
    assert_eq!(client.model, "gpt-3.5-turbo");
}

#[test]
fn test_client_with_config() {
    let client = KiloCodeClient::with_config(
        "test_key".to_string(),
        "https://api.groq.com/openai/v1".to_string(),
        "llama3-70b-8192".to_string(),
    );
    assert_eq!(client.api_key, "test_key");
    assert_eq!(client.base_url, "https://api.groq.com/openai/v1");
    assert_eq!(client.model, "llama3-70b-8192");
}

#[test]
fn test_build_system_prompt() {
    let prompt = KiloCodeClient::build_system_prompt("explain");
    assert!(prompt.contains("Explain the provided code"));

    let prompt = KiloCodeClient::build_system_prompt("generate");
    assert!(prompt.contains("Generate code"));
}

#[test]
fn test_build_messages() {
    let client = KiloCodeClient::new("test_key".to_string());
    let messages = client.build_messages("System prompt", "User message", Some("code context"));
    assert_eq!(messages.len(), 2);
    assert_eq!(messages[0].role, "system");
    assert_eq!(messages[1].role, "user");
    assert!(messages[1].content.contains("code context"));
}

#[test]
fn test_chat_message_serialization() {
    let message = ChatMessage { role: "user".to_string(), content: "Hello".to_string() };
    let json = message_to_json(&message);
    assert!(json.contains("user"));
    assert!(json.contains("Hello"));
}

#[test]
fn message_list_always_two_turns() {
    let client = KiloCodeClient::new("k".to_string());
    for task in ["chat", "explain", "generate", "refactor", "fix", "docs", "anything"] {
        let sys = KiloCodeClient::build_system_prompt(task);
        let with_ctx = client.build_messages(&sys, "do it", Some("let x = 1;"));
        assert_eq!(with_ctx.len(), 2);
        assert_eq!(with_ctx[0].role, "system");
        assert_eq!(with_ctx[1].role, "user");
        let without_ctx = client.build_messages(&sys, "do it", None);
        assert_eq!(without_ctx.len(), 2);
        assert_eq!(without_ctx[0].role, "system");
        assert_eq!(without_ctx[1].role, "user");
    }
}

#[test]
fn context_wrapped_in_fenced_block_before_instruction() {
    let client = KiloCodeClient::new("k".to_string());
    let messages = client.build_messages("sys", "explain it", Some("fn main() {}"));
    assert_eq!(
        messages[1].content,
        "Here is the code context:\n```\nfn main() {}\n```\n\nexplain it"
    );
    let plain = client.build_messages("sys", "explain it", None);
    assert_eq!(plain[1].content, "explain it");
}

#[test]
fn request_body_wire_format() {
    let request = ChatRequest {
        model: "gpt-4".to_string(),
        messages: vec![
            ChatMessage { role: "system".to_string(), content: "be helpful".to_string() },
            ChatMessage { role: "user".to_string(), content: "hi".to_string() },
        ],
        temperature_tenths: Some(7),
        max_tokens: Some(2000),
    };
    let body = request_to_json(&request);
    assert_eq!(
        body,
        "{\"model\":\"gpt-4\",\"messages\":[{\"role\":\"system\",\"content\":\"be helpful\"},{\"role\":\"user\",\"content\":\"hi\"}],\"temperature\":0.7,\"max_tokens\":2000}"
    );
}

#[test]
fn request_body_escapes_strings() {
    let request = ChatRequest {
        model: "m".to_string(),
        messages: vec![ChatMessage {
            role: "user".to_string(),
            content: "a \"quoted\" line\nwith \\ and tab\t".to_string(),
        }],
        temperature_tenths: None,
        max_tokens: None,
    };
    let body = request_to_json(&request);
    assert_eq!(
        body,
        "{\"model\":\"m\",\"messages\":[{\"role\":\"user\",\"content\":\"a \\\"quoted\\\" line\\nwith \\\\ and tab\\t\"}],\"temperature\":null,\"max_tokens\":null}"
    );
}

#[test]
fn chat_completion_outbound_has_url_auth_and_body() {
    let client = KiloCodeClient::with_config(
        "secret".to_string(),
        "https://api.example.test/v1".to_string(),
        "gpt-4".to_string(),
    );
    let messages = client.build_messages("sys", "hello", None);
    let out = client.chat_completion(messages);
    assert_eq!(out.url, "https://api.example.test/v1/chat/completions");
    assert_eq!(out.authorization, "Bearer secret");
    assert_eq!(
        out.body,
        "{\"model\":\"gpt-4\",\"messages\":[{\"role\":\"system\",\"content\":\"sys\"},{\"role\":\"user\",\"content\":\"hello\"}],\"temperature\":0.7,\"max_tokens\":2000}"
    );
}

#[test]
fn task_operations_shape_the_user_turn() {
    let client = KiloCodeClient::new("k".to_string());
    let out = client.generate_code("a sort function", None, Some("Rust"));
    assert!(out.body.contains("Generate Rust code for: a sort function"));
    let out = client.explain_code("let x = 1;", None);
    assert!(out.body.contains("Explain this code in detail."));
    assert!(out.body.contains("let x = 1;"));
    let out = client.refactor_code("let x = 1;", "shorten it", Some("Rust"));
    assert!(out.body.contains("Refactor this Rust code. shorten it"));
    let out = client.fix_code("let x = 1;", Some("E0308"), Some("Rust"));
    assert!(out.body.contains("Fix the bugs in this code. Error: E0308 (Language: Rust)"));
    let out = client.generate_docs("let x = 1;", Some("Rust"), Some("rustdoc"));
    assert!(out.body.contains("Generate rustdoc documentation for this Rust code."));
    let out = client.chat("hello there", None, None);
    assert!(out.body.contains("hello there"));
}

#[test]
fn decimal_rendering() {
    assert_eq!(u32_to_string(0), "0");
    assert_eq!(u32_to_string(7), "7");
    assert_eq!(u32_to_string(2000), "2000");
    assert_eq!(u32_to_string(4294967295), "4294967295");
}

#[test]
fn join_args_with_spaces() {
    assert_eq!(join_spaced(&vec![]), "");
    assert_eq!(join_spaced(&vec!["one".to_string()]), "one");
    assert_eq!(join_spaced(&vec!["one".to_string(), "two".to_string(), "three".to_string()]),
        "one two three");
}

use kilocode::config::{resolve, Settings};
use kilocode::errors::ClientError;
use kilocode::extension::{KiloCodeExtension, KiloCodeExtensionWrapper};

fn settings_with_key() -> Settings {
    let mut s = Settings::new();
    s.set("kilocode.api_key".to_string(), "k".to_string());
    s
}

#[test]
fn sanitizer_strips_shell_tags() {
    assert_eq!(
        KiloCodeExtension::sanitize_output("```bash\nrm -rf /\n```"),
        "```\nrm -rf /\n```"
    );
    assert_eq!(KiloCodeExtension::sanitize_output("```sh\nls\n```"), "```\nls\n```");
    assert_eq!(KiloCodeExtension::sanitize_output("```shell\nls\n```"), "```\nls\n```");
    assert_eq!(KiloCodeExtension::sanitize_output("```powershell\ndir\n```"), "```\ndir\n```");
    assert_eq!(KiloCodeExtension::sanitize_output("```cmd\ndir\n```"), "```\ndir\n```");
}

#[test]
fn sanitizer_leaves_other_tags_alone() {
    assert_eq!(
        KiloCodeExtensionWrapper::sanitize_output("```python\nprint(1)\n```"),
        "```python\nprint(1)\n```"
    );
    assert_eq!(KiloCodeExtension::sanitize_output("```shelly\n```"), "```shelly\n```");
    assert_eq!(KiloCodeExtension::sanitize_output("plain text, no fence"),
        "plain text, no fence");
    assert_eq!(KiloCodeExtension::sanitize_output("``sh not a fence"), "``sh not a fence");
}

#[test]
fn sanitizer_is_idempotent_on_tricky_inputs() {
    for input in [
        "```bash\nrm -rf /\n```",
        "```bash```sh",
        "```shsh",
        "```sh```sh```sh",
        "````bash",
        "```bash`bash",
        "text ```shell\nls\n``` more ```python\npass\n```",
        "```",
        "``````",
    ] {
        let once = KiloCodeExtension::sanitize_output(input);
        let twice = KiloCodeExtension::sanitize_output(&once);
        assert_eq!(once, twice, "not idempotent on {:?}", input);
    }
}

#[test]
fn resolver_requires_the_api_key() {
    let settings = Settings::new();
    match resolve(&settings) {
        Err(ClientError::MissingCredential { key }) => assert_eq!(key, "kilocode.api_key"),
        _ => panic!("expected a missing-credential failure"),
    }
    assert!(KiloCodeExtension::get_api_key(&settings).is_err());
    assert_eq!(
        KiloCodeExtension::get_api_key(&settings).unwrap_err(),
        "API key not configured. Please set 'kilocode.api_key' in Zed settings."
    );
}

#[test]
fn resolver_applies_defaults() {
    let settings = settings_with_key();
    let config = resolve(&settings).unwrap();
    assert_eq!(config.api_key, "k");
    assert_eq!(config.model, "gpt-4");
    assert_eq!(config.base_url, "https://api.kilocode.ai/v1");
    assert_eq!(KiloCodeExtension::get_model(&settings), "gpt-4");
    assert_eq!(KiloCodeExtension::get_api_endpoint(&settings), "https://api.kilocode.ai/v1");
}

#[test]
fn resolver_honors_overrides_and_last_entry_wins() {
    let mut settings = settings_with_key();
    settings.set("kilocode.model".to_string(), "gpt-3.5-turbo".to_string());
    settings.set("kilocode.model".to_string(), "llama3-70b-8192".to_string());
    settings.set("kilocode.api_endpoint".to_string(), "https://api.groq.com/openai/v1".to_string());
    let config = resolve(&settings).unwrap();
    assert_eq!(config.model, "llama3-70b-8192");
    assert_eq!(config.base_url, "https://api.groq.com/openai/v1");
}

#[test]
fn oversized_input_is_rejected_before_any_call_is_prepared() {
    let prompt = "x".repeat(100001);
    assert!(KiloCodeExtension::validate_input(&prompt).is_err());
    assert_eq!(
        KiloCodeExtension::validate_input(&prompt).unwrap_err(),
        "Input too large (max 100,000 characters)"
    );
    assert!(KiloCodeExtensionWrapper::validate_input(&prompt).is_err());

    let settings = settings_with_key();
    match KiloCodeExtension::prepare_chat(&prompt, None, &settings) {
        Err(m) => assert_eq!(m, "Input too large (max 100,000 characters)"),
        Ok(_) => panic!("an oversized prompt must not produce a request"),
    }
}

#[test]
fn input_at_the_bound_is_accepted() {
    let prompt = "x".repeat(100000);
    assert!(KiloCodeExtension::validate_input(&prompt).is_ok());
    let settings = settings_with_key();
    assert!(KiloCodeExtension::prepare_chat(&prompt, None, &settings).is_ok());
}

#[test]
fn prepare_chat_builds_the_call_from_settings() {
    let settings = settings_with_key();
    let out = KiloCodeExtension::prepare_chat("hello", Some("let x = 1;"), &settings).unwrap();
    assert_eq!(out.url, "https://api.kilocode.ai/v1/chat/completions");
    assert_eq!(out.authorization, "Bearer k");
    assert!(out.body.contains("\"model\":\"gpt-4\""));
    assert!(out.body.contains("Here is the code context:"));
    assert!(out.body.contains("let x = 1;"));
    assert!(out.body.contains("hello"));
}

#[test]
fn prepare_chat_without_key_fails() {
    let settings = Settings::new();
    assert_eq!(
        KiloCodeExtension::prepare_chat("hello", None, &settings).unwrap_err(),
        "API key not configured. Please set 'kilocode.api_key' in Zed settings."
    );
}

#[test]
fn extension_slash_commands_compose_prompts() {
    let settings = settings_with_key();
    let args = vec!["make".to_string(), "a".to_string(), "parser".to_string()];
    let out = KiloCodeExtension::plan_slash_command("kc-generate", &args, Some("ctx"), &settings)
        .unwrap();
    assert!(out.body.contains("Generate code for: make a parser"));
    assert!(!out.body.contains("ctx"));

    let out = KiloCodeExtension::plan_slash_command("kc-docs", &vec![], None, &settings).unwrap();
    assert!(out.body.contains("Generate comprehensive documentation for this code"));

    let err = KiloCodeExtension::plan_slash_command("kc-what", &vec![], None, &settings)
        .unwrap_err();
    assert_eq!(err, "Unknown command: kc-what");
}

#[test]
fn finish_chat_sanitizes_the_completion() {
    let body = "{\"choices\":[{\"message\":{\"role\":\"assistant\",\
        \"content\":\"run this:\\n```bash\\nls\\n```\"}}]}";
    assert_eq!(
        KiloCodeExtension::finish_chat(200, body).unwrap(),
        "run this:\n```\nls\n```"
    );
    assert_eq!(
        KiloCodeExtension::finish_chat(500, "boom").unwrap_err(),
        "API error (500): boom"
    );
    assert_eq!(
        KiloCodeExtension::finish_chat(200, "{\"error\":{\"message\":\"rate limited\"}}")
            .unwrap_err(),
        "API error (200): rate limited"
    );
    assert_eq!(
        KiloCodeExtension::finish_chat(200, "nonsense").unwrap_err(),
        "Failed to parse API response"
    );
    assert_eq!(
        KiloCodeExtension::finish_chat(200, "{\"choices\":[]}").unwrap_err(),
        "No response from API"
    );
}

#[test]
fn wrapper_builds_its_client_on_first_use() {
    let mut wrapper = KiloCodeExtensionWrapper::new();
    assert!(wrapper.client.is_none());
    let args = vec!["hi".to_string()];
    let err = wrapper
        .plan_slash_command("kc", &args, None, None, None)
        .unwrap_err();
    assert_eq!(
        err,
        "KILOCODE_API_KEY environment variable not set. Please set it to use KiloCode functionality."
    );
    let out = wrapper
        .plan_slash_command("kc", &args, None, None, Some("env_key".to_string()))
        .unwrap();
    assert_eq!(out.url, "https://api.openai.com/v1/chat/completions");
    assert_eq!(out.authorization, "Bearer env_key");
    assert!(wrapper.client.is_some());
    let again = wrapper
        .plan_slash_command("kc", &args, None, None, None)
        .unwrap();
    assert_eq!(again.authorization, "Bearer env_key");
}

#[test]
fn wrapper_command_errors_and_context_routing() {
    let mut wrapper = KiloCodeExtensionWrapper::new();
    let key = Some("env_key".to_string());
    assert_eq!(
        wrapper.plan_slash_command("kc", &vec![], None, None, key.clone()).unwrap_err(),
        "Please provide a question or prompt for KiloCode."
    );
    assert_eq!(
        wrapper.plan_slash_command("kc-generate", &vec![], None, None, key.clone()).unwrap_err(),
        "Please provide a description of the code you want to generate."
    );
    assert_eq!(
        wrapper.plan_slash_command("nope", &vec![], None, None, key.clone()).unwrap_err(),
        "Unknown slash command: nope"
    );

    let out = wrapper
        .plan_slash_command("kc-explain", &vec![], Some("let y = 2;"), Some("Rust"), key.clone())
        .unwrap();
    assert!(out.body.contains("Explain this Rust code in detail."));
    assert!(out.body.contains("let y = 2;"));

    let out = wrapper
        .plan_slash_command("kc-explain", &vec!["what".to_string()], None, None, key.clone())
        .unwrap();
    assert!(out.body.contains("Explain this code: what"));

    let out = wrapper
        .plan_slash_command("kc-docs", &vec![], Some("let y = 2;"), Some("Rust"), key)
        .unwrap();
    assert!(out.body.contains("Generate rustdoc documentation for this Rust code."));
}

//! The chat client: builds role-tagged message lists for each task,
//! frames them as `chat/completions` request bodies, and owns the
//! resolved endpoint, key and model.
//!
//! The client prepares requests and reads responses; the HTTP exchange
//! itself is the caller's transport. Every task operation hands back an
//! [`HttpOutbound`] holding the URL, the authorization header value and
//! the request body; the transport's answer goes to
//! [`extract_completion`] in the response module.

use crate::json::spec_json_string;
use crate::json::push_json_string;
use crate::text::{push_str_chars, push_decimal, digit_char, spec_decimal, spec_digit,
    chars_to_string, str_eq};
use vstd::prelude::*;

verus! {

/// One role-tagged message of a chat exchange.
pub struct ChatMessage {
    pub role: String,
    pub content: String,
}

/// One request to the completion endpoint. The temperature is carried
/// in tenths, so the wire value 0.7 is stored as 7.
pub struct ChatRequest {
    pub model: String,
    pub messages: Vec<ChatMessage>,
    pub temperature_tenths: Option<u32>,
    pub max_tokens: Option<u32>,
}

/// The role and content of each message, as sequences.
pub open spec fn msgs_view(ms: Seq<ChatMessage>) -> Seq<(Seq<char>, Seq<char>)> {
    ms.map_values(|m: ChatMessage| (m.role@, m.content@))
}

/// The JSON object for one message.
pub open spec fn spec_message_json(role: Seq<char>, content: Seq<char>) -> Seq<char> {
    "{\"role\":"@ + spec_json_string(role) + ",\"content\":"@ + spec_json_string(content) + "}"@
}

/// The JSON array body for a message list: the first message, then
/// each further one after a comma.
pub open spec fn spec_messages_json(ms: Seq<(Seq<char>, Seq<char>)>) -> Seq<char>
    decreases ms.len(),
{
    if ms.len() == 0 {
        Seq::empty()
    } else {
        spec_message_json(ms[0].0, ms[0].1) + spec_messages_tail(ms.skip(1))
    }
}

/// The comma-led tail of a message array body.
pub open spec fn spec_messages_tail(ms: Seq<(Seq<char>, Seq<char>)>) -> Seq<char>
    decreases ms.len(),
{
    if ms.len() == 0 {
        Seq::empty()
    } else {
        seq![','] + spec_message_json(ms[0].0, ms[0].1) + spec_messages_tail(ms.skip(1))
    }
}

/// The JSON notation of an optional integer field: `null` when absent.
pub open spec fn spec_opt_number_json(v: Option<u32>) -> Seq<char> {
    match v {
        None => "null"@,
        Some(n) => spec_decimal(n as nat),
    }
}

/// The JSON notation of the temperature, carried in tenths: 7 is
/// written `0.7`; `null` when absent.
pub open spec fn spec_opt_temperature_json(v: Option<u32>) -> Seq<char> {
    match v {
        None => "null"@,
        Some(t) => spec_decimal((t / 10) as nat) + seq!['.'] + seq![spec_digit((t % 10) as nat)],
    }
}

/// The whole request body: model, messages, temperature, max_tokens.
pub open spec fn spec_request_json(
    model: Seq<char>,
    ms: Seq<(Seq<char>, Seq<char>)>,
    temp: Option<u32>,
    max: Option<u32>,
) -> Seq<char> {
    "{\"model\":"@ + spec_json_string(model) + ",\"messages\":["@ + spec_messages_json(ms)
        + "],\"temperature\":"@ + spec_opt_temperature_json(temp) + ",\"max_tokens\":"@
        + spec_opt_number_json(max) + "}"@
}

/// Writes the JSON object for one message.
fn push_message_json(out: &mut Vec<char>, m: &ChatMessage)
    ensures
        final(out)@ == old(out)@ + spec_message_json(m.role@, m.content@),
{
    push_str_chars(out, "{\"role\":");
    push_json_string(out, m.role.as_str());
    push_str_chars(out, ",\"content\":");
    push_json_string(out, m.content.as_str());
    push_str_chars(out, "}");
    proof {
        assert(out@ =~= old(out)@ + spec_message_json(m.role@, m.content@));
    }
}

/// Writes the array body for a message list.
fn push_messages_json(out: &mut Vec<char>, ms: &Vec<ChatMessage>)
    ensures
        final(out)@ == old(out)@ + spec_messages_json(msgs_view(ms@)),
{
    if ms.len() == 0 {
        proof {
            assert(old(out)@ + spec_messages_json(msgs_view(ms@)) =~= out@);
        }
        return ;
    }
    push_message_json(out, &ms[0]);
    proof {
        assert(msgs_view(ms@)[0] == (ms@[0].role@, ms@[0].content@));
        assert(msgs_view(ms@).skip(1) =~= msgs_view(ms@).skip(1));
        assert(old(out)@ + spec_messages_json(msgs_view(ms@)) =~= out@ + spec_messages_tail(
            msgs_view(ms@).skip(1),
        ));
    }
    let mut i: usize = 1;
    while i < ms.len()
        invariant
            1 <= i <= ms@.len(),
            old(out)@ + spec_messages_json(msgs_view(ms@)) == out@ + spec_messages_tail(
                msgs_view(ms@).skip(i as int),
            ),
        decreases ms@.len() - i,
    {
        let ghost before: Seq<char> = out@;
        let ghost rest: Seq<(Seq<char>, Seq<char>)> = msgs_view(ms@).skip(i as int);
        out.push(',');
        push_message_json(out, &ms[i]);
        proof {
            assert(rest[0] == (ms@[i as int].role@, ms@[i as int].content@));
            assert(rest.skip(1) =~= msgs_view(ms@).skip(i as int + 1));
            assert(spec_messages_tail(rest) == seq![','] + spec_message_json(rest[0].0, rest[0].1)
                + spec_messages_tail(rest.skip(1)));
            assert(before + spec_messages_tail(rest) =~= out@ + spec_messages_tail(
                msgs_view(ms@).skip(i as int + 1),
            ));
        }
        i = i + 1;
    }
    proof {
        assert(msgs_view(ms@).skip(ms@.len() as int) =~= Seq::<(Seq<char>, Seq<char>)>::empty());
        assert(out@ + spec_messages_tail(msgs_view(ms@).skip(ms@.len() as int)) =~= out@);
    }
}

/// One message as its JSON object on the wire; exactly
/// [`spec_message_json`].
pub fn message_to_json(m: &ChatMessage) -> (r: String)
    ensures
        r@ == spec_message_json(m.role@, m.content@),
{
    let mut out: Vec<char> = Vec::new();
    push_message_json(&mut out, m);
    proof {
        assert(out@ =~= spec_message_json(m.role@, m.content@));
    }
    chars_to_string(&out)
}

/// The request body on the wire; exactly [`spec_request_json`].
pub fn request_to_json(req: &ChatRequest) -> (r: String)
    ensures
        r@ == spec_request_json(
            req.model@,
            msgs_view(req.messages@),
            req.temperature_tenths,
            req.max_tokens,
        ),
{
    let mut out: Vec<char> = Vec::new();
    push_str_chars(&mut out, "{\"model\":");
    push_json_string(&mut out, req.model.as_str());
    push_str_chars(&mut out, ",\"messages\":[");
    push_messages_json(&mut out, &req.messages);
    push_str_chars(&mut out, "],\"temperature\":");
    match req.temperature_tenths {
        Some(t) => {
            push_decimal(&mut out, t / 10);
            out.push('.');
            out.push(digit_char(t % 10));
        },
        None => {
            push_str_chars(&mut out, "null");
        },
    }
    push_str_chars(&mut out, ",\"max_tokens\":");
    match req.max_tokens {
        Some(n) => {
            push_decimal(&mut out, n);
        },
        None => {
            push_str_chars(&mut out, "null");
        },
    }
    push_str_chars(&mut out, "}");
    proof {
        assert(out@ =~= spec_request_json(
            req.model@,
            msgs_view(req.messages@),
            req.temperature_tenths,
            req.max_tokens,
        ));
    }
    chars_to_string(&out)
}

/// A prepared HTTP POST: everything the transport needs to perform the
/// exchange. The transport adds the JSON content type.
#[derive(Debug)]
pub struct HttpOutbound {
    pub url: String,
    pub authorization: String,
    pub body: String,
}

/// The view of an optional string slice.
pub open spec fn opt_view(o: Option<&str>) -> Option<Seq<char>> {
    match o {
        Some(s) => Some(s@),
        None => None,
    }
}

/// The system prompt chosen for a task word; unknown words fall back
/// to the generic assistant prompt.
pub open spec fn spec_system_prompt(task: Seq<char>) -> Seq<char> {
    if task == "explain"@ {
        "You are KiloCode, an AI coding assistant. Explain the provided code in detail, including its purpose, how it works, and any potential issues. Be clear and educational."@
    } else if task == "generate"@ {
        "You are KiloCode, an AI coding assistant. Generate code based on the user's description. Provide clean, well-commented, and efficient code. Include necessary imports and structure."@
    } else if task == "refactor"@ {
        "You are KiloCode, an AI coding assistant. Suggest refactoring improvements for the provided code to make it more readable, maintainable, and efficient. Explain your changes."@
    } else if task == "fix"@ {
        "You are KiloCode, an AI coding assistant. Analyze the provided code for bugs and issues, then provide fixes. Explain what was wrong and how your fix addresses it."@
    } else if task == "docs"@ {
        "You are KiloCode, an AI coding assistant. Generate comprehensive documentation for the provided code, including function descriptions, parameter explanations, return values, and usage examples. Use standard documentation format."@
    } else {
        "You are KiloCode, an AI coding assistant. Help users with their coding questions, explain code, generate code, refactor, fix bugs, and generate documentation. Be concise and helpful."@
    }
}

/// The content of the user turn: the instruction text alone, or a
/// fenced block holding the code context followed by the instruction.
pub open spec fn spec_user_content(user: Seq<char>, code: Option<Seq<char>>) -> Seq<char> {
    match code {
        Some(c) => "Here is the code context:\n```\n"@ + c + "\n```\n\n"@ + user,
        None => user,
    }
}

/// The code context stands verbatim in the user turn, right after the
/// fence that opens it.
pub proof fn lemma_user_content_holds_context(user: Seq<char>, code: Seq<char>)
    ensures
        spec_user_content(user, Some(code)).subrange(
            "Here is the code context:\n```\n"@.len() as int,
            "Here is the code context:\n```\n"@.len() + code.len() as int,
        ) == code,
{
    let pre = "Here is the code context:\n```\n"@;
    let whole = spec_user_content(user, Some(code));
    assert(whole.subrange(pre.len() as int, pre.len() + code.len() as int) =~= code);
}

/// The user message for code generation.
pub open spec fn spec_generate_user(prompt: Seq<char>, language: Option<Seq<char>>) -> Seq<char> {
    match language {
        Some(l) => "Generate "@ + l + " code for: "@ + prompt,
        None => "Generate code for: "@ + prompt,
    }
}

/// The user message for code explanation.
pub open spec fn spec_explain_user(language: Option<Seq<char>>) -> Seq<char> {
    match language {
        Some(l) => "Explain this "@ + l + " code in detail."@,
        None => "Explain this code in detail."@,
    }
}

/// The user message for refactoring.
pub open spec fn spec_refactor_user(instructions: Seq<char>, language: Option<Seq<char>>) -> Seq<
    char,
> {
    match language {
        Some(l) => "Refactor this "@ + l + " code. "@ + instructions,
        None => "Refactor this code. "@ + instructions,
    }
}

/// The user message for bug fixing.
pub open spec fn spec_fix_user(error_message: Option<Seq<char>>, language: Option<Seq<char>>) -> Seq<
    char,
> {
    let base = match error_message {
        Some(e) => "Fix the bugs in this code. Error: "@ + e,
        None => "Fix the bugs in this code."@,
    };
    match language {
        Some(l) => base + " (Language: "@ + l + ")"@,
        None => base,
    }
}

/// The user message for documentation generation.
pub open spec fn spec_docs_user(language: Option<Seq<char>>, style: Option<Seq<char>>) -> Seq<
    char,
> {
    match language {
        Some(l) => match style {
            Some(st) => "Generate "@ + st + " documentation for this "@ + l + " code."@,
            None => "Generate documentation for this "@ + l + " code."@,
        },
        None => "Generate documentation for this code."@,
    }
}

/// The body sent for one completion call: a system turn, a user turn,
/// temperature 0.7 and a 2000-token cap.
pub open spec fn spec_chat_body(model: Seq<char>, system: Seq<char>, user: Seq<char>) -> Seq<
    char,
> {
    spec_request_json(
        model,
        seq![("system"@, system), ("user"@, user)],
        Some(7u32),
        Some(2000u32),
    )
}

/// The chat client for one OpenAI-compatible endpoint.
pub struct KiloCodeClient {
    pub api_key: String,
    pub base_url: String,
    pub model: String,
}

impl KiloCodeClient {
    /// A client for the default endpoint and model. A deployment that
    /// names its own endpoint or model uses [`KiloCodeClient::with_config`].
    pub fn new(api_key: String) -> (r: KiloCodeClient)
        ensures
            r.api_key@ == api_key@,
            r.base_url@ == "https://api.openai.com/v1"@,
            r.model@ == "gpt-3.5-turbo"@,
    {
        KiloCodeClient {
            api_key,
            base_url: String::from_str("https://api.openai.com/v1"),
            model: String::from_str("gpt-3.5-turbo"),
        }
    }

    /// A client for the given endpoint and model.
    pub fn with_config(api_key: String, base_url: String, model: String) -> (r: KiloCodeClient)
        ensures
            r.api_key@ == api_key@,
            r.base_url@ == base_url@,
            r.model@ == model@,
    {
        KiloCodeClient { api_key, base_url, model }
    }

    /// A client for a resolved configuration, taken by value: the
    /// client does no configuration lookup of its own afterwards.
    pub fn from_config(config: crate::config::ClientConfig) -> (r: KiloCodeClient)
        ensures
            r.api_key@ == config.api_key@,
            r.base_url@ == config.base_url@,
            r.model@ == config.model@,
    {
        KiloCodeClient {
            api_key: config.api_key,
            base_url: config.base_url,
            model: config.model,
        }
    }

    /// The system prompt for a task word; exactly [`spec_system_prompt`].
    pub fn build_system_prompt(task: &str) -> (r: String)
        ensures
            r@ == spec_system_prompt(task@),
    {
        if str_eq(task, "explain") {
            String::from_str(
                "You are KiloCode, an AI coding assistant. Explain the provided code in detail, including its purpose, how it works, and any potential issues. Be clear and educational.",
            )
        } else if str_eq(task, "generate") {
            String::from_str(
                "You are KiloCode, an AI coding assistant. Generate code based on the user's description. Provide clean, well-commented, and efficient code. Include necessary imports and structure.",
            )
        } else if str_eq(task, "refactor") {
            String::from_str(
                "You are KiloCode, an AI coding assistant. Suggest refactoring improvements for the provided code to make it more readable, maintainable, and efficient. Explain your changes.",
            )
        } else if str_eq(task, "fix") {
            String::from_str(
                "You are KiloCode, an AI coding assistant. Analyze the provided code for bugs and issues, then provide fixes. Explain what was wrong and how your fix addresses it.",
            )
        } else if str_eq(task, "docs") {
            String::from_str(
                "You are KiloCode, an AI coding assistant. Generate comprehensive documentation for the provided code, including function descriptions, parameter explanations, return values, and usage examples. Use standard documentation format.",
            )
        } else {
            String::from_str(
                "You are KiloCode, an AI coding assistant. Help users with their coding questions, explain code, generate code, refactor, fix bugs, and generate documentation. Be concise and helpful.",
            )
        }
    }

    /// The message list for one call: exactly one system turn, then
    /// exactly one user turn, the code context (when given) wrapped in
    /// a fenced block before the instruction text.
    pub fn build_messages(
        &self,
        system_prompt: &str,
        user_message: &str,
        code_context: Option<&str>,
    ) -> (r: Vec<ChatMessage>)
        ensures
            r@.len() == 2,
            r@[0].role@ == "system"@,
            r@[0].content@ == system_prompt@,
            r@[1].role@ == "user"@,
            r@[1].content@ == spec_user_content(user_message@, opt_view(code_context)),
    {
        let mut messages: Vec<ChatMessage> = Vec::new();
        messages.push(
            ChatMessage {
                role: String::from_str("system"),
                content: String::from_str(system_prompt),
            },
        );
        let content: String = match code_context {
            Some(code) => {
                let mut c: String = String::from_str("Here is the code context:\n```\n");
                c.append(code);
                c.append("\n```\n\n");
                c.append(user_message);
                c
            },
            None => String::from_str(user_message),
        };
        messages.push(ChatMessage { role: String::from_str("user"), content });
        messages
    }

    /// The prepared POST for an endpoint path under the base URL, with
    /// the bearer authorization of this client.
    pub fn prepare_outbound(&self, endpoint: &str, body: String) -> (r: HttpOutbound)
        ensures
            r.url@ == self.base_url@ + "/"@ + endpoint@,
            r.authorization@ == "Bearer "@ + self.api_key@,
            r.body@ == body@,
    {
        let mut url: String = self.base_url.clone();
        url.append("/");
        url.append(endpoint);
        let mut authorization: String = String::from_str("Bearer ");
        authorization.append(self.api_key.as_str());
        HttpOutbound { url, authorization, body }
    }

    /// The prepared completion call for a message list: the request
    /// body is exactly [`spec_request_json`] with temperature 0.7 and
    /// a 2000-token cap, posted at `chat/completions`.
    pub fn chat_completion(&self, messages: Vec<ChatMessage>) -> (r: HttpOutbound)
        ensures
            r.url@ == self.base_url@ + "/chat/completions"@,
            r.authorization@ == "Bearer "@ + self.api_key@,
            r.body@ == spec_request_json(
                self.model@,
                msgs_view(messages@),
                Some(7u32),
                Some(2000u32),
            ),
    {
        let request = ChatRequest {
            model: self.model.clone(),
            messages,
            temperature_tenths: Some(7),
            max_tokens: Some(2000),
        };
        let body: String = request_to_json(&request);
        let r = self.prepare_outbound("chat/completions", body);
        proof {
            reveal_strlit("/");
            reveal_strlit("chat/completions");
            reveal_strlit("/chat/completions");
            assert("/"@ + "chat/completions"@ =~= "/chat/completions"@);
            assert(self.base_url@ + "/"@ + "chat/completions"@ =~= self.base_url@
                + "/chat/completions"@);
        }
        r
    }

    /// The prepared call that asks for generated code.
    pub fn generate_code(&self, prompt: &str, context: Option<&str>, language: Option<&str>) -> (r:
        HttpOutbound)
        ensures
            r.url@ == self.base_url@ + "/chat/completions"@,
            r.authorization@ == "Bearer "@ + self.api_key@,
            r.body@ == spec_chat_body(
                self.model@,
                spec_system_prompt("generate"@),
                spec_user_content(spec_generate_user(prompt@, opt_view(language)), opt_view(context)),
            ),
    {
        let system_prompt: String = Self::build_system_prompt("generate");
        let user_message: String = match language {
            Some(lang) => {
                let mut u: String = String::from_str("Generate ");
                u.append(lang);
                u.append(" code for: ");
                u.append(prompt);
                u
            },
            None => {
                let mut u: String = String::from_str("Generate code for: ");
                u.append(prompt);
                u
            },
        };
        let messages = self.build_messages(system_prompt.as_str(), user_message.as_str(), context);
        let ghost ms: Seq<ChatMessage> = messages@;
        let r = self.chat_completion(messages);
        proof {
            assert(msgs_view(ms) =~= seq![
                ("system"@, spec_system_prompt("generate"@)),
                (
                    "user"@,
                    spec_user_content(
                        spec_generate_user(prompt@, opt_view(language)),
                        opt_view(context),
                    ),
                ),
            ]);
        }
        r
    }

    /// The prepared call that asks for an explanation of `code`.
    pub fn explain_code(&self, code: &str, language: Option<&str>) -> (r: HttpOutbound)
        ensures
            r.url@ == self.base_url@ + "/chat/completions"@,
            r.authorization@ == "Bearer "@ + self.api_key@,
            r.body@ == spec_chat_body(
                self.model@,
                spec_system_prompt("explain"@),
                spec_user_content(spec_explain_user(opt_view(language)), Some(code@)),
            ),
    {
        let system_prompt: String = Self::build_system_prompt("explain");
        let user_message: String = match language {
            Some(lang) => {
                let mut u: String = String::from_str("Explain this ");
                u.append(lang);
                u.append(" code in detail.");
                u
            },
            None => String::from_str("Explain this code in detail."),
        };
        let messages = self.build_messages(
            system_prompt.as_str(),
            user_message.as_str(),
            Some(code),
        );
        let ghost ms: Seq<ChatMessage> = messages@;
        let r = self.chat_completion(messages);
        proof {
            assert(msgs_view(ms) =~= seq![
                ("system"@, spec_system_prompt("explain"@)),
                ("user"@, spec_user_content(spec_explain_user(opt_view(language)), Some(code@))),
            ]);
        }
        r
    }

    /// The prepared call that asks for refactoring suggestions.
    pub fn refactor_code(&self, code: &str, instructions: &str, language: Option<&str>) -> (r:
        HttpOutbound)
        ensures
            r.url@ == self.base_url@ + "/chat/completions"@,
            r.authorization@ == "Bearer "@ + self.api_key@,
            r.body@ == spec_chat_body(
                self.model@,
                spec_system_prompt("refactor"@),
                spec_user_content(
                    spec_refactor_user(instructions@, opt_view(language)),
                    Some(code@),
                ),
            ),
    {
        let system_prompt: String = Self::build_system_prompt("refactor");
        let user_message: String = match language {
            Some(lang) => {
                let mut u: String = String::from_str("Refactor this ");
                u.append(lang);
                u.append(" code. ");
                u.append(instructions);
                u
            },
            None => {
                let mut u: String = String::from_str("Refactor this code. ");
                u.append(instructions);
                u
            },
        };
        let messages = self.build_messages(
            system_prompt.as_str(),
            user_message.as_str(),
            Some(code),
        );
        let ghost ms: Seq<ChatMessage> = messages@;
        let r = self.chat_completion(messages);
        proof {
            assert(msgs_view(ms) =~= seq![
                ("system"@, spec_system_prompt("refactor"@)),
                (
                    "user"@,
                    spec_user_content(
                        spec_refactor_user(instructions@, opt_view(language)),
                        Some(code@),
                    ),
                ),
            ]);
        }
        r
    }

    /// The prepared call that asks for bug fixes.
    pub fn fix_code(&self, code: &str, error_message: Option<&str>, language: Option<&str>) -> (r:
        HttpOutbound)
        ensures
            r.url@ == self.base_url@ + "/chat/completions"@,
            r.authorization@ == "Bearer "@ + self.api_key@,
            r.body@ == spec_chat_body(
                self.model@,
                spec_system_prompt("fix"@),
                spec_user_content(
                    spec_fix_user(opt_view(error_message), opt_view(language)),
                    Some(code@),
                ),
            ),
    {
        let system_prompt: String = Self::build_system_prompt("fix");
        let mut user_message: String = match error_message {
            Some(error) => {
                let mut u: String = String::from_str("Fix the bugs in this code. Error: ");
                u.append(error);
                u
            },
            None => String::from_str("Fix the bugs in this code."),
        };
        if let Some(lang) = language {
            user_message.append(" (Language: ");
            user_message.append(lang);
            user_message.append(")");
        }
        let messages = self.build_messages(
            system_prompt.as_str(),
            user_message.as_str(),
            Some(code),
        );
        let ghost ms: Seq<ChatMessage> = messages@;
        let r = self.chat_completion(messages);
        proof {
            assert(msgs_view(ms) =~= seq![
                ("system"@, spec_system_prompt("fix"@)),
                (
                    "user"@,
                    spec_user_content(
                        spec_fix_user(opt_view(error_message), opt_view(language)),
                        Some(code@),
                    ),
                ),
            ]);
        }
        r
    }

    /// The prepared call that asks for documentation.
    pub fn generate_docs(&self, code: &str, language: Option<&str>, style: Option<&str>) -> (r:
        HttpOutbound)
        ensures
            r.url@ == self.base_url@ + "/chat/completions"@,
            r.authorization@ == "Bearer "@ + self.api_key@,
            r.body@ == spec_chat_body(
                self.model@,
                spec_system_prompt("docs"@),
                spec_user_content(
                    spec_docs_user(opt_view(language), opt_view(style)),
                    Some(code@),
                ),
            ),
    {
        let system_prompt: String = Self::build_system_prompt("docs");
        let user_message: String = match language {
            Some(lang) => {
                match style {
                    Some(doc_style) => {
                        let mut u: String = String::from_str("Generate ");
                        u.append(doc_style);
                        u.append(" documentation for this ");
                        u.append(lang);
                        u.append(" code.");
                        u
                    },
                    None => {
                        let mut u: String = String::from_str("Generate documentation for this ");
                        u.append(lang);
                        u.append(" code.");
                        u
                    },
                }
            },
            None => String::from_str("Generate documentation for this code."),
        };
        let messages = self.build_messages(
            system_prompt.as_str(),
            user_message.as_str(),
            Some(code),
        );
        let ghost ms: Seq<ChatMessage> = messages@;
        let r = self.chat_completion(messages);
        proof {
            assert(msgs_view(ms) =~= seq![
                ("system"@, spec_system_prompt("docs"@)),
                (
                    "user"@,
                    spec_user_content(
                        spec_docs_user(opt_view(language), opt_view(style)),
                        Some(code@),
                    ),
                ),
            ]);
        }
        r
    }

    /// The prepared call for a general chat turn. The history argument
    /// is accepted for interface fidelity but is not threaded into the
    /// message list; whether it should be is an open product question.
    pub fn chat(
        &self,
        message: &str,
        context: Option<&str>,
        _history: Option<Vec<ChatMessage>>,
    ) -> (r: HttpOutbound)
        ensures
            r.url@ == self.base_url@ + "/chat/completions"@,
            r.authorization@ == "Bearer "@ + self.api_key@,
            r.body@ == spec_chat_body(
                self.model@,
                spec_system_prompt("chat"@),
                spec_user_content(message@, opt_view(context)),
            ),
    {
        let system_prompt: String = Self::build_system_prompt("chat");
        let messages = self.build_messages(system_prompt.as_str(), message, context);
        let ghost ms: Seq<ChatMessage> = messages@;
        let r = self.chat_completion(messages);
        proof {
            assert(msgs_view(ms) =~= seq![
                ("system"@, spec_system_prompt("chat"@)),
                ("user"@, spec_user_content(message@, opt_view(context))),
            ]);
        }
        r
    }
}

} // verus!

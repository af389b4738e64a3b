//! The editor-facing surface: input validation, output sanitizing, and
//! the planning of each slash command. Planning turns a command name,
//! its arguments and the ambient context into either an error message
//! or a prepared HTTP call; the host performs the exchange and hands
//! the answer back to the finishing functions.

use crate::client::{HttpOutbound, KiloCodeClient, spec_system_prompt, spec_user_content,
    spec_chat_body, spec_explain_user, spec_generate_user, spec_refactor_user, spec_fix_user,
    spec_docs_user, opt_view};
use crate::config::{Settings, spec_lookup, spec_endpoint, spec_model};
use crate::response::{spec_parse_response, extract_completion};
use crate::sanitize::{spec_sanitize, sanitize_text};
use crate::text::{spec_decimal, spec_join_spaced, strs_view, join_spaced, str_eq};
use vstd::prelude::*;

verus! {

/// The size bound every user-facing entry point enforces, in characters.
pub open spec fn spec_input_fits(text: Seq<char>) -> bool {
    text.len() <= 100000
}

/// The extension working from an injected settings source.
pub struct KiloCodeExtension;

/// What one slash command of the settings-driven extension asks for:
/// the instruction text sent as the user turn and whether the ambient
/// code context is sent along, or the error message for an unknown
/// command.
pub open spec fn spec_slash_prompt(name: Seq<char>, prompt: Seq<char>) -> Option<
    (Seq<char>, bool),
> {
    if name == "kc"@ {
        Some((prompt, true))
    } else if name == "kc-explain"@ {
        if prompt.len() == 0 {
            Some(
                (
                    "Explain this code in detail, including its purpose, how it works, and any potential issues."@,
                    true,
                ),
            )
        } else {
            Some(("Explain this code: "@ + prompt, true))
        }
    } else if name == "kc-generate"@ {
        Some(("Generate code for: "@ + prompt, false))
    } else if name == "kc-refactor"@ {
        if prompt.len() == 0 {
            Some(
                (
                    "Suggest refactoring improvements for this code to make it more readable, maintainable, and efficient."@,
                    true,
                ),
            )
        } else {
            Some(("Refactor this code: "@ + prompt, true))
        }
    } else if name == "kc-fix"@ {
        if prompt.len() == 0 {
            Some(("Analyze this code for bugs and issues, then provide fixes."@, true))
        } else {
            Some(("Fix this code: "@ + prompt, true))
        }
    } else if name == "kc-docs"@ {
        if prompt.len() == 0 {
            Some(
                (
                    "Generate comprehensive documentation for this code, including function descriptions, parameter explanations, and usage examples."@,
                    true,
                ),
            )
        } else {
            Some(("Generate documentation for: "@ + prompt, true))
        }
    } else {
        None
    }
}

impl KiloCodeExtension {
    /// An extension value; it carries no state of its own.
    pub fn new() -> (r: KiloCodeExtension) {
        KiloCodeExtension
    }

    /// The configured endpoint, or the default.
    pub fn get_api_endpoint(settings: &Settings) -> (r: String)
        ensures
            r@ == spec_endpoint(settings.entries@),
    {
        match settings.get("kilocode.api_endpoint") {
            Some(v) => v,
            None => crate::config::default_api_endpoint(),
        }
    }

    /// The configured API key, or an error naming the key to set.
    pub fn get_api_key(settings: &Settings) -> (r: Result<String, String>)
        ensures
            match r {
                Ok(k) => spec_lookup(settings.entries@, "kilocode.api_key"@) == Some(k@),
                Err(m) => spec_lookup(settings.entries@, "kilocode.api_key"@) is None && m@
                    == "API key not configured. Please set 'kilocode.api_key' in Zed settings."@,
            },
    {
        match settings.get("kilocode.api_key") {
            Some(k) => Ok(k),
            None => Err(
                String::from_str(
                    "API key not configured. Please set 'kilocode.api_key' in Zed settings.",
                ),
            ),
        }
    }

    /// The configured model, or the default.
    pub fn get_model(settings: &Settings) -> (r: String)
        ensures
            r@ == spec_model(settings.entries@),
    {
        match settings.get("kilocode.model") {
            Some(v) => v,
            None => crate::config::default_model(),
        }
    }

    /// Accepts input up to the size bound, rejects anything longer.
    pub fn validate_input(input: &str) -> (r: Result<(), String>)
        ensures
            spec_input_fits(input@) ==> r is Ok,
            !spec_input_fits(input@) ==> (r matches Err(m) && m@
                == "Input too large (max 100,000 characters)"@),
    {
        if input.unicode_len() > 100000 {
            Err(String::from_str("Input too large (max 100,000 characters)"))
        } else {
            Ok(())
        }
    }

    /// Strips shell fence tags from returned text; exactly
    /// [`spec_sanitize`].
    pub fn sanitize_output(output: &str) -> (r: String)
        ensures
            r@ == spec_sanitize(output@),
    {
        sanitize_text(output)
    }

    /// Plans one chat exchange: the input is validated, the
    /// configuration resolved, and the call prepared, in that order,
    /// so an oversized prompt is rejected before anything else exists
    /// to send.
    pub fn prepare_chat(prompt: &str, code_context: Option<&str>, settings: &Settings) -> (r:
        Result<HttpOutbound, String>)
        ensures
            !spec_input_fits(prompt@) ==> (r matches Err(m) && m@
                == "Input too large (max 100,000 characters)"@),
            spec_input_fits(prompt@) && spec_lookup(settings.entries@, "kilocode.api_key"@) is None
                ==> (r matches Err(m) && m@
                == "API key not configured. Please set 'kilocode.api_key' in Zed settings."@),
            spec_input_fits(prompt@) ==> (spec_lookup(settings.entries@, "kilocode.api_key"@)
                matches Some(k) ==> (r matches Ok(o) && o.url@ == spec_endpoint(settings.entries@)
                + "/chat/completions"@ && o.authorization@ == "Bearer "@ + k && o.body@
                == spec_chat_body(
                spec_model(settings.entries@),
                spec_system_prompt("chat"@),
                spec_user_content(prompt@, opt_view(code_context)),
            ))),
    {
        if let Err(m) = Self::validate_input(prompt) {
            return Err(m);
        }
        let config = match crate::config::resolve(settings) {
            Ok(c) => c,
            Err(e) => {
                let m: String = e.message();
                proof {
                    reveal_strlit("API key not configured. Please set '");
                    reveal_strlit("kilocode.api_key");
                    reveal_strlit("' in Zed settings.");
                    reveal_strlit(
                        "API key not configured. Please set 'kilocode.api_key' in Zed settings.",
                    );
                    assert(m@
                        =~= "API key not configured. Please set 'kilocode.api_key' in Zed settings."@);
                }
                return Err(m);
            },
        };
        let client = KiloCodeClient::from_config(config);
        Ok(client.chat(prompt, code_context, None))
    }

    /// Plans one slash command of the settings-driven surface: the
    /// command's instruction text is composed first, then handed to
    /// [`KiloCodeExtension::prepare_chat`]; the code context travels
    /// along for every command but generation.
    pub fn plan_slash_command(
        command_name: &str,
        args: &Vec<String>,
        code_context: Option<&str>,
        settings: &Settings,
    ) -> (r: Result<HttpOutbound, String>)
        ensures
            match spec_slash_prompt(command_name@, spec_join_spaced(strs_view(args@))) {
                None => r matches Err(m) && m@ == "Unknown command: "@ + command_name@,
                Some(plan) => {
                    let sent = if plan.1 {
                        opt_view(code_context)
                    } else {
                        None
                    };
                    &&& !spec_input_fits(plan.0) ==> (r matches Err(m) && m@
                        == "Input too large (max 100,000 characters)"@)
                    &&& spec_input_fits(plan.0) && spec_lookup(
                        settings.entries@,
                        "kilocode.api_key"@,
                    ) is None ==> (r matches Err(m) && m@
                        == "API key not configured. Please set 'kilocode.api_key' in Zed settings."@)
                    &&& spec_input_fits(plan.0) ==> (spec_lookup(
                        settings.entries@,
                        "kilocode.api_key"@,
                    ) matches Some(k) ==> (r matches Ok(o) && o.url@ == spec_endpoint(
                        settings.entries@,
                    ) + "/chat/completions"@ && o.authorization@ == "Bearer "@ + k && o.body@
                        == spec_chat_body(
                        spec_model(settings.entries@),
                        spec_system_prompt("chat"@),
                        spec_user_content(plan.0, sent),
                    )))
                },
            },
    {
        let prompt: String = join_spaced(args);
        if str_eq(command_name, "kc") {
            Self::prepare_chat(prompt.as_str(), code_context, settings)
        } else if str_eq(command_name, "kc-explain") {
            let p: String = if prompt.as_str().is_empty() {
                String::from_str(
                    "Explain this code in detail, including its purpose, how it works, and any potential issues.",
                )
            } else {
                let mut p: String = String::from_str("Explain this code: ");
                p.append(prompt.as_str());
                p
            };
            Self::prepare_chat(p.as_str(), code_context, settings)
        } else if str_eq(command_name, "kc-generate") {
            let mut p: String = String::from_str("Generate code for: ");
            p.append(prompt.as_str());
            Self::prepare_chat(p.as_str(), None, settings)
        } else if str_eq(command_name, "kc-refactor") {
            let p: String = if prompt.as_str().is_empty() {
                String::from_str(
                    "Suggest refactoring improvements for this code to make it more readable, maintainable, and efficient.",
                )
            } else {
                let mut p: String = String::from_str("Refactor this code: ");
                p.append(prompt.as_str());
                p
            };
            Self::prepare_chat(p.as_str(), code_context, settings)
        } else if str_eq(command_name, "kc-fix") {
            let p: String = if prompt.as_str().is_empty() {
                String::from_str("Analyze this code for bugs and issues, then provide fixes.")
            } else {
                let mut p: String = String::from_str("Fix this code: ");
                p.append(prompt.as_str());
                p
            };
            Self::prepare_chat(p.as_str(), code_context, settings)
        } else if str_eq(command_name, "kc-docs") {
            let p: String = if prompt.as_str().is_empty() {
                String::from_str(
                    "Generate comprehensive documentation for this code, including function descriptions, parameter explanations, and usage examples.",
                )
            } else {
                let mut p: String = String::from_str("Generate documentation for: ");
                p.append(prompt.as_str());
                p
            };
            Self::prepare_chat(p.as_str(), code_context, settings)
        } else {
            let mut m: String = String::from_str("Unknown command: ");
            m.append(command_name);
            Err(m)
        }
    }

    /// Finishes one chat exchange: the transport's status and body
    /// become either the sanitized completion text or the failure's
    /// message, exactly as the response contract decides them.
    pub fn finish_chat(status: u16, body: &str) -> (r: Result<String, String>)
        ensures
            !(200 <= status && status < 300) ==> (r matches Err(m) && m@ == "API error ("@
                + spec_decimal(status as nat) + "): "@ + body@),
            (200 <= status && status < 300) ==> match spec_parse_response(body@) {
                None => r matches Err(m) && m@ == "Failed to parse API response"@,
                Some(t) => match t.1 {
                    Some(em) => r matches Err(m) && m@ == "API error ("@ + spec_decimal(
                        status as nat,
                    ) + "): "@ + em,
                    None => if t.0.len() == 0 {
                        r matches Err(m) && m@ == "No response from API"@
                    } else {
                        r matches Ok(text) && text@ == spec_sanitize(t.0[0].1)
                    },
                },
            },
    {
        match extract_completion(status, body) {
            Ok(text) => Ok(sanitize_text(text.as_str())),
            Err(e) => Err(e.message()),
        }
    }
}

/// What one slash command of the environment-driven extension asks of
/// the client: the task word whose system prompt is used, the user
/// turn's instruction text, and the context sent along; or the error
/// message the command is refused with. An oversized instruction is
/// refused before a client exists to send it.
pub open spec fn spec_wrapper_task(
    name: Seq<char>,
    prompt: Seq<char>,
    ctx: Option<Seq<char>>,
    lang: Option<Seq<char>>,
) -> Result<(Seq<char>, Seq<char>, Option<Seq<char>>), Seq<char>> {
    if name == "kc"@ {
        if prompt.len() == 0 {
            Err("Please provide a question or prompt for KiloCode."@)
        } else if !spec_input_fits(prompt) {
            Err("Input too large (max 100,000 characters)"@)
        } else {
            Ok(("chat"@, prompt, ctx))
        }
    } else if name == "kc-explain"@ {
        let ep = if prompt.len() == 0 {
            "Explain this code in detail, including its purpose, how it works, and any potential issues."@
        } else {
            "Explain this code: "@ + prompt
        };
        if !spec_input_fits(ep) {
            Err("Input too large (max 100,000 characters)"@)
        } else {
            match ctx {
                Some(code) => Ok(("explain"@, spec_explain_user(lang), Some(code))),
                None => Ok(("chat"@, ep, None)),
            }
        }
    } else if name == "kc-generate"@ {
        if prompt.len() == 0 {
            Err("Please provide a description of the code you want to generate."@)
        } else if !spec_input_fits(prompt) {
            Err("Input too large (max 100,000 characters)"@)
        } else {
            Ok(("generate"@, spec_generate_user(prompt, lang), ctx))
        }
    } else if name == "kc-refactor"@ {
        let rp = if prompt.len() == 0 {
            "Suggest refactoring improvements for this code to make it more readable, maintainable, and efficient."@
        } else {
            prompt
        };
        if !spec_input_fits(rp) {
            Err("Input too large (max 100,000 characters)"@)
        } else {
            match ctx {
                Some(code) => Ok(("refactor"@, spec_refactor_user(rp, lang), Some(code))),
                None => Ok(("chat"@, rp, None)),
            }
        }
    } else if name == "kc-fix"@ {
        let fp = if prompt.len() == 0 {
            "Analyze this code for bugs and issues, then provide fixes."@
        } else {
            prompt
        };
        if !spec_input_fits(fp) {
            Err("Input too large (max 100,000 characters)"@)
        } else {
            match ctx {
                Some(code) => Ok(("fix"@, spec_fix_user(Some(fp), lang), Some(code))),
                None => Ok(("chat"@, fp, None)),
            }
        }
    } else if name == "kc-docs"@ {
        let dp = if prompt.len() == 0 {
            "Generate comprehensive documentation for this code, including function descriptions, parameter explanations, and usage examples."@
        } else {
            prompt
        };
        if !spec_input_fits(dp) {
            Err("Input too large (max 100,000 characters)"@)
        } else {
            match ctx {
                Some(code) => Ok(("docs"@, spec_docs_user(lang, Some("rustdoc"@)), Some(code))),
                None => Ok(("chat"@, dp, None)),
            }
        }
    } else {
        Err("Unknown slash command: "@ + name)
    }
}

/// The extension working from an environment-supplied key, holding one
/// lazily built client.
pub struct KiloCodeExtensionWrapper {
    pub client: Option<KiloCodeClient>,
}

impl KiloCodeExtensionWrapper {
    /// A wrapper with no client yet.
    pub fn new() -> (r: KiloCodeExtensionWrapper)
        ensures
            r.client is None,
    {
        KiloCodeExtensionWrapper { client: None }
    }

    /// Accepts input up to the size bound, rejects anything longer.
    pub fn validate_input(input: &str) -> (r: Result<(), String>)
        ensures
            spec_input_fits(input@) ==> r is Ok,
            !spec_input_fits(input@) ==> (r matches Err(m) && m@
                == "Input too large (max 100,000 characters)"@),
    {
        KiloCodeExtension::validate_input(input)
    }

    /// Strips shell fence tags from returned text; exactly
    /// [`spec_sanitize`].
    pub fn sanitize_output(output: &str) -> (r: String)
        ensures
            r@ == spec_sanitize(output@),
    {
        sanitize_text(output)
    }

    /// Makes sure a client exists, building one from the supplied key
    /// (the host reads it from its environment) on first use.
    pub fn get_client(&mut self, api_key: Option<String>) -> (r: Result<(), String>)
        ensures
            old(self).client is Some ==> r is Ok && *final(self) == *old(self),
            old(self).client is None ==> (api_key matches Some(k) ==> (final(self).client matches
                Some(c) && r is Ok && c.api_key@ == k@ && c.base_url@
                == "https://api.openai.com/v1"@ && c.model@ == "gpt-3.5-turbo"@)),
            old(self).client is None && api_key is None ==> (r matches Err(m) && m@
                == "KILOCODE_API_KEY environment variable not set. Please set it to use KiloCode functionality."@
                && *final(self) == *old(self)),
    {
        if self.client.is_none() {
            match api_key {
                Some(k) => {
                    self.client = Some(KiloCodeClient::new(k));
                },
                None => {
                    return Err(
                        String::from_str(
                            "KILOCODE_API_KEY environment variable not set. Please set it to use KiloCode functionality.",
                        ),
                    );
                },
            }
        }
        Ok(())
    }

    /// Plans one slash command of the environment-driven surface:
    /// composes the command's turn as [`spec_wrapper_task`] says,
    /// building the client on first use, and prepares the call on it.
    pub fn plan_slash_command(
        &mut self,
        command_name: &str,
        args: &Vec<String>,
        code_context: Option<&str>,
        language: Option<&str>,
        api_key: Option<String>,
    ) -> (r: Result<HttpOutbound, String>)
        ensures
            match spec_wrapper_task(
                command_name@,
                spec_join_spaced(strs_view(args@)),
                opt_view(code_context),
                opt_view(language),
            ) {
                Err(m) => r matches Err(rm) && rm@ == m && *final(self) == *old(self),
                Ok(plan) => match old(self).client {
                    Some(c) => (r matches Ok(o) && *final(self) == *old(self) && o.url@
                        == c.base_url@ + "/chat/completions"@ && o.authorization@ == "Bearer "@
                        + c.api_key@ && o.body@ == spec_chat_body(
                        c.model@,
                        spec_system_prompt(plan.0),
                        spec_user_content(plan.1, plan.2),
                    )),
                    None => match api_key {
                        Some(k) => (final(self).client matches Some(c) && r matches Ok(o)
                            && c.api_key@ == k@ && c.base_url@ == "https://api.openai.com/v1"@
                            && c.model@ == "gpt-3.5-turbo"@ && o.url@ == c.base_url@
                            + "/chat/completions"@ && o.authorization@ == "Bearer "@ + c.api_key@
                            && o.body@ == spec_chat_body(
                            c.model@,
                            spec_system_prompt(plan.0),
                            spec_user_content(plan.1, plan.2),
                        )),
                        None => r matches Err(m) && m@
                            == "KILOCODE_API_KEY environment variable not set. Please set it to use KiloCode functionality."@
                            && *final(self) == *old(self),
                    },
                },
            },
    {
        let prompt: String = join_spaced(args);
        if str_eq(command_name, "kc") {
            if prompt.as_str().is_empty() {
                return Err(String::from_str("Please provide a question or prompt for KiloCode."));
            }
            if let Err(m) = Self::validate_input(prompt.as_str()) {
                return Err(m);
            }
            if let Err(m) = self.get_client(api_key) {
                return Err(m);
            }
            match &self.client {
                Some(client) => Ok(client.chat(prompt.as_str(), code_context, None)),
                None => Err(String::new()),
            }
        } else if str_eq(command_name, "kc-explain") {
            let ep: String = if prompt.as_str().is_empty() {
                String::from_str(
                    "Explain this code in detail, including its purpose, how it works, and any potential issues.",
                )
            } else {
                let mut p: String = String::from_str("Explain this code: ");
                p.append(prompt.as_str());
                p
            };
            if let Err(m) = Self::validate_input(ep.as_str()) {
                return Err(m);
            }
            if let Err(m) = self.get_client(api_key) {
                return Err(m);
            }
            match &self.client {
                Some(client) => match code_context {
                    Some(code) => Ok(client.explain_code(code, language)),
                    None => Ok(client.chat(ep.as_str(), None, None)),
                },
                None => Err(String::new()),
            }
        } else if str_eq(command_name, "kc-generate") {
            if prompt.as_str().is_empty() {
                return Err(
                    String::from_str(
                        "Please provide a description of the code you want to generate.",
                    ),
                );
            }
            if let Err(m) = Self::validate_input(prompt.as_str()) {
                return Err(m);
            }
            if let Err(m) = self.get_client(api_key) {
                return Err(m);
            }
            match &self.client {
                Some(client) => Ok(client.generate_code(prompt.as_str(), code_context, language)),
                None => Err(String::new()),
            }
        } else if str_eq(command_name, "kc-refactor") {
            let rp: String = if prompt.as_str().is_empty() {
                String::from_str(
                    "Suggest refactoring improvements for this code to make it more readable, maintainable, and efficient.",
                )
            } else {
                prompt
            };
            if let Err(m) = Self::validate_input(rp.as_str()) {
                return Err(m);
            }
            if let Err(m) = self.get_client(api_key) {
                return Err(m);
            }
            match &self.client {
                Some(client) => match code_context {
                    Some(code) => Ok(client.refactor_code(code, rp.as_str(), language)),
                    None => Ok(client.chat(rp.as_str(), None, None)),
                },
                None => Err(String::new()),
            }
        } else if str_eq(command_name, "kc-fix") {
            let fp: String = if prompt.as_str().is_empty() {
                String::from_str("Analyze this code for bugs and issues, then provide fixes.")
            } else {
                prompt
            };
            if let Err(m) = Self::validate_input(fp.as_str()) {
                return Err(m);
            }
            if let Err(m) = self.get_client(api_key) {
                return Err(m);
            }
            match &self.client {
                Some(client) => match code_context {
                    Some(code) => Ok(client.fix_code(code, Some(fp.as_str()), language)),
                    None => Ok(client.chat(fp.as_str(), None, None)),
                },
                None => Err(String::new()),
            }
        } else if str_eq(command_name, "kc-docs") {
            let dp: String = if prompt.as_str().is_empty() {
                String::from_str(
                    "Generate comprehensive documentation for this code, including function descriptions, parameter explanations, and usage examples.",
                )
            } else {
                prompt
            };
            if let Err(m) = Self::validate_input(dp.as_str()) {
                return Err(m);
            }
            if let Err(m) = self.get_client(api_key) {
                return Err(m);
            }
            match &self.client {
                Some(client) => match code_context {
                    Some(code) => Ok(client.generate_docs(code, language, Some("rustdoc"))),
                    None => Ok(client.chat(dp.as_str(), None, None)),
                },
                None => Err(String::new()),
            }
        } else {
            let mut m: String = String::from_str("Unknown slash command: ");
            m.append(command_name);
            Err(m)
        }
    }
}

} // verus!

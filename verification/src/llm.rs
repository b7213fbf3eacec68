//! The LLM client configuration: the DeepSeek client settings, the choice
//! between it and the offline mock, the no-key guard, and the reading of a
//! chat-completion reply.

use vstd::prelude::*;
use crate::text::{chars_of, trim, trim_chars};
use crate::uia_common::opt_view;

verus! {

broadcast use vstd::string::group_string_axioms;

/// Default DeepSeek chat-completions endpoint.
pub const DEEPSEEK_URL: &'static str = "https://api.deepseek.com/chat/completions";

/// Default DeepSeek model.
pub const DEEPSEEK_MODEL: &'static str = "deepseek-chat";

/// Error returned, before any network activity, when no key is configured.
pub const API_KEY_MISSING: &'static str = "DeepSeek API key not configured. Set it in the app settings or via `dayrecord` before generating summaries.";

/// The canned daily summary returned when no API key is configured.
pub const MOCK_SUMMARY: &'static str = "## 今日概览（含大致时间分配）\nplaceholder\n## 主要工作内容（按应用/项目/场景分组，结合时长说明投入）\nplaceholder\n## 重要粘贴片段摘要\nplaceholder\n## 明日待办（能推断则列出，否则写「暂无」）\n暂无";

/// Settings of a DeepSeek-compatible chat-completions client; the HTTP
/// request itself is sent by the application with these values.
#[derive(Debug, Clone)]
pub struct DeepSeekClient {
    pub api_key: String,
    pub base_url: String,
    pub model: String,
}

impl DeepSeekClient {
    /// A client for the default endpoint and model.
    pub fn new(api_key: String) -> (c: Self)
        ensures
            c.api_key == api_key,
            c.base_url@ == DEEPSEEK_URL@,
            c.model@ == DEEPSEEK_MODEL@,
    {
        DeepSeekClient {
            api_key,
            base_url: String::from_str(DEEPSEEK_URL),
            model: String::from_str(DEEPSEEK_MODEL),
        }
    }

    /// The same client posting to another endpoint.
    pub fn with_base_url(self, base_url: String) -> (c: Self)
        ensures
            c.api_key == self.api_key,
            c.base_url == base_url,
            c.model == self.model,
    {
        DeepSeekClient { base_url, ..self }
    }

    /// The same client asking for another model.
    pub fn with_model(self, model: String) -> (c: Self)
        ensures
            c.api_key == self.api_key,
            c.base_url == self.base_url,
            c.model == model,
    {
        DeepSeekClient { model, ..self }
    }

    /// A key is configured: it is not blank.
    pub fn has_api_key(&self) -> (r: bool)
        ensures
            r == (trim(self.api_key@).len() > 0),
    {
        let v = chars_of(self.api_key.as_str());
        let t = trim_chars(&v);
        t.len() > 0
    }

    /// The guard run before any request: without a key, completion fails
    /// with `API_KEY_MISSING` and nothing is sent.
    pub fn precheck(&self) -> (r: Result<(), String>)
        ensures
            r is Ok <==> trim(self.api_key@).len() > 0,
            r matches Err(e) ==> e@ == API_KEY_MISSING@,
    {
        if self.has_api_key() {
            Ok(())
        } else {
            Err(String::from_str(API_KEY_MISSING))
        }
    }
}

/// The reply of a completion: an HTTP failure is reported with its status
/// and body, otherwise the first choice's content, or `empty choices`.
pub open spec fn spec_completion(
    success: bool,
    status: Seq<char>,
    body: Seq<char>,
    choices: Seq<Seq<char>>,
) -> Result<Seq<char>, Seq<char>> {
    if !success {
        Err("deepseek error "@ + status + ": "@ + body)
    } else if choices.len() > 0 {
        Ok(choices[0])
    } else {
        Err("empty choices"@)
    }
}

/// Reads a chat-completion reply given its status, its body (used only on
/// failure) and the contents of its choices.
pub fn completion_result(success: bool, status: &str, body: &str, choices: Vec<String>) -> (r: Result<
    String,
    String,
>)
    ensures
        match (r, spec_completion(success, status@, body@, choices.deep_view())) {
            (Ok(a), Ok(b)) => a@ == b,
            (Err(a), Err(b)) => a@ == b,
            _ => false,
        },
{
    if !success {
        let mut s = String::from_str("deepseek error ");
        s.append(status);
        s.append(": ");
        s.append(body);
        return Err(s);
    }
    if choices.len() > 0 {
        let mut choices = choices;
        let first = choices.remove(0);
        Ok(first)
    } else {
        Err(String::from_str("empty choices"))
    }
}

/// The offline stand-in for the LLM, used when no API key is set.
pub struct MockLlm;

impl MockLlm {
    /// Always answers the canned daily summary.
    pub fn complete(&self, system: &str, user: &str) -> (r: Result<String, String>)
        ensures
            r matches Ok(s) && s@ == MOCK_SUMMARY@,
    {
        Ok(String::from_str(MOCK_SUMMARY))
    }
}

/// The LLM behind the configured client.
pub enum LlmBackend {
    Client(DeepSeekClient),
    Mock(MockLlm),
}

/// A non-empty optional text.
pub open spec fn present(o: Option<Seq<char>>) -> Option<Seq<char>> {
    match o {
        Some(s) => if s.len() > 0 {
            Some(s)
        } else {
            None
        },
        None => None,
    }
}

fn present_string(o: Option<String>) -> (r: Option<String>)
    ensures
        opt_view(r) == present(opt_view(o)),
{
    match o {
        Some(s) => if s.as_str().is_empty() {
            None
        } else {
            Some(s)
        },
        None => None,
    }
}

/// Builds the backend from the API key and the `llm_base_url` / `llm_model`
/// settings: no (or an empty) key gives the mock; otherwise a client whose
/// endpoint and model are the settings when set and not empty, else the
/// DeepSeek defaults.
pub fn build_backend(api_key: Option<String>, base_url: Option<String>, model: Option<String>) -> (r:
    LlmBackend)
    ensures
        match present(opt_view(api_key)) {
            None => r is Mock,
            Some(k) => r matches LlmBackend::Client(c) && c.api_key@ == k && c.base_url@ == (
            match present(opt_view(base_url)) {
                Some(u) => u,
                None => DEEPSEEK_URL@,
            }) && c.model@ == (match present(opt_view(model)) {
                Some(m) => m,
                None => DEEPSEEK_MODEL@,
            }),
        },
{
    match present_string(api_key) {
        Some(key) => {
            let mut client = DeepSeekClient::new(key);
            match present_string(base_url) {
                Some(u) => {
                    client = client.with_base_url(u);
                },
                None => {
                    client = client.with_base_url(String::from_str(DEEPSEEK_URL));
                },
            }
            match present_string(model) {
                Some(m) => {
                    client = client.with_model(m);
                },
                None => {
                    client = client.with_model(String::from_str(DEEPSEEK_MODEL));
                },
            }
            LlmBackend::Client(client)
        },
        None => LlmBackend::Mock(MockLlm),
    }
}

} // verus!

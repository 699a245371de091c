//! Talking to a service that suggests an initial rule set: which request
//! goes to which provider, what to try next when one fails, and where the
//! suggestion stands in the answer.

use crate::config::{AIConfig, AIProvider};
use crate::json::{json_pairs, json_pairs_at, json_quote, json_quoted, pair_texts};
use crate::text::{
    chars_of, remove_pattern, trim, trim_end_matches, trim_start_matches, trimmed,
    without_leading, without_pattern, without_trailing,
};
use vstd::prelude::*;
use vstd::string::*;

verus! {

/// The rule set that a service suggested.
#[derive(Debug)]
pub struct AISuggestionResponse {
    pub pattern: String,
    pub suggested_max_lines: usize,
    pub rules: Vec<SuggestedRule>,
}

/// One suggested forbidden import, with the reason given for it.
#[derive(Debug)]
pub struct SuggestedRule {
    pub from: String,
    pub to: String,
    pub reason: String,
}

impl Clone for SuggestedRule {
    fn clone(&self) -> (r: SuggestedRule)
        ensures
            r == *self,
    {
        SuggestedRule {
            from: self.from.clone(),
            to: self.to.clone(),
            reason: self.reason.clone(),
        }
    }
}

/// The position of the first `c` at or after `from`.
pub open spec fn position_of(s: Seq<char>, c: char, from: int) -> Option<int>
    decreases s.len() - from,
{
    if from < 0 || from >= s.len() {
        None
    } else if s[from] == c {
        Some(from)
    } else {
        position_of(s, c, from + 1)
    }
}

/// The position just behind the brace that closes the object under scan.
/// The scan stands at position `i`, `depth` braces are open, `in_string`
/// says whether the scan is inside a string literal and `escaped` whether the
/// character before was a backslash inside one. Braces inside string
/// literals do not count.
pub open spec fn object_end(s: Seq<char>, i: int, depth: int, in_string: bool, escaped: bool) -> Option<
    int,
>
    decreases s.len() - i,
{
    if i < 0 || i >= s.len() {
        None
    } else if escaped {
        object_end(s, i + 1, depth, in_string, false)
    } else if s[i] == '\\' && in_string {
        object_end(s, i + 1, depth, in_string, true)
    } else if s[i] == '"' {
        object_end(s, i + 1, depth, !in_string, false)
    } else if s[i] == '{' && !in_string {
        object_end(s, i + 1, depth + 1, in_string, false)
    } else if s[i] == '}' && !in_string {
        if depth == 1 {
            Some(i + 1)
        } else {
            object_end(s, i + 1, depth - 1, in_string, false)
        }
    } else {
        object_end(s, i + 1, depth, in_string, false)
    }
}

/// The first JSON object of a text: from its first opening brace to the
/// brace that closes it. A text without a brace, or whose first brace is
/// never closed, has none.
pub open spec fn json_object_of(s: Seq<char>) -> Option<Seq<char>> {
    match position_of(s, '{', 0) {
        None => None,
        Some(start) => match object_end(s, start, 0, false, false) {
            None => None,
            Some(end) => Some(s.subrange(start, end)),
        },
    }
}

/// An answer without its code-fence markers and surrounding white space.
pub open spec fn without_fences(s: Seq<char>) -> Seq<char> {
    trimmed(without_pattern(without_pattern(s, "```json"@), "```"@))
}

/// Finds the first JSON object of a text that holds no code fences.
pub fn first_json_object(text: &str) -> (r: Option<String>)
    ensures
        match r {
            Some(object) => json_object_of(text@) == Some(object@),
            None => json_object_of(text@) is None,
        },
{
    let chars = chars_of(text);
    let n = chars.len();
    let mut start: usize = 0;
    while start < n && chars[start] != '{'
        invariant
            start <= n,
            n == chars@.len(),
            position_of(chars@, '{', 0) == position_of(chars@, '{', start as int),
        decreases n - start,
    {
        start += 1;
    }
    if start >= n {
        return None;
    }
    let mut i: usize = start;
    let mut depth: usize = 0;
    let mut in_string = false;
    let mut escaped = false;
    while i < n
        invariant
            start <= i <= n,
            n == chars@.len(),
            chars@ == text@,
            depth <= i - start,
            chars@[start as int] == '{',
            position_of(chars@, '{', 0) == Some(start as int),
            i == start ==> !in_string && !escaped,
            i > start ==> depth >= 1,
            object_end(chars@, start as int, 0, false, false) == object_end(
                chars@,
                i as int,
                depth as int,
                in_string,
                escaped,
            ),
        decreases n - i,
    {
        let ch = chars[i];
        if escaped {
            escaped = false;
        } else if ch == '\\' && in_string {
            escaped = true;
        } else if ch == '"' {
            in_string = !in_string;
        } else if ch == '{' && !in_string {
            depth += 1;
        } else if ch == '}' && !in_string {
            if depth == 1 {
                return Some(text.substring_char(start, i + 1).to_owned());
            }
            depth -= 1;
        }
        i += 1;
    }
    None
}

/// Finds the JSON object in the answer of a service: code-fence markers and
/// surrounding white space are taken off, then the first object is cut out.
pub fn extract_json_object(text: &str) -> (r: Option<String>)
    ensures
        match r {
            Some(object) => json_object_of(without_fences(text@)) == Some(object@),
            None => json_object_of(without_fences(text@)) is None,
        },
{
    let unfenced = remove_pattern(text, "```json");
    let bare = remove_pattern(unfenced.as_str(), "```");
    first_json_object(trim(bare.as_str()))
}

/// The wire format that a provider speaks.
#[derive(Debug, Clone, Copy, PartialEq, Eq, Structural)]
pub enum ApiDialect {
    Claude,
    Gemini,
    OpenAICompatible,
}

/// One header of a request.
#[derive(Debug)]
pub struct Header {
    pub name: String,
    pub value: String,
}

/// A request to a service: where it goes, with which headers, and the JSON
/// text of its body.
#[derive(Debug)]
pub struct ApiRequest {
    pub dialect: ApiDialect,
    pub url: String,
    pub headers: Vec<Header>,
    pub body: String,
}

/// Which format each provider speaks.
pub open spec fn dialect_of(provider: AIProvider) -> ApiDialect {
    match provider {
        AIProvider::Claude => ApiDialect::Claude,
        AIProvider::Gemini => ApiDialect::Gemini,
        _ => ApiDialect::OpenAICompatible,
    }
}

/// The address that a prompt is sent to: the service's base address without
/// trailing slashes, and the provider's path.
pub open spec fn request_url(config: AIConfig) -> Seq<char> {
    let base = without_trailing(config.api_url@, '/');
    match dialect_of(config.provider) {
        ApiDialect::Claude => base + "/v1/messages"@,
        ApiDialect::Gemini => base + "/v1beta/models/"@ + config.model@ + ":generateContent?key="@
            + config.api_key@,
        ApiDialect::OpenAICompatible => base + "/chat/completions"@,
    }
}

/// The body of a request: the model and the prompt in the provider's format.
pub open spec fn request_body(dialect: ApiDialect, model: Seq<char>, prompt: Seq<char>) -> Seq<
    char,
> {
    match dialect {
        ApiDialect::Claude => "{\"model\":"@ + json_quoted(model)
            + ",\"max_tokens\":8192,\"messages\":[{\"role\":\"user\",\"content\":"@
            + json_quoted(prompt) + "}]}"@,
        ApiDialect::Gemini => "{\"contents\":[{\"parts\":[{\"text\":"@ + json_quoted(prompt)
            + "}]}]}"@,
        ApiDialect::OpenAICompatible => "{\"model\":"@ + json_quoted(model)
            + ",\"messages\":[{\"role\":\"system\",\"content\":\"Eres un Arquitecto de Software Senior.\"},{\"role\":\"user\",\"content\":"@
            + json_quoted(prompt) + "}],\"temperature\":0.1,\"max_tokens\":8192}"@,
    }
}

/// The headers of a request, as pairs of name and value.
pub open spec fn request_headers(config: AIConfig) -> Seq<(Seq<char>, Seq<char>)> {
    match dialect_of(config.provider) {
        ApiDialect::Claude => seq![
            ("x-api-key"@, config.api_key@),
            ("anthropic-version"@, "2023-06-01"@),
            ("content-type"@, "application/json"@),
        ],
        ApiDialect::Gemini => seq![("content-type"@, "application/json"@)],
        ApiDialect::OpenAICompatible => if config.api_key@.len() == 0 {
            seq![("content-type"@, "application/json"@)]
        } else {
            seq![
                ("content-type"@, "application/json"@),
                ("authorization"@, "Bearer "@ + config.api_key@),
            ]
        },
    }
}

/// The headers of a request as texts.
pub open spec fn header_texts(headers: Seq<Header>) -> Seq<(Seq<char>, Seq<char>)> {
    Seq::new(headers.len(), |i: int| (headers[i].name@, headers[i].value@))
}

fn header(name: &str, value: String) -> (h: Header)
    ensures
        h.name@ == name@,
        h.value@ == value@,
{
    Header { name: name.to_owned(), value }
}

/// Prepares the request that puts `prompt` to the configured service.
pub fn consultar_ia(prompt: String, ai_config: AIConfig) -> (r: ApiRequest)
    ensures
        r.dialect == dialect_of(ai_config.provider),
        r.url@ == request_url(ai_config),
        header_texts(r.headers@) == request_headers(ai_config),
        r.body@ == request_body(dialect_of(ai_config.provider), ai_config.model@, prompt@),
{
    let base = trim_end_matches(ai_config.api_url.as_str(), '/');
    let mut url = base.to_owned();
    let mut headers: Vec<Header> = Vec::new();
    let model = json_quote(ai_config.model.as_str());
    let text = json_quote(prompt.as_str());
    let mut body = String::new();
    let dialect = match ai_config.provider {
        AIProvider::Claude => {
            body.append("{\"model\":");
            body.append(model.as_str());
            body.append(",\"max_tokens\":8192,\"messages\":[{\"role\":\"user\",\"content\":");
            body.append(text.as_str());
            body.append("}]}");
            url.append("/v1/messages");
            headers.push(header("x-api-key", ai_config.api_key.clone()));
            headers.push(header("anthropic-version", "2023-06-01".to_owned()));
            headers.push(header("content-type", "application/json".to_owned()));
            ApiDialect::Claude
        },
        AIProvider::Gemini => {
            body.append("{\"contents\":[{\"parts\":[{\"text\":");
            body.append(text.as_str());
            body.append("}]}]}");
            url.append("/v1beta/models/");
            url.append(ai_config.model.as_str());
            url.append(":generateContent?key=");
            url.append(ai_config.api_key.as_str());
            headers.push(header("content-type", "application/json".to_owned()));
            ApiDialect::Gemini
        },
        _ => {
            body.append("{\"model\":");
            body.append(model.as_str());
            body.append(
                ",\"messages\":[{\"role\":\"system\",\"content\":\"Eres un Arquitecto de Software Senior.\"},{\"role\":\"user\",\"content\":",
            );
            body.append(text.as_str());
            body.append("}],\"temperature\":0.1,\"max_tokens\":8192}");
            url.append("/chat/completions");
            headers.push(header("content-type", "application/json".to_owned()));
            if ai_config.api_key.as_str().unicode_len() > 0 {
                let mut bearer = "Bearer ".to_owned();
                bearer.append(ai_config.api_key.as_str());
                headers.push(header("authorization", bearer));
            }
            ApiDialect::OpenAICompatible
        },
    };
    assert(header_texts(headers@) =~= request_headers(ai_config));
    assert(body@ =~= request_body(dialect, ai_config.model@, prompt@));
    ApiRequest { dialect, url, headers, body }
}

/// A request for the models that a service offers.
#[derive(Debug)]
pub struct ModelListRequest {
    pub dialect: ApiDialect,
    pub url: String,
    pub headers: Vec<Header>,
}

/// The address that the list of models is asked from.
pub open spec fn model_list_url(provider: AIProvider, api_url: Seq<char>, api_key: Seq<char>) -> Seq<
    char,
> {
    let base = without_trailing(api_url, '/');
    match dialect_of(provider) {
        ApiDialect::Claude => base + "/v1/models"@,
        ApiDialect::Gemini => base + "/v1beta/models?key="@ + api_key,
        ApiDialect::OpenAICompatible => base + "/models"@,
    }
}

/// The headers of the request for the list of models.
pub open spec fn model_list_headers(provider: AIProvider, api_key: Seq<char>) -> Seq<
    (Seq<char>, Seq<char>),
> {
    match dialect_of(provider) {
        ApiDialect::Claude => seq![("x-api-key"@, api_key), ("anthropic-version"@, "2023-06-01"@)],
        ApiDialect::Gemini => Seq::empty(),
        ApiDialect::OpenAICompatible => if api_key.len() == 0 {
            Seq::empty()
        } else {
            seq![("authorization"@, "Bearer "@ + api_key)]
        },
    }
}

/// Prepares the request for the models that a service offers.
pub fn model_list_request(provider: AIProvider, api_url: &str, api_key: &str) -> (r:
    ModelListRequest)
    ensures
        r.dialect == dialect_of(provider),
        r.url@ == model_list_url(provider, api_url@, api_key@),
        header_texts(r.headers@) == model_list_headers(provider, api_key@),
{
    let mut url = trim_end_matches(api_url, '/').to_owned();
    let mut headers: Vec<Header> = Vec::new();
    let dialect = match provider {
        AIProvider::Claude => {
            url.append("/v1/models");
            headers.push(header("x-api-key", api_key.to_owned()));
            headers.push(header("anthropic-version", "2023-06-01".to_owned()));
            ApiDialect::Claude
        },
        AIProvider::Gemini => {
            url.append("/v1beta/models?key=");
            url.append(api_key);
            ApiDialect::Gemini
        },
        _ => {
            url.append("/models");
            if api_key.unicode_len() > 0 {
                let mut bearer = "Bearer ".to_owned();
                bearer.append(api_key);
                headers.push(header("authorization", bearer));
            }
            ApiDialect::OpenAICompatible
        },
    };
    assert(header_texts(headers@) =~= model_list_headers(provider, api_key@));
    ModelListRequest { dialect, url, headers }
}

/// The name of a model as a service lists it: Gemini's names lose their
/// `models/` prefix, the others stay as they are.
pub open spec fn model_name(dialect: ApiDialect, listed: Seq<char>) -> Seq<char> {
    match dialect {
        ApiDialect::Gemini => without_leading(listed, "models/"@),
        _ => listed,
    }
}

/// The names of the listed models at or after `from` that have one.
pub open spec fn model_names_from(
    dialect: ApiDialect,
    listed: Seq<(Option<Seq<char>>, Option<Seq<char>>)>,
    from: int,
) -> Seq<Seq<char>>
    decreases listed.len() - from,
{
    if from < 0 || from >= listed.len() {
        Seq::empty()
    } else {
        match listed[from].0 {
            Some(name) => seq![model_name(dialect, name)] + model_names_from(
                dialect,
                listed,
                from + 1,
            ),
            None => model_names_from(dialect, listed, from + 1),
        }
    }
}

/// The list of models that an answer holds: under `models`, by `name`, for
/// Gemini; under `data`, by `id`, for the others.
pub open spec fn listed_models(dialect: ApiDialect, body: Seq<char>) -> Option<
    Seq<(Option<Seq<char>>, Option<Seq<char>>)>,
> {
    match dialect {
        ApiDialect::Gemini => json_pairs_at(body, "models"@, "name"@, "name"@),
        _ => json_pairs_at(body, "data"@, "id"@, "id"@),
    }
}

/// The texts of a list of strings.
pub open spec fn name_texts(names: Seq<String>) -> Seq<Seq<char>> {
    Seq::new(names.len(), |i: int| names[i]@)
}

/// Reads the names of the models out of the answer to a model-list request.
/// `None` where the answer is not JSON or holds no list of models; a listed
/// model without a name is passed over.
pub fn model_names(dialect: ApiDialect, body: &str) -> (r: Option<Vec<String>>)
    ensures
        match r {
            Some(names) => listed_models(dialect, body@) is Some && name_texts(names@)
                == model_names_from(dialect, listed_models(dialect, body@)->0, 0),
            None => listed_models(dialect, body@) is None,
        },
{
    let listed = match dialect {
        ApiDialect::Gemini => json_pairs(body, "models", "name", "name"),
        _ => json_pairs(body, "data", "id", "id"),
    };
    match listed {
        None => None,
        Some(pairs) => {
            let ghost all = pair_texts(pairs@);
            let mut names: Vec<String> = Vec::new();
            let mut i: usize = 0;
            while i < pairs.len()
                invariant
                    i <= pairs.len(),
                    all == pair_texts(pairs@),
                    name_texts(names@) + model_names_from(dialect, all, i as int)
                        == model_names_from(dialect, all, 0),
                decreases pairs.len() - i,
            {
                let ghost before = name_texts(names@);
                match &pairs[i].0 {
                    Some(listed_name) => {
                        let name = match dialect {
                            ApiDialect::Gemini => trim_start_matches(
                                listed_name.as_str(),
                                "models/",
                            ).to_owned(),
                            _ => listed_name.clone(),
                        };
                        names.push(name);
                        assert(all[i as int].0 == Some(listed_name@));
                        assert(name_texts(names@) =~= before + seq![
                            model_name(dialect, listed_name@),
                        ]);
                        assert(name_texts(names@) + model_names_from(dialect, all, i + 1)
                            =~= before + model_names_from(dialect, all, i as int));
                    },
                    None => {
                        assert(all[i as int].0 is None);
                    },
                }
                i += 1;
            }
            assert(name_texts(names@) + Seq::<Seq<char>>::empty() =~= name_texts(names@));
            Some(names)
        },
    }
}

/// Why the answer of a service could not be used.
#[derive(Debug, Clone, Copy, PartialEq, Eq, Structural)]
pub enum AnswerError {
    /// The service answered with a status other than success.
    Status,
    /// The answer is not JSON.
    Malformed,
    /// The answer holds no text where the provider's format has it.
    NoText,
}

/// What an answer comes to.
pub open spec fn answer_of(
    dialect: ApiDialect,
    success: bool,
    is_json: bool,
    text: Option<String>,
    body: String,
) -> Result<String, AnswerError> {
    if !success {
        Err(AnswerError::Status)
    } else if !is_json {
        Err(AnswerError::Malformed)
    } else {
        match text {
            Some(t) => Ok(t),
            None => if dialect == ApiDialect::Claude {
                Ok(body)
            } else {
                Err(AnswerError::NoText)
            },
        }
    }
}

/// Decides what the answer of a service comes to. `success` says whether
/// the status was one of success, `is_json` whether the body is JSON, and
/// `text` is the text found where the provider's format has it. In the
/// first dialect an answer without such a text is taken whole.
pub fn interpret_answer(
    dialect: ApiDialect,
    success: bool,
    is_json: bool,
    text: Option<String>,
    body: String,
) -> (r: Result<String, AnswerError>)
    ensures
        r == answer_of(dialect, success, is_json, text, body),
{
    if !success {
        Err(AnswerError::Status)
    } else if !is_json {
        Err(AnswerError::Malformed)
    } else {
        match text {
            Some(t) => Ok(t),
            None => match dialect {
                ApiDialect::Claude => Ok(body),
                _ => Err(AnswerError::NoText),
            },
        }
    }
}

/// What to do next when the configured services are asked in turn.
#[derive(Debug, Clone, Copy, PartialEq, Eq, Structural)]
pub enum FallbackStep {
    /// Ask the service at this position.
    Ask(usize),
    /// No service is configured.
    NoneConfigured,
    /// Every configured service has failed.
    AllFailed,
}

/// The next step after `failed` services, the first ones in order, have
/// failed, out of `configured` in all.
pub fn fallback_step(configured: usize, failed: usize) -> (step: FallbackStep)
    ensures
        step == (if configured == 0 {
            FallbackStep::NoneConfigured
        } else if failed < configured {
            FallbackStep::Ask(failed)
        } else {
            FallbackStep::AllFailed
        }),
{
    if configured == 0 {
        FallbackStep::NoneConfigured
    } else if failed < configured {
        FallbackStep::Ask(failed)
    } else {
        FallbackStep::AllFailed
    }
}

} // verus!

use architect_linter::ai::{
    consultar_ia, extract_json_object, fallback_step, first_json_object, interpret_answer,
    model_list_request, model_names, AnswerError, ApiDialect, FallbackStep, SuggestedRule,
};
use architect_linter::config::{
    context_from_json, context_from_wizard, rules_from_pairs, rules_from_suggestions, AIConfig,
    AIProvider, ArchPattern, ConfigError, Framework, DEFAULT_MAX_LINES,
};
use architect_linter::text::{
    first_char, same_text, to_decimal, trim_end_matches, trim_start_matches,
};

fn config(provider: AIProvider, url: &str, key: &str) -> AIConfig {
    AIConfig {
        name: "main".to_string(),
        provider,
        api_url: url.to_string(),
        api_key: key.to_string(),
        model: "model-1".to_string(),
    }
}

fn header_pairs(request: &architect_linter::ai::ApiRequest) -> Vec<(String, String)> {
    request.headers.iter().map(|h| (h.name.clone(), h.value.clone())).collect()
}

fn pair(a: &str, b: &str) -> (String, String) {
    (a.to_string(), b.to_string())
}

#[test]
fn json_object_is_cut_out_of_a_fenced_answer() {
    let answer = "Here you go:\n```json\n{\"pattern\": \"MVC\", \"rules\": []}\n```\nBye";
    assert_eq!(
        extract_json_object(answer),
        Some("{\"pattern\": \"MVC\", \"rules\": []}".to_string())
    );
}

#[test]
fn json_object_with_nested_braces() {
    assert_eq!(
        first_json_object("x {\"a\": {\"b\": {}}, \"c\": 1} y {\"d\": 2}"),
        Some("{\"a\": {\"b\": {}}, \"c\": 1}".to_string())
    );
}

#[test]
fn braces_inside_strings_do_not_count() {
    assert_eq!(
        first_json_object("{\"a\": \"}{\", \"b\": \"\\\"}\"} tail"),
        Some("{\"a\": \"}{\", \"b\": \"\\\"}\"}".to_string())
    );
}

#[test]
fn text_without_a_closed_object_has_none() {
    assert_eq!(first_json_object(""), None);
    assert_eq!(first_json_object("no braces"), None);
    assert_eq!(first_json_object("{\"a\": {"), None);
    assert_eq!(first_json_object("} {"), None);
    assert_eq!(extract_json_object("```json\n```"), None);
    assert_eq!(first_json_object("{}"), Some("{}".to_string()));
    assert_eq!(first_json_object("é{\"ñ\":1}é"), Some("{\"ñ\":1}".to_string()));
}

#[test]
fn fences_and_white_space_are_taken_off() {
    assert_eq!(extract_json_object("  \n```{\"a\":1}```  "), Some("{\"a\":1}".to_string()));
    assert_eq!(extract_json_object("{\"a\":\"```json\"}"), Some("{\"a\":\"\"}".to_string()));
}

#[test]
fn claude_request() {
    let request =
        consultar_ia("hello".to_string(), config(AIProvider::Claude, "https://api.x.com//", "k1"));
    assert_eq!(request.dialect, ApiDialect::Claude);
    assert_eq!(request.url, "https://api.x.com/v1/messages");
    assert_eq!(
        header_pairs(&request),
        vec![
            pair("x-api-key", "k1"),
            pair("anthropic-version", "2023-06-01"),
            pair("content-type", "application/json"),
        ]
    );
    assert_eq!(
        request.body,
        "{\"model\":\"model-1\",\"max_tokens\":8192,\"messages\":[{\"role\":\"user\",\"content\":\"hello\"}]}"
    );
}

#[test]
fn gemini_request() {
    let request = consultar_ia("p".to_string(), config(AIProvider::Gemini, "https://g.com/", "k2"));
    assert_eq!(request.dialect, ApiDialect::Gemini);
    assert_eq!(request.url, "https://g.com/v1beta/models/model-1:generateContent?key=k2");
    assert_eq!(request.body, "{\"contents\":[{\"parts\":[{\"text\":\"p\"}]}]}");
    assert_eq!(header_pairs(&request), vec![pair("content-type", "application/json")]);
}

#[test]
fn openai_compatible_requests() {
    for provider in [
        AIProvider::OpenAI,
        AIProvider::Groq,
        AIProvider::Ollama,
        AIProvider::Kimi,
        AIProvider::DeepSeek,
    ] {
        let request = consultar_ia("p".to_string(), config(provider, "http://localhost:11434", "k3"));
        assert_eq!(request.dialect, ApiDialect::OpenAICompatible);
        assert_eq!(request.url, "http://localhost:11434/chat/completions");
        assert_eq!(
            header_pairs(&request),
            vec![pair("content-type", "application/json"), pair("authorization", "Bearer k3")]
        );
    }
    let open = consultar_ia(
        "say \"hi\"\n\\ ñ".to_string(),
        config(AIProvider::Ollama, "http://h/", ""),
    );
    assert_eq!(header_pairs(&open), vec![pair("content-type", "application/json")]);
    assert_eq!(
        open.body,
        "{\"model\":\"model-1\",\"messages\":[{\"role\":\"system\",\"content\":\"Eres un Arquitecto de Software Senior.\"},{\"role\":\"user\",\"content\":\"say \\\"hi\\\"\\n\\\\ ñ\"}],\"temperature\":0.1,\"max_tokens\":8192}"
    );
}

#[test]
fn trailing_slashes_are_taken_off() {
    assert_eq!(trim_end_matches("http://a/b///", '/'), "http://a/b");
    assert_eq!(trim_end_matches("///", '/'), "");
    assert_eq!(trim_end_matches("", '/'), "");
    assert_eq!(trim_end_matches("/a", '/'), "/a");
}

#[test]
fn services_are_asked_in_turn() {
    assert_eq!(fallback_step(0, 0), FallbackStep::NoneConfigured);
    assert_eq!(fallback_step(2, 0), FallbackStep::Ask(0));
    assert_eq!(fallback_step(2, 1), FallbackStep::Ask(1));
    assert_eq!(fallback_step(2, 2), FallbackStep::AllFailed);
}

#[test]
fn numbers_in_decimal() {
    assert_eq!(to_decimal(0), "0");
    assert_eq!(to_decimal(9), "9");
    assert_eq!(to_decimal(10), "10");
    assert_eq!(to_decimal(1234567890), "1234567890");
    assert_eq!(to_decimal(usize::MAX), usize::MAX.to_string());
}

#[test]
fn small_text_helpers() {
    assert!(same_text("abc", "abc"));
    assert!(!same_text("abc", "abd"));
    assert!(!same_text("abc", "ab"));
    assert_eq!(first_char("ñu"), Some('ñ'));
    assert_eq!(first_char(""), None);
}

#[test]
fn framework_names() {
    assert_eq!(Framework::NestJS.as_str(), "NestJS");
    assert_eq!(Framework::React.as_str(), "React");
    assert_eq!(Framework::Angular.as_str(), "Angular");
    assert_eq!(Framework::Express.as_str(), "Express");
    assert_eq!(Framework::Unknown.as_str(), "Unknown");
}

#[test]
fn menu_positions() {
    assert_eq!(Framework::from_index(0), Framework::NestJS);
    assert_eq!(Framework::from_index(1), Framework::React);
    assert_eq!(Framework::from_index(2), Framework::Angular);
    assert_eq!(Framework::from_index(3), Framework::Express);
    assert_eq!(Framework::from_index(4), Framework::Unknown);
    assert_eq!(Framework::from_index(99), Framework::Unknown);
    assert_eq!(ArchPattern::from_index(0), ArchPattern::Hexagonal);
    assert_eq!(ArchPattern::from_index(1), ArchPattern::Clean);
    assert_eq!(ArchPattern::from_index(2), ArchPattern::MVC);
    assert_eq!(ArchPattern::from_index(3), ArchPattern::Ninguno);
    assert_eq!(ArchPattern::from_index(7), ArchPattern::Ninguno);
}

#[test]
fn pattern_names() {
    assert_eq!(ArchPattern::from_name("Hexagonal"), ArchPattern::Hexagonal);
    assert_eq!(ArchPattern::from_name("Clean"), ArchPattern::Clean);
    assert_eq!(ArchPattern::from_name("MVC"), ArchPattern::MVC);
    assert_eq!(ArchPattern::from_name("Ninguno"), ArchPattern::Ninguno);
    assert_eq!(ArchPattern::from_name(""), ArchPattern::MVC);
    assert_eq!(ArchPattern::from_name("hexagonal"), ArchPattern::MVC);
}

#[test]
fn default_limit() {
    assert_eq!(DEFAULT_MAX_LINES, 40);
    let ctx = context_from_json("{\"max_lines_per_function\": 75}", Framework::React).unwrap();
    assert_eq!(ctx.max_lines, 75);
    let none = context_from_json("{\"max_lines_per_function\": \"75\"}", Framework::React).unwrap();
    assert_eq!(none.max_lines, 40);
}

#[test]
fn context_is_read_from_a_configuration_text() {
    let text = "{\"max_lines_per_function\": 60, \"architecture_pattern\": \"Hexagonal\", \"forbidden_imports\": [{\"from\": \"presentation\", \"to\": \"infrastructure\"}, {\"from\": \"domain\"}, {\"from\": \"a\", \"to\": \"b\"}, {\"from\": 1, \"to\": \"c\"}]}";
    let ctx = context_from_json(text, Framework::React).unwrap();
    assert_eq!(ctx.max_lines, 60);
    assert_eq!(ctx.framework, Framework::React);
    assert_eq!(ctx.pattern, ArchPattern::Hexagonal);
    let rules: Vec<(String, String)> =
        ctx.forbidden_imports.iter().map(|r| (r.from.clone(), r.to.clone())).collect();
    assert_eq!(rules, vec![pair("presentation", "infrastructure"), pair("a", "b")]);
}

#[test]
fn configuration_defaults() {
    let ctx = context_from_json("{}", Framework::Unknown).unwrap();
    assert_eq!(ctx.max_lines, 40);
    assert_eq!(ctx.pattern, ArchPattern::MVC);
    assert!(ctx.forbidden_imports.is_empty());
    let odd = context_from_json(
        "{\"max_lines_per_function\": -3, \"architecture_pattern\": 5, \"forbidden_imports\": {}}",
        Framework::Unknown,
    )
    .unwrap();
    assert_eq!(odd.max_lines, 40);
    assert_eq!(odd.pattern, ArchPattern::MVC);
    assert!(odd.forbidden_imports.is_empty());
}

#[test]
fn malformed_configuration_is_refused() {
    assert_eq!(context_from_json("{", Framework::Unknown).err(), Some(ConfigError::Malformed));
    assert_eq!(context_from_json("", Framework::Unknown).err(), Some(ConfigError::Malformed));
}

#[test]
fn rules_from_pairs_keep_complete_pairs() {
    let rules = rules_from_pairs(vec![
        (Some("a".to_string()), None),
        (Some("b".to_string()), Some("c".to_string())),
        (None, Some("d".to_string())),
        (None, None),
    ]);
    assert_eq!(rules.len(), 1);
    assert_eq!(rules[0].from, "b");
    assert_eq!(rules[0].to, "c");
}

#[test]
fn suggestions_become_rules() {
    let suggestions = vec![
        SuggestedRule { from: "a".to_string(), to: "b".to_string(), reason: "r1".to_string() },
        SuggestedRule { from: "c".to_string(), to: "d".to_string(), reason: "r2".to_string() },
    ];
    let rules = rules_from_suggestions(suggestions.clone());
    assert_eq!(rules.len(), 2);
    assert_eq!((rules[1].from.as_str(), rules[1].to.as_str()), ("c", "d"));
    let ctx = context_from_wizard(suggestions, 55, Framework::Angular);
    assert_eq!(ctx.max_lines, 55);
    assert_eq!(ctx.framework, Framework::Angular);
    assert_eq!(ctx.pattern, ArchPattern::MVC);
    assert_eq!(ctx.forbidden_imports.len(), 2);
    assert_eq!(ctx.forbidden_imports[0].from, "a");
}

#[test]
fn model_list_requests() {
    let claude = model_list_request(AIProvider::Claude, "https://api.x.com/", "k1");
    assert_eq!(claude.dialect, ApiDialect::Claude);
    assert_eq!(claude.url, "https://api.x.com/v1/models");
    let claude_headers: Vec<(String, String)> =
        claude.headers.iter().map(|h| (h.name.clone(), h.value.clone())).collect();
    assert_eq!(claude_headers, vec![pair("x-api-key", "k1"), pair("anthropic-version", "2023-06-01")]);

    let gemini = model_list_request(AIProvider::Gemini, "https://g.com", "k2");
    assert_eq!(gemini.url, "https://g.com/v1beta/models?key=k2");
    assert!(gemini.headers.is_empty());

    let groq = model_list_request(AIProvider::Groq, "https://q.com//", "k3");
    assert_eq!(groq.dialect, ApiDialect::OpenAICompatible);
    assert_eq!(groq.url, "https://q.com/models");
    assert_eq!(groq.headers.len(), 1);
    assert_eq!(groq.headers[0].name, "authorization");
    assert_eq!(groq.headers[0].value, "Bearer k3");

    let ollama = model_list_request(AIProvider::Ollama, "http://localhost", "");
    assert!(ollama.headers.is_empty());
}

#[test]
fn model_names_are_read_from_the_answer() {
    let openai = "{\"data\": [{\"id\": \"gpt-a\"}, {\"name\": \"x\"}, {\"id\": \"models/gpt-b\"}]}";
    assert_eq!(
        model_names(ApiDialect::OpenAICompatible, openai),
        Some(vec!["gpt-a".to_string(), "models/gpt-b".to_string()])
    );
    assert_eq!(
        model_names(ApiDialect::Claude, openai),
        Some(vec!["gpt-a".to_string(), "models/gpt-b".to_string()])
    );
    let gemini = "{\"models\": [{\"name\": \"models/gemini-pro\"}, {\"name\": \"models/models/x\"}, {\"name\": \"plain\"}, {\"name\": 3}]}";
    assert_eq!(
        model_names(ApiDialect::Gemini, gemini),
        Some(vec!["gemini-pro".to_string(), "x".to_string(), "plain".to_string()])
    );
    assert_eq!(model_names(ApiDialect::Gemini, openai), None);
    assert_eq!(model_names(ApiDialect::Claude, "{\"data\": 1}"), None);
    assert_eq!(model_names(ApiDialect::Claude, "not json"), None);
    assert_eq!(model_names(ApiDialect::Claude, "{\"data\": []}"), Some(vec![]));
}

#[test]
fn leading_patterns_are_taken_off() {
    assert_eq!(trim_start_matches("models/models/a", "models/"), "a");
    assert_eq!(trim_start_matches("model/a", "models/"), "model/a");
    assert_eq!(trim_start_matches("models/", "models/"), "");
    assert_eq!(trim_start_matches("models", "models/"), "models");
    assert_eq!(trim_start_matches("abc", ""), "abc");
    assert_eq!(trim_start_matches("", "x"), "");
}

#[test]
fn answers_are_interpreted() {
    let body = "{\"x\": 1}".to_string();
    let text = Some("hi".to_string());
    assert_eq!(
        interpret_answer(ApiDialect::Claude, true, true, text.clone(), body.clone()),
        Ok("hi".to_string())
    );
    assert_eq!(
        interpret_answer(ApiDialect::Claude, true, true, None, body.clone()),
        Ok(body.clone())
    );
    assert_eq!(
        interpret_answer(ApiDialect::Gemini, true, true, None, body.clone()),
        Err(AnswerError::NoText)
    );
    assert_eq!(
        interpret_answer(ApiDialect::OpenAICompatible, true, true, None, body.clone()),
        Err(AnswerError::NoText)
    );
    assert_eq!(
        interpret_answer(ApiDialect::Gemini, false, true, text.clone(), body.clone()),
        Err(AnswerError::Status)
    );
    assert_eq!(
        interpret_answer(ApiDialect::Claude, true, false, text, body),
        Err(AnswerError::Malformed)
    );
}

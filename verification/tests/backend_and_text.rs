use neurodesk::backend::{ask_ai_reply, ask_ai_request, greet, ollama_host, GenerationParams, OLLAMA_PORT};
use neurodesk::models::{modified_label, size_label, ModelData, ModelListPage, ModelPicker};
use neurodesk::panels::response_html;
use neurodesk::text::{chars_of, decimal_string, replace_chars, replace_str, same_text};

#[test]
fn greet_names_the_caller() {
    assert_eq!(greet("Ann"), "Hello, Ann! You've been greeted from Rust!");
    assert_eq!(greet(""), "Hello, ! You've been greeted from Rust!");
}

#[test]
fn ask_request_uses_fixed_model_without_thinking() {
    let p = ask_ai_request("Why is the sky blue?".to_string());
    assert_eq!(p.model, "qwen3:latest");
    assert_eq!(p.prompt, "Why is the sky blue?");
    assert_eq!(p.think, Some(false));
    assert_eq!(p.host, "http://localhost");
    assert_eq!(p.port, 11434);
    assert_eq!(OLLAMA_PORT, 11434);
    assert_eq!(ollama_host(), "http://localhost");
}

#[test]
fn local_params_keep_their_fields() {
    let p = GenerationParams::local("llama3".to_string(), "hi".to_string(), None);
    let q = p.duplicate();
    assert_eq!(q.model, "llama3");
    assert_eq!(q.prompt, "hi");
    assert_eq!(q.think, None);
    assert_eq!(q.host, "http://localhost");
}

#[test]
fn ask_reply_passes_text_and_prefixes_errors() {
    assert_eq!(ask_ai_reply(Ok("42".to_string())), "42");
    assert_eq!(ask_ai_reply(Ok(String::new())), "");
    assert_eq!(ask_ai_reply(Err("connection refused".to_string())), "Error: connection refused");
}

#[test]
fn replace_matches_std_replace() {
    let cases = [
        ("a\nb\n", "\n", "<br>"),
        ("aaa", "aa", "b"),
        ("abcabc", "bc", ""),
        ("no match here", "xyz", "!"),
        ("", "a", "b"),
        ("ünï\ncødé\n\n", "\n", "<br>"),
        ("<think><think>", "<think>", "[t]"),
        ("ab", "abc", "z"),
    ];
    for (s, pat, rep) in cases {
        assert_eq!(replace_str(s, pat, rep), s.replace(pat, rep), "{:?}", (s, pat, rep));
    }
}

#[test]
fn replace_chars_scans_left_to_right() {
    let s: Vec<char> = "aaaa".chars().collect();
    let pat: Vec<char> = "aa".chars().collect();
    let rep: Vec<char> = "b".chars().collect();
    assert_eq!(replace_chars(&s, &pat, &rep), vec!['b', 'b']);
    let s: Vec<char> = "aaa".chars().collect();
    assert_eq!(replace_chars(&s, &pat, &rep), vec!['b', 'a']);
}

#[test]
fn chars_of_keeps_every_char() {
    assert_eq!(chars_of("héllo"), vec!['h', 'é', 'l', 'l', 'o']);
    assert!(chars_of("").is_empty());
}

#[test]
fn same_text_compares_characters() {
    assert!(same_text("Enter", "Enter"));
    assert!(!same_text("enter", "Enter"));
    assert!(!same_text("Enter ", "Enter"));
    assert!(same_text("", ""));
}

#[test]
fn decimal_string_matches_to_string() {
    for n in [0u64, 7, 10, 99, 100, 1048576, 1234567890, u64::MAX] {
        assert_eq!(decimal_string(n), n.to_string());
    }
}

#[test]
fn size_label_counts_whole_mebibytes() {
    assert_eq!(size_label(0), "Size: 0 MB");
    assert_eq!(size_label(1048575), "Size: 0 MB");
    assert_eq!(size_label(5 * 1024 * 1024 + 7), "Size: 5 MB");
    assert_eq!(size_label(5_200_000_000), "Size: 4959 MB");
}

#[test]
fn modified_label_shows_date() {
    assert_eq!(modified_label("2025-01-01T10:00:00Z"), "Modified: 2025-01-01T10:00:00Z");
}

#[test]
fn response_html_marks_lines_and_thinking() {
    assert_eq!(
        response_html("<think>\nhmm\n</think>\nHello"),
        "<think><span class=\"italic text-sm\"><br>hmm<br></span></think><br>Hello"
    );
    assert_eq!(response_html("plain"), "plain");
    assert_eq!(response_html(""), "");
}

fn model(name: &str) -> ModelData {
    ModelData { name: name.to_string(), modified_at: "today".to_string(), size: 1 }
}

#[test]
fn picker_selects_first_loaded_model() {
    let mut p = ModelPicker::new();
    p.on_models_loaded(Some(vec![model("qwen3:latest"), model("llama3")]));
    assert_eq!(p.selected, "qwen3:latest");
    assert_eq!(p.models.len(), 2);
    p.select("llama3".to_string());
    assert_eq!(p.selected, "llama3");
    p.on_models_loaded(None);
    assert_eq!(p.models.len(), 2);
    assert_eq!(p.selected, "llama3");
    p.on_models_loaded(Some(vec![]));
    assert_eq!(p.models.len(), 0);
    assert_eq!(p.selected, "llama3");
}

#[test]
fn model_list_page_keeps_list_on_failure() {
    let mut page = ModelListPage::new();
    page.on_models_loaded(Some(vec![model("a")]));
    page.on_models_loaded(None);
    assert_eq!(page.models.len(), 1);
    assert_eq!(page.models[0].name, "a");
}

#[test]
fn stream_requests_set_thinking() {
    let c = neurodesk::backend::stream_chat_request("hi".to_string(), "m".to_string());
    assert_eq!((c.host.as_str(), c.port, c.model.as_str(), c.prompt.as_str(), c.think), ("http://localhost", 11434, "m", "hi", Some(false)));
    let t = neurodesk::backend::stream_thinking_request("hi".to_string(), "m".to_string());
    assert_eq!((t.host.as_str(), t.port, t.model.as_str(), t.prompt.as_str(), t.think), ("http://localhost", 11434, "m", "hi", None));
}

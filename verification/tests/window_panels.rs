use neurodesk::chat::{assistant_body, bubble_class, copy_label, AssistantBody, ChatPanel, OutputTab, Role};
use neurodesk::markdown::{answer_options, answer_renderer, render_markdown};
use neurodesk::models::ModelData;
use neurodesk::nav::{dark_mode_change, navbar_links, DarkModeChange, NavMenu};
use neurodesk::panels::{AskPanel, Command, StreamPanel};

fn models() -> Option<Vec<ModelData>> {
    Some(vec![ModelData { name: "qwen3:latest".to_string(), modified_at: "x".to_string(), size: 0 }])
}

fn stream_request(c: &Option<Command>) -> Option<(String, String)> {
    match c {
        Some(Command::StreamModel { content, model }) => Some((content.clone(), model.clone())),
        _ => None,
    }
}

#[test]
fn command_names() {
    assert_eq!(Command::ListModels.name(), "list_models");
    assert_eq!(Command::StopStream.name(), "stop_stream");
    assert_eq!(Command::AskModel { content: String::new(), model: String::new() }.name(), "ask_ai_model");
    assert_eq!(Command::StreamModel { content: String::new(), model: String::new() }.name(), "stream_ai_model");
}

#[test]
fn ask_panel_asks_and_shows_answer() {
    let (mut p, first) = AskPanel::open();
    assert!(matches!(first, Command::ListModels));
    assert!(p.ask().is_none());
    p.picker.on_models_loaded(models());
    assert!(p.ask().is_none());
    p.input("2+2?".to_string());
    match p.ask() {
        Some(Command::AskModel { content, model }) => {
            assert_eq!(content, "2+2?");
            assert_eq!(model, "qwen3:latest");
        }
        _ => panic!("expected a question"),
    }
    assert!(p.loading);
    assert_eq!(p.button_label(), "Loading...");
    p.on_reply(Some("4".to_string()));
    assert!(!p.loading);
    assert_eq!(p.response, "4");
    assert_eq!(p.button_label(), "Ask AI");
    p.on_reply(None);
    assert_eq!(p.response, "4");
    p.clear();
    assert_eq!(p.post, "");
    assert_eq!(p.response, "");
}

#[test]
fn stream_panel_collects_pieces() {
    let (mut p, _) = StreamPanel::open();
    p.on_models_loaded(models());
    p.input("Tell me".to_string());
    p.response = "old".to_string();
    let c = p.start();
    assert_eq!(stream_request(&c), Some(("Tell me".to_string(), "qwen3:latest".to_string())));
    assert_eq!(p.response, "");
    assert!(p.loading);
    assert!(!p.start_enabled());
    p.on_chunk("Once ");
    p.on_chunk("upon");
    assert_eq!(p.response, "Once upon");
    assert!(matches!(p.stop(), Command::StopStream));
    p.on_stopped();
    assert!(!p.loading);
    assert_eq!(p.response, "Once upon");
    assert_eq!(p.post, "Tell me");
    p.clear();
    assert_eq!(p.response, "");
    assert_eq!(p.post, "");
}

#[test]
fn stream_panel_needs_question_and_model() {
    let (mut p, _) = StreamPanel::open();
    p.input("q".to_string());
    assert!(p.start().is_none());
    assert!(!p.loading);
    p.select("m".to_string());
    p.input(String::new());
    assert!(p.start().is_none());
}

#[test]
fn chat_exchange_enters_history() {
    let (mut c, _) = ChatPanel::open();
    c.on_models_loaded(models());
    c.input("Hi".to_string());
    let cmd = c.send();
    assert_eq!(stream_request(&cmd), Some(("Hi".to_string(), "qwen3:latest".to_string())));
    assert_eq!(c.post, "");
    assert!(c.loading);
    assert_eq!(c.messages.len(), 1);
    assert_eq!(c.messages[0].role, Role::User);
    assert_eq!(c.messages[0].content, "Hi");
    c.on_chunk("Hel");
    c.on_chunk("lo!");
    c.on_stopped();
    assert!(!c.loading);
    assert_eq!(c.response, "");
    assert_eq!(c.messages.len(), 2);
    assert_eq!(c.messages[1].role, Role::Assistant);
    assert_eq!(c.messages[1].content, "Hello!");
    c.on_stopped();
    assert_eq!(c.messages.len(), 2);
    c.clear();
    assert!(c.messages.is_empty());
}

#[test]
fn chat_empty_answer_is_not_recorded() {
    let (mut c, _) = ChatPanel::open();
    c.on_models_loaded(models());
    c.input("Hi".to_string());
    assert!(c.send().is_some());
    c.on_stopped();
    assert_eq!(c.messages.len(), 1);
}

#[test]
fn chat_enter_key_sends_unless_waiting() {
    let (mut c, _) = ChatPanel::open();
    c.on_models_loaded(models());
    c.input("line".to_string());
    let o = c.on_key("Enter", true);
    assert!(!o.prevent_default);
    assert!(o.command.is_none());
    let o = c.on_key("a", false);
    assert!(!o.prevent_default && o.command.is_none());
    let o = c.on_key("Enter", false);
    assert!(o.prevent_default);
    assert!(o.command.is_some());
    c.input("again".to_string());
    let o = c.on_key("Enter", false);
    assert!(o.prevent_default);
    assert!(o.command.is_none());
    assert_eq!(c.post, "again");
}

#[test]
fn chat_tabs_and_styles() {
    let (mut c, _) = ChatPanel::open();
    assert_eq!(c.tab, OutputTab::Rendered);
    assert_eq!(c.tab_class(OutputTab::Rendered), "px-4 py-2 border-b-2 border-blue-500 font-medium");
    assert_eq!(c.tab_class(OutputTab::Markdown), "px-4 py-2 text-gray-500");
    c.select_tab(OutputTab::Markdown);
    assert_eq!(c.tab, OutputTab::Markdown);
    assert!(bubble_class(Role::User).starts_with("ml-auto"));
    assert!(bubble_class(Role::Assistant).starts_with("mr-auto"));
    assert_eq!(copy_label(true), "Copied!");
    assert_eq!(copy_label(false), "Copy");
}

#[test]
fn markdown_is_rendered_with_extensions() {
    let r = answer_renderer();
    assert_eq!(render_markdown(&r, "# Hi"), "<h1>Hi</h1>\n");
    assert_eq!(render_markdown(&r, "~~gone~~"), "<p><del>gone</del></p>\n");
    let table = render_markdown(&r, "| a | b |\n|---|---|\n| 1 | 2 |\n");
    assert!(table.contains("<table>"));
    let code = render_markdown(&r, "```rust\nfn main() {}\n```\n");
    assert!(code.contains("<pre style=\"background-color:#"));
    let o = answer_options();
    assert!(o.table && o.strikethrough && o.tasklist && o.footnotes);
}

#[test]
fn assistant_body_follows_tab() {
    let r = answer_renderer();
    match assistant_body(OutputTab::Rendered, &r, "*x*") {
        AssistantBody::Html(h) => assert_eq!(h, "<p><em>x</em></p>\n"),
        _ => panic!("expected HTML"),
    }
    match assistant_body(OutputTab::Markdown, &r, "*x*") {
        AssistantBody::Source(s) => assert_eq!(s, "*x*"),
        _ => panic!("expected the source"),
    }
}

#[test]
fn nav_links_and_menu() {
    let links = navbar_links();
    let pairs: Vec<(&str, &str)> = links.iter().map(|l| (l.href, l.label)).collect();
    assert_eq!(
        pairs,
        vec![
            ("/", "Home"),
            ("/query", "Query AI"),
            ("/stream-query", "Stream AI"),
            ("/stream-thinking", "Stream Thinking AI"),
            ("/models", "Models"),
        ]
    );
    let mut m = NavMenu::new();
    assert_eq!(m.menu_class(), "hidden lg:hidden");
    m.toggle();
    assert_eq!(m.menu_class(), "block lg:hidden");
    m.toggle();
    assert!(!m.open);
    assert_eq!(dark_mode_change(true), DarkModeChange::RemoveDark);
    assert_eq!(dark_mode_change(false), DarkModeChange::AddDark);
}

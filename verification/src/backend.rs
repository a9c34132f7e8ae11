//! What the desktop shell asks of the local Ollama server, and what it answers
//! to the window: the request parameters, the one-shot reply and the greeting.
use vstd::prelude::*;

verus! {

/// Port of the local Ollama server.
pub const OLLAMA_PORT: u16 = 11434;

/// Host of the local Ollama server.
pub open spec fn spec_ollama_host() -> Seq<char> {
    "http://localhost"@
}

/// Host of the local Ollama server.
pub fn ollama_host() -> (h: &'static str)
    ensures
        h@ == spec_ollama_host(),
{
    "http://localhost"
}

/// Model used by the one-shot question command.
pub open spec fn spec_ask_model() -> Seq<char> {
    "qwen3:latest"@
}

/// What a generation request to the Ollama server carries: where the server
/// is, which model answers, the prompt, and whether the model is told to think
/// (`None` leaves the server's default).
pub struct GenerationParams {
    pub host: String,
    pub port: u16,
    pub model: String,
    pub prompt: String,
    pub think: Option<bool>,
}

impl GenerationParams {
    /// A request to the local server.
    pub fn local(model: String, prompt: String, think: Option<bool>) -> (p: GenerationParams)
        ensures
            p.host@ == spec_ollama_host(),
            p.port == OLLAMA_PORT,
            p.model == model,
            p.prompt == prompt,
            p.think == think,
    {
        GenerationParams {
            host: String::from_str(ollama_host()),
            port: OLLAMA_PORT,
            model,
            prompt,
            think,
        }
    }

    /// An identical copy.
    pub fn duplicate(&self) -> (p: GenerationParams)
        ensures
            p == *self,
    {
        GenerationParams {
            host: self.host.clone(),
            port: self.port,
            model: self.model.clone(),
            prompt: self.prompt.clone(),
            think: self.think,
        }
    }
}

/// The request of the one-shot question command: the fixed model, the
/// content as prompt, thinking switched off.
pub fn ask_ai_request(content: String) -> (p: GenerationParams)
    ensures
        p.host@ == spec_ollama_host(),
        p.port == OLLAMA_PORT,
        p.model@ == spec_ask_model(),
        p.prompt == content,
        p.think == Some(false),
{
    GenerationParams::local(String::from_str("qwen3:latest"), content, Some(false))
}

/// The request of the chat stream command: the chosen model, the content as
/// prompt, thinking switched off.
pub fn stream_chat_request(content: String, model: String) -> (p: GenerationParams)
    ensures
        p.host@ == spec_ollama_host(),
        p.port == OLLAMA_PORT,
        p.model == model,
        p.prompt == content,
        p.think == Some(false),
{
    GenerationParams::local(model, content, Some(false))
}

/// The request of the thinking stream command: the chosen model, the content
/// as prompt, thinking left to the server's default.
pub fn stream_thinking_request(content: String, model: String) -> (p: GenerationParams)
    ensures
        p.host@ == spec_ollama_host(),
        p.port == OLLAMA_PORT,
        p.model == model,
        p.prompt == content,
        p.think is None,
{
    GenerationParams::local(model, content, None)
}

/// What the one-shot question command answers: the model's response, or the
/// server's error message behind `"Error: "`.
pub fn ask_ai_reply(outcome: Result<String, String>) -> (r: String)
    ensures
        outcome matches Ok(text) ==> r == text,
        outcome matches Err(e) ==> r@ == "Error: "@ + e@,
{
    match outcome {
        Ok(text) => text,
        Err(e) => {
            let mut r = String::from_str("Error: ");
            r.append(e.as_str());
            r
        },
    }
}

/// The greeting that the desktop shell answers to a name.
pub fn greet(name: &str) -> (r: String)
    ensures
        r@ == "Hello, "@ + name@ + "! You've been greeted from Rust!"@,
{
    let mut r = String::from_str("Hello, ");
    r.append(name);
    r.append("! You've been greeted from Rust!");
    r
}

} // verus!

//! The chat panel: a conversation with a model whose answers stream in.
//!
//! The user's message enters the history when it is sent; the streamed answer
//! grows in a live area and enters the history as the model's message when
//! the stream stops, unless it is empty.
use vstd::prelude::*;
use crate::models::{ModelData, ModelPicker};
use crate::panels::{concat_all, is_stream_request, Command};
use crate::markdown::{comrak_html, render_markdown, MarkdownRenderer};
use crate::text::same_text;

verus! {

/// How the model's messages are shown.
#[derive(Clone, Copy, Debug, PartialEq, Eq, Structural)]
pub enum OutputTab {
    /// As HTML rendered from the Markdown.
    Rendered,
    /// As the Markdown source.
    Markdown,
}

/// Who wrote a message.
#[derive(Clone, Copy, Debug, PartialEq, Eq, Hash, Structural)]
pub enum Role {
    User,
    Assistant,
}

/// A message of the conversation.
#[derive(Clone, Debug, PartialEq, Eq, Hash)]
pub struct ChatMessage {
    pub role: Role,
    pub content: String,
}

/// A message as the history holds it.
pub struct MessageView {
    pub role: Role,
    pub content: Seq<char>,
}

/// The history as a sequence of message views.
pub open spec fn history(ms: Seq<ChatMessage>) -> Seq<MessageView> {
    ms.map_values(|m: ChatMessage| MessageView { role: m.role, content: m.content@ })
}

/// Something that the user or the desktop shell did to the chat panel.
pub enum ChatEvent {
    /// The user edited the message.
    Input(Seq<char>),
    /// The user pressed "Send".
    Send,
    /// A key went down in the message box; `bool`: with Shift held.
    Key(Seq<char>, bool),
    /// A piece of the answer arrived.
    Chunk(Seq<char>),
    /// The stream was cancelled, or the stream command returned.
    Stopped,
    /// The user chose a model.
    Select(Seq<char>),
    /// The user chose how answers are shown.
    Tab(OutputTab),
    /// The user pressed "Clear".
    Clear,
}

/// The abstract state of the chat panel.
pub struct ChatModel {
    pub post: Seq<char>,
    pub response: Seq<char>,
    pub loading: bool,
    pub models: Seq<ModelData>,
    pub selected: Seq<char>,
    pub tab: OutputTab,
    pub messages: Seq<MessageView>,
}

impl ChatModel {
    /// A message can be sent: there is one, and a chosen model.
    pub open spec fn can_send(self) -> bool {
        self.post.len() > 0 && self.selected.len() > 0
    }

    /// Sending: the message enters the history, the message box and the live
    /// answer are emptied, and the panel waits.
    pub open spec fn send(self) -> ChatModel {
        if self.can_send() {
            ChatModel {
                messages: self.messages.push(MessageView { role: Role::User, content: self.post }),
                post: seq![],
                response: seq![],
                loading: true,
                ..self
            }
        } else {
            self
        }
    }

    /// Enter without Shift sends, unless the panel is waiting.
    pub open spec fn key(self, key: Seq<char>, shift: bool) -> ChatModel {
        if key == "Enter"@ && !shift && !self.loading {
            self.send()
        } else {
            self
        }
    }

    /// A piece of the answer arrived.
    pub open spec fn chunk(self, piece: Seq<char>) -> ChatModel {
        ChatModel { response: self.response + piece, ..self }
    }

    /// The panel stops waiting; a non-empty live answer enters the history
    /// as the model's message.
    pub open spec fn stopped(self) -> ChatModel {
        if !self.loading {
            self
        } else if self.response.len() > 0 {
            ChatModel {
                loading: false,
                messages: self.messages.push(
                    MessageView { role: Role::Assistant, content: self.response },
                ),
                response: seq![],
                ..self
            }
        } else {
            ChatModel { loading: false, ..self }
        }
    }

    /// Message, live answer and history are emptied.
    pub open spec fn clear(self) -> ChatModel {
        ChatModel { post: seq![], response: seq![], messages: seq![], ..self }
    }

    /// The state after `ev`.
    pub open spec fn step(self, ev: ChatEvent) -> ChatModel {
        match ev {
            ChatEvent::Input(t) => ChatModel { post: t, ..self },
            ChatEvent::Send => self.send(),
            ChatEvent::Key(k, shift) => self.key(k, shift),
            ChatEvent::Chunk(p) => self.chunk(p),
            ChatEvent::Stopped => self.stopped(),
            ChatEvent::Select(name) => ChatModel { selected: name, ..self },
            ChatEvent::Tab(t) => ChatModel { tab: t, ..self },
            ChatEvent::Clear => self.clear(),
        }
    }

    /// The state after the pieces `pieces`, in order.
    pub open spec fn chunks(self, pieces: Seq<Seq<char>>) -> ChatModel
        decreases pieces.len(),
    {
        if pieces.len() == 0 {
            self
        } else {
            self.chunks(pieces.drop_last()).chunk(pieces.last())
        }
    }
}

/// What a key press in the message box leads to.
pub struct KeyOutcome {
    /// The key's default action (a line break) is suppressed.
    pub prevent_default: bool,
    /// The command that goes out, if the key sent the message.
    pub command: Option<Command>,
}

/// The chat panel.
pub struct ChatPanel {
    pub post: String,
    pub response: String,
    pub loading: bool,
    pub picker: ModelPicker,
    pub tab: OutputTab,
    pub messages: Vec<ChatMessage>,
}

impl View for ChatPanel {
    type V = ChatModel;

    open spec fn view(&self) -> ChatModel {
        ChatModel {
            post: self.post@,
            response: self.response@,
            loading: self.loading,
            models: self.picker.models@,
            selected: self.picker.selected@,
            tab: self.tab,
            messages: history(self.messages@),
        }
    }
}

impl ChatPanel {
    /// An empty conversation showing rendered answers, and the command that
    /// fetches the model list.
    pub fn open() -> (r: (ChatPanel, Command))
        ensures
            r.0@ == (ChatModel {
                post: seq![],
                response: seq![],
                loading: false,
                models: seq![],
                selected: seq![],
                tab: OutputTab::Rendered,
                messages: seq![],
            }),
            r.1 is ListModels,
    {
        let p = ChatPanel {
            post: String::new(),
            response: String::new(),
            loading: false,
            picker: ModelPicker::new(),
            tab: OutputTab::Rendered,
            messages: Vec::new(),
        };
        assert(p@.models =~= seq![]);
        assert(p@.selected =~= seq![]);
        assert(p@.post =~= seq![]);
        assert(p@.response =~= seq![]);
        assert(p@.messages =~= seq![]);
        (p, Command::ListModels)
    }

    /// The user edited the message.
    pub fn input(&mut self, text: String)
        ensures
            final(self)@ == old(self)@.step(ChatEvent::Input(text@)),
    {
        self.post = text;
    }

    /// The user pressed "Send". Without a message or a chosen model nothing
    /// happens; otherwise the message enters the history and goes to the
    /// chosen model.
    pub fn send(&mut self) -> (c: Option<Command>)
        ensures
            final(self)@ == old(self)@.step(ChatEvent::Send),
            c is Some <==> old(self)@.can_send(),
            c matches Some(cmd) ==> is_stream_request(cmd, old(self)@.post, old(self)@.selected),
    {
        if self.post.as_str().is_empty() || self.picker.selected.as_str().is_empty() {
            return None;
        }
        let ghost before = self.messages@;
        let content = self.post.clone();
        self.messages.push(ChatMessage { role: Role::User, content: self.post.clone() });
        assert(history(self.messages@) =~= history(before).push(
            MessageView { role: Role::User, content: content@ },
        ));
        self.post = String::new();
        self.response = String::new();
        self.loading = true;
        Some(Command::StreamModel { content, model: self.picker.selected.clone() })
    }

    /// A key went down in the message box. Enter without Shift does not
    /// break the line; it sends the message unless the panel is waiting.
    pub fn on_key(&mut self, key: &str, shift: bool) -> (o: KeyOutcome)
        ensures
            final(self)@ == old(self)@.step(ChatEvent::Key(key@, shift)),
            o.prevent_default == (key@ == "Enter"@ && !shift),
            o.command is Some <==> (key@ == "Enter"@ && !shift && !old(self)@.loading
                && old(self)@.can_send()),
            o.command matches Some(cmd) ==> is_stream_request(
                cmd,
                old(self)@.post,
                old(self)@.selected,
            ),
            o.command is Some ==> final(self)@.messages == old(self)@.messages.push(
                MessageView { role: Role::User, content: old(self)@.post },
            ),
    {
        if same_text(key, "Enter") && !shift {
            let command = if !self.loading {
                self.send()
            } else {
                None
            };
            KeyOutcome { prevent_default: true, command }
        } else {
            KeyOutcome { prevent_default: false, command: None }
        }
    }

    /// A piece of the answer arrived: it is added to the live answer.
    pub fn on_chunk(&mut self, piece: &str)
        ensures
            final(self)@ == old(self)@.step(ChatEvent::Chunk(piece@)),
    {
        self.response.append(piece);
    }

    /// The stream was cancelled, or the stream command returned: the panel
    /// stops waiting, and a non-empty live answer enters the history.
    pub fn on_stopped(&mut self)
        ensures
            final(self)@ == old(self)@.step(ChatEvent::Stopped),
    {
        if self.loading {
            self.loading = false;
            if !self.response.as_str().is_empty() {
                let ghost before = self.messages@;
                let ghost answer = self.response@;
                self.messages.push(ChatMessage { role: Role::Assistant, content: self.response.clone() });
                assert(history(self.messages@) =~= history(before).push(
                    MessageView { role: Role::Assistant, content: answer },
                ));
                self.response = String::new();
            }
        }
    }

    /// The user pressed "Stop": the stop command goes out; the panel changes
    /// when the cancellation is announced.
    pub fn stop(&self) -> (c: Command)
        ensures
            c is StopStream,
    {
        Command::StopStream
    }

    /// The user pressed "Clear": message, live answer and history are
    /// emptied.
    pub fn clear(&mut self)
        ensures
            final(self)@ == old(self)@.step(ChatEvent::Clear),
    {
        self.post = String::new();
        self.response = String::new();
        self.messages = Vec::new();
        assert(history(self.messages@) =~= seq![]);
    }

    /// The user chose a model.
    pub fn select(&mut self, name: String)
        ensures
            final(self)@ == old(self)@.step(ChatEvent::Select(name@)),
            final(self).picker.selected == name,
    {
        self.picker.select(name);
    }

    /// The user chose how answers are shown.
    pub fn select_tab(&mut self, tab: OutputTab)
        ensures
            final(self)@ == old(self)@.step(ChatEvent::Tab(tab)),
            final(self).tab == tab,
    {
        self.tab = tab;
    }

    /// The model list arrived.
    pub fn on_models_loaded(&mut self, loaded: Option<Vec<ModelData>>)
        ensures
            loaded is None ==> final(self)@ == old(self)@,
            loaded matches Some(list) ==> final(self)@ == (ChatModel {
                models: list@,
                selected: if list@.len() > 0 {
                    list@[0].name@
                } else {
                    old(self)@.selected
                },
                ..old(self)@
            }),
    {
        self.picker.on_models_loaded(loaded);
    }

    /// The style of a tab's button: underlined while it is the chosen one.
    pub fn tab_class(&self, tab: OutputTab) -> (c: &'static str)
        ensures
            c@ == (if self.tab == tab {
                "px-4 py-2 border-b-2 border-blue-500 font-medium"@
            } else {
                "px-4 py-2 text-gray-500"@
            }),
    {
        if self.tab == tab {
            "px-4 py-2 border-b-2 border-blue-500 font-medium"
        } else {
            "px-4 py-2 text-gray-500"
        }
    }
}

/// The style of a message's bubble: the user's on the right in blue, the
/// model's on the left.
pub fn bubble_class(role: Role) -> (c: &'static str)
    ensures
        c@ == (if role == Role::User {
            "ml-auto max-w-[80%] bg-blue-500 text-white rounded-lg px-4 py-2 whitespace-pre-wrap"@
        } else {
            "mr-auto max-w-[80%] bg-white dark:bg-gray-700 rounded-lg px-4 py-2 relative group"@
        }),
{
    match role {
        Role::User => "ml-auto max-w-[80%] bg-blue-500 text-white rounded-lg px-4 py-2 whitespace-pre-wrap",
        Role::Assistant => "mr-auto max-w-[80%] bg-white dark:bg-gray-700 rounded-lg px-4 py-2 relative group",
    }
}

/// The label of a copy button.
pub fn copy_label(copied: bool) -> (l: &'static str)
    ensures
        l@ == (if copied {
            "Copied!"@
        } else {
            "Copy"@
        }),
{
    if copied {
        "Copied!"
    } else {
        "Copy"
    }
}

/// How a model's message is shown.
pub enum AssistantBody {
    /// HTML rendered from the message's Markdown.
    Html(String),
    /// The Markdown source itself.
    Source(String),
}

/// A model's message as the chosen tab shows it: rendered to HTML, or as its
/// Markdown source.
pub fn assistant_body(tab: OutputTab, renderer: &MarkdownRenderer, content: &str) -> (b: AssistantBody)
    ensures
        tab == OutputTab::Rendered ==> (b matches AssistantBody::Html(h) && h@ == comrak_html(
            content@,
            true,
            true,
            true,
            true,
            renderer.theme(),
        )),
        tab == OutputTab::Markdown ==> (b matches AssistantBody::Source(t) && t@ == content@),
{
    match tab {
        OutputTab::Rendered => AssistantBody::Html(render_markdown(renderer, content)),
        OutputTab::Markdown => AssistantBody::Source(String::from_str(content)),
    }
}

/// An exchange: when a message is sent, answered in pieces and the stream
/// stops, the history has gained the message and, unless the answer is
/// empty, the whole answer as the model's message; the panel no longer waits
/// and the message box and live answer are empty.
pub proof fn lemma_exchange_recorded(m: ChatModel, pieces: Seq<Seq<char>>)
    requires
        m.can_send(),
    ensures
        ({
            let after = m.send().chunks(pieces).stopped();
            let user = MessageView { role: Role::User, content: m.post };
            let answer = MessageView { role: Role::Assistant, content: concat_all(pieces) };
            &&& after.messages == (if concat_all(pieces).len() > 0 {
                m.messages.push(user).push(answer)
            } else {
                m.messages.push(user)
            })
            &&& !after.loading
            &&& after.post.len() == 0
            &&& after.response.len() == 0
            &&& after.selected == m.selected
        }),
{
    lemma_chunks_keep(m.send(), pieces);
}

proof fn lemma_chunks_keep(m: ChatModel, pieces: Seq<Seq<char>>)
    ensures
        m.chunks(pieces) == (ChatModel { response: m.response + concat_all(pieces), ..m }),
    decreases pieces.len(),
{
    if pieces.len() > 0 {
        lemma_chunks_keep(m, pieces.drop_last());
        assert(m.response + concat_all(pieces.drop_last()) + pieces.last() =~= m.response
            + concat_all(pieces));
    } else {
        assert(m.response + concat_all(pieces) =~= m.response);
    }
}

/// Enter without Shift, while the panel is not waiting, does what "Send"
/// does: with a message and a chosen model, the message enters the history as
/// the user's, the message box and live answer are emptied, and the panel
/// waits.
pub proof fn lemma_enter_sends(m: ChatModel)
    requires
        !m.loading,
    ensures
        m.step(ChatEvent::Key("Enter"@, false)) == m.step(ChatEvent::Send),
        m.can_send() ==> {
            let n = m.step(ChatEvent::Key("Enter"@, false));
            &&& n.messages == m.messages.push(MessageView { role: Role::User, content: m.post })
            &&& n.post.len() == 0
            &&& n.response.len() == 0
            &&& n.loading
            &&& n.selected == m.selected
        },
{
}

/// Choosing a model makes it the chosen one, whatever was chosen before, and
/// changes nothing else.
pub proof fn lemma_select_chooses(m: ChatModel, name: Seq<char>)
    ensures
        ({
            let n = m.step(ChatEvent::Select(name));
            &&& n.selected == name
            &&& n.post == m.post
            &&& n.response == m.response
            &&& n.loading == m.loading
            &&& n.models == m.models
            &&& n.tab == m.tab
            &&& n.messages == m.messages
        }),
{
}

/// Choosing a tab makes it the shown one, for either tab and from either
/// tab, and changes nothing else.
pub proof fn lemma_tab_chosen(m: ChatModel, t: OutputTab)
    ensures
        ({
            let n = m.step(ChatEvent::Tab(t));
            &&& n.tab == t
            &&& n.post == m.post
            &&& n.response == m.response
            &&& n.loading == m.loading
            &&& n.models == m.models
            &&& n.selected == m.selected
            &&& n.messages == m.messages
        }),
        m.step(ChatEvent::Tab(OutputTab::Markdown)).step(ChatEvent::Tab(OutputTab::Rendered)).tab
            == OutputTab::Rendered,
{
}

/// The history only grows: every event but "Clear" keeps the history as a
/// prefix of the new one.
pub proof fn lemma_history_only_grows(m: ChatModel, ev: ChatEvent)
    requires
        !(ev is Clear),
    ensures
        m.messages.is_prefix_of(m.step(ev).messages),
{
    let n = m.step(ev);
    assert(m.messages =~= n.messages.subrange(0, m.messages.len() as int));
}

/// "Clear" empties the conversation.
pub proof fn lemma_clear_empties(m: ChatModel)
    ensures
        m.step(ChatEvent::Clear).messages.len() == 0,
        m.step(ChatEvent::Clear).post.len() == 0,
        m.step(ChatEvent::Clear).response.len() == 0,
{
}

} // verus!

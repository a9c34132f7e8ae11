//! The question panel and the streaming panel of the window: what each user
//! action and each reply does to what the panel shows, and which command it
//! sends to the desktop shell.
use vstd::prelude::*;
use crate::models::{ModelData, ModelPicker};
use crate::text::{replace_all, replace_str};

verus! {

/// A command sent from the window to the desktop shell.
pub enum Command {
    /// `"list_models"`: ask for the model list.
    ListModels,
    /// `"ask_ai_model"`: ask one model one question and wait for the answer.
    AskModel { content: String, model: String },
    /// `"stream_ai_model"`: ask one model and receive the answer as a stream
    /// of window events.
    StreamModel { content: String, model: String },
    /// `"stop_stream"`: stop the running stream.
    StopStream,
}

/// The name under which the desktop shell knows a command.
pub open spec fn command_name(c: Command) -> Seq<char> {
    match c {
        Command::ListModels => "list_models"@,
        Command::AskModel { .. } => "ask_ai_model"@,
        Command::StreamModel { .. } => "stream_ai_model"@,
        Command::StopStream => "stop_stream"@,
    }
}

impl Command {
    /// The name under which the desktop shell knows the command.
    pub fn name(&self) -> (n: &'static str)
        ensures
            n@ == command_name(*self),
    {
        match self {
            Command::ListModels => "list_models",
            Command::AskModel { .. } => "ask_ai_model",
            Command::StreamModel { .. } => "stream_ai_model",
            Command::StopStream => "stop_stream",
        }
    }
}

/// Whether `c` asks `model` about `content` through the streaming command.
pub open spec fn is_stream_request(c: Command, content: Seq<char>, model: Seq<char>) -> bool {
    c matches Command::StreamModel { content: c_content, model: c_model } && c_content@ == content
        && c_model@ == model
}

/// Whether `c` asks `model` about `content` through the one-shot command.
pub open spec fn is_ask_request(c: Command, content: Seq<char>, model: Seq<char>) -> bool {
    c matches Command::AskModel { content: c_content, model: c_model } && c_content@ == content
        && c_model@ == model
}

/// The markup that opens a thinking section of a response.
pub open spec fn think_open_markup() -> Seq<char> {
    "<think><span class=\"italic text-sm\">"@
}

/// A response as the panels show it: line breaks become `<br>`, and the text
/// of a thinking section is set in small italics.
pub open spec fn response_html_of(r: Seq<char>) -> Seq<char> {
    replace_all(
        replace_all(replace_all(r, "\n"@, "<br>"@), "<think>"@, think_open_markup()),
        "</think>"@,
        "</span></think>"@,
    )
}

/// A response as the panels show it: line breaks become `<br>`, and the text
/// of a thinking section is set in small italics.
pub fn response_html(response: &str) -> (h: String)
    ensures
        h@ == response_html_of(response@),
{
    proof {
        reveal_strlit("\n");
        reveal_strlit("<think>");
        reveal_strlit("</think>");
    }
    let a = replace_str(response, "\n", "<br>");
    let b = replace_str(a.as_str(), "<think>", "<think><span class=\"italic text-sm\">");
    replace_str(b.as_str(), "</think>", "</span></think>")
}

/// The panel that asks a model one question and shows the whole answer.
pub struct AskPanel {
    pub post: String,
    pub response: String,
    pub loading: bool,
    pub picker: ModelPicker,
}

impl AskPanel {
    /// An empty panel, and the command that fetches the model list.
    pub fn open() -> (r: (AskPanel, Command))
        ensures
            r.0.post@.len() == 0,
            r.0.response@.len() == 0,
            !r.0.loading,
            r.0.picker.models@.len() == 0,
            r.0.picker.selected@.len() == 0,
            r.1 is ListModels,
    {
        (
            AskPanel {
                post: String::new(),
                response: String::new(),
                loading: false,
                picker: ModelPicker::new(),
            },
            Command::ListModels,
        )
    }

    /// The user edited the question.
    pub fn input(&mut self, text: String)
        ensures
            final(self).post == text,
            final(self).response == old(self).response,
            final(self).loading == old(self).loading,
            final(self).picker == old(self).picker,
    {
        self.post = text;
    }

    /// The user pressed "Ask AI". Without a question or a chosen model
    /// nothing happens; otherwise the panel waits, and the question goes to
    /// the chosen model.
    pub fn ask(&mut self) -> (c: Option<Command>)
        ensures
            (old(self).post@.len() == 0 || old(self).picker.selected@.len() == 0) ==> c is None
                && *final(self) == *old(self),
            (old(self).post@.len() > 0 && old(self).picker.selected@.len() > 0) ==> {
                &&& c matches Some(cmd)
                &&& is_ask_request(cmd, old(self).post@, old(self).picker.selected@)
                &&& final(self).loading
                &&& final(self).post == old(self).post
                &&& final(self).response == old(self).response
                &&& final(self).picker == old(self).picker
            },
    {
        if self.post.as_str().is_empty() || self.picker.selected.as_str().is_empty() {
            return None;
        }
        self.loading = true;
        Some(Command::AskModel { content: self.post.clone(), model: self.picker.selected.clone() })
    }

    /// The answer arrived (`None`: the reply was not text). A text answer is
    /// shown; the panel stops waiting either way.
    pub fn on_reply(&mut self, reply: Option<String>)
        ensures
            !final(self).loading,
            final(self).post == old(self).post,
            final(self).picker == old(self).picker,
            reply matches Some(text) ==> final(self).response == text,
            reply is None ==> final(self).response == old(self).response,
    {
        if let Some(text) = reply {
            self.response = text;
        }
        self.loading = false;
    }

    /// The user pressed "Clear": question and answer are emptied.
    pub fn clear(&mut self)
        ensures
            final(self).post@.len() == 0,
            final(self).response@.len() == 0,
            final(self).loading == old(self).loading,
            final(self).picker == old(self).picker,
    {
        self.post = String::new();
        self.response = String::new();
    }

    /// The label of the ask button.
    pub fn button_label(&self) -> (l: &'static str)
        ensures
            l@ == (if self.loading {
                "Loading..."@
            } else {
                "Ask AI"@
            }),
    {
        if self.loading {
            "Loading..."
        } else {
            "Ask AI"
        }
    }
}

/// The abstract state of the streaming panel.
pub struct StreamPanelModel {
    pub post: Seq<char>,
    pub response: Seq<char>,
    pub loading: bool,
    pub models: Seq<ModelData>,
    pub selected: Seq<char>,
}

/// All pieces, one after the other.
pub open spec fn concat_all(pieces: Seq<Seq<char>>) -> Seq<char>
    decreases pieces.len(),
{
    if pieces.len() == 0 {
        seq![]
    } else {
        concat_all(pieces.drop_last()) + pieces.last()
    }
}

impl StreamPanelModel {
    /// A stream can be started: there is a question and a chosen model.
    pub open spec fn can_start(self) -> bool {
        self.post.len() > 0 && self.selected.len() > 0
    }

    /// "Start Stream": the answer area is emptied and the panel waits.
    pub open spec fn start(self) -> StreamPanelModel {
        if self.can_start() {
            StreamPanelModel { response: seq![], loading: true, ..self }
        } else {
            self
        }
    }

    /// A piece of the answer arrived.
    pub open spec fn chunk(self, piece: Seq<char>) -> StreamPanelModel {
        StreamPanelModel { response: self.response + piece, ..self }
    }

    /// The stream was cancelled, or the stream command returned.
    pub open spec fn stopped(self) -> StreamPanelModel {
        StreamPanelModel { loading: false, ..self }
    }

    /// "Clear": question and answer are emptied.
    pub open spec fn clear(self) -> StreamPanelModel {
        StreamPanelModel { post: seq![], response: seq![], ..self }
    }

    /// The state after the pieces `pieces`, in order.
    pub open spec fn chunks(self, pieces: Seq<Seq<char>>) -> StreamPanelModel
        decreases pieces.len(),
    {
        if pieces.len() == 0 {
            self
        } else {
            self.chunks(pieces.drop_last()).chunk(pieces.last())
        }
    }
}

/// The panel that streams a model's answer as it is produced.
pub struct StreamPanel {
    pub post: String,
    pub response: String,
    pub loading: bool,
    pub picker: ModelPicker,
}

impl View for StreamPanel {
    type V = StreamPanelModel;

    open spec fn view(&self) -> StreamPanelModel {
        StreamPanelModel {
            post: self.post@,
            response: self.response@,
            loading: self.loading,
            models: self.picker.models@,
            selected: self.picker.selected@,
        }
    }
}

impl StreamPanel {
    /// An empty panel, and the command that fetches the model list.
    pub fn open() -> (r: (StreamPanel, Command))
        ensures
            r.0@ == (StreamPanelModel {
                post: seq![],
                response: seq![],
                loading: false,
                models: seq![],
                selected: seq![],
            }),
            r.1 is ListModels,
    {
        let p = StreamPanel {
            post: String::new(),
            response: String::new(),
            loading: false,
            picker: ModelPicker::new(),
        };
        assert(p@.models =~= seq![]);
        assert(p@.selected =~= seq![]);
        assert(p@.post =~= seq![]);
        assert(p@.response =~= seq![]);
        (p, Command::ListModels)
    }

    /// The user edited the question.
    pub fn input(&mut self, text: String)
        ensures
            final(self)@ == (StreamPanelModel { post: text@, ..old(self)@ }),
    {
        self.post = text;
    }

    /// The user pressed "Start Stream". Without a question or a chosen model
    /// nothing happens; otherwise the answer area is emptied, the panel waits,
    /// and the question goes to the chosen model. The question stays.
    pub fn start(&mut self) -> (c: Option<Command>)
        ensures
            final(self)@ == old(self)@.start(),
            c is Some <==> old(self)@.can_start(),
            c matches Some(cmd) ==> is_stream_request(cmd, old(self)@.post, old(self)@.selected),
    {
        if self.post.as_str().is_empty() || self.picker.selected.as_str().is_empty() {
            return None;
        }
        self.response = String::new();
        self.loading = true;
        Some(
            Command::StreamModel {
                content: self.post.clone(),
                model: self.picker.selected.clone(),
            },
        )
    }

    /// A piece of the answer arrived: it is added to the answer.
    pub fn on_chunk(&mut self, piece: &str)
        ensures
            final(self)@ == old(self)@.chunk(piece@),
    {
        self.response.append(piece);
    }

    /// The stream was cancelled, or the stream command returned: the panel
    /// stops waiting.
    pub fn on_stopped(&mut self)
        ensures
            final(self)@ == old(self)@.stopped(),
    {
        self.loading = false;
    }

    /// The user pressed "Stop": the stop command goes out; the panel changes
    /// when the cancellation is announced.
    pub fn stop(&self) -> (c: Command)
        ensures
            c is StopStream,
    {
        Command::StopStream
    }

    /// The user pressed "Clear": question and answer are emptied.
    pub fn clear(&mut self)
        ensures
            final(self)@ == old(self)@.clear(),
    {
        self.post = String::new();
        self.response = String::new();
    }

    /// The model list arrived.
    pub fn on_models_loaded(&mut self, loaded: Option<Vec<ModelData>>)
        ensures
            final(self).post == old(self).post,
            final(self).response == old(self).response,
            final(self).loading == old(self).loading,
            loaded is None ==> final(self)@ == old(self)@,
            loaded matches Some(list) ==> final(self)@ == (StreamPanelModel {
                models: list@,
                selected: if list@.len() > 0 {
                    list@[0].name@
                } else {
                    old(self)@.selected
                },
                ..old(self)@
            }),
    {
        self.picker.on_models_loaded(loaded);
    }

    /// The user chose a model.
    pub fn select(&mut self, name: String)
        ensures
            final(self)@ == (StreamPanelModel { selected: name@, ..old(self)@ }),
    {
        self.picker.select(name);
    }

    /// The start button can be pressed only while no stream runs; the stop
    /// button shows only while one runs.
    pub fn start_enabled(&self) -> (b: bool)
        ensures
            b == !self.loading,
    {
        !self.loading
    }
}

/// A stream shows the whole answer: after a start, the answer area holds the
/// pieces that arrived, one after the other, and stays when the stream stops.
pub proof fn lemma_stream_panel_shows_whole_answer(m: StreamPanelModel, pieces: Seq<Seq<char>>)
    requires
        m.can_start(),
    ensures
        m.start().chunks(pieces).response == concat_all(pieces),
        m.start().chunks(pieces).loading,
        m.start().chunks(pieces).stopped().response == concat_all(pieces),
        !m.start().chunks(pieces).stopped().loading,
        m.start().chunks(pieces).stopped().post == m.post,
    decreases pieces.len(),
{
    if pieces.len() > 0 {
        lemma_stream_panel_shows_whole_answer(m, pieces.drop_last());
    }
}

} // verus!

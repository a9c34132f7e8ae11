//! The relay of a streamed generation to the window.
//!
//! A stream command opens a streamed generation on the Ollama server and
//! forwards every piece of text it produces to the window as an event. The
//! decisions of that loop stand here as a state machine: the caller performs
//! the action that [`StreamSession::next_action`] names (install the
//! cancellation token, open the stream, wait for the next chunk, emit an event,
//! clear the token, finish) and hands back what happened as a [`StreamEvent`].
use vstd::prelude::*;
use crate::backend::GenerationParams;

verus! {

/// Which stream command a session serves.
#[derive(Clone, Copy, Debug, PartialEq, Eq, Structural)]
pub enum StreamMode {
    /// The chat stream: it can be stopped, announces its end and its
    /// cancellation, and keeps a cancellation token while it runs.
    Cancellable,
    /// The thinking stream: it only relays text.
    Plain,
}

/// One response in a chunk of the stream: its text and whether the server
/// marked it as the last one.
pub struct StreamPiece {
    pub text: String,
    pub done: bool,
}

/// An event sent to the window.
pub enum Emission {
    /// `"ai-stream"`, with a piece of the response as payload.
    Text(String),
    /// `"ai-stream-done"`, without payload.
    Done,
    /// `"ai-stream-cancelled"`, without payload.
    Cancelled,
}

/// The window event's name of an emission.
pub open spec fn emission_name(e: Emission) -> Seq<char> {
    match e {
        Emission::Text(_) => "ai-stream"@,
        Emission::Done => "ai-stream-done"@,
        Emission::Cancelled => "ai-stream-cancelled"@,
    }
}

impl Emission {
    /// The name of the window event.
    pub fn event_name(&self) -> (n: &'static str)
        ensures
            n@ == emission_name(*self),
    {
        match self {
            Emission::Text(_) => "ai-stream",
            Emission::Done => "ai-stream-done",
            Emission::Cancelled => "ai-stream-cancelled",
        }
    }

    /// An identical copy.
    pub fn duplicate(&self) -> (e: Emission)
        ensures
            e == *self,
    {
        match self {
            Emission::Text(t) => Emission::Text(t.clone()),
            Emission::Done => Emission::Done,
            Emission::Cancelled => Emission::Cancelled,
        }
    }
}

/// What happened since the last action.
pub enum StreamEvent {
    /// The cancellation token is stored where the stop command finds it.
    TokenInstalled,
    /// The stream is open.
    Opened,
    /// The stream could not be opened, with the error's message.
    OpenFailed(String),
    /// The stop command cancelled the token.
    Cancelled,
    /// A chunk of responses arrived.
    Chunk(Vec<StreamPiece>),
    /// The stream delivered an error, with its message.
    ChunkFailed(String),
    /// The stream has no more chunks.
    Ended,
    /// The last emission reached the window.
    Emitted,
    /// The last emission failed, with the error's message.
    EmitFailed(String),
    /// The cancellation token is removed.
    TokenCleared,
}

/// What the caller is to do next.
pub enum StreamAction {
    /// Create a cancellation token and store it for the stop command.
    InstallToken,
    /// Open a streamed generation with these parameters.
    Open(GenerationParams),
    /// Wait for the next chunk; when `cancellable`, wait for the token's
    /// cancellation at the same time.
    AwaitNext { cancellable: bool },
    /// Send this event to the window.
    Emit(Emission),
    /// Remove the cancellation token.
    ClearToken,
    /// The command returns this.
    Finish(Result<(), String>),
}

/// Where a session stands.
#[derive(Clone, Copy, Debug, PartialEq, Eq, Structural)]
pub enum Phase {
    InstallToken,
    Open,
    Listen,
    Emit,
    ClearToken,
    Finished,
}

/// The abstract state of a session.
pub struct StreamModel {
    pub mode: StreamMode,
    pub request: GenerationParams,
    pub phase: Phase,
    pub pending: Seq<Emission>,
    pub wrap_up: bool,
    pub outcome: Result<(), String>,
}

/// The emissions that relay a chunk: for each piece, in order, its text, and
/// in the cancellable mode a `Done` after each piece marked as the last.
pub open spec fn piece_emissions(ps: Seq<StreamPiece>, mode: StreamMode) -> Seq<Emission>
    decreases ps.len(),
{
    if ps.len() == 0 {
        seq![]
    } else {
        let last = ps.last();
        piece_emissions(ps.drop_last(), mode) + seq![Emission::Text(last.text)] + (
        if mode == StreamMode::Cancellable && last.done {
            seq![Emission::Done]
        } else {
            seq![]
        })
    }
}

impl StreamModel {
    /// Pending emissions exist exactly while emitting; the wrap-up mark only
    /// while emitting.
    pub open spec fn wf(self) -> bool {
        &&& (self.phase == Phase::Emit) == (self.pending.len() > 0)
        &&& self.phase != Phase::Emit ==> !self.wrap_up
    }

    /// The session ended with this outcome.
    pub open spec fn finish(self, outcome: Result<(), String>) -> StreamModel {
        StreamModel { phase: Phase::Finished, pending: seq![], wrap_up: false, outcome, ..self }
    }

    /// Emit `pending`, then listen again or, with `wrap_up`, end the session.
    pub open spec fn emit(self, pending: Seq<Emission>, wrap_up: bool) -> StreamModel {
        StreamModel { phase: Phase::Emit, pending, wrap_up, ..self }
    }

    /// What follows a successful emission.
    pub open spec fn after_emitted(self) -> StreamModel {
        let rest = self.pending.drop_first();
        if rest.len() > 0 {
            StreamModel { pending: rest, ..self }
        } else if !self.wrap_up {
            StreamModel { phase: Phase::Listen, pending: rest, wrap_up: false, ..self }
        } else if self.mode == StreamMode::Cancellable {
            StreamModel { phase: Phase::ClearToken, pending: rest, wrap_up: false, ..self }
        } else {
            self.finish(Ok(()))
        }
    }

    /// The state after `ev`. An event that the phase does not wait for
    /// changes nothing.
    pub open spec fn step(self, ev: StreamEvent) -> StreamModel {
        match self.phase {
            Phase::InstallToken => match ev {
                StreamEvent::TokenInstalled => StreamModel { phase: Phase::Open, ..self },
                _ => self,
            },
            Phase::Open => match ev {
                StreamEvent::Opened => StreamModel { phase: Phase::Listen, ..self },
                StreamEvent::OpenFailed(m) => self.finish(Err(m)),
                _ => self,
            },
            Phase::Listen => match ev {
                StreamEvent::Cancelled => if self.mode == StreamMode::Cancellable {
                    self.emit(seq![Emission::Cancelled], true)
                } else {
                    self
                },
                StreamEvent::Chunk(ps) => {
                    let em = piece_emissions(ps@, self.mode);
                    if em.len() > 0 {
                        self.emit(em, false)
                    } else {
                        self
                    }
                },
                StreamEvent::ChunkFailed(m) => self.finish(Err(m)),
                StreamEvent::Ended => if self.mode == StreamMode::Cancellable {
                    self.emit(seq![Emission::Done], true)
                } else {
                    self.finish(Ok(()))
                },
                _ => self,
            },
            Phase::Emit => match ev {
                StreamEvent::Emitted => self.after_emitted(),
                StreamEvent::EmitFailed(m) => self.finish(Err(m)),
                _ => self,
            },
            Phase::ClearToken => match ev {
                StreamEvent::TokenCleared => self.finish(Ok(())),
                _ => self,
            },
            Phase::Finished => self,
        }
    }

    /// The action that the state asks for.
    pub open spec fn action(self) -> StreamAction {
        match self.phase {
            Phase::InstallToken => StreamAction::InstallToken,
            Phase::Open => StreamAction::Open(self.request),
            Phase::Listen => StreamAction::AwaitNext {
                cancellable: self.mode == StreamMode::Cancellable,
            },
            Phase::Emit => StreamAction::Emit(self.pending[0]),
            Phase::ClearToken => StreamAction::ClearToken,
            Phase::Finished => StreamAction::Finish(self.outcome),
        }
    }
}

/// A running stream command.
pub struct StreamSession {
    pub mode: StreamMode,
    pub request: GenerationParams,
    pub phase: Phase,
    pub pending: Vec<Emission>,
    pub wrap_up: bool,
    pub outcome: Result<(), String>,
}

impl View for StreamSession {
    type V = StreamModel;

    open spec fn view(&self) -> StreamModel {
        StreamModel {
            mode: self.mode,
            request: self.request,
            phase: self.phase,
            pending: self.pending@,
            wrap_up: self.wrap_up,
            outcome: self.outcome,
        }
    }
}

fn duplicate_outcome(o: &Result<(), String>) -> (r: Result<(), String>)
    ensures
        r == *o,
{
    match o {
        Ok(u) => Ok(*u),
        Err(e) => Err(e.clone()),
    }
}

fn relay_chunk(pieces: &Vec<StreamPiece>, mode: StreamMode) -> (em: Vec<Emission>)
    ensures
        em@ == piece_emissions(pieces@, mode),
{
    let mut em: Vec<Emission> = Vec::new();
    let mut i: usize = 0;
    while i < pieces.len()
        invariant
            i <= pieces.len(),
            em@ == piece_emissions(pieces@.take(i as int), mode),
        decreases pieces.len() - i,
    {
        let ghost before = em@;
        em.push(Emission::Text(pieces[i].text.clone()));
        if mode == StreamMode::Cancellable && pieces[i].done {
            em.push(Emission::Done);
        }
        assert(pieces@.take(i + 1).drop_last() =~= pieces@.take(i as int));
        assert(em@ =~= piece_emissions(pieces@.take(i + 1), mode));
        i = i + 1;
    }
    assert(pieces@.take(pieces@.len() as int) =~= pieces@);
    em
}

impl StreamSession {
    /// A session for a stream command: the chat stream starts by installing
    /// its cancellation token, the thinking stream by opening the stream.
    pub fn new(mode: StreamMode, request: GenerationParams) -> (s: StreamSession)
        ensures
            s@.wf(),
            s@.mode == mode,
            s@.request == request,
            s@.phase == (if mode == StreamMode::Cancellable {
                Phase::InstallToken
            } else {
                Phase::Open
            }),
    {
        let phase = match mode {
            StreamMode::Cancellable => Phase::InstallToken,
            StreamMode::Plain => Phase::Open,
        };
        StreamSession { mode, request, phase, pending: Vec::new(), wrap_up: false, outcome: Ok(()) }
    }

    /// What the caller is to do next.
    pub fn next_action(&self) -> (a: StreamAction)
        requires
            self@.wf(),
        ensures
            a == self@.action(),
            self.phase == Phase::Open ==> a == StreamAction::Open(self.request),
    {
        match self.phase {
            Phase::InstallToken => StreamAction::InstallToken,
            Phase::Open => StreamAction::Open(self.request.duplicate()),
            Phase::Listen => StreamAction::AwaitNext {
                cancellable: self.mode == StreamMode::Cancellable,
            },
            Phase::Emit => StreamAction::Emit(self.pending[0].duplicate()),
            Phase::ClearToken => StreamAction::ClearToken,
            Phase::Finished => StreamAction::Finish(duplicate_outcome(&self.outcome)),
        }
    }

    fn finish(&mut self, outcome: Result<(), String>)
        ensures
            final(self)@ == old(self)@.finish(outcome),
    {
        self.phase = Phase::Finished;
        self.pending = Vec::new();
        self.wrap_up = false;
        self.outcome = outcome;
    }

    /// Take in what happened.
    pub fn on_event(&mut self, ev: StreamEvent)
        requires
            old(self)@.wf(),
        ensures
            final(self)@ == old(self)@.step(ev),
            final(self)@.wf(),
    {
        match self.phase {
            Phase::InstallToken => {
                if let StreamEvent::TokenInstalled = ev {
                    self.phase = Phase::Open;
                }
            },
            Phase::Open => match ev {
                StreamEvent::Opened => {
                    self.phase = Phase::Listen;
                },
                StreamEvent::OpenFailed(m) => {
                    self.finish(Err(m));
                },
                _ => {},
            },
            Phase::Listen => match ev {
                StreamEvent::Cancelled => {
                    if self.mode == StreamMode::Cancellable {
                        let mut em: Vec<Emission> = Vec::new();
                        em.push(Emission::Cancelled);
                        self.pending = em;
                        self.phase = Phase::Emit;
                        self.wrap_up = true;
                    }
                },
                StreamEvent::Chunk(ps) => {
                    let em = relay_chunk(&ps, self.mode);
                    if em.len() > 0 {
                        self.pending = em;
                        self.phase = Phase::Emit;
                        self.wrap_up = false;
                    }
                },
                StreamEvent::ChunkFailed(m) => {
                    self.finish(Err(m));
                },
                StreamEvent::Ended => {
                    if self.mode == StreamMode::Cancellable {
                        let mut em: Vec<Emission> = Vec::new();
                        em.push(Emission::Done);
                        self.pending = em;
                        self.phase = Phase::Emit;
                        self.wrap_up = true;
                    } else {
                        self.finish(Ok(()));
                    }
                },
                _ => {},
            },
            Phase::Emit => match ev {
                StreamEvent::Emitted => {
                    self.pending.remove(0);
                    if self.pending.len() == 0 {
                        if !self.wrap_up {
                            self.phase = Phase::Listen;
                        } else if self.mode == StreamMode::Cancellable {
                            self.phase = Phase::ClearToken;
                            self.wrap_up = false;
                        } else {
                            self.finish(Ok(()));
                        }
                    }
                },
                StreamEvent::EmitFailed(m) => {
                    self.finish(Err(m));
                },
                _ => {},
            },
            Phase::ClearToken => {
                if let StreamEvent::TokenCleared = ev {
                    self.finish(Ok(()));
                }
            },
            Phase::Finished => {},
        }
    }
}


/// Where the running chat stream keeps its cancellation token for the stop
/// command.
pub struct CancelSlot<T> {
    pub token: Option<T>,
}

impl<T> CancelSlot<T> {
    /// No stream keeps a token.
    pub fn new() -> (s: CancelSlot<T>)
        ensures
            s.token is None,
    {
        CancelSlot { token: None }
    }

    /// A stream stores its token, replacing any earlier one.
    pub fn install(&mut self, token: T)
        ensures
            final(self).token == Some(token),
    {
        self.token = Some(token);
    }

    /// A stream removes its token.
    pub fn clear(&mut self)
        ensures
            final(self).token is None,
    {
        self.token = None;
    }

    /// The token that the stop command cancels, if a stream keeps one.
    pub fn to_cancel(&self) -> (t: Option<&T>)
        ensures
            t is Some <==> self.token is Some,
            t matches Some(r) ==> self.token == Some(*r),
    {
        match &self.token {
            Some(t) => Some(t),
            None => None,
        }
    }
}

/// How many pieces are marked as the last one.
pub open spec fn done_count(ps: Seq<StreamPiece>) -> nat
    decreases ps.len(),
{
    if ps.len() == 0 {
        0
    } else {
        done_count(ps.drop_last()) + if ps.last().done {
            1nat
        } else {
            0nat
        }
    }
}

/// How many `Done` emissions precede the text of piece `i`: in the
/// cancellable mode, one per earlier piece marked done; none otherwise.
pub open spec fn dones_before(ps: Seq<StreamPiece>, mode: StreamMode, i: int) -> nat {
    if mode == StreamMode::Cancellable {
        done_count(ps.take(i))
    } else {
        0
    }
}

proof fn lemma_dones_before_prefix(ps: Seq<StreamPiece>, mode: StreamMode, i: int)
    requires
        ps.len() > 0,
        0 <= i < ps.len(),
    ensures
        dones_before(ps, mode, i) == dones_before(ps.drop_last(), mode, i),
{
    assert(ps.take(i) =~= ps.drop_last().take(i));
}

proof fn lemma_dones_before_all(ps: Seq<StreamPiece>, mode: StreamMode)
    requires
        ps.len() > 0,
    ensures
        dones_before(ps, mode, ps.len() as int) == dones_before(
            ps.drop_last(),
            mode,
            ps.len() - 1,
        ) + (if mode == StreamMode::Cancellable && ps.last().done {
            1nat
        } else {
            0nat
        }),
{
    assert(ps.take(ps.len() as int) =~= ps);
    assert(ps.drop_last().take(ps.len() - 1) =~= ps.drop_last());
}

proof fn lemma_emissions_len(ps: Seq<StreamPiece>, mode: StreamMode)
    ensures
        piece_emissions(ps, mode).len() == ps.len() + dones_before(ps, mode, ps.len() as int),
    decreases ps.len(),
{
    if ps.len() > 0 {
        lemma_emissions_len(ps.drop_last(), mode);
        lemma_dones_before_all(ps, mode);
    } else {
        assert(ps.take(0) =~= ps);
    }
}

proof fn lemma_piece_position(ps: Seq<StreamPiece>, mode: StreamMode, i: int)
    requires
        0 <= i < ps.len(),
    ensures
        i + dones_before(ps, mode, i) < piece_emissions(ps, mode).len(),
        piece_emissions(ps, mode)[i + dones_before(ps, mode, i)] == Emission::Text(ps[i].text),
        (mode == StreamMode::Cancellable && ps[i].done) <==> (i + dones_before(ps, mode, i) + 1
            < piece_emissions(ps, mode).len() && piece_emissions(ps, mode)[i + dones_before(
            ps,
            mode,
            i,
        ) + 1] == Emission::Done),
    decreases ps.len(),
{
    let n = ps.len() - 1;
    let prev = ps.drop_last();
    let last = ps.last();
    let pem = piece_emissions(prev, mode);
    let tail: Seq<Emission> = seq![Emission::Text(last.text)] + (if mode
        == StreamMode::Cancellable && last.done {
        seq![Emission::Done]
    } else {
        seq![]
    });
    let em = piece_emissions(ps, mode);
    assert(em == pem + tail);
    lemma_emissions_len(prev, mode);
    if i < n {
        lemma_piece_position(prev, mode, i);
        lemma_dones_before_prefix(ps, mode, i);
        assert(ps[i] == prev[i]);
        let j = i + dones_before(prev, mode, i);
        assert(em[j] == pem[j]);
        if j + 1 < pem.len() {
            assert(em[j + 1] == pem[j + 1]);
        } else {
            assert(j + 1 == pem.len());
            assert(em[j + 1] == tail[0]);
        }
    } else {
        lemma_dones_before_prefix(ps, mode, n);
        assert(prev.take(n) =~= prev);
        assert(em[pem.len() as int] == tail[0]);
        if mode == StreamMode::Cancellable && last.done {
            assert(em[pem.len() + 1int] == tail[1]);
        }
    }
}

/// The layout of a relayed chunk: piece `i`'s text stands at position
/// `i` plus the number of `Done` emissions before it, a `Done` follows it
/// exactly when the mode is cancellable and the piece is marked done, and
/// nothing else is emitted.
pub proof fn lemma_chunk_layout(ps: Seq<StreamPiece>, mode: StreamMode)
    ensures
        piece_emissions(ps, mode).len() == ps.len() + dones_before(ps, mode, ps.len() as int),
        forall|i: int|
            #![trigger dones_before(ps, mode, i)]
            0 <= i < ps.len() ==> i + dones_before(ps, mode, i) < piece_emissions(ps, mode).len()
                && piece_emissions(ps, mode)[i + dones_before(ps, mode, i)] == Emission::Text(
                ps[i].text,
            ),
        forall|i: int|
            #![trigger dones_before(ps, mode, i)]
            0 <= i < ps.len() ==> ((mode == StreamMode::Cancellable && ps[i].done) <==> (i
                + dones_before(ps, mode, i) + 1 < piece_emissions(ps, mode).len()
                && piece_emissions(ps, mode)[i + dones_before(ps, mode, i) + 1]
                == Emission::Done)),
{
    lemma_emissions_len(ps, mode);
    let em = piece_emissions(ps, mode);
    assert forall|i: int| #![trigger dones_before(ps, mode, i)] 0 <= i < ps.len() implies i + dones_before(ps, mode, i)
        < em.len() && em[i + dones_before(ps, mode, i)] == Emission::Text(ps[i].text) by {
        lemma_piece_position(ps, mode, i);
    }
    assert forall|i: int| #![trigger dones_before(ps, mode, i)] 0 <= i < ps.len() implies ((mode
        == StreamMode::Cancellable && ps[i].done) <==> (i + dones_before(ps, mode, i) + 1
        < em.len() && em[i + dones_before(ps, mode, i) + 1] == Emission::Done)) by {
        lemma_piece_position(ps, mode, i);
    }
}

/// A chunk none of whose pieces is marked done yields no `Done`: the
/// emissions are the pieces' texts, in order.
pub proof fn lemma_undone_chunk_only_texts(ps: Seq<StreamPiece>, mode: StreamMode)
    requires
        forall|i: int| 0 <= i < ps.len() ==> !(#[trigger] ps[i]).done,
    ensures
        piece_emissions(ps, mode) == ps.map_values(|p: StreamPiece| Emission::Text(p.text)),
    decreases ps.len(),
{
    if ps.len() > 0 {
        let prev = ps.drop_last();
        assert forall|i: int| 0 <= i < prev.len() implies !(#[trigger] prev[i]).done by {
            assert(prev[i] == ps[i]);
        }
        lemma_undone_chunk_only_texts(prev, mode);
        assert(!ps[ps.len() - 1].done);
        assert(piece_emissions(ps, mode) =~= ps.map_values(
            |p: StreamPiece| Emission::Text(p.text),
        ));
    } else {
        assert(piece_emissions(ps, mode) =~= ps.map_values(
            |p: StreamPiece| Emission::Text(p.text),
        ));
    }
}

/// While the session is opening, in either mode, the action asked for is to
/// open the stream with exactly the session's request.
pub proof fn lemma_opening_uses_request(m: StreamModel)
    requires
        m.phase == Phase::Open,
    ensures
        m.action() == StreamAction::Open(m.request),
        m.action() matches StreamAction::Open(p) && p.model == m.request.model && p.prompt
            == m.request.prompt && p.think == m.request.think,
{
}

/// The state after the events `evs`, in order.
pub open spec fn run(m: StreamModel, evs: Seq<StreamEvent>) -> StreamModel
    decreases evs.len(),
{
    if evs.len() == 0 {
        m
    } else {
        run(m.step(evs[0]), evs.drop_first())
    }
}

/// The actions asked for along the events `evs`: the one before each event,
/// then the one after the last.
pub open spec fn trace(m: StreamModel, evs: Seq<StreamEvent>) -> Seq<StreamAction>
    decreases evs.len(),
{
    if evs.len() == 0 {
        seq![m.action()]
    } else {
        seq![m.action()] + trace(m.step(evs[0]), evs.drop_first())
    }
}

/// `n` successful emissions.
pub open spec fn emitted_events(n: nat) -> Seq<StreamEvent> {
    Seq::new(n, |i: int| StreamEvent::Emitted)
}

/// Each emission as the action that sends it.
pub open spec fn emit_actions(em: Seq<Emission>) -> Seq<StreamAction> {
    em.map_values(|e: Emission| StreamAction::Emit(e))
}

/// The message that a failure event carries.
pub open spec fn failure_message(ev: StreamEvent) -> String {
    match ev {
        StreamEvent::OpenFailed(m) => m,
        StreamEvent::ChunkFailed(m) => m,
        StreamEvent::EmitFailed(m) => m,
        _ => arbitrary(),
    }
}

/// A failure that the phase waits for: opening fails while opening, the
/// stream fails while listening, an emission fails while emitting.
pub open spec fn is_failure_in(ev: StreamEvent, phase: Phase) -> bool {
    match ev {
        StreamEvent::OpenFailed(_) => phase == Phase::Open,
        StreamEvent::ChunkFailed(_) => phase == Phase::Listen,
        StreamEvent::EmitFailed(_) => phase == Phase::Emit,
        _ => false,
    }
}

/// A finished session stays finished: whatever happens afterwards changes
/// nothing, and every action asked for is to return the same outcome.
pub proof fn lemma_finished_session_stays(m: StreamModel, evs: Seq<StreamEvent>)
    requires
        m.phase == Phase::Finished,
    ensures
        run(m, evs) == m,
        trace(m, evs).len() == evs.len() + 1,
        forall|i: int|
            0 <= i < trace(m, evs).len() ==> #[trigger] trace(m, evs)[i] == StreamAction::Finish(
                m.outcome,
            ),
    decreases evs.len(),
{
    if evs.len() > 0 {
        lemma_finished_session_stays(m, evs.drop_first());
        assert forall|i: int| 0 <= i < trace(m, evs).len() implies #[trigger] trace(m, evs)[i]
            == StreamAction::Finish(m.outcome) by {
            if i > 0 {
                assert(trace(m, evs)[i] == trace(m, evs.drop_first())[i - 1]);
            }
        }
    }
}

proof fn lemma_emitting_drains(m: StreamModel)
    requires
        m.wf(),
        m.phase == Phase::Emit,
        !m.wrap_up,
    ensures
        run(m, emitted_events(m.pending.len())) == (StreamModel {
            phase: Phase::Listen,
            pending: seq![],
            wrap_up: false,
            ..m
        }),
        trace(m, emitted_events(m.pending.len())) == emit_actions(m.pending) + seq![
            StreamAction::AwaitNext { cancellable: m.mode == StreamMode::Cancellable },
        ],
    decreases m.pending.len(),
{
    let n = m.pending.len();
    let evs = emitted_events(n);
    let next = m.step(evs[0]);
    assert(evs.drop_first() =~= emitted_events((n - 1) as nat));
    assert(run(m, evs) == run(next, evs.drop_first()));
    assert(trace(m, evs) == seq![m.action()] + trace(next, evs.drop_first()));
    if n == 1 {
        assert(m.pending.drop_first() =~= seq![]);
        assert(next == (StreamModel { phase: Phase::Listen, pending: seq![], wrap_up: false, ..m }));
        assert(run(next, emitted_events(0)) == next);
        assert(trace(next, emitted_events(0)) == seq![next.action()]);
        assert(trace(m, evs) =~= emit_actions(m.pending) + seq![
            StreamAction::AwaitNext { cancellable: m.mode == StreamMode::Cancellable },
        ]);
    } else {
        lemma_emitting_drains(next);
        assert(next.pending == m.pending.drop_first());
        assert(trace(m, evs) =~= emit_actions(m.pending) + seq![
            StreamAction::AwaitNext { cancellable: m.mode == StreamMode::Cancellable },
        ]);
    }
}

/// A chunk is relayed in order: while listening, a chunk that yields
/// emissions leads to exactly those emissions being sent, one after the
/// other, and then the session listens again as before.
pub proof fn lemma_chunk_relayed_in_order(m: StreamModel, chunk: Vec<StreamPiece>)
    requires
        m.wf(),
        m.phase == Phase::Listen,
        piece_emissions(chunk@, m.mode).len() > 0,
    ensures
        ({
            let em = piece_emissions(chunk@, m.mode);
            let evs = seq![StreamEvent::Chunk(chunk)] + emitted_events(em.len());
            &&& run(m, evs) == m
            &&& trace(m, evs) == seq![m.action()] + emit_actions(em) + seq![m.action()]
        }),
{
    let em = piece_emissions(chunk@, m.mode);
    let evs = seq![StreamEvent::Chunk(chunk)] + emitted_events(em.len());
    let next = m.step(evs[0]);
    assert(evs.drop_first() =~= emitted_events(em.len()));
    lemma_emitting_drains(next);
    assert(run(m, evs) == run(next, emitted_events(em.len())));
    assert(trace(m, evs) == seq![m.action()] + trace(next, emitted_events(em.len())));
    assert(m.pending =~= seq![]);
    assert(run(m, evs) =~= m);
    assert(trace(m, evs) =~= seq![m.action()] + emit_actions(em) + seq![m.action()]);
}

/// Stopping the chat stream: the cancellation is announced to the window,
/// the token is removed, and the command succeeds.
pub proof fn lemma_cancellation_ends_cleanly(m: StreamModel)
    requires
        m.wf(),
        m.phase == Phase::Listen,
        m.mode == StreamMode::Cancellable,
    ensures
        ({
            let evs = seq![StreamEvent::Cancelled, StreamEvent::Emitted, StreamEvent::TokenCleared];
            &&& trace(m, evs) == seq![
                StreamAction::AwaitNext { cancellable: true },
                StreamAction::Emit(Emission::Cancelled),
                StreamAction::ClearToken,
                StreamAction::Finish(Ok(())),
            ]
            &&& run(m, evs) == m.finish(Ok(()))
        }),
{
    reveal_with_fuel(run, 4);
    reveal_with_fuel(trace, 4);
    let evs = seq![StreamEvent::Cancelled, StreamEvent::Emitted, StreamEvent::TokenCleared];
    let m1 = m.step(evs[0]);
    let m2 = m1.step(evs[1]);
    let m3 = m2.step(evs[2]);
    assert(evs.drop_first() =~= seq![StreamEvent::Emitted, StreamEvent::TokenCleared]);
    assert(evs.drop_first().drop_first() =~= seq![StreamEvent::TokenCleared]);
    assert(evs.drop_first().drop_first().drop_first() =~= seq![]);
    assert(m1.pending.drop_first() =~= seq![]);
    assert(trace(m, evs) =~= seq![
        StreamAction::AwaitNext { cancellable: true },
        StreamAction::Emit(Emission::Cancelled),
        StreamAction::ClearToken,
        StreamAction::Finish(Ok(())),
    ]);
}

/// The end of the chat stream: the end is announced to the window, the token
/// is removed, and the command succeeds.
pub proof fn lemma_cancellable_end(m: StreamModel)
    requires
        m.wf(),
        m.phase == Phase::Listen,
        m.mode == StreamMode::Cancellable,
    ensures
        ({
            let evs = seq![StreamEvent::Ended, StreamEvent::Emitted, StreamEvent::TokenCleared];
            &&& trace(m, evs) == seq![
                StreamAction::AwaitNext { cancellable: true },
                StreamAction::Emit(Emission::Done),
                StreamAction::ClearToken,
                StreamAction::Finish(Ok(())),
            ]
            &&& run(m, evs) == m.finish(Ok(()))
        }),
{
    reveal_with_fuel(run, 4);
    reveal_with_fuel(trace, 4);
    let evs = seq![StreamEvent::Ended, StreamEvent::Emitted, StreamEvent::TokenCleared];
    let m1 = m.step(evs[0]);
    assert(evs.drop_first() =~= seq![StreamEvent::Emitted, StreamEvent::TokenCleared]);
    assert(evs.drop_first().drop_first() =~= seq![StreamEvent::TokenCleared]);
    assert(evs.drop_first().drop_first().drop_first() =~= seq![]);
    assert(m1.pending.drop_first() =~= seq![]);
    assert(trace(m, evs) =~= seq![
        StreamAction::AwaitNext { cancellable: true },
        StreamAction::Emit(Emission::Done),
        StreamAction::ClearToken,
        StreamAction::Finish(Ok(())),
    ]);
}

/// The end of the thinking stream: the command succeeds at once.
pub proof fn lemma_plain_end(m: StreamModel)
    requires
        m.wf(),
        m.phase == Phase::Listen,
        m.mode == StreamMode::Plain,
    ensures
        trace(m, seq![StreamEvent::Ended]) == seq![
            StreamAction::AwaitNext { cancellable: false },
            StreamAction::Finish(Ok(())),
        ],
        run(m, seq![StreamEvent::Ended]) == m.finish(Ok(())),
{
    reveal_with_fuel(run, 2);
    reveal_with_fuel(trace, 2);
    let evs = seq![StreamEvent::Ended];
    assert(evs.drop_first() =~= seq![]);
    assert(trace(m, evs) =~= seq![
        StreamAction::AwaitNext { cancellable: false },
        StreamAction::Finish(Ok(())),
    ]);
}

/// A failure ends the command with the failure's message, whatever happens
/// afterwards; the cancellation token is then never removed.
pub proof fn lemma_failure_ends_session(m: StreamModel, fail: StreamEvent, evs: Seq<StreamEvent>)
    requires
        m.wf(),
        is_failure_in(fail, m.phase),
    ensures
        run(m, seq![fail] + evs) == m.finish(Err(failure_message(fail))),
        forall|i: int|
            1 <= i < trace(m, seq![fail] + evs).len() ==> #[trigger] trace(
                m,
                seq![fail] + evs,
            )[i] == StreamAction::Finish(Err(failure_message(fail))),
{
    let all = seq![fail] + evs;
    let f = m.step(all[0]);
    assert(all.drop_first() =~= evs);
    assert(f == m.finish(Err(failure_message(fail))));
    lemma_finished_session_stays(f, evs);
    assert forall|i: int| 1 <= i < trace(m, all).len() implies #[trigger] trace(m, all)[i]
        == StreamAction::Finish(Err(failure_message(fail))) by {
        assert(trace(m, all)[i] == trace(f, evs)[i - 1]);
    }
}

/// Starting the chat stream: the token is installed, then the stream is
/// opened with the session's request, then the session listens.
pub proof fn lemma_cancellable_start(m: StreamModel)
    requires
        m.wf(),
        m.phase == Phase::InstallToken,
        m.mode == StreamMode::Cancellable,
    ensures
        trace(m, seq![StreamEvent::TokenInstalled, StreamEvent::Opened]) == seq![
            StreamAction::InstallToken,
            StreamAction::Open(m.request),
            StreamAction::AwaitNext { cancellable: true },
        ],
        run(m, seq![StreamEvent::TokenInstalled, StreamEvent::Opened]) == (StreamModel {
            phase: Phase::Listen,
            ..m
        }),
{
    reveal_with_fuel(run, 3);
    reveal_with_fuel(trace, 3);
    let evs = seq![StreamEvent::TokenInstalled, StreamEvent::Opened];
    assert(evs.drop_first() =~= seq![StreamEvent::Opened]);
    assert(evs.drop_first().drop_first() =~= seq![]);
    assert(trace(m, evs) =~= seq![
        StreamAction::InstallToken,
        StreamAction::Open(m.request),
        StreamAction::AwaitNext { cancellable: true },
    ]);
}

} // verus!

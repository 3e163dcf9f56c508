//! Speech dispatch engine: commands in, events out, and the state machine
//! that sequences one utterance at a time.
//!
//! The engine is driven step by step by its runtime: the runtime hands it each
//! command received while idle, each batch of commands drained between two
//! audio chunks, and the outcome of the outside work (sink creation, chunk
//! generation, playback drain). The engine decides and records the events to
//! report.

use vstd::prelude::*;

verus! {

/// Commands sent to the dispatch engine.
#[derive(Debug)]
pub enum TTSCommand {
    Speak { text: String },
    Stop,
    ChangeVoice { voice: String },
    Shutdown,
}

/// Events reported by the dispatch engine.
#[derive(Debug)]
pub enum TTSEvent {
    ModelLoaded,
    StartedSpeaking,
    FinishedSpeaking,
    Error(String),
}

/// Mathematical form of a command.
pub enum CommandView {
    Speak(Seq<char>),
    Stop,
    ChangeVoice(Seq<char>),
    Shutdown,
}

/// Mathematical form of an event.
pub enum EventView {
    ModelLoaded,
    StartedSpeaking,
    FinishedSpeaking,
    Error(Seq<char>),
}

impl View for TTSCommand {
    type V = CommandView;

    open spec fn view(&self) -> CommandView {
        match self {
            TTSCommand::Speak { text } => CommandView::Speak(text@),
            TTSCommand::Stop => CommandView::Stop,
            TTSCommand::ChangeVoice { voice } => CommandView::ChangeVoice(voice@),
            TTSCommand::Shutdown => CommandView::Shutdown,
        }
    }
}

impl View for TTSEvent {
    type V = EventView;

    open spec fn view(&self) -> EventView {
        match self {
            TTSEvent::ModelLoaded => EventView::ModelLoaded,
            TTSEvent::StartedSpeaking => EventView::StartedSpeaking,
            TTSEvent::FinishedSpeaking => EventView::FinishedSpeaking,
            TTSEvent::Error(m) => EventView::Error(m@),
        }
    }
}

/// Views of a sequence of commands.
pub open spec fn commands_view(cmds: Seq<TTSCommand>) -> Seq<CommandView> {
    cmds.map_values(|c: TTSCommand| c@)
}

/// Views of a sequence of events.
pub open spec fn events_view(evs: Seq<TTSEvent>) -> Seq<EventView> {
    evs.map_values(|e: TTSEvent| e@)
}

/// Views of a sequence of strings.
pub open spec fn strings_view(ss: Seq<String>) -> Seq<Seq<char>> {
    ss.map_values(|s: String| s@)
}

/// The engine's lifecycle phase.
#[derive(PartialEq, Eq, Structural, Clone, Copy, Debug)]
pub enum Phase {
    Idle,
    Speaking,
    ShutDown,
}

/// Mathematical form of the engine.
pub struct EngineView {
    /// Identifiers of the loaded voice profiles.
    pub voices: Seq<Seq<char>>,
    /// The voice selected for the next utterance.
    pub voice: Seq<char>,
    pub phase: Phase,
    /// The shared speaking signal as the engine last wrote it.
    pub speaking: bool,
    /// Events recorded and not yet taken by the runtime.
    pub events: Seq<EventView>,
}

impl EngineView {
    /// The store holds a voice, and the speaking signal is set exactly while
    /// an utterance is active.
    pub open spec fn wf(self) -> bool {
        &&& self.voices.len() > 0
        &&& (self.speaking <==> self.phase == Phase::Speaking)
    }

    pub open spec fn knows(self, id: Seq<char>) -> bool {
        self.voices.contains(id)
    }

    pub open spec fn with_event(self, e: EventView) -> EngineView {
        EngineView { events: self.events.push(e), ..self }
    }
}

/// Text of the error reported when the selected voice has no profile.
pub open spec fn voice_missing_message(voice: Seq<char>) -> Seq<char> {
    "Voice '"@ + voice + "' not loaded"@
}

/// Text of the error reported when no audio sink could be created.
pub open spec fn audio_error_message(detail: Seq<char>) -> Seq<char> {
    "Audio error: "@ + detail
}

/// Text of the error reported when a chunk of audio could not be generated.
pub open spec fn generation_error_message(detail: Seq<char>) -> Seq<char> {
    "Generation error: "@ + detail
}

/// A `Speak` received while idle opens an utterance exactly when the selected
/// voice is loaded.
pub open spec fn begins_session(s: EngineView, c: CommandView) -> bool {
    s.phase == Phase::Idle && c is Speak && s.knows(s.voice)
}

/// The engine after one command received while idle.
pub open spec fn idle_step(s: EngineView, c: CommandView) -> EngineView {
    match c {
        CommandView::Speak(_) => if s.knows(s.voice) {
            s
        } else {
            s.with_event(EventView::Error(voice_missing_message(s.voice)))
        },
        CommandView::Stop => EngineView { speaking: false, ..s },
        CommandView::ChangeVoice(id) => if s.knows(id) {
            EngineView { voice: id, ..s }
        } else {
            s
        },
        CommandView::Shutdown => EngineView { phase: Phase::ShutDown, speaking: false, ..s },
    }
}


/// Whether a drained batch holds a `Shutdown`.
pub open spec fn has_shutdown(cmds: Seq<CommandView>) -> bool {
    exists|i: int| 0 <= i < cmds.len() && cmds[i] is Shutdown
}

/// Whether a drained batch holds a `Stop`.
pub open spec fn has_stop(cmds: Seq<CommandView>) -> bool {
    exists|i: int| 0 <= i < cmds.len() && cmds[i] is Stop
}

/// The voice selected after applying, in order, the voice changes of `cmds`
/// that name a loaded voice.
pub open spec fn select_voice(voices: Seq<Seq<char>>, voice: Seq<char>, cmds: Seq<CommandView>) -> Seq<char>
    decreases cmds.len(),
{
    if cmds.len() == 0 {
        voice
    } else {
        let before = select_voice(voices, voice, cmds.drop_last());
        match cmds.last() {
            CommandView::ChangeVoice(id) => if voices.contains(id) {
                id
            } else {
                before
            },
            _ => before,
        }
    }
}

/// What the runtime does with the next chunk after draining the commands
/// that arrived while speaking.
#[derive(PartialEq, Eq, Structural, Clone, Copy, Debug)]
pub enum ChunkStep {
    /// Pull and play the next chunk.
    Proceed,
    /// Stop the sink and request no further chunk; the engine is idle again.
    Cancel,
    /// Stop the sink, request no further chunk and leave the run loop.
    Halt,
}

/// The decision on a batch drained while speaking: a `Shutdown` anywhere in
/// it wins, then a `Stop`.
pub open spec fn chunk_step_of(cmds: Seq<CommandView>) -> ChunkStep {
    if has_shutdown(cmds) {
        ChunkStep::Halt
    } else if has_stop(cmds) {
        ChunkStep::Cancel
    } else {
        ChunkStep::Proceed
    }
}

/// The engine after a batch drained while speaking. A cancelling batch
/// discards the voice changes it holds; `Speak` is always ignored.
pub open spec fn batch_step(s: EngineView, cmds: Seq<CommandView>) -> EngineView {
    if has_shutdown(cmds) {
        EngineView { phase: Phase::ShutDown, speaking: false, ..s }
    } else if has_stop(cmds) {
        EngineView { phase: Phase::Idle, speaking: false, ..s }.with_event(EventView::FinishedSpeaking)
    } else {
        EngineView { voice: select_voice(s.voices, s.voice, cmds), ..s }
    }
}

/// At most one utterance is active at a time. An utterance begins only on an
/// idle engine whose speaking signal is clear; a command handled while idle
/// never makes the engine speak; a batch drained while speaking keeps the one
/// utterance or ends it, and never begins another. Every step keeps the
/// speaking signal set exactly while the utterance is active.
pub proof fn lemma_single_session(s: EngineView, c: CommandView, cmds: Seq<CommandView>)
    requires
        s.wf(),
    ensures
        begins_session(s, c) ==> s.phase == Phase::Idle && !s.speaking,
        s.phase == Phase::Idle ==> idle_step(s, c).wf() && idle_step(s, c).phase != Phase::Speaking,
        s.phase == Phase::Speaking ==> batch_step(s, cmds).wf() && (batch_step(s, cmds).phase
            == Phase::Speaking <==> chunk_step_of(cmds) == ChunkStep::Proceed),
{
}

/// A `Stop` drained while speaking clears the speaking signal, records
/// `FinishedSpeaking` and cancels the utterance before the next chunk, however
/// many chunks remain.
pub proof fn lemma_stop_cancels(s: EngineView, cmds: Seq<CommandView>)
    requires
        s.wf(),
        s.phase == Phase::Speaking,
        has_stop(cmds),
        !has_shutdown(cmds),
    ensures
        !batch_step(s, cmds).speaking,
        batch_step(s, cmds).phase == Phase::Idle,
        batch_step(s, cmds).events == s.events.push(EventView::FinishedSpeaking),
        chunk_step_of(cmds) == ChunkStep::Cancel,
{
}

proof fn lemma_select_voice_ignores_speak(voices: Seq<Seq<char>>, voice: Seq<char>, cmds: Seq<CommandView>)
    requires
        forall|i: int| 0 <= i < cmds.len() ==> cmds[i] is Speak,
    ensures
        select_voice(voices, voice, cmds) == voice,
    decreases cmds.len(),
{
    if cmds.len() > 0 {
        lemma_select_voice_ignores_speak(voices, voice, cmds.drop_last());
    }
}

/// `Speak` requests drained while speaking are ignored: no second utterance
/// begins, the engine is unchanged and no event is recorded.
pub proof fn lemma_speak_while_speaking_ignored(s: EngineView, cmds: Seq<CommandView>)
    requires
        s.wf(),
        s.phase == Phase::Speaking,
        forall|i: int| 0 <= i < cmds.len() ==> cmds[i] is Speak,
    ensures
        batch_step(s, cmds) == s,
        chunk_step_of(cmds) == ChunkStep::Proceed,
{
    lemma_select_voice_ignores_speak(s.voices, s.voice, cmds);
    assert(!has_shutdown(cmds));
    assert(!has_stop(cmds));
}

/// A voice change to an identifier that the store does not hold leaves the
/// selected voice as it was and records no event, idle or speaking.
pub proof fn lemma_unknown_voice_ignored(s: EngineView, id: Seq<char>)
    requires
        s.wf(),
        !s.knows(id),
    ensures
        s.phase == Phase::Idle ==> idle_step(s, CommandView::ChangeVoice(id)) == s,
        s.phase == Phase::Speaking ==> batch_step(s, seq![CommandView::ChangeVoice(id)]) == s,
{
    let cmds = seq![CommandView::ChangeVoice(id)];
    assert(cmds.drop_last() =~= Seq::<CommandView>::empty());
    assert(select_voice(s.voices, s.voice, cmds.drop_last()) == s.voice);
    assert(cmds.last() == CommandView::ChangeVoice(id));
    assert(!has_shutdown(cmds));
    assert(!has_stop(cmds));
}

/// One step of the engine's runtime, as the engine sees it.
pub enum EngineInput {
    /// A command received while idle.
    Command(CommandView),
    /// The audio sink of an utterance was created.
    Opened,
    /// The audio sink of an utterance could not be created.
    SinkFailed(Seq<char>),
    /// The commands drained before the next chunk.
    Drained(Seq<CommandView>),
    /// A chunk could not be generated.
    ChunkFailed(Seq<char>),
    /// The chunk sequence ended and the sink played all queued audio.
    Finished,
}

/// The engine after one runtime step. A step that the engine does not admit
/// in its current phase (the runtime never takes it) changes nothing.
pub open spec fn apply_input(s: EngineView, i: EngineInput) -> EngineView {
    match i {
        EngineInput::Command(c) => if s.phase == Phase::Idle {
            idle_step(s, c)
        } else {
            s
        },
        EngineInput::Opened => if s.phase == Phase::Idle {
            EngineView { phase: Phase::Speaking, speaking: true, ..s }.with_event(
                EventView::StartedSpeaking,
            )
        } else {
            s
        },
        EngineInput::SinkFailed(d) => if s.phase == Phase::Idle {
            s.with_event(EventView::Error(audio_error_message(d)))
        } else {
            s
        },
        EngineInput::Drained(cmds) => if s.phase == Phase::Speaking {
            batch_step(s, cmds)
        } else {
            s
        },
        EngineInput::ChunkFailed(d) => if s.phase == Phase::Speaking {
            s.with_event(EventView::Error(generation_error_message(d)))
        } else {
            s
        },
        EngineInput::Finished => if s.phase == Phase::Speaking {
            EngineView { phase: Phase::Idle, speaking: false, ..s }.with_event(
                EventView::FinishedSpeaking,
            )
        } else {
            s
        },
    }
}

/// The engine after a run of runtime steps.
pub open spec fn run_inputs(s: EngineView, inputs: Seq<EngineInput>) -> EngineView
    decreases inputs.len(),
{
    if inputs.len() == 0 {
        s
    } else {
        apply_input(run_inputs(s, inputs.drop_last()), inputs.last())
    }
}

proof fn lemma_apply_keeps_wf(s: EngineView, i: EngineInput)
    requires
        s.wf(),
    ensures
        apply_input(s, i).wf(),
{
}

/// Over every run of runtime steps, at most one utterance is active at a
/// time: after each prefix of the run the speaking signal is set exactly
/// while the engine is in its single speaking phase, and an utterance opens
/// only on an idle engine, never beside an active one.
pub proof fn lemma_single_session_run(s: EngineView, inputs: Seq<EngineInput>)
    requires
        s.wf(),
    ensures
        forall|k: int| 0 <= k <= inputs.len() ==> #[trigger] run_inputs(s, inputs.take(k)).wf(),
        forall|k: int|
            0 <= k < inputs.len() && inputs[k] is Opened && #[trigger] run_inputs(s, inputs.take(k)).speaking
                ==> run_inputs(s, inputs.take(k + 1)) == run_inputs(s, inputs.take(k)),
    decreases inputs.len(),
{
    if inputs.len() > 0 {
        let prefix = inputs.drop_last();
        lemma_single_session_run(s, prefix);
        assert forall|k: int| 0 <= k <= inputs.len() implies #[trigger] run_inputs(s, inputs.take(k)).wf() by {
            if k < inputs.len() {
                assert(inputs.take(k) =~= prefix.take(k));
            } else {
                assert(inputs.take(k) =~= inputs);
                assert(prefix.take(prefix.len() as int) =~= prefix);
                assert(run_inputs(s, prefix).wf());
                lemma_apply_keeps_wf(run_inputs(s, prefix), inputs.last());
            }
        }
        assert forall|k: int|
            0 <= k < inputs.len() && inputs[k] is Opened && #[trigger] run_inputs(s, inputs.take(k)).speaking
                implies run_inputs(s, inputs.take(k + 1)) == run_inputs(s, inputs.take(k)) by {
            assert(inputs.take(k + 1).drop_last() =~= inputs.take(k));
            assert(inputs.take(k + 1).last() == inputs[k]);
            if k < prefix.len() {
                assert(inputs.take(k) =~= prefix.take(k));
            } else {
                assert(inputs.take(k) =~= prefix.take(prefix.len() as int));
            }
            assert(run_inputs(s, inputs.take(k)).wf());
        }
    }
}

/// What the runtime does after a command received while idle.
#[derive(Debug)]
pub enum Directive {
    /// Keep waiting for the next command.
    Wait,
    /// Open an utterance of `text` in the profile of `voice`.
    Begin { text: String, voice: String },
    /// Leave the run loop for good.
    Exit,
}

/// The speech dispatch engine.
pub struct TTSEngine {
    pub voices: Vec<String>,
    pub current_voice: String,
    pub phase: Phase,
    pub is_speaking: bool,
    pub events: Vec<TTSEvent>,
}

/// Why the engine could not start.
#[derive(PartialEq, Eq, Structural, Clone, Copy, Debug)]
pub enum InitError {
    /// No voice profile could be loaded.
    NoVoices,
}

impl View for TTSEngine {
    type V = EngineView;

    open spec fn view(&self) -> EngineView {
        EngineView {
            voices: strings_view(self.voices@),
            voice: self.current_voice@,
            phase: self.phase,
            speaking: self.is_speaking,
            events: events_view(self.events@),
        }
    }
}

impl TTSEngine {
    /// Creates an idle engine over the identifiers of the loaded voice
    /// profiles, selecting `initial_voice` when it is loaded and the first
    /// loaded voice otherwise; records `ModelLoaded`.
    pub fn new(voices: Vec<String>, initial_voice: &str) -> (r: Result<TTSEngine, InitError>)
        ensures
            voices@.len() == 0 <==> r is Err,
            r matches Ok(e) ==> {
                &&& e@.wf()
                &&& e@.voices == strings_view(voices@)
                &&& e@.voice == if e@.knows(initial_voice@) {
                    initial_voice@
                } else {
                    voices@[0]@
                }
                &&& e@.phase == Phase::Idle
                &&& e@.events == seq![EventView::ModelLoaded]
            },
    {
        if voices.len() == 0 {
            return Err(InitError::NoVoices);
        }
        let initial = String::from_str(initial_voice);
        let known = contains_id(&voices, &initial);
        let current_voice = if known {
            initial
        } else {
            voices[0].clone()
        };
        let mut events: Vec<TTSEvent> = Vec::new();
        events.push(TTSEvent::ModelLoaded);
        let e = TTSEngine {
            voices,
            current_voice,
            phase: Phase::Idle,
            is_speaking: false,
            events,
        };
        proof {
            assert(e@.voices[0] == e.voices@[0]@);
            assert(e@.events =~= seq![EventView::ModelLoaded]);
        }
        Ok(e)
    }

    /// Whether a profile is loaded for `id`.
    pub fn contains(&self, id: &String) -> (r: bool)
        ensures
            r == self@.knows(id@),
    {
        contains_id(&self.voices, id)
    }

    /// Records an event for the runtime to report.
    fn record(&mut self, e: TTSEvent)
        ensures
            final(self)@ == old(self)@.with_event(e@),
    {
        self.events.push(e);
        proof {
            assert(events_view(self.events@) =~= events_view(old(self).events@).push(e@));
        }
    }

    /// Handles a command received while idle.
    pub fn handle(&mut self, cmd: TTSCommand) -> (r: Directive)
        requires
            old(self)@.wf(),
            old(self)@.phase == Phase::Idle,
        ensures
            final(self)@ == idle_step(old(self)@, cmd@),
            final(self)@.wf(),
            r is Begin <==> begins_session(old(self)@, cmd@),
            r is Exit <==> cmd@ is Shutdown,
            r matches Directive::Begin { text, voice } ==> cmd@ == CommandView::Speak(text@)
                && voice@ == old(self)@.voice,
    {
        match cmd {
            TTSCommand::Speak { text } => {
                if self.contains(&self.current_voice) {
                    Directive::Begin { text, voice: self.current_voice.clone() }
                } else {
                    let msg = String::from_str("Voice '").concat(self.current_voice.as_str()).concat(
                        "' not loaded",
                    );
                    self.record(TTSEvent::Error(msg));
                    Directive::Wait
                }
            },
            TTSCommand::Stop => {
                self.is_speaking = false;
                Directive::Wait
            },
            TTSCommand::ChangeVoice { voice } => {
                if self.contains(&voice) {
                    self.current_voice = voice;
                }
                Directive::Wait
            },
            TTSCommand::Shutdown => {
                self.phase = Phase::ShutDown;
                self.is_speaking = false;
                Directive::Exit
            },
        }
    }

    /// The runtime created the audio sink of an utterance: the engine starts
    /// speaking.
    pub fn open_session(&mut self)
        requires
            old(self)@.wf(),
            old(self)@.phase == Phase::Idle,
        ensures
            final(self)@ == (EngineView {
                phase: Phase::Speaking,
                speaking: true,
                ..old(self)@
            }).with_event(EventView::StartedSpeaking),
            final(self)@.wf(),
    {
        self.phase = Phase::Speaking;
        self.is_speaking = true;
        self.record(TTSEvent::StartedSpeaking);
    }

    /// The runtime could not create the audio sink of an utterance: the
    /// engine reports it and stays idle.
    pub fn sink_failed(&mut self, detail: &str)
        requires
            old(self)@.wf(),
            old(self)@.phase == Phase::Idle,
        ensures
            final(self)@ == old(self)@.with_event(EventView::Error(audio_error_message(detail@))),
            final(self)@.wf(),
    {
        let msg = String::from_str("Audio error: ").concat(detail);
        self.record(TTSEvent::Error(msg));
    }

    /// Handles the commands drained before the next chunk is pulled.
    pub fn between_chunks(&mut self, pending: Vec<TTSCommand>) -> (r: ChunkStep)
        requires
            old(self)@.wf(),
            old(self)@.phase == Phase::Speaking,
        ensures
            final(self)@ == batch_step(old(self)@, commands_view(pending@)),
            r == chunk_step_of(commands_view(pending@)),
            final(self)@.wf(),
    {
        let ghost cv = commands_view(pending@);
        let mut shut = false;
        let mut stop = false;
        let mut i: usize = 0;
        while i < pending.len()
            invariant
                i <= pending.len(),
                cv == commands_view(pending@),
                shut == exists|j: int| 0 <= j < i && cv[j] is Shutdown,
                stop == exists|j: int| 0 <= j < i && cv[j] is Stop,
            decreases pending.len() - i,
        {
            match &pending[i] {
                TTSCommand::Shutdown => {
                    shut = true;
                },
                TTSCommand::Stop => {
                    stop = true;
                },
                _ => {},
            }
            proof {
                assert(cv[i as int] == pending@[i as int]@);
                if shut {
                    if !(exists|j: int| 0 <= j < i && cv[j] is Shutdown) {
                        assert(cv[i as int] is Shutdown);
                    }
                }
                if stop {
                    if !(exists|j: int| 0 <= j < i && cv[j] is Stop) {
                        assert(cv[i as int] is Stop);
                    }
                }
            }
            i += 1;
        }
        if shut {
            self.phase = Phase::ShutDown;
            self.is_speaking = false;
            return ChunkStep::Halt;
        }
        if stop {
            self.phase = Phase::Idle;
            self.is_speaking = false;
            self.record(TTSEvent::FinishedSpeaking);
            return ChunkStep::Cancel;
        }
        let mut i: usize = 0;
        while i < pending.len()
            invariant
                i <= pending.len(),
                cv == commands_view(pending@),
                self@ == (EngineView {
                    voice: select_voice(old(self)@.voices, old(self)@.voice, cv.take(i as int)),
                    ..old(self)@
                }),
                self@.wf(),
            decreases pending.len() - i,
        {
            proof {
                assert(cv.take(i as int + 1).drop_last() =~= cv.take(i as int));
                assert(cv[i as int] == pending@[i as int]@);
            }
            match &pending[i] {
                TTSCommand::ChangeVoice { voice } => {
                    if self.contains(voice) {
                        self.current_voice = voice.clone();
                    }
                },
                _ => {},
            }
            i += 1;
        }
        proof {
            assert(cv.take(pending.len() as int) =~= cv);
        }
        ChunkStep::Proceed
    }

    /// A chunk of the utterance could not be generated: the engine reports it;
    /// the runtime pulls no further chunk and lets the queued audio finish.
    pub fn chunk_failed(&mut self, detail: &str)
        requires
            old(self)@.wf(),
            old(self)@.phase == Phase::Speaking,
        ensures
            final(self)@ == old(self)@.with_event(EventView::Error(generation_error_message(detail@))),
            final(self)@.wf(),
    {
        let msg = String::from_str("Generation error: ").concat(detail);
        self.record(TTSEvent::Error(msg));
    }

    /// The chunk sequence ended without cancellation and the sink has played
    /// all queued audio: the utterance is over.
    pub fn finish_session(&mut self)
        requires
            old(self)@.wf(),
            old(self)@.phase == Phase::Speaking,
        ensures
            final(self)@ == (EngineView {
                phase: Phase::Idle,
                speaking: false,
                ..old(self)@
            }).with_event(EventView::FinishedSpeaking),
            final(self)@.wf(),
    {
        self.phase = Phase::Idle;
        self.is_speaking = false;
        self.record(TTSEvent::FinishedSpeaking);
    }

    /// Hands the recorded events to the runtime, oldest first.
    pub fn take_events(&mut self) -> (r: Vec<TTSEvent>)
        ensures
            events_view(r@) == old(self)@.events,
            final(self)@ == (EngineView { events: seq![], ..old(self)@ }),
    {
        let mut r: Vec<TTSEvent> = Vec::new();
        core::mem::swap(&mut r, &mut self.events);
        proof {
            assert(events_view(self.events@) =~= seq![]);
        }
        r
    }
}

/// Whether `id` is one of `ids`.
fn contains_id(ids: &Vec<String>, id: &String) -> (r: bool)
    ensures
        r == strings_view(ids@).contains(id@),
{
    let mut i: usize = 0;
    while i < ids.len()
        invariant
            i <= ids.len(),
            forall|k: int| 0 <= k < i ==> ids@[k]@ != id@,
        decreases ids.len() - i,
    {
        if ids[i] == *id {
            assert(strings_view(ids@)[i as int] == id@);
            return true;
        }
        i += 1;
    }
    proof {
        if strings_view(ids@).contains(id@) {
            let k = choose|k: int| 0 <= k < ids@.len() && strings_view(ids@)[k] == id@;
            assert(ids@[k]@ == id@);
        }
    }
    false
}

} // verus!

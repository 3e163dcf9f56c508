use pocket_tray::tts::{ChunkStep, Directive, InitError, Phase, TTSCommand, TTSEngine, TTSEvent};

fn names(v: &[&str]) -> Vec<String> {
    v.iter().map(|s| s.to_string()).collect()
}

fn ready_engine() -> TTSEngine {
    let mut e = TTSEngine::new(names(&["alba", "jean"]), "alba").unwrap();
    let evs = e.take_events();
    assert_eq!(evs.len(), 1);
    assert!(matches!(evs[0], TTSEvent::ModelLoaded));
    e
}

fn speak(text: &str) -> TTSCommand {
    TTSCommand::Speak { text: text.to_string() }
}

#[test]
fn new_without_voices_fails() {
    assert!(matches!(TTSEngine::new(Vec::new(), "alba"), Err(InitError::NoVoices)));
}

#[test]
fn new_falls_back_to_first_voice() {
    let e = TTSEngine::new(names(&["jean", "alba"]), "ghost").unwrap();
    assert_eq!(e.current_voice, "jean");
    assert_eq!(e.phase, Phase::Idle);
    assert!(!e.is_speaking);
}

#[test]
fn new_keeps_known_initial_voice() {
    let e = TTSEngine::new(names(&["jean", "alba"]), "alba").unwrap();
    assert_eq!(e.current_voice, "alba");
}

#[test]
fn speak_three_chunks_end_to_end() {
    let mut e = ready_engine();
    assert!(!e.is_speaking);
    let d = e.handle(speak("hello"));
    match d {
        Directive::Begin { text, voice } => {
            assert_eq!(text, "hello");
            assert_eq!(voice, "alba");
        }
        other => panic!("unexpected directive {:?}", other),
    }
    e.open_session();
    assert!(e.is_speaking);
    for _ in 0..3 {
        assert_eq!(e.between_chunks(Vec::new()), ChunkStep::Proceed);
    }
    e.finish_session();
    assert!(!e.is_speaking);
    assert_eq!(e.phase, Phase::Idle);
    let evs = e.take_events();
    assert_eq!(evs.len(), 2);
    assert!(matches!(evs[0], TTSEvent::StartedSpeaking));
    assert!(matches!(evs[1], TTSEvent::FinishedSpeaking));
}

#[test]
fn shutdown_mid_utterance_end_to_end() {
    let mut e = ready_engine();
    assert!(matches!(e.handle(speak("a long text")), Directive::Begin { .. }));
    e.open_session();
    let mut pending: Vec<Vec<TTSCommand>> = vec![Vec::new(), vec![TTSCommand::Shutdown], Vec::new(), Vec::new(), Vec::new()];
    let mut requested = 0;
    let mut last = ChunkStep::Proceed;
    for batch in pending.drain(..) {
        last = e.between_chunks(batch);
        if last != ChunkStep::Proceed {
            break;
        }
        requested += 1;
    }
    assert_eq!(last, ChunkStep::Halt);
    assert_eq!(requested, 1);
    assert_eq!(e.phase, Phase::ShutDown);
    assert!(!e.is_speaking);
    let evs = e.take_events();
    assert_eq!(evs.len(), 1);
    assert!(matches!(evs[0], TTSEvent::StartedSpeaking));
}

#[test]
fn voice_unavailable_end_to_end() {
    let mut e = ready_engine();
    e.current_voice = "ghost".to_string();
    assert!(matches!(e.handle(speak("hello")), Directive::Wait));
    assert_eq!(e.phase, Phase::Idle);
    assert!(!e.is_speaking);
    let evs = e.take_events();
    assert_eq!(evs.len(), 1);
    match &evs[0] {
        TTSEvent::Error(m) => assert_eq!(m, "Voice 'ghost' not loaded"),
        other => panic!("unexpected event {:?}", other),
    }
}

#[test]
fn stop_while_speaking_finishes_at_once() {
    let mut e = ready_engine();
    e.handle(speak("hello"));
    e.open_session();
    e.take_events();
    assert_eq!(e.between_chunks(vec![TTSCommand::Stop]), ChunkStep::Cancel);
    assert!(!e.is_speaking);
    assert_eq!(e.phase, Phase::Idle);
    let evs = e.take_events();
    assert_eq!(evs.len(), 1);
    assert!(matches!(evs[0], TTSEvent::FinishedSpeaking));
}

#[test]
fn stop_while_idle_is_noop() {
    let mut e = ready_engine();
    assert!(matches!(e.handle(TTSCommand::Stop), Directive::Wait));
    assert_eq!(e.phase, Phase::Idle);
    assert!(e.take_events().is_empty());
}

#[test]
fn speak_while_speaking_is_ignored() {
    let mut e = ready_engine();
    e.handle(speak("one"));
    e.open_session();
    e.take_events();
    assert_eq!(e.between_chunks(vec![speak("two"), speak("three")]), ChunkStep::Proceed);
    assert!(e.is_speaking);
    assert_eq!(e.phase, Phase::Speaking);
    assert!(e.take_events().is_empty());
}

#[test]
fn unknown_voice_is_ignored_idle_and_speaking() {
    let mut e = ready_engine();
    let d = e.handle(TTSCommand::ChangeVoice { voice: "ghost".to_string() });
    assert!(matches!(d, Directive::Wait));
    assert_eq!(e.current_voice, "alba");
    assert!(e.take_events().is_empty());
    e.handle(speak("x"));
    e.open_session();
    e.take_events();
    let step = e.between_chunks(vec![TTSCommand::ChangeVoice { voice: "ghost".to_string() }]);
    assert_eq!(step, ChunkStep::Proceed);
    assert_eq!(e.current_voice, "alba");
    assert!(e.take_events().is_empty());
}

#[test]
fn change_voice_while_speaking_applies_to_next() {
    let mut e = ready_engine();
    e.handle(speak("x"));
    e.open_session();
    let batch = vec![
        TTSCommand::ChangeVoice { voice: "jean".to_string() },
        TTSCommand::ChangeVoice { voice: "ghost".to_string() },
    ];
    assert_eq!(e.between_chunks(batch), ChunkStep::Proceed);
    assert_eq!(e.current_voice, "jean");
    assert!(e.is_speaking);
}

#[test]
fn stop_discards_voice_change_in_same_batch() {
    let mut e = ready_engine();
    e.handle(speak("x"));
    e.open_session();
    let batch = vec![
        TTSCommand::ChangeVoice { voice: "jean".to_string() },
        TTSCommand::Stop,
    ];
    assert_eq!(e.between_chunks(batch), ChunkStep::Cancel);
    assert_eq!(e.current_voice, "alba");
}

#[test]
fn shutdown_wins_over_stop() {
    let mut e = ready_engine();
    e.handle(speak("x"));
    e.open_session();
    e.take_events();
    assert_eq!(e.between_chunks(vec![TTSCommand::Stop, TTSCommand::Shutdown]), ChunkStep::Halt);
    assert_eq!(e.phase, Phase::ShutDown);
    assert!(e.take_events().is_empty());
}

#[test]
fn shutdown_while_idle_exits() {
    let mut e = ready_engine();
    assert!(matches!(e.handle(TTSCommand::Shutdown), Directive::Exit));
    assert_eq!(e.phase, Phase::ShutDown);
}

#[test]
fn change_voice_while_idle() {
    let mut e = ready_engine();
    e.handle(TTSCommand::ChangeVoice { voice: "jean".to_string() });
    assert_eq!(e.current_voice, "jean");
    match e.handle(speak("hi")) {
        Directive::Begin { voice, .. } => assert_eq!(voice, "jean"),
        other => panic!("unexpected directive {:?}", other),
    }
}

#[test]
fn sink_failure_reports_audio_error() {
    let mut e = ready_engine();
    e.handle(speak("hi"));
    e.sink_failed("no device");
    assert_eq!(e.phase, Phase::Idle);
    assert!(!e.is_speaking);
    let evs = e.take_events();
    assert_eq!(evs.len(), 1);
    match &evs[0] {
        TTSEvent::Error(m) => assert_eq!(m, "Audio error: no device"),
        other => panic!("unexpected event {:?}", other),
    }
}

#[test]
fn chunk_failure_reports_generation_error() {
    let mut e = ready_engine();
    e.handle(speak("hi"));
    e.open_session();
    e.take_events();
    e.chunk_failed("bad tensor");
    e.finish_session();
    let evs = e.take_events();
    assert_eq!(evs.len(), 2);
    match &evs[0] {
        TTSEvent::Error(m) => assert_eq!(m, "Generation error: bad tensor"),
        other => panic!("unexpected event {:?}", other),
    }
    assert!(matches!(evs[1], TTSEvent::FinishedSpeaking));
    assert!(!e.is_speaking);
}

#[test]
fn contains_reports_loaded_voices() {
    let e = ready_engine();
    assert!(e.contains(&"jean".to_string()));
    assert!(!e.contains(&"ghost".to_string()));
}

use pocket_tray::coordinator::{animation_due, handle_menu_action, status_for_event, voice_checks, AnimationChange};
use pocket_tray::menu_ids;
use pocket_tray::settings::Settings;
use pocket_tray::tray::{process_menu_event, MenuAction};
use pocket_tray::tts::{TTSCommand, TTSEvent};

#[test]
fn menu_ids_are_stable() {
    assert_eq!(menu_ids::monitor(), "monitor");
    assert_eq!(menu_ids::stop(), "stop");
    assert_eq!(menu_ids::quit(), "quit");
    assert_eq!(menu_ids::voice("jean"), "voice_jean");
}

#[test]
fn voice_name_round_trip() {
    assert_eq!(menu_ids::voice_name_from_id(&menu_ids::voice("cosette")), Some("cosette".to_string()));
    assert_eq!(menu_ids::voice_name_from_id("voice_"), Some(String::new()));
    assert_eq!(menu_ids::voice_name_from_id("voic"), None);
    assert_eq!(menu_ids::voice_name_from_id("monitor"), None);
}

#[test]
fn menu_events_map_to_actions() {
    assert!(matches!(process_menu_event("monitor"), MenuAction::ToggleMonitor));
    assert!(matches!(process_menu_event("stop"), MenuAction::Stop));
    assert!(matches!(process_menu_event("quit"), MenuAction::Quit));
    match process_menu_event("voice_alba") {
        MenuAction::ChangeVoice(v) => assert_eq!(v, "alba"),
        other => panic!("unexpected action {:?}", other),
    }
    assert!(matches!(process_menu_event("other"), MenuAction::Unknown));
}

#[test]
fn settings_default_values() {
    let s = Settings::default();
    assert!(s.monitor_enabled);
    assert_eq!(s.current_voice, "alba");
}

#[test]
fn toggle_monitor_flips_and_saves() {
    let mut s = Settings::default();
    let r = handle_menu_action(&mut s, true, MenuAction::ToggleMonitor);
    assert_eq!(r.monitor_enabled, Some(false));
    assert!(r.save_settings);
    assert!(r.command.is_none());
    assert!(!s.monitor_enabled);
    let r = handle_menu_action(&mut s, false, MenuAction::ToggleMonitor);
    assert_eq!(r.monitor_enabled, Some(true));
    assert!(s.monitor_enabled);
}

#[test]
fn stop_action_sends_stop() {
    let mut s = Settings::default();
    let r = handle_menu_action(&mut s, true, MenuAction::Stop);
    assert!(matches!(r.command, Some(TTSCommand::Stop)));
    assert!(r.stop_animation);
    assert!(!r.save_settings);
    assert!(!r.shutdown);
}

#[test]
fn change_voice_action_updates_settings() {
    let mut s = Settings::default();
    let r = handle_menu_action(&mut s, true, MenuAction::ChangeVoice("jean".to_string()));
    assert_eq!(s.current_voice, "jean");
    assert!(r.save_settings);
    assert_eq!(r.check_voice, Some("jean".to_string()));
    match r.command {
        Some(TTSCommand::ChangeVoice { voice }) => assert_eq!(voice, "jean"),
        other => panic!("unexpected command {:?}", other),
    }
}

#[test]
fn quit_action_shuts_down() {
    let mut s = Settings::default();
    let r = handle_menu_action(&mut s, true, MenuAction::Quit);
    assert!(r.shutdown);
    assert!(matches!(r.command, Some(TTSCommand::Shutdown)));
}

#[test]
fn unknown_action_does_nothing() {
    let mut s = Settings::default();
    let r = handle_menu_action(&mut s, true, MenuAction::Unknown);
    assert!(r.command.is_none() && !r.save_settings && !r.shutdown && !r.stop_animation);
    assert!(r.monitor_enabled.is_none() && r.check_voice.is_none());
    assert!(s.monitor_enabled);
    assert_eq!(s.current_voice, "alba");
}

#[test]
fn events_map_to_status() {
    let r = status_for_event(&TTSEvent::ModelLoaded);
    assert_eq!(r.tooltip, "Pocket-Tray TTS - Ready");
    assert_eq!(r.animation, AnimationChange::Keep);
    assert!(r.model_loaded);
    let r = status_for_event(&TTSEvent::StartedSpeaking);
    assert_eq!(r.tooltip, "Pocket-Tray TTS - Speaking...");
    assert_eq!(r.animation, AnimationChange::Start);
    let r = status_for_event(&TTSEvent::FinishedSpeaking);
    assert_eq!(r.tooltip, "Pocket-Tray TTS - Ready");
    assert_eq!(r.animation, AnimationChange::Stop);
    let r = status_for_event(&TTSEvent::Error("boom".to_string()));
    assert_eq!(r.tooltip, "Pocket-Tray TTS - Error: boom");
    assert_eq!(r.animation, AnimationChange::Stop);
    assert!(!r.model_loaded);
}

#[test]
fn animation_cadence_by_elapsed_time() {
    assert!(!animation_due(true, 119));
    assert!(animation_due(true, 120));
    assert!(animation_due(true, 5000));
    assert!(!animation_due(false, 5000));
}

#[test]
fn voice_check_marks() {
    let items: Vec<String> = vec!["alba".to_string(), "jean".to_string(), "marius".to_string()];
    assert_eq!(voice_checks(&items, "jean"), vec![false, true, false]);
    assert_eq!(voice_checks(&items, "ghost"), vec![false, false, false]);
}

//! Decisions of the coordinator loop: what a menu action does to the settings
//! and which command it sends, how each engine event shows in the tray, and
//! when the icon animation advances.

use vstd::prelude::*;
use crate::settings::Settings;
use crate::tray::{MenuAction, MenuActionView};
use crate::tts::{CommandView, EventView, TTSCommand, TTSEvent};

verus! {

/// Minimum time between two animation frames, in milliseconds.
pub const ANIMATION_INTERVAL_MS: u64 = 120;

/// What a menu action asks of the coordinator.
pub struct MenuOutcome {
    /// The new value of the monitoring signal, when it changes.
    pub monitor_enabled: Option<bool>,
    /// Whether the settings changed and are to be saved.
    pub save_settings: bool,
    /// The command to send to the engine.
    pub command: Option<TTSCommand>,
    /// Whether the icon animation stops at once.
    pub stop_animation: bool,
    /// The voice whose menu item becomes the checked one.
    pub check_voice: Option<String>,
    /// Whether the whole process shuts down.
    pub shutdown: bool,
}

/// Mathematical form of a menu outcome.
pub struct MenuOutcomeView {
    pub monitor_enabled: Option<bool>,
    pub save_settings: bool,
    pub command: Option<CommandView>,
    pub stop_animation: bool,
    pub check_voice: Option<Seq<char>>,
    pub shutdown: bool,
}

impl View for MenuOutcome {
    type V = MenuOutcomeView;

    open spec fn view(&self) -> MenuOutcomeView {
        MenuOutcomeView {
            monitor_enabled: self.monitor_enabled,
            save_settings: self.save_settings,
            command: match self.command {
                Some(c) => Some(c@),
                None => None,
            },
            stop_animation: self.stop_animation,
            check_voice: match self.check_voice {
                Some(v) => Some(v@),
                None => None,
            },
            shutdown: self.shutdown,
        }
    }
}

/// An outcome that asks for nothing.
pub open spec fn no_outcome() -> MenuOutcomeView {
    MenuOutcomeView {
        monitor_enabled: None,
        save_settings: false,
        command: None,
        stop_animation: false,
        check_voice: None,
        shutdown: false,
    }
}

/// What `action` asks for while the monitoring signal reads `monitor`.
pub open spec fn menu_outcome(action: MenuActionView, monitor: bool) -> MenuOutcomeView {
    match action {
        MenuActionView::ToggleMonitor => MenuOutcomeView {
            monitor_enabled: Some(!monitor),
            save_settings: true,
            ..no_outcome()
        },
        MenuActionView::Stop => MenuOutcomeView {
            command: Some(CommandView::Stop),
            stop_animation: true,
            ..no_outcome()
        },
        MenuActionView::ChangeVoice(v) => MenuOutcomeView {
            save_settings: true,
            command: Some(CommandView::ChangeVoice(v)),
            check_voice: Some(v),
            ..no_outcome()
        },
        MenuActionView::Quit => MenuOutcomeView {
            command: Some(CommandView::Shutdown),
            shutdown: true,
            ..no_outcome()
        },
        MenuActionView::Unknown => no_outcome(),
    }
}

/// Applies a menu action to the settings and says what else it asks for.
pub fn handle_menu_action(settings: &mut Settings, monitor: bool, action: MenuAction) -> (r: MenuOutcome)
    ensures
        r@ == menu_outcome(action@, monitor),
        final(settings).monitor_enabled == if action@ is ToggleMonitor {
            !monitor
        } else {
            old(settings).monitor_enabled
        },
        final(settings).current_voice@ == match action@ {
            MenuActionView::ChangeVoice(v) => v,
            _ => old(settings).current_voice@,
        },
{
    let none = MenuOutcome {
        monitor_enabled: None,
        save_settings: false,
        command: None,
        stop_animation: false,
        check_voice: None,
        shutdown: false,
    };
    match action {
        MenuAction::ToggleMonitor => {
            let enabled = !monitor;
            settings.monitor_enabled = enabled;
            MenuOutcome { monitor_enabled: Some(enabled), save_settings: true, ..none }
        },
        MenuAction::Stop => MenuOutcome {
            command: Some(TTSCommand::Stop),
            stop_animation: true,
            ..none
        },
        MenuAction::ChangeVoice(voice) => {
            settings.current_voice = voice.clone();
            MenuOutcome {
                save_settings: true,
                command: Some(TTSCommand::ChangeVoice { voice: voice.clone() }),
                check_voice: Some(voice),
                ..none
            }
        },
        MenuAction::Quit => MenuOutcome {
            command: Some(TTSCommand::Shutdown),
            shutdown: true,
            ..none
        },
        MenuAction::Unknown => none,
    }
}

/// How the icon animation changes on an event.
#[derive(PartialEq, Eq, Structural, Clone, Copy, Debug)]
pub enum AnimationChange {
    Start,
    Stop,
    Keep,
}

/// How an engine event shows in the tray.
pub struct StatusUpdate {
    pub tooltip: String,
    pub animation: AnimationChange,
    /// Whether the event says that the model is loaded.
    pub model_loaded: bool,
}

/// The tooltip shown after an event.
pub open spec fn tooltip_for(e: EventView) -> Seq<char> {
    match e {
        EventView::ModelLoaded => "Pocket-Tray TTS - Ready"@,
        EventView::StartedSpeaking => "Pocket-Tray TTS - Speaking..."@,
        EventView::FinishedSpeaking => "Pocket-Tray TTS - Ready"@,
        EventView::Error(m) => "Pocket-Tray TTS - Error: "@ + m,
    }
}

/// The animation change on an event: speech starts it; its end or an error
/// stops it.
pub open spec fn animation_for(e: EventView) -> AnimationChange {
    match e {
        EventView::ModelLoaded => AnimationChange::Keep,
        EventView::StartedSpeaking => AnimationChange::Start,
        EventView::FinishedSpeaking => AnimationChange::Stop,
        EventView::Error(_) => AnimationChange::Stop,
    }
}

/// How an engine event shows in the tray.
pub fn status_for_event(event: &TTSEvent) -> (r: StatusUpdate)
    ensures
        r.tooltip@ == tooltip_for(event@),
        r.animation == animation_for(event@),
        r.model_loaded == (event@ is ModelLoaded),
{
    match event {
        TTSEvent::ModelLoaded => StatusUpdate {
            tooltip: String::from_str("Pocket-Tray TTS - Ready"),
            animation: AnimationChange::Keep,
            model_loaded: true,
        },
        TTSEvent::StartedSpeaking => StatusUpdate {
            tooltip: String::from_str("Pocket-Tray TTS - Speaking..."),
            animation: AnimationChange::Start,
            model_loaded: false,
        },
        TTSEvent::FinishedSpeaking => StatusUpdate {
            tooltip: String::from_str("Pocket-Tray TTS - Ready"),
            animation: AnimationChange::Stop,
            model_loaded: false,
        },
        TTSEvent::Error(m) => StatusUpdate {
            tooltip: String::from_str("Pocket-Tray TTS - Error: ").concat(m.as_str()),
            animation: AnimationChange::Stop,
            model_loaded: false,
        },
    }
}

/// Whether the animation advances a frame, `elapsed_ms` after the last one.
/// The cadence goes by elapsed time, not by the number of loop ticks.
pub fn animation_due(animating: bool, elapsed_ms: u64) -> (r: bool)
    ensures
        r == (animating && elapsed_ms >= ANIMATION_INTERVAL_MS),
{
    animating && elapsed_ms >= ANIMATION_INTERVAL_MS
}

/// The check mark of each voice item: set on the item whose text is
/// `selected`, clear on every other.
pub fn voice_checks(items: &Vec<String>, selected: &str) -> (r: Vec<bool>)
    ensures
        r@.len() == items@.len(),
        forall|i: int| 0 <= i < items@.len() ==> r@[i] == (items@[i]@ == selected@),
{
    let target = String::from_str(selected);
    let mut r: Vec<bool> = Vec::new();
    let mut i: usize = 0;
    while i < items.len()
        invariant
            i <= items.len(),
            target@ == selected@,
            r@.len() == i,
            forall|k: int| 0 <= k < i ==> r@[k] == (items@[k]@ == selected@),
        decreases items.len() - i,
    {
        r.push(items[i] == target);
        i += 1;
    }
    r
}

} // verus!

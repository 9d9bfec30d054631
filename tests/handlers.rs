use editor_handlers::debounce::{Debouncer, Input};
use editor_handlers::dispatch::{
    completion_event, signature_help_event, AutoReloadConfig, AutoSaveConfig, Config, LspConfig,
};
use editor_handlers::events::{
    AutoReloadEvent, AutoSaveEvent, CompletionEvent, DocumentColorsEvent, DocumentId,
    SignatureHelpEvent, SignatureHelpInvoked, ViewId,
};
use editor_handlers::hooks::{
    autoreload_hook, autosave_hook, document_colors_hook, left_insert_mode, EditorEvent, Mode,
};

fn config(auto_signature_help: bool) -> Config {
    Config {
        lsp: LspConfig { auto_signature_help },
        auto_save: AutoSaveConfig { after_delay: true, timeout_ms: 500 },
        auto_reload: AutoReloadConfig { enable: true, interval_ms: 1000 },
    }
}

fn changed(ms: u64) -> AutoSaveEvent {
    AutoSaveEvent::DocumentChanged { save_after: ms }
}

#[test]
fn autosave_two_quick_edits_save_once() {
    let mut d = Debouncer::new();
    let out = d.step(Input::Event { event: changed(500), now: 0 });
    assert!(out.effects.is_empty());
    assert_eq!(out.wake_at, Some(500));
    let out = d.step(Input::Event { event: changed(500), now: 100 });
    assert!(out.effects.is_empty());
    assert_eq!(out.wake_at, Some(600));
    let out = d.step(Input::Tick { now: 500 });
    assert!(out.effects.is_empty());
    assert_eq!(out.wake_at, Some(600));
    let out = d.step(Input::Tick { now: 600 });
    assert_eq!(out.effects, vec![changed(500)]);
    assert_eq!(out.wake_at, None);
    assert!(!out.stop);
    let out = d.step(Input::Tick { now: 2000 });
    assert!(out.effects.is_empty());
}

#[test]
fn autosave_leaving_insert_saves_at_once() {
    let mut d = Debouncer::new();
    let out = d.step(Input::Event { event: changed(500), now: 0 });
    assert_eq!(out.wake_at, Some(500));
    let out = d.step(Input::Event { event: AutoSaveEvent::LeftInsertMode, now: 50 });
    assert_eq!(out.effects, vec![AutoSaveEvent::LeftInsertMode]);
    assert_eq!(out.wake_at, None);
    let out = d.step(Input::Tick { now: 500 });
    assert!(out.effects.is_empty());
    assert_eq!(out.wake_at, None);
}

#[test]
fn burst_runs_last_payload_once() {
    let mut d = Debouncer::new();
    let mut effects = Vec::new();
    for (i, ms) in [300u64, 200, 400, 100].iter().enumerate() {
        let out = d.step(Input::Event { event: changed(*ms), now: i as u64 * 50 });
        effects.extend(out.effects);
    }
    effects.extend(d.step(Input::Tick { now: 250 }).effects);
    assert_eq!(effects, vec![changed(100)]);
}

#[test]
fn spaced_events_each_run() {
    let mut d = Debouncer::new();
    let mut effects = Vec::new();
    effects.extend(d.step(Input::Event { event: changed(100), now: 0 }).effects);
    effects.extend(d.step(Input::Event { event: changed(200), now: 100 }).effects);
    effects.extend(d.step(Input::Event { event: changed(300), now: 500 }).effects);
    effects.extend(d.step(Input::Tick { now: 800 }).effects);
    assert_eq!(effects, vec![changed(100), changed(200), changed(300)]);
}

#[test]
fn due_event_runs_before_immediate_one() {
    let mut d = Debouncer::new();
    d.step(Input::Event { event: changed(100), now: 0 });
    let out = d.step(Input::Event { event: AutoSaveEvent::LeftInsertMode, now: 100 });
    assert_eq!(out.effects, vec![changed(100), AutoSaveEvent::LeftInsertMode]);
}

#[test]
fn immediate_event_without_pending_runs() {
    let mut d = Debouncer::new();
    let out = d.step(Input::Event { event: AutoReloadEvent::EditorFocused, now: 7 });
    assert_eq!(out.effects, vec![AutoReloadEvent::EditorFocused]);
    assert_eq!(out.wake_at, None);
}

#[test]
fn autoreload_check_is_debounced() {
    let mut d = Debouncer::new();
    let out = d.step(Input::Event { event: AutoReloadEvent::CheckForChanges { after: 30 }, now: 10 });
    assert_eq!(out.wake_at, Some(40));
    let out = d.step(Input::Event { event: AutoReloadEvent::LeftInsertMode, now: 20 });
    assert_eq!(out.effects, vec![AutoReloadEvent::LeftInsertMode]);
}

#[test]
fn deadline_saturates_at_clock_end() {
    let mut d = Debouncer::new();
    let out = d.step(Input::Event { event: changed(10), now: u64::MAX - 3 });
    assert_eq!(out.wake_at, Some(u64::MAX));
    let out = d.step(Input::Tick { now: u64::MAX });
    assert_eq!(out.effects, vec![changed(10)]);
}

#[test]
fn closing_drops_pending_and_stops() {
    let mut d = Debouncer::new();
    d.step(Input::Event { event: changed(500), now: 0 });
    let out = d.step(Input::Closed);
    assert!(out.effects.is_empty());
    assert!(out.stop);
    let out = d.step(Input::Event { event: AutoSaveEvent::LeftInsertMode, now: 10 });
    assert!(out.effects.is_empty());
    assert!(out.stop);
    let out = d.step(Input::Tick { now: 1000 });
    assert!(out.effects.is_empty());
    assert!(out.stop);
}

#[test]
fn automatic_signature_help_gated_by_config() {
    let off = config(false);
    for _ in 0..3 {
        assert_eq!(signature_help_event(SignatureHelpInvoked::Automatic, &off), None);
    }
    let on = config(true);
    let ev = signature_help_event(SignatureHelpInvoked::Automatic, &on);
    assert_eq!(ev, Some(SignatureHelpEvent::Trigger));
    let mut d = Debouncer::new();
    let out = d.step(Input::Event { event: ev.unwrap(), now: 0 });
    assert_eq!(out.wake_at, Some(120));
    let out = d.step(Input::Tick { now: 120 });
    assert_eq!(out.effects, vec![SignatureHelpEvent::Trigger]);
}

#[test]
fn manual_signature_help_always_sent() {
    assert_eq!(
        signature_help_event(SignatureHelpInvoked::Manual, &config(false)),
        Some(SignatureHelpEvent::Invoked)
    );
    assert_eq!(
        signature_help_event(SignatureHelpInvoked::Manual, &config(true)),
        Some(SignatureHelpEvent::Invoked)
    );
    let mut d = Debouncer::new();
    let out = d.step(Input::Event { event: SignatureHelpEvent::Invoked, now: 3 });
    assert_eq!(out.effects, vec![SignatureHelpEvent::Invoked]);
}

#[test]
fn manual_completion_event() {
    let ev = completion_event(42, DocumentId(3), ViewId(9));
    assert_eq!(
        ev,
        CompletionEvent::ManualTrigger { cursor: 42, doc: DocumentId(3), view: ViewId(9) }
    );
    let mut d = Debouncer::new();
    assert_eq!(d.step(Input::Event { event: ev, now: 0 }).effects, vec![ev]);
}

#[test]
fn autosave_hook_forwards() {
    let mut c = config(true);
    let edit = EditorEvent::DocumentChanged { doc: DocumentId(1) };
    assert_eq!(autosave_hook(&edit, &c), Some(changed(500)));
    let leave = EditorEvent::ModeSwitched { old: Mode::Insert, new: Mode::Normal };
    assert_eq!(autosave_hook(&leave, &c), Some(AutoSaveEvent::LeftInsertMode));
    let enter = EditorEvent::ModeSwitched { old: Mode::Normal, new: Mode::Insert };
    assert_eq!(autosave_hook(&enter, &c), None);
    assert_eq!(autosave_hook(&EditorEvent::FocusGained, &c), None);
    c.auto_save.after_delay = false;
    assert_eq!(autosave_hook(&edit, &c), None);
}

#[test]
fn autoreload_hook_forwards() {
    let mut c = config(true);
    assert_eq!(
        autoreload_hook(&EditorEvent::PollTimer, &c),
        Some(AutoReloadEvent::CheckForChanges { after: 1000 })
    );
    assert_eq!(
        autoreload_hook(&EditorEvent::FocusGained, &c),
        Some(AutoReloadEvent::EditorFocused)
    );
    let leave = EditorEvent::ModeSwitched { old: Mode::Insert, new: Mode::Select };
    assert_eq!(autoreload_hook(&leave, &c), Some(AutoReloadEvent::LeftInsertMode));
    let edit = EditorEvent::DocumentChanged { doc: DocumentId(1) };
    assert_eq!(autoreload_hook(&edit, &c), None);
    c.auto_reload.enable = false;
    assert_eq!(autoreload_hook(&EditorEvent::FocusGained, &c), None);
}

#[test]
fn document_colors_hook_forwards() {
    let edit = EditorEvent::DocumentChanged { doc: DocumentId(5) };
    assert_eq!(document_colors_hook(&edit), Some(DocumentColorsEvent(DocumentId(5))));
    assert_eq!(document_colors_hook(&EditorEvent::PollTimer), None);
    let mut d = Debouncer::new();
    let out = d.step(Input::Event { event: DocumentColorsEvent(DocumentId(5)), now: 0 });
    assert_eq!(out.wake_at, Some(250));
}

#[test]
fn mode_switch_detection() {
    assert!(left_insert_mode(Mode::Insert, Mode::Normal));
    assert!(!left_insert_mode(Mode::Insert, Mode::Insert));
    assert!(!left_insert_mode(Mode::Normal, Mode::Insert));
}

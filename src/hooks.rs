use vstd::prelude::*;

use crate::dispatch::Config;
use crate::events::{AutoReloadEvent, AutoSaveEvent, DocumentColorsEvent, DocumentId};

verus! {

/// The editor's editing modes.
#[derive(Debug, Clone, Copy, PartialEq, Eq, Structural)]
pub enum Mode {
    Normal,
    Select,
    Insert,
}

/// What the editor-wide event bus reports.
#[derive(Debug, Clone, Copy, PartialEq, Eq, Structural)]
pub enum EditorEvent {
    /// The text of a document changed.
    DocumentChanged { doc: DocumentId },
    /// The editing mode changed from `old` to `new`.
    ModeSwitched { old: Mode, new: Mode },
    /// The application regained focus.
    FocusGained,
    /// The periodic timer for checking documents on disk fired.
    PollTimer,
}

pub open spec fn leaves_insert(old: Mode, new: Mode) -> bool {
    old == Mode::Insert && new != Mode::Insert
}

/// Says whether a mode switch leaves insert mode.
pub fn left_insert_mode(old: Mode, new: Mode) -> (r: bool)
    ensures
        r == leaves_insert(old, new),
{
    old == Mode::Insert && new != Mode::Insert
}

/// What the autosave hook forwards for a bus event: a debounced save with the
/// configured delay after an edit (when saving after a delay is on), an
/// immediate save when insert mode is left, and nothing otherwise.
pub fn autosave_hook(event: &EditorEvent, config: &Config) -> (r: Option<AutoSaveEvent>)
    ensures
        r == match *event {
            EditorEvent::DocumentChanged { .. } => if config.auto_save.after_delay {
                Some(AutoSaveEvent::DocumentChanged { save_after: config.auto_save.timeout_ms })
            } else {
                None
            },
            EditorEvent::ModeSwitched { old, new } => if leaves_insert(old, new) {
                Some(AutoSaveEvent::LeftInsertMode)
            } else {
                None
            },
            _ => None,
        },
{
    match event {
        EditorEvent::DocumentChanged { .. } => {
            if config.auto_save.after_delay {
                Some(AutoSaveEvent::DocumentChanged { save_after: config.auto_save.timeout_ms })
            } else {
                None
            }
        },
        EditorEvent::ModeSwitched { old, new } => {
            if left_insert_mode(*old, *new) {
                Some(AutoSaveEvent::LeftInsertMode)
            } else {
                None
            }
        },
        _ => None,
    }
}

/// What the autoreload hook forwards for a bus event, when reloading is on: a
/// delayed check when the periodic timer fires, an immediate one when focus
/// comes back or insert mode is left. Nothing when reloading is off.
pub fn autoreload_hook(event: &EditorEvent, config: &Config) -> (r: Option<AutoReloadEvent>)
    ensures
        !config.auto_reload.enable ==> r is None,
        config.auto_reload.enable ==> r == match *event {
            EditorEvent::PollTimer => Some(
                AutoReloadEvent::CheckForChanges { after: config.auto_reload.interval_ms },
            ),
            EditorEvent::FocusGained => Some(AutoReloadEvent::EditorFocused),
            EditorEvent::ModeSwitched { old, new } => if leaves_insert(old, new) {
                Some(AutoReloadEvent::LeftInsertMode)
            } else {
                None
            },
            _ => None,
        },
{
    if !config.auto_reload.enable {
        return None;
    }
    match event {
        EditorEvent::PollTimer => Some(
            AutoReloadEvent::CheckForChanges { after: config.auto_reload.interval_ms },
        ),
        EditorEvent::FocusGained => Some(AutoReloadEvent::EditorFocused),
        EditorEvent::ModeSwitched { old, new } => {
            if left_insert_mode(*old, *new) {
                Some(AutoReloadEvent::LeftInsertMode)
            } else {
                None
            }
        },
        _ => None,
    }
}

/// What the document-colors hook forwards: the changed document, for an edit.
pub fn document_colors_hook(event: &EditorEvent) -> (r: Option<DocumentColorsEvent>)
    ensures
        r == match *event {
            EditorEvent::DocumentChanged { doc } => Some(DocumentColorsEvent(doc)),
            _ => None,
        },
{
    match event {
        EditorEvent::DocumentChanged { doc } => Some(DocumentColorsEvent(*doc)),
        _ => None,
    }
}

} // verus!

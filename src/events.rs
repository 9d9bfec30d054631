use vstd::prelude::*;

use crate::debounce::DebouncedEvent;

verus! {

/// How long a typed trigger of signature help waits for typing to settle.
pub const SIGNATURE_HELP_DEBOUNCE_MS: u64 = 120;

/// How long document colors wait for edits to settle before recomputing.
pub const DOCUMENT_COLORS_DEBOUNCE_MS: u64 = 250;

/// Identifies an open document.
#[derive(Debug, Clone, Copy, PartialEq, Eq, Structural)]
pub struct DocumentId(pub u64);

/// Identifies a view onto a document.
#[derive(Debug, Clone, Copy, PartialEq, Eq, Structural)]
pub struct ViewId(pub u64);

/// Events understood by the autosave actor.
#[derive(Debug, Clone, Copy, PartialEq, Eq, Structural)]
pub enum AutoSaveEvent {
    /// A document was edited; save once `save_after` milliseconds pass without
    /// another edit.
    DocumentChanged { save_after: u64 },
    /// The editor left insert mode: save at once.
    LeftInsertMode,
}

/// Events understood by the autoreload actor.
#[derive(Debug, Clone, Copy, PartialEq, Eq, Structural)]
pub enum AutoReloadEvent {
    /// Look for changes made on disk by other programs, `after` milliseconds
    /// from now.
    CheckForChanges { after: u64 },
    /// The editor regained focus: look at once.
    EditorFocused,
    /// The editor left insert mode: look at once.
    LeftInsertMode,
}

/// Events understood by the signature-help actor.
#[derive(Debug, Clone, Copy, PartialEq, Eq, Structural)]
pub enum SignatureHelpEvent {
    /// Typing may have entered a call: ask once typing settles.
    Trigger,
    /// The user asked for signature help: ask at once.
    Invoked,
}

/// How a request for signature help came about.
#[derive(Debug, Clone, Copy, PartialEq, Eq, Structural)]
pub enum SignatureHelpInvoked {
    Automatic,
    Manual,
}

/// Events understood by the completion actor.
#[derive(Debug, Clone, Copy, PartialEq, Eq, Structural)]
pub enum CompletionEvent {
    /// The user asked for completions at `cursor`.
    ManualTrigger { cursor: usize, doc: DocumentId, view: ViewId },
}

/// Events understood by the document-colors actor: the document changed.
#[derive(Debug, Clone, Copy, PartialEq, Eq, Structural)]
pub struct DocumentColorsEvent(pub DocumentId);

impl DebouncedEvent for AutoSaveEvent {
    open spec fn delay_spec(&self) -> Option<u64> {
        match self {
            AutoSaveEvent::DocumentChanged { save_after } => Some(*save_after),
            AutoSaveEvent::LeftInsertMode => None,
        }
    }

    fn delay(&self) -> (r: Option<u64>) {
        match self {
            AutoSaveEvent::DocumentChanged { save_after } => Some(*save_after),
            AutoSaveEvent::LeftInsertMode => None,
        }
    }
}

impl DebouncedEvent for AutoReloadEvent {
    open spec fn delay_spec(&self) -> Option<u64> {
        match self {
            AutoReloadEvent::CheckForChanges { after } => Some(*after),
            AutoReloadEvent::EditorFocused => None,
            AutoReloadEvent::LeftInsertMode => None,
        }
    }

    fn delay(&self) -> (r: Option<u64>) {
        match self {
            AutoReloadEvent::CheckForChanges { after } => Some(*after),
            AutoReloadEvent::EditorFocused => None,
            AutoReloadEvent::LeftInsertMode => None,
        }
    }
}

impl DebouncedEvent for SignatureHelpEvent {
    open spec fn delay_spec(&self) -> Option<u64> {
        match self {
            SignatureHelpEvent::Trigger => Some(SIGNATURE_HELP_DEBOUNCE_MS),
            SignatureHelpEvent::Invoked => None,
        }
    }

    fn delay(&self) -> (r: Option<u64>) {
        match self {
            SignatureHelpEvent::Trigger => Some(SIGNATURE_HELP_DEBOUNCE_MS),
            SignatureHelpEvent::Invoked => None,
        }
    }
}

impl DebouncedEvent for CompletionEvent {
    open spec fn delay_spec(&self) -> Option<u64> {
        None
    }

    fn delay(&self) -> (r: Option<u64>) {
        None
    }
}

impl DebouncedEvent for DocumentColorsEvent {
    open spec fn delay_spec(&self) -> Option<u64> {
        Some(DOCUMENT_COLORS_DEBOUNCE_MS)
    }

    fn delay(&self) -> (r: Option<u64>) {
        Some(DOCUMENT_COLORS_DEBOUNCE_MS)
    }
}

} // verus!

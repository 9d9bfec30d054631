use vstd::prelude::*;

use crate::events::{CompletionEvent, DocumentId, SignatureHelpEvent, SignatureHelpInvoked, ViewId};

verus! {

/// Settings of the language-server integration that the triggers consult.
#[derive(Debug, Clone, Copy, PartialEq, Eq, Structural)]
pub struct LspConfig {
    /// Show signature help on its own while typing.
    pub auto_signature_help: bool,
}

/// Settings of saving without being asked.
#[derive(Debug, Clone, Copy, PartialEq, Eq, Structural)]
pub struct AutoSaveConfig {
    /// Save a document once it has not been edited for `timeout_ms`.
    pub after_delay: bool,
    pub timeout_ms: u64,
}

/// Settings of reloading documents that changed on disk.
#[derive(Debug, Clone, Copy, PartialEq, Eq, Structural)]
pub struct AutoReloadConfig {
    pub enable: bool,
    /// How long a periodic check waits before it looks.
    pub interval_ms: u64,
}

/// The part of the editor's configuration that the triggers and hooks consult.
#[derive(Debug, Clone, Copy, PartialEq, Eq, Structural)]
pub struct Config {
    pub lsp: LspConfig,
    pub auto_save: AutoSaveConfig,
    pub auto_reload: AutoReloadConfig,
}

/// The event that a request for signature help forwards, if any.
pub open spec fn signature_help_event_spec(
    invocation: SignatureHelpInvoked,
    config: Config,
) -> Option<SignatureHelpEvent> {
    match invocation {
        SignatureHelpInvoked::Automatic => if config.lsp.auto_signature_help {
            Some(SignatureHelpEvent::Trigger)
        } else {
            None
        },
        SignatureHelpInvoked::Manual => Some(SignatureHelpEvent::Invoked),
    }
}

/// Decides what a request for signature help sends to its actor: nothing
/// for an automatic request while automatic signature help is switched off,
/// `Trigger` for an automatic request otherwise, and `Invoked` for a manual
/// one whatever the configuration says.
pub fn signature_help_event(invocation: SignatureHelpInvoked, config: &Config) -> (r: Option<
    SignatureHelpEvent,
>)
    ensures
        r == signature_help_event_spec(invocation, *config),
        invocation == SignatureHelpInvoked::Manual ==> r == Some(SignatureHelpEvent::Invoked),
        invocation == SignatureHelpInvoked::Automatic ==> (r is None
            <==> !config.lsp.auto_signature_help),
        invocation == SignatureHelpInvoked::Automatic && config.lsp.auto_signature_help ==> r
            == Some(SignatureHelpEvent::Trigger),
{
    match invocation {
        SignatureHelpInvoked::Automatic => {
            if !config.lsp.auto_signature_help {
                return None;
            }
            Some(SignatureHelpEvent::Trigger)
        },
        SignatureHelpInvoked::Manual => Some(SignatureHelpEvent::Invoked),
    }
}

/// The event that a manual request for completions sends: always one, at the
/// given position.
pub fn completion_event(trigger_pos: usize, doc: DocumentId, view: ViewId) -> (r: CompletionEvent)
    ensures
        r == (CompletionEvent::ManualTrigger { cursor: trigger_pos, doc, view }),
{
    CompletionEvent::ManualTrigger { cursor: trigger_pos, doc, view }
}

} // verus!

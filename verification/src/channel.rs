//! The inbound notification channel.
//!
//! Two OS callback sites feed the core for the whole process lifetime: the
//! single-instance notifier, fired when a later launch attempt lost
//! arbitration, and the deep-link notifier, fired when the OS delivers an
//! "open URL" notification. A platform adapter turns each callback into one
//! [`InboundEvent`] and hands it here; everything the callbacks decide —
//! window lookup, focus, what to emit — happens in [`handle_inbound`].

use vstd::prelude::*;
use crate::relay::{EmittedEvent, deep_link_event_name, relay_open_url, spec_relay};
use crate::window::{WindowHost, main_label, main_restored_and_focused, restore_and_focus_main};

verus! {

/// One notification from the OS boundary.
pub enum InboundEvent {
    /// A later launch attempt was detected; its argument list and working
    /// directory were forwarded here. The core only restores and focuses the
    /// main window — the arguments are for the UI layer to pick up.
    SecondLaunch { args: Vec<String>, cwd: String },
    /// The OS routed opened URLs to this process.
    OpenUrl { urls: Vec<String> },
}

/// Handles one inbound notification. A second launch restores and focuses the
/// main window and emits nothing; an "open URL" notification leaves every
/// window untouched and emits exactly what the relay dictates. Neither is an
/// error when the main window is missing.
pub fn handle_inbound(host: &mut WindowHost, event: InboundEvent) -> (r: Option<EmittedEvent>)
    requires
        old(host).wf(),
    ensures
        final(host).wf(),
        event is SecondLaunch ==> r is None && main_restored_and_focused(
            old(host).windows@,
            final(host).windows@,
        ),
        event matches InboundEvent::OpenUrl { urls } ==> final(host).windows@
            == old(host).windows@ && (r is Some <==> spec_relay(*old(host), urls@) is Some) && (
        r matches Some(e) ==> e.target@ == main_label() && e.name@ == deep_link_event_name()
            && Some(e.payload@) == spec_relay(*old(host), urls@)),
{
    match event {
        InboundEvent::SecondLaunch { args: _, cwd: _ } => {
            restore_and_focus_main(host);
            None
        },
        InboundEvent::OpenUrl { urls } => relay_open_url(host, &urls),
    }
}

} // verus!

//! Deep-Link Relay: forwarding an OS "open URL" notification to the main
//! window as an application-level event.
//!
//! Each notification carries an ordered, possibly empty list of URL strings.
//! The relay takes the first URL only, locates the main window, and emits a
//! "deep-link" event carrying that URL at it. An empty list, or a missing
//! window, means nothing is emitted: no queue, no retry, no error.

use vstd::prelude::*;
use crate::window::{WindowHost, locate, main_label, main_window_label};

verus! {

/// The name under which a relayed URL reaches the UI layer.
pub open spec fn deep_link_event_name() -> Seq<char> {
    "deep-link"@
}

/// An application-level event addressed at one window.
pub struct EmittedEvent {
    /// The label of the window the event is targeted at.
    pub target: String,
    /// The event's name, as the UI layer subscribes to it.
    pub name: String,
    /// The event's payload: the canonical string form of one URL.
    pub payload: String,
}

/// What one notification makes the relay emit: the notification's first URL,
/// exactly when the main window exists and the notification carries at least
/// one URL; nothing otherwise — no queue, no retry.
pub open spec fn spec_relay(host: WindowHost, urls: Seq<String>) -> Option<Seq<char>> {
    if host.has_window(main_label()) && urls.len() > 0 {
        Some(urls[0]@)
    } else {
        None
    }
}

/// Handles one "open URL" notification: emits a "deep-link" event carrying
/// the notification's first URL at the main window, exactly when that window
/// exists and the notification carries at least one URL.
pub fn relay_open_url(host: &WindowHost, urls: &Vec<String>) -> (r: Option<EmittedEvent>)
    ensures
        r is Some <==> spec_relay(*host, urls@) is Some,
        r matches Some(e) ==> e.target@ == main_label() && e.name@ == deep_link_event_name()
            && Some(e.payload@) == spec_relay(*host, urls@),
{
    let label = main_window_label();
    match locate(host, &label) {
        None => None,
        Some(_) => {
            if urls.len() == 0 {
                None
            } else {
                Some(
                    EmittedEvent {
                        target: label,
                        name: "deep-link".to_owned(),
                        payload: urls[0].clone(),
                    },
                )
            }
        },
    }
}

/// Law: a URL that arrived before the main window existed is dropped, not
/// queued — what the relay emits for a later notification is that
/// notification's own first URL, whatever was dropped before.
pub proof fn lemma_missing_window_means_no_retry(
    absent: WindowHost,
    present: WindowHost,
    early: Seq<String>,
    late: Seq<String>,
)
    requires
        !absent.has_window(main_label()),
        present.has_window(main_label()),
        late.len() > 0,
    ensures
        spec_relay(absent, early) is None,
        spec_relay(present, late) == Some(late[0]@),
{
}

} // verus!

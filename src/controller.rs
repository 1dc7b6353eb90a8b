use vstd::prelude::*;

use crate::message::{frame0, TemplateMessage};
use crate::server::{all_subscribed, broadcast_spec, registry_valid, WebsocketServer};

verus! {

/// The lifecycle signals that the template registry emits.
#[derive(PartialEq, Eq, Structural, Clone, Copy, Debug)]
pub enum TemplateEventKind {
    Created,
    Changed,
    Removed,
}

/// One lifecycle event of the template that backs `channel`.
pub struct TemplateEvent {
    pub kind: TemplateEventKind,
    pub channel: String,
}

/// Whether an event of this kind makes the channel's clients reload.
pub open spec fn triggers_reload(kind: TemplateEventKind) -> bool {
    kind != TemplateEventKind::Removed
}

/// The message, if any, that an event is turned into: a created or changed
/// template makes its clients reload; a removed one sends nothing.
pub fn message_for_event(event: &TemplateEvent) -> (r: Option<TemplateMessage>)
    ensures
        triggers_reload(event.kind) ==> r == Some(TemplateMessage::Reload),
        !triggers_reload(event.kind) ==> r.is_none(),
{
    match event.kind {
        TemplateEventKind::Removed => None,
        _ => Some(TemplateMessage::Reload),
    }
}

/// Bridges the template event stream into broadcasts on the registry. Once
/// the stream has ended the controller is inert.
pub struct ServerController {
    running: bool,
}

impl ServerController {
    /// Whether the event stream is still open.
    pub closed spec fn active(&self) -> bool {
        self.running
    }

    /// A controller waiting for its first event.
    pub fn new() -> (r: ServerController)
        ensures
            r.active(),
    {
        ServerController { running: true }
    }

    /// Whether the event stream is still open.
    pub fn is_running(&self) -> (r: bool)
        ensures
            r == self.active(),
    {
        self.running
    }

    /// Handles what the event stream yielded: an event (`Some`) or its end
    /// (`None`). A reload-worthy event makes exactly one broadcast of the
    /// reload frame to its channel, and the identifiers whose queue refused
    /// it are returned; any other event, and every event after the end of
    /// the stream, makes none (`None`) and leaves the registry as it was.
    pub fn handle_event(&mut self, server: &mut WebsocketServer, event: Option<TemplateEvent>) -> (broadcast: Option<Vec<u64>>)
        requires
            old(server).wf(),
        ensures
            final(server).wf(),
            registry_valid(final(server)@),
            final(self).active() == (old(self).active() && event.is_some()),
            match event {
                Some(e) if old(self).active() && triggers_reload(e.kind) => match broadcast {
                    Some(refused) => {
                        &&& final(server)@ == broadcast_spec(
                            old(server)@,
                            e.channel@,
                            frame0("Reload"@),
                            refused@,
                        )
                        &&& all_subscribed(old(server)@, e.channel@, refused@)
                    },
                    None => false,
                },
                _ => broadcast.is_none() && final(server)@ == old(server)@,
            },
    {
        match event {
            None => {
                self.running = false;
                None
            },
            Some(e) => {
                if !self.running {
                    return None;
                }
                match message_for_event(&e) {
                    Some(message) => Some(
                        server.send_message_to_template_clients(e.channel.as_str(), &message),
                    ),
                    None => None,
                }
            },
        }
    }
}

} // verus!

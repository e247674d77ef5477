//! The listener of the live meter feed: when it connects to the broker, when
//! it waits, and when it lets go of a connection.
//!
//! The listener talks to no broker itself. It says what is to be done next
//! ([`ListenerAction`]) and is told what came of it ([`ListenerEvent`]).

use vstd::prelude::*;
use crate::settings::MqttSettings;

verus! {

/// How long the listener waits before it looks at the settings again.
pub const RETRY_SECONDS: u64 = 10;

/// Where the listener stands.
#[derive(Clone, Copy, Debug, PartialEq, Eq, Structural)]
pub enum ListenerPhase {
    /// Not connected; the settings are being read.
    Idle,
    /// A connection is being made.
    Connecting,
    /// Not connected; waiting before the next try.
    Waiting,
    /// Connected; messages are being received.
    Listening,
    /// The connection is being given up.
    Disconnecting,
}

/// What the driver of the listener reports back.
#[derive(Debug)]
pub enum ListenerEvent {
    /// The settings as they are now, if there are any.
    SettingsRead(Option<MqttSettings>),
    /// The broker has accepted the connection and the subscription.
    Connected,
    /// The connection could not be made.
    ConnectFailed,
    /// The wait is over.
    Woke,
    /// The settings have changed.
    SettingsUpdated,
    /// A message of the broker has been passed on.
    Forwarded,
    /// The connection is closed, cleanly or not.
    Disconnected,
}

/// What the driver of the listener is to do next.
#[derive(Debug)]
pub enum ListenerAction {
    /// Read the settings.
    ReadSettings,
    /// Connect to the broker and subscribe to the topic.
    Connect(MqttSettings),
    /// Wait.
    Sleep { seconds: u64 },
    /// Wait for a message of the broker or a change of the settings.
    Listen,
    /// Close the connection.
    Disconnect,
}

/// Whether a connection can be made with what was read.
pub open spec fn usable(settings: Option<MqttSettings>) -> bool {
    settings matches Some(found) && found.complete()
}

/// The phase that `event` leads to from `phase`. A connection is made only
/// with complete settings; every failure to connect is followed by a wait;
/// a change of the settings ends the connection, after which the settings are
/// read afresh. What is reported out of turn leaves the listener where it
/// is.
pub open spec fn phase_after(phase: ListenerPhase, event: ListenerEvent) -> ListenerPhase {
    match (phase, event) {
        (ListenerPhase::Idle, ListenerEvent::SettingsRead(settings)) => if usable(settings) {
            ListenerPhase::Connecting
        } else {
            ListenerPhase::Waiting
        },
        (ListenerPhase::Connecting, ListenerEvent::Connected) => ListenerPhase::Listening,
        (ListenerPhase::Connecting, ListenerEvent::ConnectFailed) => ListenerPhase::Waiting,
        (ListenerPhase::Waiting, ListenerEvent::Woke) => ListenerPhase::Idle,
        (ListenerPhase::Listening, ListenerEvent::SettingsUpdated) => ListenerPhase::Disconnecting,
        (ListenerPhase::Listening, ListenerEvent::Forwarded) => ListenerPhase::Listening,
        (ListenerPhase::Disconnecting, ListenerEvent::Disconnected) => ListenerPhase::Idle,
        _ => phase,
    }
}

/// What is to be done on entering `phase`; `None` for a phase that is
/// entered with settings to connect with.
pub open spec fn action_on_entering(phase: ListenerPhase) -> Option<ListenerAction> {
    match phase {
        ListenerPhase::Idle => Some(ListenerAction::ReadSettings),
        ListenerPhase::Connecting => None,
        ListenerPhase::Waiting => Some(ListenerAction::Sleep { seconds: RETRY_SECONDS }),
        ListenerPhase::Listening => Some(ListenerAction::Listen),
        ListenerPhase::Disconnecting => Some(ListenerAction::Disconnect),
    }
}

impl ListenerPhase {
    /// Where a listener begins, and what it does first.
    pub fn start() -> (begun: (ListenerPhase, ListenerAction))
        ensures
            begun.0 == ListenerPhase::Idle,
            begun.1 == ListenerAction::ReadSettings,
    {
        (ListenerPhase::Idle, ListenerAction::ReadSettings)
    }

    /// Whether the listener holds a connection.
    pub fn is_connected(&self) -> (connected: bool)
        ensures
            connected == (*self is Listening || *self is Disconnecting),
    {
        match self {
            ListenerPhase::Listening => true,
            ListenerPhase::Disconnecting => true,
            _ => false,
        }
    }

    /// Takes in what the driver reports and says what to do next; `None`
    /// where the report was not asked for and nothing new is to be done.
    pub fn step(self, event: ListenerEvent) -> (next: (ListenerPhase, Option<ListenerAction>))
        ensures
            next.0 == phase_after(self, event),
            match (self, event) {
                (ListenerPhase::Idle, ListenerEvent::SettingsRead(Some(settings))) => {
                    if settings.complete() {
                        next.1 == Some(ListenerAction::Connect(settings))
                    } else {
                        next.1 == Some(ListenerAction::Sleep { seconds: RETRY_SECONDS })
                    }
                },
                (ListenerPhase::Idle, ListenerEvent::SettingsRead(None)) => next.1 == Some(
                    ListenerAction::Sleep { seconds: RETRY_SECONDS },
                ),
                (ListenerPhase::Connecting, ListenerEvent::Connected)
                | (ListenerPhase::Connecting, ListenerEvent::ConnectFailed)
                | (ListenerPhase::Waiting, ListenerEvent::Woke)
                | (ListenerPhase::Listening, ListenerEvent::SettingsUpdated)
                | (ListenerPhase::Listening, ListenerEvent::Forwarded)
                | (ListenerPhase::Disconnecting, ListenerEvent::Disconnected) => next.1
                    == action_on_entering(next.0),
                _ => next.1 is None,
            },
    {
        match (self, event) {
            (ListenerPhase::Idle, ListenerEvent::SettingsRead(settings)) => {
                match settings {
                    Some(found) => {
                        if found.is_complete() {
                            (ListenerPhase::Connecting, Some(ListenerAction::Connect(found)))
                        } else {
                            (
                                ListenerPhase::Waiting,
                                Some(ListenerAction::Sleep { seconds: RETRY_SECONDS }),
                            )
                        }
                    },
                    None => (
                        ListenerPhase::Waiting,
                        Some(ListenerAction::Sleep { seconds: RETRY_SECONDS }),
                    ),
                }
            },
            (ListenerPhase::Connecting, ListenerEvent::Connected) => (
                ListenerPhase::Listening,
                Some(ListenerAction::Listen),
            ),
            (ListenerPhase::Connecting, ListenerEvent::ConnectFailed) => (
                ListenerPhase::Waiting,
                Some(ListenerAction::Sleep { seconds: RETRY_SECONDS }),
            ),
            (ListenerPhase::Waiting, ListenerEvent::Woke) => (
                ListenerPhase::Idle,
                Some(ListenerAction::ReadSettings),
            ),
            (ListenerPhase::Listening, ListenerEvent::SettingsUpdated) => (
                ListenerPhase::Disconnecting,
                Some(ListenerAction::Disconnect),
            ),
            (ListenerPhase::Listening, ListenerEvent::Forwarded) => (
                ListenerPhase::Listening,
                Some(ListenerAction::Listen),
            ),
            (ListenerPhase::Disconnecting, ListenerEvent::Disconnected) => (
                ListenerPhase::Idle,
                Some(ListenerAction::ReadSettings),
            ),
            (phase, _) => (phase, None),
        }
    }
}

/// A connection is only ever made from the settings that were just read, and
/// only if they are complete; and a connection that is held is given up only
/// because the settings have changed.
pub proof fn lemma_connects_only_when_complete(phase: ListenerPhase, event: ListenerEvent)
    ensures
        phase_after(phase, event) is Connecting && !(phase is Connecting) ==> {
            &&& phase is Idle
            &&& event matches ListenerEvent::SettingsRead(Some(settings))
            &&& settings.complete()
        },
        phase_after(phase, event) is Disconnecting && !(phase is Disconnecting) ==> {
            &&& phase is Listening
            &&& event is SettingsUpdated
        },
        phase_after(phase, event) is Listening && !(phase is Listening) ==> {
            &&& phase is Connecting
            &&& event is Connected
        },
{
}

} // verus!

//! Messages between the root daemon and session daemons on a local socket.
use vstd::prelude::*;

use crate::text::{bool_string, join2};

verus! {

pub const DAEMON_SOCKET_PATH: &'static str = "/run/zenbook-duo-daemon.sock";

/// After how many seconds a failed connection is tried again.
pub const CONNECT_RETRY_SECS: u64 = 2;

/// A message on the socket.
pub enum DaemonMsg {
    /// From the root daemon: the panel that is to be primary.
    DesiredPrimaryUpdate { value: String },
    /// From the session daemon: something was received.
    Ack { msg: String },
    /// From the root daemon: the keyboard was attached or detached.
    KeyboardAttached { value: bool },
    /// From the root daemon: the lower panel is to be on or off.
    ToggleSecondaryDisplay { enable: bool },
}

pub enum DaemonMsgView {
    DesiredPrimaryUpdate { value: Seq<char> },
    Ack { msg: Seq<char> },
    KeyboardAttached { value: bool },
    ToggleSecondaryDisplay { enable: bool },
}

impl View for DaemonMsg {
    type V = DaemonMsgView;

    open spec fn view(&self) -> DaemonMsgView {
        match self {
            DaemonMsg::DesiredPrimaryUpdate { value } => DaemonMsgView::DesiredPrimaryUpdate {
                value: value@,
            },
            DaemonMsg::Ack { msg } => DaemonMsgView::Ack { msg: msg@ },
            DaemonMsg::KeyboardAttached { value } => DaemonMsgView::KeyboardAttached {
                value: *value,
            },
            DaemonMsg::ToggleSecondaryDisplay { enable } => DaemonMsgView::ToggleSecondaryDisplay {
                enable: *enable,
            },
        }
    }
}

// ── The root daemon's side ───────────────────────────────────────────────────

/// Counts the session daemons that are connected.
pub struct SessionConnections {
    count: usize,
}

impl View for SessionConnections {
    type V = nat;

    closed spec fn view(&self) -> nat {
        self.count as nat
    }
}

impl SessionConnections {
    /// Nobody is connected.
    pub fn new() -> (r: Self)
        ensures
            r@ == 0,
    {
        SessionConnections { count: 0 }
    }

    /// A session daemon has connected.
    pub fn connected(&mut self)
        requires
            old(self)@ < usize::MAX,
        ensures
            final(self)@ == old(self)@ + 1,
    {
        self.count = self.count + 1;
    }

    /// A session daemon has gone.
    pub fn disconnected(&mut self)
        requires
            old(self)@ > 0,
        ensures
            final(self)@ == old(self)@ - 1,
    {
        self.count = self.count - 1;
    }

    /// Whether a session daemon is connected.
    pub fn is_session_connected(&self) -> (r: bool)
        ensures
            r == (self@ > 0),
    {
        self.count > 0
    }
}

/// What a newly connected session daemon is told.
pub fn greeting(desired_primary: Option<String>) -> (r: Option<DaemonMsg>)
    ensures
        match (r, desired_primary) {
            (Some(msg), Some(primary)) => msg@ == (DaemonMsgView::DesiredPrimaryUpdate {
                value: primary@,
            }),
            (None, None) => true,
            _ => false,
        },
{
    match desired_primary {
        Some(value) => Some(DaemonMsg::DesiredPrimaryUpdate { value }),
        None => None,
    }
}

/// What a read of the socket has given.
pub enum SocketRead {
    /// The other side has closed the connection, or reading has failed.
    Closed,
    /// A line that is no message.
    Unreadable,
    Message(DaemonMsg),
}

/// What the root daemon does with it.
pub enum RootSocketStep {
    Close,
    Ignore,
    /// Tell those who wait for the acknowledgement.
    Acknowledged(String),
}

/// A session daemon has sent something: only acknowledgements matter.
pub fn handle_session_connection(read: SocketRead) -> (r: RootSocketStep)
    ensures
        match read {
            SocketRead::Closed => r is Close,
            SocketRead::Message(DaemonMsg::Ack { msg }) => r == RootSocketStep::Acknowledged(msg),
            _ => r is Ignore,
        },
{
    match read {
        SocketRead::Closed => RootSocketStep::Close,
        SocketRead::Message(DaemonMsg::Ack { msg }) => RootSocketStep::Acknowledged(msg),
        _ => RootSocketStep::Ignore,
    }
}

// ── The session daemon's side ────────────────────────────────────────────────

/// The acknowledgement of a message from the root daemon.
pub open spec fn ack_text(msg: DaemonMsgView) -> Option<Seq<char>> {
    match msg {
        DaemonMsgView::DesiredPrimaryUpdate { value } => Some("desired_primary_received:"@ + value),
        DaemonMsgView::KeyboardAttached { value } => Some(
            "keyboard_attached_received:"@ + crate::text::bool_text(value),
        ),
        DaemonMsgView::ToggleSecondaryDisplay { enable } => Some(
            "toggle_secondary_received:"@ + crate::text::bool_text(enable),
        ),
        DaemonMsgView::Ack { .. } => None,
    }
}

/// What the session daemon does with a message.
pub enum SessionUpdate {
    /// Remember the panel and tell the display side.
    Primary(String),
    KeyboardAttached(bool),
    Secondary(bool),
}

pub enum SessionSocketStep {
    Close,
    Ignore,
    /// Carry out the update, and send the message back.
    Apply { update: SessionUpdate, reply: DaemonMsg },
}

/// The update that a message from the root daemon asks for.
pub open spec fn update_asked(msg: DaemonMsg) -> SessionUpdate
    recommends
        msg !is Ack,
{
    match msg {
        DaemonMsg::DesiredPrimaryUpdate { value } => SessionUpdate::Primary(value),
        DaemonMsg::KeyboardAttached { value } => SessionUpdate::KeyboardAttached(value),
        DaemonMsg::ToggleSecondaryDisplay { enable } => SessionUpdate::Secondary(enable),
        DaemonMsg::Ack { msg } => SessionUpdate::Primary(msg),
    }
}

/// The root daemon has sent something: what it asks for is done and acknowledged.
pub fn listen_from_root_and_update(read: SocketRead) -> (r: SessionSocketStep)
    ensures
        match read {
            SocketRead::Closed => r is Close,
            SocketRead::Unreadable => r is Ignore,
            SocketRead::Message(msg) => match ack_text(msg@) {
                Some(text) => r matches SessionSocketStep::Apply { update, reply } && update
                    == update_asked(msg) && reply@ == (DaemonMsgView::Ack { msg: text }),
                None => r is Ignore,
            },
        },
{
    match read {
        SocketRead::Closed => SessionSocketStep::Close,
        SocketRead::Unreadable => SessionSocketStep::Ignore,
        SocketRead::Message(msg) => match msg {
            DaemonMsg::DesiredPrimaryUpdate { value } => {
                let text = join2("desired_primary_received:", value.as_str());
                SessionSocketStep::Apply {
                    update: SessionUpdate::Primary(value),
                    reply: DaemonMsg::Ack { msg: text },
                }
            },
            DaemonMsg::KeyboardAttached { value } => SessionSocketStep::Apply {
                update: SessionUpdate::KeyboardAttached(value),
                reply: DaemonMsg::Ack {
                    msg: join2("keyboard_attached_received:", bool_string(value).as_str()),
                },
            },
            DaemonMsg::ToggleSecondaryDisplay { enable } => SessionSocketStep::Apply {
                update: SessionUpdate::Secondary(enable),
                reply: DaemonMsg::Ack {
                    msg: join2("toggle_secondary_received:", bool_string(enable).as_str()),
                },
            },
            DaemonMsg::Ack { .. } => SessionSocketStep::Ignore,
        },
    }
}

/// Every message but an acknowledgement is acknowledged, and no two different ones in the same
/// words.
pub proof fn law_acknowledgements_are_distinct(a: DaemonMsgView, b: DaemonMsgView)
    requires
        ack_text(a) is Some,
        ack_text(a) == ack_text(b),
    ensures
        a == b,
{
    reveal_strlit("desired_primary_received:");
    reveal_strlit("keyboard_attached_received:");
    reveal_strlit("toggle_secondary_received:");
    reveal_strlit("true");
    reveal_strlit("false");
    let x = ack_text(a)->0;
    let y = ack_text(b)->0;
    assert(x[0] == y[0]);
    match (a, b) {
        (
            DaemonMsgView::DesiredPrimaryUpdate { value: v },
            DaemonMsgView::DesiredPrimaryUpdate { value: w },
        ) => {
            let n = "desired_primary_received:"@.len() as int;
            assert(v =~= x.skip(n));
            assert(w =~= y.skip(n));
        },
        _ => {
            assert("true"@.len() != "false"@.len());
            assert(x.len() == y.len());
        },
    }
}

/// What is acknowledged, in words; an acknowledgement is not.
pub proof fn law_acknowledgements_in_words(text: Seq<char>)
    ensures
        ack_text(DaemonMsgView::DesiredPrimaryUpdate { value: text }) == Some(
            "desired_primary_received:"@ + text,
        ),
        ack_text(DaemonMsgView::KeyboardAttached { value: true }) == Some(
            "keyboard_attached_received:"@ + "true"@,
        ),
        ack_text(DaemonMsgView::KeyboardAttached { value: false }) == Some(
            "keyboard_attached_received:"@ + "false"@,
        ),
        ack_text(DaemonMsgView::ToggleSecondaryDisplay { enable: true }) == Some(
            "toggle_secondary_received:"@ + "true"@,
        ),
        ack_text(DaemonMsgView::ToggleSecondaryDisplay { enable: false }) == Some(
            "toggle_secondary_received:"@ + "false"@,
        ),
        ack_text(DaemonMsgView::Ack { msg: text }) is None,
        DAEMON_SOCKET_PATH@ == "/run/zenbook-duo-daemon.sock"@,
        CONNECT_RETRY_SECS == 2,
{
}

/// What a message asks for is done with the value that it carries.
pub proof fn law_messages_are_obeyed(value: String, flag: bool)
    ensures
        update_asked(DaemonMsg::DesiredPrimaryUpdate { value }) == SessionUpdate::Primary(value),
        update_asked(DaemonMsg::KeyboardAttached { value: flag })
            == SessionUpdate::KeyboardAttached(flag),
        update_asked(DaemonMsg::ToggleSecondaryDisplay { enable: flag })
            == SessionUpdate::Secondary(flag),
{
}

/// Messages are seen as they are.
pub proof fn law_messages_are_seen_as_they_are(text: String, flag: bool)
    ensures
        (DaemonMsg::DesiredPrimaryUpdate { value: text })@ == (
        DaemonMsgView::DesiredPrimaryUpdate { value: text@ }),
        (DaemonMsg::Ack { msg: text })@ == (DaemonMsgView::Ack { msg: text@ }),
        (DaemonMsg::KeyboardAttached { value: flag })@ == (DaemonMsgView::KeyboardAttached {
            value: flag,
        }),
        (DaemonMsg::ToggleSecondaryDisplay { enable: flag })@ == (
        DaemonMsgView::ToggleSecondaryDisplay { enable: flag }),
{
}

} // verus!

//! Commands to a session daemon on its own socket.
use vstd::prelude::*;

use crate::text::{decimal_text, join3, parse_number, strip_prefix, trim};

verus! {

/// How long an answer is waited for: some commands move displays.
pub const RESPONSE_SECS: u64 = 5;

/// The name of the socket in a user's runtime directory.
pub const SESSION_SOCKET_NAME: &'static str = "zenbook-duo-session.sock";

/// A command to a session daemon.
pub enum SessionCmd {
    KeyboardAttached { value: bool },
    SwapDisplays,
    ToggleSecondaryDisplay { enable: bool },
    SetDesiredPrimary { value: String },
}

/// The socket of a user's session daemon.
pub fn session_socket_path(uid: u32) -> (r: String)
    ensures
        r@ == "/run/user/"@ + crate::text::decimal(uid as nat) + "/zenbook-duo-session.sock"@,
{
    join3("/run/user/", decimal_text(uid as u64).as_str(), "/zenbook-duo-session.sock")
}

/// The session that a greeting announces.
pub open spec fn announced(line: Seq<char>) -> Option<nat> {
    let prefix = "session_ready:"@;
    if prefix.is_prefix_of(line) {
        crate::text::number_value(
            crate::text::trimmed(line.skip(prefix.len() as int)),
            10,
            u64::MAX as nat,
        )
    } else {
        None
    }
}

/// Reads the greeting of a session daemon.
pub fn parse_session_ready(line: &str) -> (r: Option<u64>)
    ensures
        r matches Some(id) ==> announced(line@) == Some(id as nat),
        r is None ==> announced(line@) is None,
{
    match strip_prefix(line, "session_ready:") {
        Some(rest) => parse_number(trim(rest.as_str()).as_str(), 10, u64::MAX),
        None => None,
    }
}

/// The session that was last seen.
#[derive(Clone, Copy, Debug, PartialEq, Eq, Structural)]
pub struct SessionTracker {
    pub last_id: Option<u64>,
}

impl SessionTracker {
    /// No session was seen.
    pub fn new() -> (r: Self)
        ensures
            r.last_id is None,
    {
        SessionTracker { last_id: None }
    }

    /// Whether the greeting announces another session than the last one; an unreadable greeting
    /// announces none.
    pub fn is_new_session(&mut self, line: &str) -> (r: bool)
        ensures
            r == (announced(line@) matches Some(id) && (old(self).last_id is None
                || old(self).last_id->0 as nat != id)),
            match announced(line@) {
                Some(id) => final(self).last_id matches Some(last) && last as nat == id,
                None => *final(self) == *old(self),
            },
    {
        match parse_session_ready(line) {
            Some(id) => {
                let known = match self.last_id {
                    Some(last) => last == id,
                    None => false,
                };
                if !known {
                    self.last_id = Some(id);
                }
                !known
            },
            None => false,
        }
    }
}

/// The answer of a session daemon, if it sent one.
pub fn response_text(received: Option<&str>) -> (r: Option<String>)
    ensures
        match (r, received) {
            (Some(answer), Some(text)) => text@.len() > 0 && answer@ == crate::text::trimmed(text@),
            (None, Some(text)) => text@.len() == 0,
            (None, None) => true,
            _ => false,
        },
{
    match received {
        Some(text) => if text.unicode_len() > 0 {
            Some(trim(text))
        } else {
            None
        },
        None => None,
    }
}

/// A greeting announces the number behind its prefix; a line without the prefix announces none.
pub proof fn law_greetings_announce_a_session(id: u64, line: Seq<char>)
    ensures
        announced("session_ready:"@ + crate::text::decimal(id as nat)) == Some(id as nat),
        !"session_ready:"@.is_prefix_of(line) ==> announced(line) is None,
        RESPONSE_SECS == 5,
        SESSION_SOCKET_NAME@ == "zenbook-duo-session.sock"@,
{
    let prefix = "session_ready:"@;
    let number = crate::text::decimal(id as nat);
    let greeting = prefix + number;
    assert(greeting.skip(prefix.len() as int) =~= number);
    assert(prefix.is_prefix_of(greeting)) by {
        assert(greeting.subrange(0, prefix.len() as int) =~= prefix);
    }
    crate::text::lemma_decimal_has_no_whitespace(id as nat);
    crate::text::lemma_trimmed_unchanged(number);
    crate::text::law_decimal_reads_back(id as nat, u64::MAX as nat);
}

} // verus!
